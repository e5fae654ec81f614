use wiseowl_brain::adapters::RuntimeContextSource;
use wiseowl_brain::context::{BrainBudget, GroundedContextBuilder};
use wiseowl_brain::grounded::{
    greeting_identity, AuthIdentity, BrainContextSource, ContextSourceKind, FactFreshness, FactKind,
};
use wiseowl_brain::runtime_context::RuntimeContextSnapshot;

fn identity() -> AuthIdentity {
    AuthIdentity { caller_pid: 10, caller_uid: 1000, session_id: 7 }
}

fn snapshot() -> RuntimeContextSnapshot {
    let mut s = RuntimeContextSnapshot { available: true, generation: 3, ..RuntimeContextSnapshot::default() };
    s.system.os_version = Some("Sunlight 1.4".to_string());
    s.system.build = Some(String::new());
    s.system.uptime_secs = Some(3600);
    s.system.cpu_count = Some(8);
    s.timezone.identifier = Some("Asia/Tehran".to_string());
    s.session.current_user = Some("ava".to_string());
    s.session.desktop_mode = Some(true);
    s.session.installer_mode = Some(false);
    s.network.connected = Some(true);
    s.display.width_px = Some(1920);
    s.display.height_px = Some(1080);
    s.display.scale_percent = Some(125);
    s.services.sunlightd = Some("running".to_string());
    s.services.display = Some(String::new());
    s
}

fn budget(max: u8) -> BrainBudget {
    BrainBudget { max_facts: max, ..BrainBudget::default() }
}

#[test]
fn runtime_source_reports_present_values_in_order() {
    let snap = snapshot();
    let source = RuntimeContextSource { snapshot: &snap };
    assert_eq!(source.source_kind(), ContextSourceKind::Runtime);
    assert!(source.is_available());
    let facts = source.collect(&budget(32), &identity());
    let got: Vec<(FactKind, FactFreshness, &str)> =
        facts.iter().map(|f| (f.kind, f.freshness, f.value.as_str())).collect();
    assert_eq!(
        got,
        vec![
            (FactKind::OsVersion, FactFreshness::CurrentBoot, "Sunlight 1.4"),
            (FactKind::RuntimeTimezone, FactFreshness::ServiceSnapshot, "Asia/Tehran"),
            (FactKind::RuntimeUptimeSecs, FactFreshness::ServiceSnapshot, "3600"),
            (FactKind::CpuCores, FactFreshness::CurrentBoot, "8"),
            (FactKind::UserName, FactFreshness::CurrentSession, "ava"),
            (FactKind::RuntimeDesktopMode, FactFreshness::CurrentSession, "1"),
            (FactKind::RuntimeInstallerMode, FactFreshness::CurrentSession, "0"),
            (FactKind::NetworkOnline, FactFreshness::ServiceSnapshot, "1"),
            (FactKind::ScreenDims, FactFreshness::ServiceSnapshot, "1920x1080"),
            (FactKind::RuntimeDisplayScale, FactFreshness::ServiceSnapshot, "125"),
            (FactKind::ServiceSunlightd, FactFreshness::ServiceSnapshot, "running"),
            (FactKind::ServiceDisplay, FactFreshness::ServiceSnapshot, ""),
        ]
    );
    assert!(facts.iter().all(|f| f.source == ContextSourceKind::Runtime && f.confidence == 100));
}

#[test]
fn runtime_source_stops_at_the_fact_limit() {
    let snap = snapshot();
    let source = RuntimeContextSource { snapshot: &snap };
    let facts = source.collect(&budget(3), &identity());
    assert_eq!(facts.len(), 3);
    assert_eq!(facts[2].kind, FactKind::RuntimeUptimeSecs);
    assert!(source.collect(&budget(0), &identity()).is_empty());
}

#[test]
fn screen_size_needs_both_sides() {
    let mut snap = RuntimeContextSnapshot::default();
    snap.display.width_px = Some(800);
    let source = RuntimeContextSource { snapshot: &snap };
    assert!(!source.is_available());
    assert!(source.collect(&budget(32), &identity()).is_empty());
}

#[test]
fn builder_records_the_runtime_source_it_consults() {
    let snap = snapshot();
    let source = RuntimeContextSource { snapshot: &snap };
    let mut builder = GroundedContextBuilder::new(identity());
    let facts = builder.gather_from(&source);
    assert_eq!(facts.len(), 12);
    assert!(builder.sources_consulted().has(ContextSourceKind::Runtime));
    assert!(!builder.sources_consulted().has(ContextSourceKind::Session));
    assert!(builder.sources_succeeded().has(ContextSourceKind::Runtime));
    assert!(!builder.sources_degraded().has(ContextSourceKind::Runtime));
}

#[test]
fn greeting_caller_must_be_stamped_and_consistent() {
    assert_eq!(greeting_identity(0, 5, 5, 1), None);
    assert_eq!(greeting_identity(9, 5, 6, 1), None);
    assert_eq!(
        greeting_identity(9, 5, 5, 1),
        Some(AuthIdentity { caller_pid: 9, caller_uid: 5, session_id: 1 })
    );
    assert_eq!(
        greeting_identity(9, 0, 6, 2),
        Some(AuthIdentity { caller_pid: 9, caller_uid: 6, session_id: 2 })
    );
    assert_eq!(
        greeting_identity(9, 5, 0, 2),
        Some(AuthIdentity { caller_pid: 9, caller_uid: 5, session_id: 2 })
    );
}
