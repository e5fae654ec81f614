use wiseowl_brain::diagnostics::BrainDiagnostics;

#[test]
fn counters_increment() {
    let mut d = BrainDiagnostics::new();
    d.inc_requests();
    d.inc_greeting();
    d.inc_local();
    d.inc_success();
    assert_eq!(d.requests_total, 1);
    assert_eq!(d.requests_greeting, 1);
    assert_eq!(d.provider_local_used, 1);
    assert_eq!(d.responses_successful, 1);
}

#[test]
fn snapshot_reflects_state() {
    let mut d = BrainDiagnostics::new();
    d.inc_requests();
    d.inc_greeting();
    d.set_error(42);
    let snap = d.snapshot();
    assert_eq!(snap.requests_total, 1);
    assert_eq!(snap.last_error_code, Some(42));
    assert!(snap.provider_local_available);
    assert!(!snap.provider_future_available);
}

#[test]
fn provider_local_always_available() {
    let d = BrainDiagnostics::new();
    assert!(d.provider_local_available());
}

#[test]
fn provider_future_not_available() {
    let d = BrainDiagnostics::new();
    assert!(!d.provider_future_available());
}

#[test]
fn counters_bounded() {
    let mut d = BrainDiagnostics::new();
    for _ in 0..100 {
        d.inc_requests();
        d.inc_greeting();
    }
    assert_eq!(d.requests_total, 100);
    assert_eq!(d.requests_greeting, 100);
}

#[test]
fn no_error_reports_none() {
    let d = BrainDiagnostics::new();
    assert_eq!(d.snapshot().last_error_code, None);
}

#[test]
fn foundation_counters_follow_load() {
    let mut d = BrainDiagnostics::new();
    d.note_foundation_loaded(9, 3);
    assert_eq!(d.foundation_load_success, 1);
    assert_eq!(d.foundation_record_count, 9);
    assert_eq!(d.foundation_token_count, 3);
    d.note_foundation_failed();
    assert_eq!(d.foundation_load_failures, 1);
}
