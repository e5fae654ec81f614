use wiseowl_brain::delegated_session_lifecycle::{
    TrustedLaunchContext, MAX_LAUNCH_CONTEXTS, MAX_LIFECYCLE_EVENTS_PER_EXECUTION,
};

#[test]
fn no_diagnostic_or_pid_only_context_constructor_exists() {
    // The context holds two opaque words and no text at all.
    assert_eq!(std::mem::size_of::<TrustedLaunchContext>(), 16);
    assert_eq!(MAX_LAUNCH_CONTEXTS, 16);
    assert_eq!(MAX_LIFECYCLE_EVENTS_PER_EXECUTION, 8);
}

use wiseowl_brain::action_intent::{SessionId, TypedIdentifier};
use wiseowl_brain::delegated_session_lifecycle::{
    BraindTrustedLifecycleAdapters, ControlPanelLifecycleEventKind, DisplayLifecycleEventKind,
    LifecycleIngressError, LifecycleTargetKind,
};
use wiseowl_brain::executor::{ExecutionId, LaunchCorrelationToken};

fn app_context(adapter: &mut BraindTrustedLifecycleAdapters) -> TrustedLaunchContext {
    adapter
        .register_launch_context(
            ExecutionId(1),
            TypedIdentifier::new("calculator").unwrap(),
            LifecycleTargetKind::Application,
            SessionId(7),
            41,
            3,
            1,
            9,
            LaunchCorrelationToken::new_for_test([1; 32]),
            10,
            100,
        )
        .unwrap()
}

#[test]
fn display_requires_authenticated_source_exact_context_and_readiness_contract() {
    let mut adapter = BraindTrustedLifecycleAdapters::new();
    let context = app_context(&mut adapter);
    let app = TypedIdentifier::new("calculator").unwrap();
    assert_eq!(
        adapter.ingest_display(&context, SessionId(7), &app, 41, 9, 1, 11, true, DisplayLifecycleEventKind::ApplicationInstanceRegistered),
        Err(LifecycleIngressError::UnauthorizedSource)
    );
    adapter.authenticate_display(9).unwrap();
    assert_eq!(
        adapter.ingest_display(&context, SessionId(8), &app, 41, 9, 1, 11, true, DisplayLifecycleEventKind::ApplicationInstanceRegistered),
        Err(LifecycleIngressError::WrongSession)
    );
    assert_eq!(
        adapter.ingest_display(
            &context,
            SessionId(7),
            &TypedIdentifier::new("writer").unwrap(),
            41,
            9,
            1,
            11,
            true,
            DisplayLifecycleEventKind::ApplicationInstanceRegistered
        ),
        Err(LifecycleIngressError::WrongTarget)
    );
    adapter
        .ingest_display(&context, SessionId(7), &app, 41, 9, 1, 11, true, DisplayLifecycleEventKind::ApplicationInstanceRegistered)
        .unwrap();
    assert_eq!(
        adapter.ingest_display(&context, SessionId(7), &app, 41, 9, 2, 12, false, DisplayLifecycleEventKind::ApplicationReadinessSatisfied),
        Err(LifecycleIngressError::ReadinessContractNotSatisfied)
    );
    assert!(adapter.next_accepted().is_some());
}

#[test]
fn control_panel_requires_exact_authoritative_page_activation() {
    let mut adapter = BraindTrustedLifecycleAdapters::new();
    adapter.authenticate_control_panel(5).unwrap();
    let page = TypedIdentifier::new("network").unwrap();
    let context = adapter
        .register_launch_context(
            ExecutionId(2),
            page.clone(),
            LifecycleTargetKind::SettingsPage,
            SessionId(7),
            77,
            4,
            1,
            5,
            LaunchCorrelationToken::new_for_test([2; 32]),
            10,
            100,
        )
        .unwrap();
    assert_eq!(
        adapter.ingest_control_panel(&context, SessionId(7), &page, 77, 5, 1, 11, false, ControlPanelLifecycleEventKind::CanonicalPageActivated),
        Err(LifecycleIngressError::NavigationRequestIsNotActivation)
    );
    assert_eq!(
        adapter.ingest_control_panel(
            &context,
            SessionId(7),
            &TypedIdentifier::new("home").unwrap(),
            77,
            5,
            1,
            11,
            true,
            ControlPanelLifecycleEventKind::CanonicalPageActivated
        ),
        Err(LifecycleIngressError::WrongTarget)
    );
    adapter
        .ingest_control_panel(&context, SessionId(7), &page, 77, 5, 1, 11, true, ControlPanelLifecycleEventKind::CanonicalPageActivated)
        .unwrap();
    assert_eq!(
        adapter.ingest_control_panel(&context, SessionId(7), &page, 77, 5, 1, 12, true, ControlPanelLifecycleEventKind::CanonicalPageReady),
        Err(LifecycleIngressError::DuplicateOrOutOfOrder)
    );
}

#[test]
fn terminal_event_consumes_the_context() {
    let mut adapter = BraindTrustedLifecycleAdapters::new();
    let context = app_context(&mut adapter);
    let app = TypedIdentifier::new("calculator").unwrap();
    adapter.authenticate_display(9).unwrap();
    adapter
        .ingest_display(&context, SessionId(7), &app, 41, 9, 1, 11, true, DisplayLifecycleEventKind::ApplicationReadinessSatisfied)
        .unwrap();
    assert_eq!(
        adapter.ingest_display(&context, SessionId(7), &app, 41, 9, 2, 12, true, DisplayLifecycleEventKind::FirstTopLevelSurfaceRegistered),
        Err(LifecycleIngressError::ContextConsumed)
    );
    let accepted = adapter.next_accepted().unwrap();
    assert_eq!(accepted.execution_id, ExecutionId(1));
    assert_eq!(accepted.session_id, SessionId(7));
    assert_eq!(accepted.sequence, 1);
    assert_eq!(accepted.display_kind, Some(DisplayLifecycleEventKind::ApplicationReadinessSatisfied));
    assert!(adapter.next_accepted().is_none());
}

#[test]
fn registration_and_wire_checks() {
    let mut adapter = BraindTrustedLifecycleAdapters::new();
    assert_eq!(
        adapter
            .register_launch_context(
                ExecutionId(1),
                TypedIdentifier::new("calculator").unwrap(),
                LifecycleTargetKind::Application,
                SessionId(7),
                0,
                3,
                1,
                9,
                LaunchCorrelationToken::new_for_test([1; 32]),
                10,
                100,
            )
            .err(),
        Some(LifecycleIngressError::CapacityExhausted)
    );
    assert_eq!(adapter.authenticate_display(0), Err(LifecycleIngressError::CapacityExhausted));
    let _context = app_context(&mut adapter);
    adapter.authenticate_display(9).unwrap();
    assert_eq!(
        adapter.ingest_authenticated_display_wire(9, 1, 0, 1, 11, DisplayLifecycleEventKind::ApplicationInstanceRegistered),
        Err(LifecycleIngressError::ContextNotFound)
    );
    let mut other = BraindTrustedLifecycleAdapters::new();
    let context = app_context(&mut other);
    let app = TypedIdentifier::new("calculator").unwrap();
    other.authenticate_display(10).unwrap();
    assert_eq!(
        other.ingest_display(&context, SessionId(7), &app, 41, 9, 1, 11, true, DisplayLifecycleEventKind::ApplicationInstanceRegistered),
        Err(LifecycleIngressError::WrongSourceGeneration)
    );
    other.authenticate_display(9).unwrap();
    assert_eq!(
        other.ingest_display(&context, SessionId(7), &app, 41, 9, 1, 101, true, DisplayLifecycleEventKind::ApplicationInstanceRegistered),
        Err(LifecycleIngressError::ContextExpired)
    );
    assert_eq!(
        other.ingest_display(&context, SessionId(7), &app, 42, 9, 1, 11, true, DisplayLifecycleEventKind::ApplicationInstanceRegistered),
        Err(LifecycleIngressError::WrongApplicationInstance)
    );
}
