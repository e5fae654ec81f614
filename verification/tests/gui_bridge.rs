use wiseowl_brain::action_intent::{RequestedBy, SessionId, TypedIdentifier};
use wiseowl_brain::action_receipt::{ActionReceiptId, ActionReceiptTerminalStatus};
use wiseowl_brain::coordinator::CoordinatorActionId;
use wiseowl_brain::executor::{ExecutionId, LaunchCorrelationToken};
use wiseowl_brain::gui_bridge::{
    CoordinatorPresentationKind, CoordinatorPresentationUpdate, GuiBindingError, GuiEventBroker,
    GuiEventError, GuiReadinessEvidenceId, GuiSessionBindingAuthority, PublicPresentationPayload,
    ReadinessCorrelationError, ReceiptSealedView, TrustedGuiReadinessKind,
    TrustedReadinessCorrelation, TrustedReadinessSource, VerifiedGraphicalSession, run_deterministic_bridge_gate,
    WiseOwlGuiEventPayload, WiseOwlGuiSessionBinding,
};
use wiseowl_brain::planner::{ConversationId, PlannerRequestId};

fn session() -> VerifiedGraphicalSession {
    VerifiedGraphicalSession::from_authority(
        1,
        SessionId(7),
        RequestedBy::User(9),
        "en",
        11,
        1,
        1,
        1,
        1,
        0,
        u64::MAX,
    )
    .unwrap()
}

fn binding() -> WiseOwlGuiSessionBinding {
    GuiSessionBindingAuthority::new([7; 32])
        .issue(session(), 10, 20)
        .unwrap()
}

fn update(sequence: u64, kind: CoordinatorPresentationKind) -> CoordinatorPresentationUpdate {
    CoordinatorPresentationUpdate {
        conversation_id: ConversationId(2),
        request_id: PlannerRequestId(3),
        action_id: Some(CoordinatorActionId(4)),
        session_id: SessionId(7),
        sequence,
        kind,
        payload: PublicPresentationPayload::new("wiseowl.bridge.test", "safe public text").unwrap(),
    }
}

fn receipt_view() -> ReceiptSealedView {
    ReceiptSealedView {
        receipt_id: ActionReceiptId::new([1; 16]),
        action_id: CoordinatorActionId(4),
        terminal_status: ActionReceiptTerminalStatus::CompletedReady,
        operation_label_key: String::from("operation.open_application"),
        target_label_key: String::from("target.calculator"),
        readiness_observed: true,
    }
}

#[test]
fn session_binding_rejects_wrong_user_expiry_and_stale_runtime() {
    let authority = GuiSessionBindingAuthority::new([7; 32]);
    let issued = binding();
    assert!(authority
        .verify(&issued, SessionId(7), RequestedBy::User(9), 11, 1, 1, 19)
        .is_ok());
    assert_eq!(
        authority.verify(&issued, SessionId(7), RequestedBy::User(8), 11, 1, 1, 19),
        Err(GuiBindingError::WrongRequester)
    );
    assert_eq!(
        authority.verify(&issued, SessionId(7), RequestedBy::User(9), 12, 1, 1, 19),
        Err(GuiBindingError::StaleRuntime)
    );
    assert_eq!(
        authority.verify(&issued, SessionId(7), RequestedBy::User(9), 11, 1, 1, 21),
        Err(GuiBindingError::Expired)
    );
}

#[test]
fn presentation_and_delivery_are_bounded_session_ordered_and_acknowledged() {
    let mut broker: GuiEventBroker<2> = GuiEventBroker::new();
    let first = broker
        .publish_presentation(update(1, CoordinatorPresentationKind::DispatchAccepted))
        .unwrap();
    assert_eq!(
        broker.publish_presentation(update(1, CoordinatorPresentationKind::AwaitingOutcome)),
        Err(GuiEventError::InvalidSequence)
    );
    assert_eq!(broker.next_for_session(SessionId(8), None), None);
    assert_eq!(
        broker.acknowledge(SessionId(8), first),
        Err(GuiEventError::WrongSession)
    );
    broker.acknowledge(SessionId(7), first).unwrap();
    broker
        .publish_receipt(ConversationId(2), SessionId(7), 2, receipt_view())
        .unwrap();
    assert_eq!(broker.len(), 1);
}

#[test]
fn terminal_presentation_is_idempotent_but_nonterminal_replay_is_rejected() {
    let mut broker: GuiEventBroker<2> = GuiEventBroker::new();
    let terminal = update(1, CoordinatorPresentationKind::OutcomeReady);
    let first = broker.publish_presentation(terminal.clone()).unwrap();
    assert_eq!(broker.publish_presentation(terminal), Ok(first));
    assert_eq!(broker.len(), 1);
    assert_eq!(
        broker.publish_presentation(update(1, CoordinatorPresentationKind::AwaitingOutcome)),
        Err(GuiEventError::InvalidSequence)
    );
}

#[test]
fn readiness_requires_registered_exact_execution_correlation_and_source() {
    let token = LaunchCorrelationToken::new_for_test([4; 32]);
    let mut correlation = TrustedReadinessCorrelation::<2>::new();
    correlation
        .register_execution(
            ExecutionId(1),
            SessionId(7),
            TypedIdentifier::new("calculator").unwrap(),
            token,
            false,
        )
        .unwrap();
    let evidence = correlation
        .ingest(
            GuiReadinessEvidenceId(1),
            TrustedReadinessSource::DisplayServer,
            TypedIdentifier::new("display-server").unwrap(),
            ExecutionId(1),
            token,
            SessionId(7),
            TypedIdentifier::new("calculator").unwrap(),
            1,
            1,
            10,
            TrustedGuiReadinessKind::FirstWindowRegistered,
        )
        .unwrap();
    assert_eq!(evidence.kind, TrustedGuiReadinessKind::FirstWindowRegistered);
    assert_eq!(
        correlation.ingest(
            GuiReadinessEvidenceId(2),
            TrustedReadinessSource::DisplayServer,
            TypedIdentifier::new("display-server").unwrap(),
            ExecutionId(1),
            token,
            SessionId(7),
            TypedIdentifier::new("calculator").unwrap(),
            1,
            1,
            11,
            TrustedGuiReadinessKind::ApplicationReady
        ),
        Err(ReadinessCorrelationError::InvalidSequence)
    );
    assert_eq!(
        correlation.ingest(
            GuiReadinessEvidenceId(3),
            TrustedReadinessSource::ControlPanel,
            TypedIdentifier::new("control-panel").unwrap(),
            ExecutionId(1),
            token,
            SessionId(7),
            TypedIdentifier::new("calculator").unwrap(),
            1,
            2,
            12,
            TrustedGuiReadinessKind::ApplicationReady
        ),
        Err(ReadinessCorrelationError::WrongSource)
    );
}

#[test]
fn settings_require_exact_page_and_control_panel_source() {
    let token = LaunchCorrelationToken::new_for_test([5; 32]);
    let mut correlation = TrustedReadinessCorrelation::<1>::new();
    correlation
        .register_execution(
            ExecutionId(2),
            SessionId(7),
            TypedIdentifier::new("display").unwrap(),
            token,
            true,
        )
        .unwrap();
    assert_eq!(
        correlation.ingest(
            GuiReadinessEvidenceId(1),
            TrustedReadinessSource::ControlPanel,
            TypedIdentifier::new("control-panel").unwrap(),
            ExecutionId(2),
            token,
            SessionId(7),
            TypedIdentifier::new("network").unwrap(),
            1,
            1,
            10,
            TrustedGuiReadinessKind::SettingsPageActivated
        ),
        Err(ReadinessCorrelationError::WrongTarget)
    );
    assert!(correlation
        .ingest(
            GuiReadinessEvidenceId(2),
            TrustedReadinessSource::ControlPanel,
            TypedIdentifier::new("control-panel").unwrap(),
            ExecutionId(2),
            token,
            SessionId(7),
            TypedIdentifier::new("display").unwrap(),
            1,
            1,
            10,
            TrustedGuiReadinessKind::SettingsPageActivated
        )
        .is_ok());
}

#[test]
fn binding_verifies_for_its_own_session_until_expiry() {
    let mut authority = GuiSessionBindingAuthority::new([0x47; 32]);
    let verified = VerifiedGraphicalSession::from_authority(
        1,
        SessionId(7),
        RequestedBy::User(9),
        "en",
        11,
        1,
        1,
        1,
        1,
        10,
        20,
    )
    .unwrap();
    let b = authority.issue(verified, 10, 20).unwrap();
    assert_eq!(b.binding_id().0, 1);
    assert_eq!(b.locale(), "en");
    assert_eq!(
        authority.verify(&b, SessionId(7), RequestedBy::User(9), 11, 1, 1, 20),
        Ok(())
    );
    assert_eq!(
        authority.verify(&b, SessionId(8), RequestedBy::User(9), 11, 1, 1, 11),
        Err(GuiBindingError::WrongSession)
    );
    assert_eq!(
        authority.verify(&b, SessionId(7), RequestedBy::User(9), 11, 2, 1, 11),
        Err(GuiBindingError::RegistryChanged)
    );
    let other = GuiSessionBindingAuthority::new([0x48; 32]);
    assert_eq!(
        other.verify(&b, SessionId(7), RequestedBy::User(9), 11, 1, 1, 11),
        Err(GuiBindingError::InvalidIntegrity)
    );
    let second = authority
        .issue(
            VerifiedGraphicalSession::from_authority(
                2,
                SessionId(7),
                RequestedBy::User(9),
                "fa",
                11,
                1,
                1,
                1,
                1,
                10,
                30,
            )
            .unwrap(),
            10,
            30,
        )
        .unwrap();
    assert_eq!(second.binding_id().0, 2);
    assert!(authority.issue(session(), 30, 30).is_none());
}

#[test]
fn attestation_refuses_empty_window_and_long_locale() {
    assert!(VerifiedGraphicalSession::from_authority(
        1,
        SessionId(7),
        RequestedBy::User(9),
        "en",
        1,
        1,
        1,
        1,
        1,
        10,
        10
    )
    .is_none());
    assert!(VerifiedGraphicalSession::from_authority(
        1,
        SessionId(7),
        RequestedBy::User(9),
        "en-US-x-private-tag",
        1,
        1,
        1,
        1,
        1,
        10,
        11
    )
    .is_none());
}

#[test]
fn payload_bounds_and_terminal_kinds() {
    assert!(PublicPresentationPayload::new(&"k".repeat(64), "t").is_some());
    assert!(PublicPresentationPayload::new(&"k".repeat(65), "t").is_none());
    assert!(PublicPresentationPayload::new("k", &"t".repeat(257)).is_none());
    let p = PublicPresentationPayload::new("key", "text").unwrap();
    assert_eq!(p.localized_key(), "key");
    assert_eq!(p.text(), "text");
    assert!(CoordinatorPresentationKind::OutcomeReady.terminal());
    assert!(CoordinatorPresentationKind::Cancelled.terminal());
    assert!(!CoordinatorPresentationKind::DispatchAccepted.terminal());
    assert!(!CoordinatorPresentationKind::AwaitingOutcome.terminal());
}

#[test]
fn broker_delivers_in_order_after_cursor_and_refuses_when_full() {
    let mut broker: GuiEventBroker<2> = GuiEventBroker::new();
    let a = broker
        .publish_presentation(update(1, CoordinatorPresentationKind::DispatchAccepted))
        .unwrap();
    let b = broker
        .publish_presentation(update(2, CoordinatorPresentationKind::AwaitingOutcome))
        .unwrap();
    assert_eq!(
        broker.publish_presentation(update(3, CoordinatorPresentationKind::AwaitingOutcome)),
        Err(GuiEventError::QueueFull)
    );
    let first = broker.next_for_session(SessionId(7), None).unwrap();
    assert_eq!(first.event_id, a);
    assert_eq!(first.sequence, 1);
    let second = broker.next_for_session(SessionId(7), Some(a)).unwrap();
    assert_eq!(second.event_id, b);
    assert!(broker.next_for_session(SessionId(7), Some(b)).is_none());
    assert_eq!(
        broker.acknowledge(SessionId(7), wiseowl_brain::gui_bridge::GuiEventId(99)),
        Err(GuiEventError::UnknownEvent)
    );
    broker.acknowledge(SessionId(7), a).unwrap();
    assert_eq!(broker.len(), 1);
    let left = broker.next_for_session(SessionId(7), None).unwrap();
    assert_eq!(left.event_id, b);
    match left.payload {
        WiseOwlGuiEventPayload::Presentation(u) => {
            assert_eq!(u.kind, CoordinatorPresentationKind::AwaitingOutcome)
        }
        WiseOwlGuiEventPayload::ReceiptSealed(_) => panic!("unexpected receipt"),
    }
}

#[test]
fn deterministic_bridge_gate_scenario() {
    let mut authority = GuiSessionBindingAuthority::new([0x47; 32]);
    let verified = VerifiedGraphicalSession::from_authority(
        1,
        SessionId(7),
        RequestedBy::User(9),
        "en",
        11,
        1,
        1,
        1,
        1,
        10,
        20,
    )
    .unwrap();
    let binding = authority.issue(verified, 10, 20).unwrap();
    assert!(authority
        .verify(&binding, SessionId(7), RequestedBy::User(9), 11, 1, 1, 11)
        .is_ok());
    let payload =
        PublicPresentationPayload::new("wiseowl.bridge.dispatch", "Opening Calculator…").unwrap();
    let mut broker = GuiEventBroker::<2>::new();
    let event_id = broker
        .publish_presentation(CoordinatorPresentationUpdate {
            conversation_id: ConversationId(2),
            request_id: PlannerRequestId(3),
            action_id: Some(CoordinatorActionId(4)),
            session_id: SessionId(7),
            sequence: 1,
            kind: CoordinatorPresentationKind::DispatchAccepted,
            payload,
        })
        .unwrap();
    assert!(broker.next_for_session(SessionId(7), None).is_some());
    assert!(broker.acknowledge(SessionId(7), event_id).is_ok());
    let awaiting =
        PublicPresentationPayload::new("wiseowl.bridge.awaiting", "Waiting for readiness…").unwrap();
    assert!(broker
        .publish_presentation(CoordinatorPresentationUpdate {
            conversation_id: ConversationId(2),
            request_id: PlannerRequestId(3),
            action_id: Some(CoordinatorActionId(4)),
            session_id: SessionId(7),
            sequence: 1,
            kind: CoordinatorPresentationKind::AwaitingOutcome,
            payload: awaiting,
        })
        .is_err());
    let token = LaunchCorrelationToken::new_for_test([0x33; 32]);
    let calculator = TypedIdentifier::new("calculator").unwrap();
    let display = TypedIdentifier::new("display-server").unwrap();
    let mut correlation = TrustedReadinessCorrelation::<2>::new();
    assert!(correlation
        .register_execution(ExecutionId(1), SessionId(7), calculator.clone(), token, false)
        .is_ok());
    assert!(correlation
        .ingest(
            GuiReadinessEvidenceId(1),
            TrustedReadinessSource::DisplayServer,
            display,
            ExecutionId(1),
            token,
            SessionId(7),
            calculator,
            1,
            1,
            12,
            TrustedGuiReadinessKind::ApplicationReady,
        )
        .is_ok());
    let settings_token = LaunchCorrelationToken::new_for_test([0x44; 32]);
    let settings = TypedIdentifier::new("display").unwrap();
    let control_panel = TypedIdentifier::new("control-panel").unwrap();
    assert!(correlation
        .register_execution(ExecutionId(2), SessionId(7), settings.clone(), settings_token, true)
        .is_ok());
    assert_eq!(
        correlation.ingest(
            GuiReadinessEvidenceId(2),
            TrustedReadinessSource::DisplayServer,
            control_panel.clone(),
            ExecutionId(2),
            settings_token,
            SessionId(7),
            settings.clone(),
            1,
            1,
            13,
            TrustedGuiReadinessKind::SettingsPageActivated,
        ),
        Err(ReadinessCorrelationError::WrongSource)
    );
    assert!(correlation
        .ingest(
            GuiReadinessEvidenceId(3),
            TrustedReadinessSource::ControlPanel,
            control_panel,
            ExecutionId(2),
            settings_token,
            SessionId(7),
            settings,
            1,
            1,
            14,
            TrustedGuiReadinessKind::SettingsPageActivated,
        )
        .is_ok());
    assert_eq!(
        correlation.register_execution(
            ExecutionId(3),
            SessionId(7),
            TypedIdentifier::new("writer").unwrap(),
            token,
            false
        ),
        Err(ReadinessCorrelationError::UnknownExecution)
    );
    let receipt = ReceiptSealedView {
        receipt_id: ActionReceiptId::new([0x55; 16]),
        action_id: CoordinatorActionId(4),
        terminal_status: ActionReceiptTerminalStatus::CompletedReady,
        operation_label_key: String::from("operation.open_application"),
        target_label_key: String::from("target.calculator"),
        readiness_observed: true,
    };
    assert!(broker
        .publish_receipt(ConversationId(2), SessionId(7), 2, receipt)
        .is_ok());
}

#[test]
fn deterministic_bridge_gate_passes() {
    assert!(run_deterministic_bridge_gate());
}
