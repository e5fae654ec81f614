use wiseowl_brain::action_intent::{
    ActionOperation, AuditId, IntentId, RequestedBy, SessionId, TargetKind,
};
use wiseowl_brain::action_receipt::{
    ActionReceiptId, ActionReceiptLedger, ActionReceiptLifecycleEvent,
    ActionReceiptTerminalStatus, AppendDisposition, DispatchReceiptStatus,
    ObservedReceiptOutcome, ReceiptAuditEvent, ReceiptConversationQuestion, ReceiptError,
    ReceiptEventSource, ReceiptLifecycleEventType, ReceiptOpen, ReceiptQuery, ReceiptQueryKind,
    ReceiptPersistence, ReceiptPersistenceError, ReceiptQueryResult, ReceiptReadinessAnswer,
    ReceiptRelevantIds, ReceiptRetentionPolicy, TargetDisplayKey, VolatileReceiptPersistence,
    present_verified,
};
use wiseowl_brain::coordinator::{CoordinatorActionId, PublicReasonCode};
use wiseowl_brain::executor::ExecutionId;
use wiseowl_brain::outcome::ObservationId;
use wiseowl_brain::planner::{ConversationId, PlannerRequestId, PlannerVersion};
use wiseowl_brain::policy::{PolicyResult, PolicyVersion};

type Ledger = ActionReceiptLedger<VolatileReceiptPersistence, 4, 8, 64>;

fn ledger() -> Ledger {
    ActionReceiptLedger::new(
        VolatileReceiptPersistence,
        ReceiptRetentionPolicy {
            max_sealed_per_domain: 3,
            max_nonexecuted_per_domain: 2,
        },
    )
}

fn open(request: u64, user: u32, session: u64, target: &str) -> ReceiptOpen {
    let action_id = CoordinatorActionId(request);
    let conversation_id = ConversationId(44);
    let session_id = SessionId(session);
    let requester = RequestedBy::User(user);
    let request_id = PlannerRequestId(request);
    ReceiptOpen {
        receipt_id: ActionReceiptId::for_action(
            action_id,
            conversation_id,
            session_id,
            requester,
            request_id,
        ),
        coordinator_action_id: action_id,
        conversation_id,
        session_id,
        requester,
        original_request_id: request_id,
        intent_id: Some(IntentId::new([request as u8; 16])),
        operation: Some(ActionOperation::OpenApplication),
        target_kind: Some(TargetKind::Application),
        target_display_key: Some(TargetDisplayKey::new(target).unwrap()),
        request_timestamp: 100 + request,
        policy_version: PolicyVersion::new(1, 0),
        planner_version: PlannerVersion::new(1, 0),
        runtime_snapshot_generation: 7,
        application_registry_generation: 9,
        settings_registry_generation: 10,
        bounded_audit_references: Vec::new(),
    }
}

fn event(
    open: &ReceiptOpen,
    sequence: u16,
    event_type: ReceiptLifecycleEventType,
    source: ReceiptEventSource,
    reason: PublicReasonCode,
    terminal_status: Option<ActionReceiptTerminalStatus>,
) -> ActionReceiptLifecycleEvent {
    ActionReceiptLifecycleEvent::new(
        open.receipt_id,
        open.coordinator_action_id,
        open.session_id,
        open.requester,
        sequence,
        200 + sequence as u64,
        event_type,
        reason,
        ReceiptRelevantIds {
            intent_id: open.intent_id,
            execution_id: Some(ExecutionId(31)),
            observation_id: Some(ObservationId(41)),
            audit_id: Some(AuditId(sequence as u64)),
        },
        source,
        terminal_status,
    )
}

fn seal_ready(ledger: &mut Ledger, open: &ReceiptOpen) {
    ledger.open(open.clone()).unwrap();
    let events = [
        (
            ReceiptLifecycleEventType::RequestAccepted,
            ReceiptEventSource::Planner,
            PublicReasonCode::NoReason,
            None,
        ),
        (
            ReceiptLifecycleEventType::PolicyAllowed,
            ReceiptEventSource::Policy,
            PublicReasonCode::NoReason,
            None,
        ),
        (
            ReceiptLifecycleEventType::ReadyForExecutionProduced,
            ReceiptEventSource::Coordinator,
            PublicReasonCode::NoReason,
            None,
        ),
        (
            ReceiptLifecycleEventType::DispatchAccepted,
            ReceiptEventSource::Executor,
            PublicReasonCode::DispatchAccepted,
            None,
        ),
        (
            ReceiptLifecycleEventType::AwaitingOutcome,
            ReceiptEventSource::Coordinator,
            PublicReasonCode::DispatchAccepted,
            None,
        ),
        (
            ReceiptLifecycleEventType::TargetReady,
            ReceiptEventSource::OutcomeObserver,
            PublicReasonCode::OutcomeReady,
            None,
        ),
        (
            ReceiptLifecycleEventType::Completed,
            ReceiptEventSource::Coordinator,
            PublicReasonCode::OutcomeReady,
            Some(ActionReceiptTerminalStatus::CompletedReady),
        ),
    ];
    for (index, (kind, source, reason, terminal)) in events.into_iter().enumerate() {
        ledger
            .append(event(open, index as u16 + 1, kind, source, reason, terminal))
            .unwrap();
    }
}

fn latest(open: &ReceiptOpen) -> ReceiptQuery {
    ReceiptQuery {
        requester: open.requester,
        active_session: open.session_id,
        maximum_results: 1,
        kind: ReceiptQueryKind::Latest,
    }
}

#[test]
fn successful_application_receipt_preserves_dispatch_ready_distinction() {
    let mut ledger = ledger();
    let open = open(1, 7, 11, "calculator");
    seal_ready(&mut ledger, &open);
    let receipt = ledger.sealed_receipts().iter().next().unwrap();
    assert_eq!(receipt.dispatch_summary().status, DispatchReceiptStatus::Accepted);
    assert_eq!(
        receipt.observed_outcome_summary().outcome,
        ObservedReceiptOutcome::Ready
    );
    assert_eq!(
        receipt.terminal_status(),
        ActionReceiptTerminalStatus::CompletedReady
    );
    assert!(receipt.verify_integrity());
}

#[test]
fn settings_receipt_and_bilingual_presentation() {
    let mut ledger = ledger();
    let mut open = open(2, 7, 11, "display-settings");
    open.operation = Some(ActionOperation::OpenSettingsPage);
    open.target_kind = Some(TargetKind::SettingsPage);
    seal_ready(&mut ledger, &open);
    let english = ledger.query(latest(&open), "en").unwrap();
    let persian = ledger.query(latest(&open), "fa-IR").unwrap();
    let ReceiptQueryResult::Sealed(english) = english else {
        panic!()
    };
    let ReceiptQueryResult::Sealed(persian) = persian else {
        panic!()
    };
    assert_eq!(english[0].target_display_label.as_str(), "Display Settings");
    assert_eq!(persian[0].target_display_label.as_str(), "تنظیمات نمایش");
}

#[test]
fn duplicate_out_of_order_wrong_binding_and_seal_are_rejected() {
    let mut ledger = ledger();
    let open = open(3, 7, 11, "calculator");
    ledger.open(open.clone()).unwrap();
    let first = event(
        &open,
        1,
        ReceiptLifecycleEventType::RequestAccepted,
        ReceiptEventSource::Planner,
        PublicReasonCode::NoReason,
        None,
    );
    assert_eq!(ledger.append(first.clone()).unwrap(), AppendDisposition::Appended);
    assert_eq!(
        ledger.append(first).unwrap(),
        AppendDisposition::DuplicateIgnored
    );
    assert_eq!(
        ledger.append(event(
            &open,
            3,
            ReceiptLifecycleEventType::PolicyAllowed,
            ReceiptEventSource::Policy,
            PublicReasonCode::NoReason,
            None,
        )),
        Err(ReceiptError::OutOfOrder)
    );
    let wrong = ActionReceiptLifecycleEvent::new(
        open.receipt_id,
        open.coordinator_action_id,
        SessionId(99),
        open.requester,
        2,
        202,
        ReceiptLifecycleEventType::PolicyAllowed,
        PublicReasonCode::NoReason,
        ReceiptRelevantIds {
            intent_id: open.intent_id,
            execution_id: Some(ExecutionId(31)),
            observation_id: Some(ObservationId(41)),
            audit_id: Some(AuditId(2)),
        },
        ReceiptEventSource::Policy,
        None,
    );
    assert_eq!(ledger.append(wrong), Err(ReceiptError::WrongSession));
    let terminal = event(
        &open,
        2,
        ReceiptLifecycleEventType::PolicyDenied,
        ReceiptEventSource::Policy,
        PublicReasonCode::PolicyDenied,
        Some(ActionReceiptTerminalStatus::Denied),
    );
    assert_eq!(ledger.append(terminal.clone()).unwrap(), AppendDisposition::Sealed);
    assert_eq!(ledger.append(terminal), Err(ReceiptError::DuplicateTerminal));
}

#[test]
fn terminal_failure_variants_are_typed() {
    let variants = [
        (
            ReceiptLifecycleEventType::Unsupported,
            ReceiptEventSource::Planner,
            ActionReceiptTerminalStatus::Unsupported,
        ),
        (
            ReceiptLifecycleEventType::ClarificationExpired,
            ReceiptEventSource::Planner,
            ActionReceiptTerminalStatus::ClarificationExpired,
        ),
        (
            ReceiptLifecycleEventType::ConfirmationRejected,
            ReceiptEventSource::ConfirmationAuthority,
            ActionReceiptTerminalStatus::ConfirmationRejected,
        ),
        (
            ReceiptLifecycleEventType::ConfirmationExpired,
            ReceiptEventSource::ConfirmationAuthority,
            ActionReceiptTerminalStatus::ConfirmationExpired,
        ),
        (
            ReceiptLifecycleEventType::Cancelled,
            ReceiptEventSource::Coordinator,
            ActionReceiptTerminalStatus::Cancelled,
        ),
        (
            ReceiptLifecycleEventType::DispatchFailed,
            ReceiptEventSource::Executor,
            ActionReceiptTerminalStatus::DispatchFailed,
        ),
        (
            ReceiptLifecycleEventType::TargetExitedEarly,
            ReceiptEventSource::OutcomeObserver,
            ActionReceiptTerminalStatus::ExitedEarly,
        ),
        (
            ReceiptLifecycleEventType::OutcomeTimedOut,
            ReceiptEventSource::OutcomeObserver,
            ActionReceiptTerminalStatus::OutcomeTimedOut,
        ),
        (
            ReceiptLifecycleEventType::SessionInvalidated,
            ReceiptEventSource::OutcomeObserver,
            ActionReceiptTerminalStatus::SessionInvalidated,
        ),
        (
            ReceiptLifecycleEventType::RegistryInvalidated,
            ReceiptEventSource::OutcomeObserver,
            ActionReceiptTerminalStatus::RegistryInvalidated,
        ),
    ];
    for (index, (kind, source, status)) in variants.into_iter().enumerate() {
        let mut ledger = ledger();
        let open = open(index as u64 + 10, 7, 11, "calculator");
        ledger.open(open.clone()).unwrap();
        ledger
            .append(event(
                &open,
                1,
                kind,
                source,
                PublicReasonCode::Unknown,
                Some(status),
            ))
            .unwrap();
        assert_eq!(
            ledger.sealed_receipts().iter().next().unwrap().terminal_status(),
            status
        );
    }
}

#[test]
fn bounded_retention_is_deterministic_and_active_is_not_evicted() {
    let mut ledger = ledger();
    let active = open(90, 7, 11, "calculator");
    ledger.open(active).unwrap();
    for request in 1..=5 {
        let open = open(request, 7, 11, "calculator");
        seal_ready(&mut ledger, &open);
    }
    assert_eq!(ledger.active_len(), 1);
    assert_eq!(ledger.sealed_len(), 3);
    let ids: Vec<_> = ledger
        .sealed_receipts()
        .iter()
        .map(|receipt| receipt.original_request_id())
        .collect();
    assert_eq!(
        ids,
        vec![PlannerRequestId(3), PlannerRequestId(4), PlannerRequestId(5)]
    );
}

#[test]
fn user_guest_and_session_isolation_are_fail_closed() {
    let mut ledger = ledger();
    let open = open(1, 7, 11, "calculator");
    seal_ready(&mut ledger, &open);
    for (requester, session) in [
        (RequestedBy::User(8), SessionId(11)),
        (RequestedBy::User(7), SessionId(12)),
        (RequestedBy::User(65534), SessionId(11)),
    ] {
        assert_eq!(
            ledger
                .query(
                    ReceiptQuery {
                        requester,
                        active_session: session,
                        maximum_results: 1,
                        kind: ReceiptQueryKind::Latest,
                    },
                    "en",
                )
                .unwrap(),
            ReceiptQueryResult::NotFound
        );
    }
}

/// The ledger's invariant proves that every receipt it holds verifies, so a
/// corrupted copy is checked by the presentation step the ledger's queries
/// go through: it shows no view of it.
#[test]
fn corrupted_receipt_is_hidden_and_unknown_is_not_success() {
    let mut ledger = ledger();
    let open = open(1, 7, 11, "calculator");
    seal_ready(&mut ledger, &open);
    let mut corrupted = ledger.sealed_receipts()[0].clone();
    assert!(corrupted.verify_integrity());
    assert!(present_verified(&corrupted, false).is_some());
    corrupted.corrupt_digest_for_test();
    assert!(!corrupted.verify_integrity());
    assert!(present_verified(&corrupted, false).is_none());
    assert!(present_verified(&corrupted, true).is_none());
    assert!(matches!(
        ledger.query(latest(&open), "en").unwrap(),
        ReceiptQueryResult::Sealed(_)
    ));
    assert!(!ActionReceiptTerminalStatus::Unknown.is_success());
}

#[test]
fn conversation_readiness_uses_observer_result_not_dispatch() {
    let mut ledger = ledger();
    let open = open(1, 7, 11, "calculator");
    ledger.open(open.clone()).unwrap();
    for (sequence, kind, source, terminal) in [
        (
            1,
            ReceiptLifecycleEventType::RequestAccepted,
            ReceiptEventSource::Planner,
            None,
        ),
        (
            2,
            ReceiptLifecycleEventType::PolicyAllowed,
            ReceiptEventSource::Policy,
            None,
        ),
        (
            3,
            ReceiptLifecycleEventType::DispatchAccepted,
            ReceiptEventSource::Executor,
            None,
        ),
        (
            4,
            ReceiptLifecycleEventType::Completed,
            ReceiptEventSource::Coordinator,
            Some(ActionReceiptTerminalStatus::DispatchAcceptedOnly),
        ),
    ] {
        ledger
            .append(event(
                &open,
                sequence,
                kind,
                source,
                PublicReasonCode::DispatchAccepted,
                terminal,
            ))
            .unwrap();
    }
    let answer = ledger
        .answer_conversation_query(
            open.requester,
            open.session_id,
            ReceiptConversationQuestion::DidItOpen,
            "en",
        )
        .unwrap();
    assert_eq!(answer.readiness, ReceiptReadinessAnswer::NotReady);
}

#[test]
fn bounded_queries_reject_enumeration() {
    let mut ledger = ledger();
    assert_eq!(
        ledger.query(
            ReceiptQuery {
                requester: RequestedBy::User(7),
                active_session: SessionId(11),
                maximum_results: 0,
                kind: ReceiptQueryKind::RecentLimited,
            },
            "en",
        ),
        Err(ReceiptError::UnboundedQuery)
    );
}

#[test]
fn audit_contains_only_redacted_identifiers_and_codes() {
    let mut ledger = ledger();
    let open = open(1, 7, 11, "calculator");
    seal_ready(&mut ledger, &open);
    assert!(ledger.audit().entries().iter().all(|entry| {
        entry.session_id == SessionId(11) && !matches!(entry.event, ReceiptAuditEvent::QueryDenied)
    }));
}

/// Storage that refuses every write.
struct RefusingStorage;

impl ReceiptPersistence for RefusingStorage {
    fn spec_infallible(&self) -> bool {
        false
    }

    fn append_fragment(
        &mut self,
        _owner_domain: u64,
        _session_id: SessionId,
        _receipt_id: ActionReceiptId,
        _fragment: &[u8],
    ) -> Result<(), ReceiptPersistenceError> {
        Err(ReceiptPersistenceError::Unavailable)
    }

    fn seal(
        &mut self,
        _owner_domain: u64,
        _session_id: SessionId,
        _receipt_id: ActionReceiptId,
        _receipt: &[u8],
    ) -> Result<(), ReceiptPersistenceError> {
        Err(ReceiptPersistenceError::Unavailable)
    }

    fn evict(
        &mut self,
        _owner_domain: u64,
        _session_id: SessionId,
        _receipt_id: ActionReceiptId,
    ) -> Result<(), ReceiptPersistenceError> {
        Err(ReceiptPersistenceError::Unavailable)
    }
}

#[test]
fn refused_storage_is_reported_and_opens_nothing() {
    let mut ledger: ActionReceiptLedger<RefusingStorage, 4, 8, 64> =
        ActionReceiptLedger::new(RefusingStorage, ReceiptRetentionPolicy::v1());
    let open = open(1, 7, 11, "calculator");
    assert_eq!(ledger.open(open), Err(ReceiptError::PersistenceFailure));
    assert_eq!(ledger.active_len(), 0);
    assert_eq!(ledger.sealed_len(), 0);
}

#[test]
fn policy_decisions_become_policy_events_of_their_own_receipt() {
    let open = open(1, 7, 11, "calculator");
    let intent = IntentId::new([1; 16]);
    let version = PolicyVersion::new(1, 0);
    let generation = open.runtime_snapshot_generation;
    let allowed = ActionReceiptLifecycleEvent::from_policy_decision(
        &open, 2, 150, intent, version, generation, PolicyResult::Allowed, AuditId(5),
    )
    .unwrap();
    assert_eq!(allowed.event_type(), ReceiptLifecycleEventType::PolicyAllowed);
    assert_eq!(allowed.public_reason(), PublicReasonCode::NoReason);
    assert_eq!(allowed.source(), ReceiptEventSource::Policy);
    assert_eq!(allowed.terminal_status(), None);
    let confirm = ActionReceiptLifecycleEvent::from_policy_decision(
        &open, 2, 150, intent, version, generation, PolicyResult::ConfirmationRequired, AuditId(5),
    )
    .unwrap();
    assert_eq!(confirm.public_reason(), PublicReasonCode::ConfirmationNeeded);
    let denied = ActionReceiptLifecycleEvent::from_policy_decision(
        &open, 2, 150, intent, version, generation, PolicyResult::Unknown, AuditId(5),
    )
    .unwrap();
    assert_eq!(denied.event_type(), ReceiptLifecycleEventType::PolicyDenied);
    assert_eq!(denied.terminal_status(), Some(ActionReceiptTerminalStatus::Denied));
    for (i, v, g) in [
        (IntentId::new([2; 16]), version, generation),
        (intent, PolicyVersion::new(2, 0), generation),
        (intent, version, generation + 1),
    ] {
        assert_eq!(
            ActionReceiptLifecycleEvent::from_policy_decision(&open, 2, 150, i, v, g, PolicyResult::Allowed, AuditId(5)),
            Err(ReceiptError::WrongAction)
        );
    }
}
