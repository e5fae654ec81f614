use sha2::{Digest, Sha256};
use wiseowl_brain::action_intent::{ActionOperation, AuditId, IntentId, RequestedBy, SessionId, TargetKind};
use wiseowl_brain::action_receipt::{
    requester_domain, ActionReceiptId, ActionReceiptLedger, ActionReceiptLifecycleEvent,
    ActionReceiptTerminalStatus, AppendDisposition, PendingReceiptState, ReceiptConversationQuestion,
    ReceiptError, ReceiptEventSource, ReceiptLifecycleEventType, ReceiptOpen, ReceiptQuery,
    ReceiptQueryKind, ReceiptQueryResult, ReceiptReadinessAnswer, ReceiptRelevantIds,
    ReceiptRetentionPolicy, TargetDisplayKey, VolatileReceiptPersistence,
};
use wiseowl_brain::coordinator::{CoordinatorActionId, PublicReasonCode};
use wiseowl_brain::executor::ExecutionId;
use wiseowl_brain::outcome::ObservationId;
use wiseowl_brain::planner::{ConversationId, PlannerRequestId, PlannerVersion};
use wiseowl_brain::policy::PolicyVersion;
use wiseowl_brain::receipt_gate::{run_action_receipt_v1_gate, ReceiptGateStage};

type GateLedger = ActionReceiptLedger<VolatileReceiptPersistence, 4, 4, 48>;

fn open(request_id: u64) -> ReceiptOpen {
    open_in(request_id, SessionId(7), RequestedBy::User(0))
}

fn open_in(request_id: u64, session_id: SessionId, requester: RequestedBy) -> ReceiptOpen {
    let action_id = CoordinatorActionId(request_id);
    let conversation_id = ConversationId(4);
    let original_request_id = PlannerRequestId(request_id);
    ReceiptOpen {
        receipt_id: ActionReceiptId::for_action(
            action_id,
            conversation_id,
            session_id,
            requester,
            original_request_id,
        ),
        coordinator_action_id: action_id,
        conversation_id,
        session_id,
        requester,
        original_request_id,
        intent_id: Some(IntentId::new([request_id as u8; 16])),
        operation: Some(ActionOperation::OpenApplication),
        target_kind: Some(TargetKind::Application),
        target_display_key: Some(TargetDisplayKey::new("calculator").unwrap()),
        request_timestamp: 100 + request_id,
        policy_version: PolicyVersion::new(1, 0),
        planner_version: PlannerVersion::new(1, 0),
        runtime_snapshot_generation: 1,
        application_registry_generation: 1,
        settings_registry_generation: 1,
        bounded_audit_references: Vec::new(),
    }
}

fn event(
    open: &ReceiptOpen,
    sequence: u16,
    event_type: ReceiptLifecycleEventType,
    source: ReceiptEventSource,
    reason: PublicReasonCode,
    terminal_status: Option<ActionReceiptTerminalStatus>,
) -> ActionReceiptLifecycleEvent {
    ActionReceiptLifecycleEvent::new(
        open.receipt_id,
        open.coordinator_action_id,
        open.session_id,
        open.requester,
        sequence,
        200 + sequence as u64,
        event_type,
        reason,
        ReceiptRelevantIds {
            intent_id: open.intent_id,
            execution_id: Some(ExecutionId(31)),
            observation_id: Some(ObservationId(41)),
            audit_id: Some(AuditId(sequence as u64)),
        },
        source,
        terminal_status,
    )
}

fn latest(session: u64) -> ReceiptQuery {
    ReceiptQuery {
        requester: RequestedBy::User(0),
        active_session: SessionId(session),
        maximum_results: 1,
        kind: ReceiptQueryKind::Latest,
    }
}

/// Opens, records and seals one completed action.
fn completed(ledger: &mut GateLedger, first: &ReceiptOpen) {
    ledger.open(first.clone()).unwrap();
    let steps = [
        (ReceiptLifecycleEventType::RequestAccepted, ReceiptEventSource::Planner, PublicReasonCode::NoReason),
        (ReceiptLifecycleEventType::PolicyAllowed, ReceiptEventSource::Policy, PublicReasonCode::NoReason),
        (ReceiptLifecycleEventType::DispatchAccepted, ReceiptEventSource::Executor, PublicReasonCode::DispatchAccepted),
        (ReceiptLifecycleEventType::AwaitingOutcome, ReceiptEventSource::Coordinator, PublicReasonCode::DispatchAccepted),
        (ReceiptLifecycleEventType::TargetReady, ReceiptEventSource::OutcomeObserver, PublicReasonCode::OutcomeReady),
    ];
    for (i, (t, s, r)) in steps.iter().enumerate() {
        assert_eq!(
            ledger.append(event(first, (i + 1) as u16, *t, *s, *r, None)),
            Ok(AppendDisposition::Appended)
        );
    }
    assert_eq!(
        ledger.append(event(
            first,
            6,
            ReceiptLifecycleEventType::Completed,
            ReceiptEventSource::Coordinator,
            PublicReasonCode::OutcomeReady,
            Some(ActionReceiptTerminalStatus::CompletedReady),
        )),
        Ok(AppendDisposition::Sealed)
    );
}

#[test]
fn action_receipt_gate_scenario() {
    let mut ledger = GateLedger::volatile(ReceiptRetentionPolicy {
        max_sealed_per_domain: 1,
        max_nonexecuted_per_domain: 1,
    });
    let first = open(1);
    assert!(ledger.open(first.clone()).is_ok());
    assert!(ledger
        .append(event(&first, 1, ReceiptLifecycleEventType::RequestAccepted, ReceiptEventSource::Planner, PublicReasonCode::NoReason, None))
        .is_ok());
    assert!(ledger
        .append(event(&first, 2, ReceiptLifecycleEventType::PolicyAllowed, ReceiptEventSource::Policy, PublicReasonCode::NoReason, None))
        .is_ok());
    let dispatch = event(&first, 3, ReceiptLifecycleEventType::DispatchAccepted, ReceiptEventSource::Executor, PublicReasonCode::DispatchAccepted, None);
    assert!(ledger.append(dispatch).is_ok());
    assert_eq!(ledger.append(dispatch), Ok(AppendDisposition::DuplicateIgnored));
    assert!(ledger
        .append(event(&first, 4, ReceiptLifecycleEventType::AwaitingOutcome, ReceiptEventSource::Coordinator, PublicReasonCode::DispatchAccepted, None))
        .is_ok());
    assert!(ledger
        .append(event(&first, 5, ReceiptLifecycleEventType::TargetReady, ReceiptEventSource::OutcomeObserver, PublicReasonCode::OutcomeReady, None))
        .is_ok());
    let terminal = event(&first, 6, ReceiptLifecycleEventType::Completed, ReceiptEventSource::Coordinator, PublicReasonCode::OutcomeReady, Some(ActionReceiptTerminalStatus::CompletedReady));
    assert_eq!(ledger.append(terminal), Ok(AppendDisposition::Sealed));
    assert_eq!(ledger.append(terminal), Err(ReceiptError::DuplicateTerminal));

    let Ok(ReceiptQueryResult::Sealed(view)) = ledger.query(latest(7), "en") else {
        panic!("sealed receipt not found");
    };
    assert_eq!(view.len(), 1);
    assert!(view[0].readiness_observed);
    assert_eq!(ledger.query(latest(8), "en"), Ok(ReceiptQueryResult::NotFound));
    assert!(ledger.sealed_receipts().iter().all(|r| r.verify_integrity()));

    assert!(ledger.open(open(3)).is_ok());
    let second = open(2);
    assert!(ledger.open(second.clone()).is_ok());
    assert!(ledger
        .append(event(&second, 1, ReceiptLifecycleEventType::Unsupported, ReceiptEventSource::Planner, PublicReasonCode::Unsupported, Some(ActionReceiptTerminalStatus::Unsupported)))
        .is_ok());
    assert_eq!(ledger.active_len(), 1);
    assert_eq!(ledger.sealed_len(), 1);
}

#[test]
fn append_checks_binding_source_and_order() {
    let mut ledger = GateLedger::volatile(ReceiptRetentionPolicy::v1());
    let first = open(1);
    ledger.open(first.clone()).unwrap();
    assert_eq!(ledger.open(first.clone()), Err(ReceiptError::DuplicateReceipt));
    let other = open(9);
    let mut wrong = event(&other, 1, ReceiptLifecycleEventType::RequestAccepted, ReceiptEventSource::Planner, PublicReasonCode::NoReason, None);
    assert_eq!(ledger.append(wrong), Err(ReceiptError::ReceiptNotFound));
    wrong = ActionReceiptLifecycleEvent::new(
        first.receipt_id,
        CoordinatorActionId(99),
        first.session_id,
        first.requester,
        1,
        1,
        ReceiptLifecycleEventType::RequestAccepted,
        PublicReasonCode::NoReason,
        ReceiptRelevantIds { intent_id: None, execution_id: None, observation_id: None, audit_id: None },
        ReceiptEventSource::Planner,
        None,
    );
    assert_eq!(ledger.append(wrong), Err(ReceiptError::WrongAction));
    assert_eq!(
        ledger.append(event(&first, 1, ReceiptLifecycleEventType::TargetReady, ReceiptEventSource::Executor, PublicReasonCode::NoReason, None)),
        Err(ReceiptError::UnsupportedEvent)
    );
    assert_eq!(
        ledger.append(event(&first, 1, ReceiptLifecycleEventType::Completed, ReceiptEventSource::Coordinator, PublicReasonCode::NoReason, None)),
        Err(ReceiptError::InvalidTerminalStatus)
    );
    assert_eq!(
        ledger.append(event(&first, 2, ReceiptLifecycleEventType::RequestAccepted, ReceiptEventSource::Planner, PublicReasonCode::NoReason, None)),
        Err(ReceiptError::OutOfOrder)
    );
    let one = event(&first, 1, ReceiptLifecycleEventType::RequestAccepted, ReceiptEventSource::Planner, PublicReasonCode::NoReason, None);
    assert_eq!(ledger.append(one), Ok(AppendDisposition::Appended));
    assert_eq!(
        ledger.append(event(&first, 1, ReceiptLifecycleEventType::PolicyAllowed, ReceiptEventSource::Policy, PublicReasonCode::NoReason, None)),
        Err(ReceiptError::DuplicateSequenceConflict)
    );
}

#[test]
fn sealed_receipt_refuses_more_events() {
    let mut ledger = GateLedger::volatile(ReceiptRetentionPolicy::v1());
    let first = open(1);
    completed(&mut ledger, &first);
    assert_eq!(
        ledger.append(event(&first, 7, ReceiptLifecycleEventType::AwaitingOutcome, ReceiptEventSource::Coordinator, PublicReasonCode::NoReason, None)),
        Err(ReceiptError::AlreadySealed)
    );
    assert_eq!(ledger.open(first.clone()), Err(ReceiptError::DuplicateReceipt));
    let receipt = &ledger.sealed_receipts()[0];
    assert!(receipt.verify_integrity());
    assert_eq!(receipt.terminal_status(), ActionReceiptTerminalStatus::CompletedReady);
    assert!(receipt.encode_sealed().is_ok());
}

#[test]
fn active_capacity_is_enforced() {
    let mut ledger: ActionReceiptLedger<VolatileReceiptPersistence, 1, 4, 8> =
        ActionReceiptLedger::volatile(ReceiptRetentionPolicy::v1());
    assert!(ledger.open(open(1)).is_ok());
    assert_eq!(ledger.open(open(2)), Err(ReceiptError::ActiveCapacity));
}

#[test]
fn queries_are_bounded_and_isolated() {
    let mut ledger = GateLedger::volatile(ReceiptRetentionPolicy::v1());
    completed(&mut ledger, &open(1));
    let unbounded = ReceiptQuery {
        requester: RequestedBy::User(0),
        active_session: SessionId(7),
        maximum_results: 0,
        kind: ReceiptQueryKind::Latest,
    };
    assert_eq!(ledger.query(unbounded, "en"), Err(ReceiptError::UnboundedQuery));
    let many = ReceiptQuery { maximum_results: 2, ..latest(7) };
    assert_eq!(ledger.query(many, "en"), Err(ReceiptError::UnboundedQuery));
    let stranger = ReceiptQuery { requester: RequestedBy::User(5), ..latest(7) };
    assert_eq!(ledger.query(stranger, "en"), Ok(ReceiptQueryResult::NotFound));
    let failures = ReceiptQuery { kind: ReceiptQueryKind::LastFailure, ..latest(7) };
    assert_eq!(ledger.query(failures, "en"), Ok(ReceiptQueryResult::NotFound));
    let completed_q = ReceiptQuery { kind: ReceiptQueryKind::LatestCompleted, ..latest(7) };
    assert!(matches!(ledger.query(completed_q, "en"), Ok(ReceiptQueryResult::Sealed(_))));
    let by_id = ReceiptQuery { kind: ReceiptQueryKind::ByReceiptId(open(1).receipt_id), ..latest(7) };
    assert!(matches!(ledger.query(by_id, "en"), Ok(ReceiptQueryResult::Sealed(_))));
}

#[test]
fn views_are_localized_and_report_observed_readiness() {
    let mut ledger = GateLedger::volatile(ReceiptRetentionPolicy::v1());
    completed(&mut ledger, &open(1));
    let Ok(ReceiptQueryResult::Sealed(en)) = ledger.query(latest(7), "en-US") else {
        panic!("expected a sealed view");
    };
    let v = &en[0];
    assert_eq!(v.localized_title, "Action receipt");
    assert_eq!(v.operation_display_label, "Open application");
    assert_eq!(v.target_display_label, "Calculator");
    assert_eq!(v.terminal_status_label, "Ready");
    assert_eq!(v.lifecycle_steps.len(), 6);
    assert_eq!(v.lifecycle_steps[0], "Request understood");
    assert_eq!(v.lifecycle_steps[5], "Action completed");
    assert_eq!(v.public_reason, PublicReasonCode::OutcomeReady);
    assert_eq!(v.start_time, 101);
    assert_eq!(v.completion_time, 206);
    assert!(!v.confirmation_occurred);
    assert!(v.readiness_observed);
    let Ok(ReceiptQueryResult::Sealed(fa)) = ledger.query(latest(7), "fa-IR") else {
        panic!("expected a sealed view");
    };
    assert_eq!(fa[0].localized_title, "گزارش عملیات");
    assert_eq!(fa[0].target_display_label, "ماشین حساب");
    assert_eq!(fa[0].terminal_status_label, "آماده");
}

#[test]
fn pending_query_shows_the_open_action() {
    let mut ledger = GateLedger::volatile(ReceiptRetentionPolicy::v1());
    let first = open(1);
    ledger.open(first.clone()).unwrap();
    ledger
        .append(event(&first, 1, ReceiptLifecycleEventType::ConfirmationRequested, ReceiptEventSource::ConfirmationAuthority, PublicReasonCode::ConfirmationNeeded, None))
        .unwrap();
    let pending = ReceiptQuery { kind: ReceiptQueryKind::PendingCurrentAction, ..latest(7) };
    match ledger.query(pending, "en") {
        Ok(ReceiptQueryResult::Pending(p)) => {
            assert_eq!(p.receipt_id, first.receipt_id);
            assert_eq!(p.state, PendingReceiptState::AwaitingConfirmation);
            assert_eq!(p.operation_label, "Open application");
            assert_eq!(p.start_time, 101);
        }
        other => panic!("unexpected {:?}", other),
    }
    let elsewhere = ReceiptQuery { kind: ReceiptQueryKind::PendingCurrentAction, ..latest(8) };
    assert_eq!(ledger.query(elsewhere, "en"), Ok(ReceiptQueryResult::NotFound));
}

#[test]
fn did_it_open_follows_the_outcome_observer() {
    let mut ledger = GateLedger::volatile(ReceiptRetentionPolicy::v1());
    let answer = ledger
        .answer_conversation_query(RequestedBy::User(0), SessionId(7), ReceiptConversationQuestion::DidItOpen, "en")
        .unwrap();
    assert!(answer.view.is_none());
    assert_eq!(answer.readiness, ReceiptReadinessAnswer::Unknown);
    completed(&mut ledger, &open(1));
    let answer = ledger
        .answer_conversation_query(RequestedBy::User(0), SessionId(7), ReceiptConversationQuestion::DidItOpen, "en")
        .unwrap();
    assert_eq!(answer.readiness, ReceiptReadinessAnswer::Ready);
    let what = ledger
        .answer_conversation_query(RequestedBy::User(0), SessionId(7), ReceiptConversationQuestion::WhatDidYouDo, "en")
        .unwrap();
    assert_eq!(what.readiness, ReceiptReadinessAnswer::Unknown);
    assert!(what.view.is_some());

    // Dispatch accepted, but the observer never saw readiness.
    let second = open(2);
    ledger.open(second.clone()).unwrap();
    ledger.append(event(&second, 1, ReceiptLifecycleEventType::DispatchAccepted, ReceiptEventSource::Executor, PublicReasonCode::DispatchAccepted, None)).unwrap();
    ledger
        .append(event(&second, 2, ReceiptLifecycleEventType::Completed, ReceiptEventSource::Coordinator, PublicReasonCode::DispatchAccepted, Some(ActionReceiptTerminalStatus::DispatchAcceptedOnly)))
        .unwrap();
    let answer = ledger
        .answer_conversation_query(RequestedBy::User(0), SessionId(7), ReceiptConversationQuestion::DidItOpen, "en")
        .unwrap();
    assert_eq!(answer.readiness, ReceiptReadinessAnswer::NotReady);
}

#[test]
fn retention_evicts_oldest_in_domain() {
    let mut ledger = GateLedger::volatile(ReceiptRetentionPolicy {
        max_sealed_per_domain: 1,
        max_nonexecuted_per_domain: 1,
    });
    let first = open(1);
    completed(&mut ledger, &first);
    let second = open(2);
    completed(&mut ledger, &second);
    assert_eq!(ledger.sealed_len(), 1);
    assert_eq!(ledger.sealed_receipts()[0].receipt_id(), second.receipt_id);
    let evicted = ledger
        .audit()
        .entries()
        .iter()
        .filter(|e| e.event == wiseowl_brain::action_receipt::ReceiptAuditEvent::ReceiptEvicted)
        .count();
    assert_eq!(evicted, 1);
}

#[test]
fn requester_domains_are_distinct() {
    assert_eq!(requester_domain(RequestedBy::User(5)), 5);
    assert_eq!(requester_domain(RequestedBy::WiseOwlReasoning), u64::MAX - 1);
    assert_eq!(requester_domain(RequestedBy::SystemComponent(2)), u64::MAX - 0x1_0000 + 2);
}

#[test]
fn receipt_id_depends_on_binding() {
    let a = open(1).receipt_id;
    let b = open_in(1, SessionId(8), RequestedBy::User(0)).receipt_id;
    assert_ne!(a.bytes(), b.bytes());
    assert_eq!(a.bytes(), open(1).receipt_id.bytes());
}

#[test]
fn receipt_id_is_the_leading_half_of_the_binding_digest() {
    let mut hasher = Sha256::new();
    hasher.update(b"wiseowl.action-receipt-id.v1\0");
    hasher.update(9u64.to_le_bytes());
    hasher.update(4u64.to_le_bytes());
    hasher.update(7u64.to_le_bytes());
    hasher.update([3u8]);
    hasher.update(2u16.to_le_bytes());
    hasher.update(11u64.to_le_bytes());
    let digest: [u8; 32] = hasher.finalize().into();
    let id = ActionReceiptId::for_action(
        CoordinatorActionId(9),
        ConversationId(4),
        SessionId(7),
        RequestedBy::SystemComponent(2),
        PlannerRequestId(11),
    );
    assert_eq!(id.bytes()[..], digest[..16]);
}

#[test]
fn receipt_gate_completes() {
    assert_eq!(run_action_receipt_v1_gate(), ReceiptGateStage::Complete);
}
