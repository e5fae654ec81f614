use wiseowl_brain::action_intent::{ActionOperation, AuditId, RequestedBy, SessionId};
use wiseowl_brain::executor::{ExecutionId, ExecutionResultCode};
use wiseowl_brain::confirmation::{
    ApprovalProof, AuthorityTime, ChallengeId, ConfirmationResponse, ConfirmationResponseType,
    ResponderIdentity, SessionStatus,
};
use wiseowl_brain::coordinator::{
    intent_id, is_exact_cancellation, run_coordinator_v1_gate, ActionCoordinator, ActionRequest, BoundConfirmationResponse,
    CancelPendingAction, ClarificationResponse, ConfirmationAnswer, CoordinatorActionId, CoordinatorAuditEvent,
    CoordinatorConfig, CoordinatorContext, CoordinatorGateStage, CoordinatorResult, CoordinatorState,
    CoordinatorStep, PolicyOutcome, PublicActionStatus, PublicReasonCode, QueryPendingAction,
    ReplayKey, RuntimeInvalidation, SessionEndedInput,
};
use wiseowl_brain::planner::{
    planner_v1, ClarificationId, ConversationId, PlannerRequestId, PlannerResult, PlannerVersion, UnsupportedReason,
};
use wiseowl_brain::policy::{PolicyResult, PolicyVersion};

fn context(at: u64, session: u64) -> CoordinatorContext {
    CoordinatorContext {
        conversation_id: ConversationId(4),
        session_id: SessionId(session),
        session_status: SessionStatus::Active,
        responder: ResponderIdentity::User(0),
        requester: RequestedBy::User(0),
        now: at,
        runtime_generation: 1,
        policy_version: PolicyVersion::new(1, 0),
        application_registry_generation: 1,
        settings_registry_generation: 1,
    }
}

fn request(id: u64) -> ActionRequest {
    ActionRequest {
        request_id: PlannerRequestId(id),
        conversation_id: ConversationId(4),
        session_id: SessionId(7),
        requester: RequestedBy::User(0),
    }
}

fn proposal() -> PlannerResult {
    PlannerResult::Proposed {
        planner_version: PlannerVersion::new(1, 2),
        operation: ActionOperation::OpenApplication,
    }
}

fn ambiguous() -> PlannerResult {
    PlannerResult::NeedsClarification {
        planner_version: planner_v1(),
        clarification_id: ClarificationId(1),
        candidate_count: 2,
        expires_at: 30_100,
        first_operation: Some(ActionOperation::OpenSettingsPage),
    }
}

fn events(c: &ActionCoordinator) -> Vec<CoordinatorAuditEvent> {
    c.audit().iter().map(|e| e.event).collect()
}

fn awaiting_confirmation(challenge: ChallengeId) -> ActionCoordinator {
    let mut c = ActionCoordinator::new(CoordinatorConfig::default());
    assert_eq!(c.user_request(&request(5), proposal(), &context(100, 7)), CoordinatorStep::EvaluatePolicy);
    assert_eq!(
        c.on_policy_result(PolicyOutcome::Decided(PolicyResult::ConfirmationRequired), &context(100, 7)),
        CoordinatorStep::IssueConfirmation
    );
    match c.on_challenge_created(Some(challenge), &context(100, 7)) {
        CoordinatorStep::Reply(CoordinatorResult::ConfirmationRequired(view)) => {
            assert_eq!(view.status, PublicActionStatus::ConfirmationRequired);
            assert_eq!(view.expires_at, Some(30_100));
            assert!(view.recoverable);
        }
        other => panic!("unexpected step {:?}", other),
    }
    c
}

fn response(c: &ActionCoordinator, challenge: ChallengeId, session: u64, kind: ConfirmationResponseType, at: u64) -> BoundConfirmationResponse {
    BoundConfirmationResponse {
        input_id: 9,
        action_id: c.active_record().unwrap().coordinator_action_id(),
        response: ConfirmationResponse::new(challenge, SessionId(session), ResponderIdentity::User(0), kind, AuthorityTime(at)),
    }
}

#[test]
fn allowed_exact_request_goes_to_execution_through_policy() {
    let mut c = ActionCoordinator::new(CoordinatorConfig::default());
    assert_eq!(c.user_request(&request(1), proposal(), &context(101, 7)), CoordinatorStep::EvaluatePolicy);
    let record = c.active_record().unwrap();
    assert_eq!(record.current_state(), CoordinatorState::EvaluatingPolicy);
    assert_eq!(record.coordinator_action_id(), CoordinatorActionId(1));
    assert_eq!(record.planner_version(), PlannerVersion::new(1, 2));
    assert_eq!(record.expiry_time(), 5_101);
    assert_eq!(
        record.intent_id().unwrap().bytes(),
        intent_id(CoordinatorActionId(1), PlannerRequestId(1)).bytes()
    );
    assert_eq!(
        c.on_policy_result(PolicyOutcome::Decided(PolicyResult::Allowed), &context(102, 7)),
        CoordinatorStep::PrepareExecution
    );
    let record = c.active_record().unwrap();
    assert_eq!(record.current_state(), CoordinatorState::PreparingExecution);
    assert_eq!(record.update_time(), 102);
    assert_eq!(record.expiry_time(), 5_102);
    assert_eq!(
        events(&c),
        vec![
            CoordinatorAuditEvent::FlowCreated,
            CoordinatorAuditEvent::PlannerResultReceived,
            CoordinatorAuditEvent::PolicyResultReceived,
        ]
    );
}

#[test]
fn intent_id_is_action_then_request_little_endian() {
    let id = intent_id(CoordinatorActionId(0x0102), PlannerRequestId(0x0a0b0c));
    assert_eq!(id.bytes(), [2, 1, 0, 0, 0, 0, 0, 0, 0x0c, 0x0b, 0x0a, 0, 0, 0, 0, 0]);
}

#[test]
fn policy_denial_is_terminal_before_readiness() {
    for outcome in [
        PolicyOutcome::Rejected,
        PolicyOutcome::Decided(PolicyResult::Denied),
        PolicyOutcome::Decided(PolicyResult::Unknown),
    ] {
        let mut c = ActionCoordinator::new(CoordinatorConfig::default());
        c.user_request(&request(1), proposal(), &context(100, 7));
        match c.on_policy_result(outcome, &context(100, 7)) {
            CoordinatorStep::Reply(CoordinatorResult::ActionRejected(view)) => {
                assert_eq!(view.public_reason_code, PublicReasonCode::PolicyDenied);
                assert!(!view.recoverable);
            }
            other => panic!("unexpected step {:?}", other),
        }
        assert!(c.active_record().is_none());
        assert_eq!(c.records().len(), 1);
        assert_eq!(c.records()[0].current_state(), CoordinatorState::Rejected);
        assert_eq!(c.records()[0].expiry_time(), 300_100);
        assert_eq!(c.audit().last().unwrap().event, CoordinatorAuditEvent::FinalState);
    }
}

#[test]
fn unsupported_request_is_recorded_as_rejected() {
    let mut c = ActionCoordinator::new(CoordinatorConfig::default());
    match c.user_request(&request(1), PlannerResult::Unsupported(UnsupportedReason::UnknownApplication), &context(100, 7)) {
        CoordinatorStep::Reply(CoordinatorResult::ActionUnsupported(view)) => {
            assert_eq!(view.public_reason_code, PublicReasonCode::TargetNotFound);
        }
        other => panic!("unexpected step {:?}", other),
    }
    assert_eq!(c.records()[0].public_outcome_code(), PublicReasonCode::TargetNotFound);
    assert_eq!(
        c.user_request(&request(2), PlannerResult::NoAction, &context(101, 7)),
        CoordinatorStep::Reply(CoordinatorResult::NoAction(wiseowl_brain::coordinator::ActionResponseView {
            status: PublicActionStatus::NoStatus,
            public_reason_code: PublicReasonCode::NoReason,
            expires_at: None,
            recoverable: false,
        }))
    );
    assert_eq!(c.records().len(), 1);
}

#[test]
fn second_request_while_pending_changes_nothing() {
    let mut c = ActionCoordinator::new(CoordinatorConfig::default());
    c.user_request(&request(2), ambiguous(), &context(100, 7));
    let before = c.active_record();
    let audit_len = c.audit().len();
    match c.user_request(&request(3), proposal(), &context(101, 7)) {
        CoordinatorStep::Reply(CoordinatorResult::ActionAlreadyPending(view)) => {
            assert_eq!(view.expires_at, Some(30_100));
            assert!(view.recoverable);
        }
        other => panic!("unexpected step {:?}", other),
    }
    assert_eq!(c.active_record(), before);
    assert_eq!(c.audit().len(), audit_len);
    assert_eq!(before.unwrap().current_state(), CoordinatorState::AwaitingClarification);
}

#[test]
fn confirmation_from_another_session_is_refused_and_grant_goes_to_execution() {
    let challenge = ChallengeId::new([0x83; 16]);
    let mut c = awaiting_confirmation(challenge);
    let approval = ConfirmationResponseType::Approved(ApprovalProof::SoftExplicit);
    let foreign = response(&c, challenge, 8, approval, 101);
    assert!(matches!(
        c.confirmation_response(&foreign, &context(101, 8)),
        CoordinatorStep::Reply(CoordinatorResult::InvalidInput(_))
    ));
    assert_eq!(c.audit().last().unwrap().event, CoordinatorAuditEvent::ConfirmationResponseRejected);
    let wrong_challenge = response(&c, ChallengeId::new([0x84; 16]), 7, approval, 101);
    assert!(matches!(
        c.confirmation_response(&wrong_challenge, &context(101, 7)),
        CoordinatorStep::Reply(CoordinatorResult::InvalidInput(_))
    ));
    let approved = response(&c, challenge, 7, approval, 101);
    assert_eq!(c.confirmation_response(&approved, &context(101, 7)), CoordinatorStep::AcceptConfirmation);
    assert_eq!(
        c.on_confirmation_answer(&approved, ConfirmationAnswer::Granted, &context(101, 7)),
        CoordinatorStep::PrepareExecution
    );
    assert_eq!(c.active_record().unwrap().current_state(), CoordinatorState::PreparingExecution);
}

#[test]
fn declined_and_refused_confirmations_close_the_flow() {
    let challenge = ChallengeId::new([1; 16]);
    let cases = [
        (ConfirmationResponseType::Cancelled, ConfirmationAnswer::Declined, 101, CoordinatorState::Cancelled, PublicReasonCode::CancelledByUser),
        (ConfirmationResponseType::Expired, ConfirmationAnswer::Declined, 101, CoordinatorState::Expired, PublicReasonCode::Expired),
        (ConfirmationResponseType::Rejected, ConfirmationAnswer::Declined, 101, CoordinatorState::Rejected, PublicReasonCode::RejectedByUser),
        (ConfirmationResponseType::Rejected, ConfirmationAnswer::Refused, 40_000, CoordinatorState::Expired, PublicReasonCode::Expired),
        (ConfirmationResponseType::Rejected, ConfirmationAnswer::Refused, 101, CoordinatorState::Invalidated, PublicReasonCode::InvalidInput),
    ];
    for (kind, answer, at, state, reason) in cases {
        let mut c = awaiting_confirmation(challenge);
        let bound = response(&c, challenge, 7, kind, at);
        match c.on_confirmation_answer(&bound, answer, &context(101, 7)) {
            CoordinatorStep::Reply(result) => {
                let view = match result {
                    CoordinatorResult::ActionCancelled(v)
                    | CoordinatorResult::ActionExpired(v)
                    | CoordinatorResult::ActionRejected(v)
                    | CoordinatorResult::ActionInvalidated(v) => v,
                    other => panic!("unexpected result {:?}", other),
                };
                assert_eq!(view.public_reason_code, reason);
            }
            other => panic!("unexpected step {:?}", other),
        }
        assert!(c.active_record().is_none());
        assert_eq!(c.records()[0].current_state(), state);
    }
}

#[test]
fn failed_challenge_invalidates_the_flow() {
    let mut c = ActionCoordinator::new(CoordinatorConfig::default());
    c.user_request(&request(5), proposal(), &context(100, 7));
    c.on_policy_result(PolicyOutcome::Decided(PolicyResult::ConfirmationRequired), &context(100, 7));
    match c.on_challenge_created(None, &context(100, 7)) {
        CoordinatorStep::Reply(CoordinatorResult::ActionInvalidated(view)) => {
            assert_eq!(view.public_reason_code, PublicReasonCode::Unknown);
        }
        other => panic!("unexpected step {:?}", other),
    }
    assert_eq!(c.records()[0].current_state(), CoordinatorState::Invalidated);
}

#[test]
fn cancellation_closes_only_the_named_pending_action() {
    let mut c = ActionCoordinator::new(CoordinatorConfig::default());
    c.user_request(&request(7), ambiguous(), &context(100, 7));
    let id = c.active_record().unwrap().coordinator_action_id();
    let mut cancel = CancelPendingAction {
        input_id: 8,
        action_id: CoordinatorActionId(99),
        conversation_id: ConversationId(4),
        session_id: SessionId(7),
        requester: RequestedBy::User(0),
        submitted_at: 101,
    };
    assert!(matches!(c.cancel(&cancel, &context(101, 7)), CoordinatorResult::InvalidInput(_)));
    assert!(c.active_record().is_some());
    cancel.action_id = id;
    match c.cancel(&cancel, &context(101, 7)) {
        CoordinatorResult::ActionCancelled(view) => {
            assert_eq!(view.public_reason_code, PublicReasonCode::CancelledByUser);
        }
        other => panic!("unexpected result {:?}", other),
    }
    assert!(c.active_record().is_none());
    assert_eq!(c.records()[0].current_state(), CoordinatorState::Cancelled);
}

#[test]
fn audit_log_keeps_its_newest_entries() {
    let mut c = ActionCoordinator::new(CoordinatorConfig::default());
    for i in 0..40u64 {
        c.user_request(&request(i), PlannerResult::Unsupported(UnsupportedReason::UnsupportedOperation), &context(100 + i, 7));
    }
    assert_eq!(c.audit().len(), 96);
    assert_eq!(c.audit_evicted(), 24);
    assert_eq!(c.records().len(), 16);
    assert_eq!(c.records()[15].coordinator_action_id(), CoordinatorActionId(40));
    assert_eq!(c.records()[0].coordinator_action_id(), CoordinatorActionId(25));
}

#[test]
fn coordinator_self_check_completes() {
    assert_eq!(run_coordinator_v1_gate(), CoordinatorGateStage::Complete);
}

fn query() -> QueryPendingAction {
    QueryPendingAction { conversation_id: ConversationId(4), session_id: SessionId(7), requester: RequestedBy::User(0) }
}

#[test]
fn query_reports_the_pending_stage_without_change() {
    let mut c = ActionCoordinator::new(CoordinatorConfig::default());
    assert!(matches!(c.query(&query()), CoordinatorResult::NoAction(_)));
    c.user_request(&request(2), ambiguous(), &context(100, 7));
    match c.query(&query()) {
        CoordinatorResult::ClarificationRequired(view) => assert_eq!(view.expires_at, Some(30_100)),
        other => panic!("unexpected result {:?}", other),
    }
    let foreign = QueryPendingAction { session_id: SessionId(8), ..query() };
    assert!(matches!(c.query(&foreign), CoordinatorResult::InvalidInput(_)));
    assert_eq!(c.audit().len(), 3);
}

#[test]
fn changed_session_policy_or_expiry_closes_the_pending_flow_before_input() {
    let mut c = ActionCoordinator::new(CoordinatorConfig::default());
    c.user_request(&request(2), ambiguous(), &context(100, 7));
    assert_eq!(c.before_input(&context(101, 7)), None);
    let mut changed = context(101, 7);
    changed.session_status = SessionStatus::Inactive;
    match c.before_input(&changed) {
        Some(CoordinatorResult::ActionInvalidated(view)) => {
            assert_eq!(view.public_reason_code, PublicReasonCode::SessionChanged)
        }
        other => panic!("unexpected result {:?}", other),
    }

    let mut c = ActionCoordinator::new(CoordinatorConfig::default());
    c.user_request(&request(2), ambiguous(), &context(100, 7));
    let mut policy = context(101, 7);
    policy.policy_version = PolicyVersion::new(2, 0);
    match c.before_input(&policy) {
        Some(CoordinatorResult::ActionInvalidated(view)) => {
            assert_eq!(view.public_reason_code, PublicReasonCode::PolicyChanged)
        }
        other => panic!("unexpected result {:?}", other),
    }

    let mut c = ActionCoordinator::new(CoordinatorConfig::default());
    c.user_request(&request(2), ambiguous(), &context(100, 7));
    let mut registry = context(101, 7);
    registry.settings_registry_generation = 2;
    match c.before_input(&registry) {
        Some(CoordinatorResult::ActionInvalidated(view)) => {
            assert_eq!(view.public_reason_code, PublicReasonCode::SettingsRegistryChanged)
        }
        other => panic!("unexpected result {:?}", other),
    }

    let mut c = ActionCoordinator::new(CoordinatorConfig::default());
    c.user_request(&request(9), ambiguous(), &context(100, 7));
    assert_eq!(c.before_input(&context(30_100, 7)), None);
    assert!(matches!(c.before_input(&context(30_101, 7)), Some(CoordinatorResult::ActionExpired(_))));
    assert_eq!(c.records()[0].current_state(), CoordinatorState::Expired);
}

#[test]
fn session_end_and_runtime_change_invalidate_the_active_flow() {
    let mut c = ActionCoordinator::new(CoordinatorConfig::default());
    c.user_request(&request(10), ambiguous(), &context(100, 7));
    let other = SessionEndedInput { input_id: 11, session_id: SessionId(8), submitted_at: 101 };
    assert!(matches!(c.session_ended(&other), CoordinatorResult::InvalidInput(_)));
    let ended = SessionEndedInput { input_id: 12, session_id: SessionId(7), submitted_at: 101 };
    match c.session_ended(&ended) {
        CoordinatorResult::ActionInvalidated(view) => assert_eq!(view.public_reason_code, PublicReasonCode::SessionEnded),
        other => panic!("unexpected result {:?}", other),
    }
    let invalidations = c.audit().iter().filter(|e| e.event == CoordinatorAuditEvent::Invalidation).count();
    assert_eq!(invalidations, 2);

    let mut c = ActionCoordinator::new(CoordinatorConfig::default());
    c.user_request(&request(10), ambiguous(), &context(100, 7));
    let same = RuntimeInvalidation {
        input_id: 13,
        runtime_snapshot_generation: 1,
        policy_version: PolicyVersion::new(1, 0),
        application_registry_generation: 1,
        settings_registry_generation: 1,
        submitted_at: 101,
    };
    assert!(matches!(c.runtime_invalidated(&same), CoordinatorResult::ClarificationRequired(_)));
    let newer = RuntimeInvalidation { runtime_snapshot_generation: 2, ..same };
    match c.runtime_invalidated(&newer) {
        CoordinatorResult::ActionInvalidated(view) => assert_eq!(view.public_reason_code, PublicReasonCode::RuntimeChanged),
        other => panic!("unexpected result {:?}", other),
    }
    assert!(c.active_record().is_none());
}

fn clarified(c: &ActionCoordinator, choice: u8, session: u64, at: u64) -> ClarificationResponse {
    ClarificationResponse {
        input_id: 4,
        action_id: c.active_record().unwrap().coordinator_action_id(),
        clarification_id: ClarificationId(1),
        choice_id: choice,
        conversation_id: ConversationId(4),
        session_id: SessionId(session),
        requester: RequestedBy::User(0),
        submitted_at: at,
    }
}

#[test]
fn clarification_answers_are_bound_checked_and_go_to_policy() {
    let mut c = ActionCoordinator::new(CoordinatorConfig::default());
    c.user_request(&request(2), ambiguous(), &context(100, 7));
    for bad in [clarified(&c, 0, 8, 101), clarified(&c, 2, 7, 101), clarified(&c, 0, 7, 30_101)] {
        let session = bad.session_id.0;
        assert!(matches!(
            c.clarification_response(&bad, &context(30_200, session)),
            CoordinatorStep::Reply(CoordinatorResult::InvalidInput(_))
        ));
        assert_eq!(c.audit().last().unwrap().event, CoordinatorAuditEvent::ClarificationRejected);
    }
    let valid = clarified(&c, 1, 7, 102);
    assert_eq!(c.clarification_response(&valid, &context(102, 7)), CoordinatorStep::PlanClarification);
    let chosen = PlannerResult::Proposed { planner_version: planner_v1(), operation: ActionOperation::OpenSettingsPage };
    assert_eq!(c.on_clarification_plan(&valid, chosen, &context(102, 7)), CoordinatorStep::EvaluatePolicy);
    let record = c.active_record().unwrap();
    assert_eq!(record.current_state(), CoordinatorState::EvaluatingPolicy);
    assert_eq!(record.expiry_time(), 5_102);
    assert_eq!(
        record.intent_id().unwrap().bytes(),
        intent_id(record.coordinator_action_id(), PlannerRequestId(4)).bytes()
    );
    assert_eq!(c.audit().last().unwrap().event, CoordinatorAuditEvent::ClarificationAccepted);
}

#[test]
fn expired_clarification_never_reaches_policy() {
    let mut c = ActionCoordinator::new(CoordinatorConfig::default());
    c.user_request(&request(2), ambiguous(), &context(100, 7));
    let valid = clarified(&c, 0, 7, 102);
    let expired = PlannerResult::Unsupported(UnsupportedReason::ClarificationExpired);
    assert!(matches!(
        c.on_clarification_plan(&valid, expired, &context(102, 7)),
        CoordinatorStep::Reply(CoordinatorResult::ActionExpired(_))
    ));
    assert_eq!(c.records()[0].current_state(), CoordinatorState::Expired);
}

#[test]
fn exact_cancellation_phrases_follow_the_locale() {
    assert!(is_exact_cancellation("  Cancel\n", "en-US"));
    assert!(is_exact_cancellation("NEVER mind", "en"));
    assert!(is_exact_cancellation("stop", ""));
    assert!(!is_exact_cancellation("stop it", "en"));
    assert!(!is_exact_cancellation("cancel", "fa-IR"));
    assert!(is_exact_cancellation("\u{3000}لغو ", "fa-IR"));
    assert!(is_exact_cancellation("بی‌خیال", "fa"));
    assert!(is_exact_cancellation("انجام نده", "fa"));
    assert!(!is_exact_cancellation("لغو کن", "fa"));
}

#[test]
fn cancellation_text_cancels_only_an_active_flow() {
    let mut c = ActionCoordinator::new(CoordinatorConfig::default());
    assert_eq!(c.request_cancels(&request(1), "cancel", "en", 100, &context(100, 7)), None);
    c.user_request(&request(2), ambiguous(), &context(100, 7));
    assert_eq!(c.request_cancels(&request(3), "open it", "en", 101, &context(101, 7)), None);
    assert!(c.active_record().is_some());
    assert!(matches!(
        c.request_cancels(&request(4), " Stop ", "en", 101, &context(101, 7)),
        Some(CoordinatorResult::ActionCancelled(_))
    ));
    assert_eq!(c.records()[0].current_state(), CoordinatorState::Cancelled);
}

#[test]
fn repeated_inputs_get_their_first_answer_and_a_full_cache_refuses() {
    let mut c = ActionCoordinator::new(CoordinatorConfig::default());
    assert_eq!(c.replayed(ReplayKey::Request(PlannerRequestId(1)), 100), None);
    let first = CoordinatorResult::Unknown(wiseowl_brain::coordinator::ActionResponseView {
        status: PublicActionStatus::Unknown,
        public_reason_code: PublicReasonCode::Unknown,
        expires_at: None,
        recoverable: false,
    });
    c.remember(ReplayKey::Request(PlannerRequestId(1)), first);
    assert_eq!(c.replayed(ReplayKey::Request(PlannerRequestId(1)), 101), Some(first));
    assert_eq!(c.replayed(ReplayKey::Confirmation(1), 101), None);
    for i in 2..=64u64 {
        c.remember(ReplayKey::Cancellation(i), first);
    }
    match c.replayed(ReplayKey::SessionEnd(9), 102) {
        Some(CoordinatorResult::Unknown(view)) => assert_eq!(view.public_reason_code, PublicReasonCode::ReplayRejected),
        other => panic!("unexpected result {:?}", other),
    }
    assert_eq!(c.replayed(ReplayKey::Cancellation(64), 102), Some(first));
}

#[test]
fn expired_records_leave_oldest_first() {
    let mut c = ActionCoordinator::new(CoordinatorConfig::default());
    c.user_request(&request(1), PlannerResult::Unsupported(UnsupportedReason::UnsupportedOperation), &context(100, 7));
    c.user_request(&request(2), PlannerResult::Unsupported(UnsupportedReason::UnsupportedOperation), &context(200, 7));
    c.expire_records(300_100);
    assert_eq!(c.records().len(), 2);
    c.expire_records(300_101);
    assert_eq!(c.records().len(), 1);
    assert_eq!(c.records()[0].coordinator_action_id(), CoordinatorActionId(2));
}

fn preparing() -> ActionCoordinator {
    let mut c = ActionCoordinator::new(CoordinatorConfig::default());
    c.user_request(&request(1), proposal(), &context(100, 7));
    c.on_policy_result(PolicyOutcome::Decided(PolicyResult::Allowed), &context(100, 7));
    c
}

#[test]
fn accepted_dispatch_completes_and_failures_reject() {
    let mut c = preparing();
    assert_eq!(c.on_execution(ExecutionId(5), ExecutionResultCode::Succeeded, &context(101, 7)),
        CoordinatorStep::Reply(CoordinatorResult::InvalidInput(wiseowl_brain::coordinator::ActionResponseView {
            status: PublicActionStatus::InvalidInput,
            public_reason_code: PublicReasonCode::InvalidSelection,
            expires_at: None,
            recoverable: true,
        })));
    assert_eq!(c.on_ready(Some(AuditId(9)), &context(101, 7)), CoordinatorStep::Dispatch);
    let record = c.active_record().unwrap();
    assert_eq!(record.current_state(), CoordinatorState::Dispatching);
    assert_eq!(record.readiness_id(), Some(AuditId(9)));
    match c.on_execution(ExecutionId(5), ExecutionResultCode::Succeeded, &context(102, 7)) {
        CoordinatorStep::Reply(CoordinatorResult::ActionCompleted(view)) => {
            assert_eq!(view.public_reason_code, PublicReasonCode::DispatchAccepted)
        }
        other => panic!("unexpected step {:?}", other),
    }
    assert_eq!(c.records()[0].current_state(), CoordinatorState::Completed);
    assert_eq!(c.records()[0].execution_id(), Some(ExecutionId(5)));

    let mut c = preparing();
    c.on_ready(Some(AuditId(9)), &context(101, 7));
    match c.on_execution(ExecutionId(6), ExecutionResultCode::DispatchFailed, &context(102, 7)) {
        CoordinatorStep::Reply(CoordinatorResult::ActionRejected(view)) => {
            assert_eq!(view.public_reason_code, PublicReasonCode::DispatchFailed)
        }
        other => panic!("unexpected step {:?}", other),
    }

    let mut c = preparing();
    match c.on_ready(None, &context(101, 7)) {
        CoordinatorStep::Reply(CoordinatorResult::ActionInvalidated(view)) => {
            assert_eq!(view.public_reason_code, PublicReasonCode::RuntimeChanged)
        }
        other => panic!("unexpected step {:?}", other),
    }
}

#[test]
fn every_answer_carries_its_public_view() {
    let mut c = ActionCoordinator::new(CoordinatorConfig::default());
    let step = c.user_request(&request(2), ambiguous(), &context(100, 7));
    let CoordinatorStep::Reply(result) = step else { panic!("expected a reply") };
    let view = result.response();
    assert_eq!(view.status, PublicActionStatus::ClarificationRequired);
    assert_eq!(view.public_reason_code, PublicReasonCode::ClarificationNeeded);
    assert_eq!(view.expires_at, Some(30_100));
}

#[test]
fn every_input_but_a_query_has_a_replay_key() {
    let q = wiseowl_brain::coordinator::CoordinatorInput::QueryPendingAction(query());
    assert_eq!(wiseowl_brain::coordinator::replay_key(&q), None);
    let r = wiseowl_brain::coordinator::CoordinatorInput::UserRequest(request(5));
    assert_eq!(wiseowl_brain::coordinator::replay_key(&r), Some(ReplayKey::Request(PlannerRequestId(5))));
    let e = wiseowl_brain::coordinator::CoordinatorInput::SessionEnded(SessionEndedInput {
        input_id: 12,
        session_id: SessionId(7),
        submitted_at: 101,
    });
    assert_eq!(wiseowl_brain::coordinator::replay_key(&e), Some(ReplayKey::SessionEnd(12)));
}

#[test]
fn answers_are_titled_by_status_then_reason() {
    let text = wiseowl_brain::coordinator::localized_text;
    assert_eq!(
        text(false, PublicActionStatus::Completed, PublicReasonCode::DispatchAccepted),
        ("Completed", "The dispatch was accepted.")
    );
    assert_eq!(
        text(false, PublicActionStatus::Rejected, PublicReasonCode::DispatchFailed),
        ("Dispatch failed", "The target was not opened.")
    );
    assert_eq!(
        text(true, PublicActionStatus::Cancelled, PublicReasonCode::CancelledByUser),
        ("لغو شد", "درخواست لغو شد.")
    );
    assert_eq!(text(false, PublicActionStatus::NoStatus, PublicReasonCode::NoReason), ("", ""));
}
