use vstd::prelude::*;

use crate::action_intent::{ActionOperation, AuditId, IntentId, RequestedBy, SessionId};
use crate::confirmation::{
    ApprovalProof, AuthorityTime, ChallengeId, ConfirmationResponse, ConfirmationResponseType,
    ResponderIdentity, SessionStatus,
};
use crate::executor::{ExecutionId, ExecutionResultCode};
use crate::planner::{
    planner_v1, spec_planner_v1, ClarificationId, ConversationId, PlannerRequestId, PlannerResult,
    PlannerVersion, UnsupportedReason,
};
use crate::policy::{PolicyResult, PolicyVersion};

verus! {

pub const DEFAULT_COORDINATOR_AUDIT_CAPACITY: usize = 96;
pub const DEFAULT_COORDINATOR_RECORD_CAPACITY: usize = 16;
pub const DEFAULT_COORDINATOR_REPLAY_CAPACITY: usize = 64;
pub const MAX_RESPONSE_TEXT_LEN: usize = 256;
pub const MAX_PUBLIC_CHOICES: usize = 8;

#[derive(Debug, Clone, Copy, PartialEq, Eq, Hash, Structural)]
pub struct CoordinatorActionId(pub u64);

#[derive(Debug, Clone, Copy, PartialEq, Eq, Structural)]
pub enum CoordinatorState {
    Idle,
    Planning,
    AwaitingClarification,
    EvaluatingPolicy,
    AwaitingConfirmation,
    PreparingExecution,
    Dispatching,
    Completed,
    Rejected,
    Cancelled,
    Expired,
    Invalidated,
}

impl CoordinatorState {
    pub open spec fn spec_is_pending(self) -> bool {
        self is AwaitingClarification || self is AwaitingConfirmation
    }

    pub open spec fn spec_is_terminal(self) -> bool {
        self is Completed || self is Rejected || self is Cancelled || self is Expired
            || self is Invalidated
    }

    /// Waiting for the user: a clarification or a confirmation is outstanding.
    pub fn is_pending(self) -> (r: bool)
        ensures
            r == self.spec_is_pending(),
    {
        match self {
            CoordinatorState::AwaitingClarification | CoordinatorState::AwaitingConfirmation => true,
            _ => false,
        }
    }

    /// No further transition is possible.
    pub fn is_terminal(self) -> (r: bool)
        ensures
            r == self.spec_is_terminal(),
    {
        match self {
            CoordinatorState::Completed
            | CoordinatorState::Rejected
            | CoordinatorState::Cancelled
            | CoordinatorState::Expired
            | CoordinatorState::Invalidated => true,
            _ => false,
        }
    }
}

/// A pending state is never terminal.
pub proof fn lemma_pending_is_not_terminal(state: CoordinatorState)
    ensures
        state.spec_is_pending() ==> !state.spec_is_terminal(),
{
}

#[derive(Debug, Clone, Copy, PartialEq, Eq, Structural)]
pub enum PublicActionStatus {
    NoStatus,
    Proposed,
    ClarificationRequired,
    ConfirmationRequired,
    Completed,
    Rejected,
    Unsupported,
    Cancelled,
    Expired,
    Invalidated,
    AlreadyPending,
    InvalidInput,
    Unknown,
}

/// Stable public reasons; they never reveal targets or payloads.
#[derive(Debug, Clone, Copy, PartialEq, Eq, Structural)]
pub enum PublicReasonCode {
    NoReason,
    ClarificationNeeded,
    ConfirmationNeeded,
    DispatchAccepted,
    OutcomeReady,
    OutcomeFailed,
    OutcomeTimedOut,
    ExitedBeforeReady,
    ObservationCancelled,
    DispatchFailed,
    TargetNotFound,
    TargetUnavailable,
    PolicyDenied,
    Unsupported,
    InvalidInput,
    InvalidSelection,
    RejectedByUser,
    CancelledByUser,
    Expired,
    SessionEnded,
    SessionChanged,
    PolicyChanged,
    RuntimeChanged,
    ApplicationRegistryChanged,
    SettingsRegistryChanged,
    ReplayRejected,
    ActionAlreadyPending,
    Unknown,
}

/// The user's choice among a clarification's candidates.
#[derive(Debug, Clone, Copy, PartialEq, Eq, Structural)]
pub struct ClarificationResponse {
    pub input_id: u64,
    pub action_id: CoordinatorActionId,
    pub clarification_id: ClarificationId,
    pub choice_id: u8,
    pub conversation_id: ConversationId,
    pub session_id: SessionId,
    pub requester: RequestedBy,
    pub submitted_at: u64,
}

/// A confirmation response bound to the coordinator action it answers.
#[derive(Debug, Clone, Copy, PartialEq, Eq)]
pub struct BoundConfirmationResponse {
    pub input_id: u64,
    pub action_id: CoordinatorActionId,
    pub response: ConfirmationResponse,
}

#[derive(Debug, Clone, Copy, PartialEq, Eq, Structural)]
pub struct CancelPendingAction {
    pub input_id: u64,
    pub action_id: CoordinatorActionId,
    pub conversation_id: ConversationId,
    pub session_id: SessionId,
    pub requester: RequestedBy,
    pub submitted_at: u64,
}

#[derive(Debug, Clone, Copy, PartialEq, Eq, Structural)]
pub struct QueryPendingAction {
    pub conversation_id: ConversationId,
    pub session_id: SessionId,
    pub requester: RequestedBy,
}

#[derive(Debug, Clone, Copy, PartialEq, Eq, Structural)]
pub struct SessionEndedInput {
    pub input_id: u64,
    pub session_id: SessionId,
    pub submitted_at: u64,
}

#[derive(Debug, Clone, Copy, PartialEq, Eq, Structural)]
pub struct RuntimeInvalidation {
    pub input_id: u64,
    pub runtime_snapshot_generation: u64,
    pub policy_version: PolicyVersion,
    pub application_registry_generation: u64,
    pub settings_registry_generation: u64,
    pub submitted_at: u64,
}

#[derive(Debug, Clone, Copy, PartialEq, Eq, Structural)]
pub struct CoordinatorConfig {
    pub clarification_ttl_ms: u64,
    pub confirmation_ttl_ms: u64,
    pub ready_ttl_ms: u64,
    pub record_retention_ms: u64,
}

impl Default for CoordinatorConfig {
    fn default() -> (c: Self)
        ensures
            c.clarification_ttl_ms == 30_000,
            c.confirmation_ttl_ms == 30_000,
            c.ready_ttl_ms == 5_000,
            c.record_retention_ms == 300_000,
    {
        CoordinatorConfig {
            clarification_ttl_ms: 30_000,
            confirmation_ttl_ms: 30_000,
            ready_ttl_ms: 5_000,
            record_retention_ms: 300_000,
        }
    }
}

/// The bounded conversation record of one coordinated action.
#[derive(Debug, Clone, Copy, PartialEq, Eq)]
pub struct ActionConversationRecord {
    coordinator_action_id: CoordinatorActionId,
    conversation_id: ConversationId,
    session_id: SessionId,
    requester: RequestedBy,
    original_request_id: PlannerRequestId,
    current_state: CoordinatorState,
    planner_version: PlannerVersion,
    policy_version: PolicyVersion,
    runtime_snapshot_generation: u64,
    application_registry_generation: u64,
    settings_registry_generation: u64,
    intent_id: Option<IntentId>,
    challenge_id: Option<ChallengeId>,
    readiness_id: Option<AuditId>,
    execution_id: Option<ExecutionId>,
    creation_time: u64,
    update_time: u64,
    expiry_time: u64,
    public_outcome_code: PublicReasonCode,
    bounded_audit_reference: u64,
}

impl ActionConversationRecord {
    pub closed spec fn spec_coordinator_action_id(&self) -> CoordinatorActionId {
        self.coordinator_action_id
    }

    pub closed spec fn spec_conversation_id(&self) -> ConversationId {
        self.conversation_id
    }

    pub closed spec fn spec_session_id(&self) -> SessionId {
        self.session_id
    }

    pub closed spec fn spec_requester(&self) -> RequestedBy {
        self.requester
    }

    pub closed spec fn spec_original_request_id(&self) -> PlannerRequestId {
        self.original_request_id
    }

    pub closed spec fn spec_current_state(&self) -> CoordinatorState {
        self.current_state
    }

    pub closed spec fn spec_planner_version(&self) -> PlannerVersion {
        self.planner_version
    }

    pub closed spec fn spec_policy_version(&self) -> PolicyVersion {
        self.policy_version
    }

    pub closed spec fn spec_runtime_snapshot_generation(&self) -> u64 {
        self.runtime_snapshot_generation
    }

    pub closed spec fn spec_application_registry_generation(&self) -> u64 {
        self.application_registry_generation
    }

    pub closed spec fn spec_settings_registry_generation(&self) -> u64 {
        self.settings_registry_generation
    }

    pub closed spec fn spec_intent_id(&self) -> Option<IntentId> {
        self.intent_id
    }

    pub closed spec fn spec_challenge_id(&self) -> Option<ChallengeId> {
        self.challenge_id
    }

    pub closed spec fn spec_readiness_id(&self) -> Option<AuditId> {
        self.readiness_id
    }

    pub closed spec fn spec_execution_id(&self) -> Option<ExecutionId> {
        self.execution_id
    }

    pub closed spec fn spec_creation_time(&self) -> u64 {
        self.creation_time
    }

    pub closed spec fn spec_update_time(&self) -> u64 {
        self.update_time
    }

    pub closed spec fn spec_expiry_time(&self) -> u64 {
        self.expiry_time
    }

    pub closed spec fn spec_public_outcome_code(&self) -> PublicReasonCode {
        self.public_outcome_code
    }

    pub closed spec fn spec_bounded_audit_reference(&self) -> u64 {
        self.bounded_audit_reference
    }

    #[allow(clippy::too_many_arguments)]
    pub fn new(
        coordinator_action_id: CoordinatorActionId,
        conversation_id: ConversationId,
        session_id: SessionId,
        requester: RequestedBy,
        original_request_id: PlannerRequestId,
        current_state: CoordinatorState,
        planner_version: PlannerVersion,
        policy_version: PolicyVersion,
        runtime_snapshot_generation: u64,
        application_registry_generation: u64,
        settings_registry_generation: u64,
        intent_id: Option<IntentId>,
        challenge_id: Option<ChallengeId>,
        readiness_id: Option<AuditId>,
        execution_id: Option<ExecutionId>,
        creation_time: u64,
        update_time: u64,
        expiry_time: u64,
        public_outcome_code: PublicReasonCode,
        bounded_audit_reference: u64,
    ) -> (r: Self)
        ensures
            r.spec_coordinator_action_id() == coordinator_action_id,
            r.spec_conversation_id() == conversation_id,
            r.spec_session_id() == session_id,
            r.spec_requester() == requester,
            r.spec_original_request_id() == original_request_id,
            r.spec_current_state() == current_state,
            r.spec_planner_version() == planner_version,
            r.spec_policy_version() == policy_version,
            r.spec_runtime_snapshot_generation() == runtime_snapshot_generation,
            r.spec_application_registry_generation() == application_registry_generation,
            r.spec_settings_registry_generation() == settings_registry_generation,
            r.spec_intent_id() == intent_id,
            r.spec_challenge_id() == challenge_id,
            r.spec_readiness_id() == readiness_id,
            r.spec_execution_id() == execution_id,
            r.spec_creation_time() == creation_time,
            r.spec_update_time() == update_time,
            r.spec_expiry_time() == expiry_time,
            r.spec_public_outcome_code() == public_outcome_code,
            r.spec_bounded_audit_reference() == bounded_audit_reference,
    {
        ActionConversationRecord {
            coordinator_action_id,
            conversation_id,
            session_id,
            requester,
            original_request_id,
            current_state,
            planner_version,
            policy_version,
            runtime_snapshot_generation,
            application_registry_generation,
            settings_registry_generation,
            intent_id,
            challenge_id,
            readiness_id,
            execution_id,
            creation_time,
            update_time,
            expiry_time,
            public_outcome_code,
            bounded_audit_reference,
        }
    }

    pub fn coordinator_action_id(&self) -> (r: CoordinatorActionId)
        ensures
            r == self.spec_coordinator_action_id(),
    {
        self.coordinator_action_id
    }

    pub fn conversation_id(&self) -> (r: ConversationId)
        ensures
            r == self.spec_conversation_id(),
    {
        self.conversation_id
    }

    pub fn session_id(&self) -> (r: SessionId)
        ensures
            r == self.spec_session_id(),
    {
        self.session_id
    }

    pub fn requester(&self) -> (r: RequestedBy)
        ensures
            r == self.spec_requester(),
    {
        self.requester
    }

    pub fn original_request_id(&self) -> (r: PlannerRequestId)
        ensures
            r == self.spec_original_request_id(),
    {
        self.original_request_id
    }

    pub fn current_state(&self) -> (r: CoordinatorState)
        ensures
            r == self.spec_current_state(),
    {
        self.current_state
    }

    pub fn planner_version(&self) -> (r: PlannerVersion)
        ensures
            r == self.spec_planner_version(),
    {
        self.planner_version
    }

    pub fn policy_version(&self) -> (r: PolicyVersion)
        ensures
            r == self.spec_policy_version(),
    {
        self.policy_version
    }

    pub fn runtime_snapshot_generation(&self) -> (r: u64)
        ensures
            r == self.spec_runtime_snapshot_generation(),
    {
        self.runtime_snapshot_generation
    }

    pub fn application_registry_generation(&self) -> (r: u64)
        ensures
            r == self.spec_application_registry_generation(),
    {
        self.application_registry_generation
    }

    pub fn settings_registry_generation(&self) -> (r: u64)
        ensures
            r == self.spec_settings_registry_generation(),
    {
        self.settings_registry_generation
    }

    pub fn intent_id(&self) -> (r: Option<IntentId>)
        ensures
            r == self.spec_intent_id(),
    {
        self.intent_id
    }

    pub fn challenge_id(&self) -> (r: Option<ChallengeId>)
        ensures
            r == self.spec_challenge_id(),
    {
        self.challenge_id
    }

    pub fn readiness_id(&self) -> (r: Option<AuditId>)
        ensures
            r == self.spec_readiness_id(),
    {
        self.readiness_id
    }

    pub fn execution_id(&self) -> (r: Option<ExecutionId>)
        ensures
            r == self.spec_execution_id(),
    {
        self.execution_id
    }

    pub fn creation_time(&self) -> (r: u64)
        ensures
            r == self.spec_creation_time(),
    {
        self.creation_time
    }

    pub fn update_time(&self) -> (r: u64)
        ensures
            r == self.spec_update_time(),
    {
        self.update_time
    }

    pub fn expiry_time(&self) -> (r: u64)
        ensures
            r == self.spec_expiry_time(),
    {
        self.expiry_time
    }

    pub fn public_outcome_code(&self) -> (r: PublicReasonCode)
        ensures
            r == self.spec_public_outcome_code(),
    {
        self.public_outcome_code
    }

    pub fn bounded_audit_reference(&self) -> (r: u64)
        ensures
            r == self.spec_bounded_audit_reference(),
    {
        self.bounded_audit_reference
    }

}

#[derive(Debug, Clone, Copy, PartialEq, Eq, Structural)]
pub enum CoordinatorAuditEvent {
    FlowCreated,
    PlannerResultReceived,
    ClarificationIssued,
    ClarificationAccepted,
    ClarificationRejected,
    PolicyResultReceived,
    ConfirmationChallengeIssued,
    ConfirmationResponseAccepted,
    ConfirmationResponseRejected,
    ReadinessProduced,
    DispatchAttempted,
    ExecutionResultReceived,
    Cancellation,
    Expiry,
    Invalidation,
    ReplayRejected,
    FinalState,
}

#[derive(Debug, Clone, Copy, PartialEq, Eq, Structural)]
pub struct CoordinatorAuditEntry {
    pub audit_reference: u64,
    pub action_id: CoordinatorActionId,
    pub conversation_id: ConversationId,
    pub state: CoordinatorState,
    pub operation: Option<ActionOperation>,
    pub event: CoordinatorAuditEvent,
    pub public_result: PublicReasonCode,
    pub timestamp: u64,
}


/// The public reason for a planner's refusal.
pub open spec fn spec_unsupported_reason(reason: UnsupportedReason) -> PublicReasonCode {
    match reason {
        UnsupportedReason::UnknownApplication | UnsupportedReason::UnknownSettingsPage => PublicReasonCode::TargetNotFound,
        UnsupportedReason::ClarificationExpired => PublicReasonCode::Expired,
        UnsupportedReason::ClarificationReplay => PublicReasonCode::ReplayRejected,
        UnsupportedReason::ClarificationTargetInvalid | UnsupportedReason::ClarificationNotFound => PublicReasonCode::InvalidSelection,
        UnsupportedReason::UnsupportedOperation => PublicReasonCode::Unsupported,
    }
}

pub fn unsupported_reason(reason: UnsupportedReason) -> (r: PublicReasonCode)
    ensures
        r == spec_unsupported_reason(reason),
{
    match reason {
        UnsupportedReason::UnknownApplication | UnsupportedReason::UnknownSettingsPage => PublicReasonCode::TargetNotFound,
        UnsupportedReason::ClarificationExpired => PublicReasonCode::Expired,
        UnsupportedReason::ClarificationReplay => PublicReasonCode::ReplayRejected,
        UnsupportedReason::ClarificationTargetInvalid | UnsupportedReason::ClarificationNotFound => PublicReasonCode::InvalidSelection,
        UnsupportedReason::UnsupportedOperation => PublicReasonCode::Unsupported,
    }
}

/// The public reason for a planner's refusal names its cause: an unknown
/// application or settings page as a target not found, an expired
/// clarification as expired, a replayed one as a replay, an invalid or
/// unknown choice as an invalid selection, and only an unsupported operation
/// as unsupported.
pub proof fn lemma_unsupported_reason_names_cause(reason: UnsupportedReason)
    ensures
        (spec_unsupported_reason(reason) == PublicReasonCode::TargetNotFound) <==> (reason
            == UnsupportedReason::UnknownApplication || reason == UnsupportedReason::UnknownSettingsPage),
        (spec_unsupported_reason(reason) == PublicReasonCode::Expired) <==> (reason
            == UnsupportedReason::ClarificationExpired),
        (spec_unsupported_reason(reason) == PublicReasonCode::ReplayRejected) <==> (reason
            == UnsupportedReason::ClarificationReplay),
        (spec_unsupported_reason(reason) == PublicReasonCode::InvalidSelection) <==> (reason
            == UnsupportedReason::ClarificationTargetInvalid || reason == UnsupportedReason::ClarificationNotFound),
        (spec_unsupported_reason(reason) == PublicReasonCode::Unsupported) <==> (reason
            == UnsupportedReason::UnsupportedOperation),
{
}

/// One user request, as the coordinator sees it.
#[derive(Debug, Clone, Copy, PartialEq, Eq, Structural)]
pub struct ActionRequest {
    pub request_id: PlannerRequestId,
    pub conversation_id: ConversationId,
    pub session_id: SessionId,
    pub requester: RequestedBy,
}

/// What the coordinator knows of the world when it takes a step.
#[derive(Debug, Clone, Copy, PartialEq, Eq, Structural)]
pub struct CoordinatorContext {
    pub conversation_id: ConversationId,
    pub session_id: SessionId,
    pub session_status: SessionStatus,
    pub responder: ResponderIdentity,
    pub requester: RequestedBy,
    pub now: u64,
    pub runtime_generation: u64,
    pub policy_version: PolicyVersion,
    pub application_registry_generation: u64,
    pub settings_registry_generation: u64,
}

/// The public part of an answer: never a target or a payload.
#[derive(Debug, Clone, Copy, PartialEq, Eq, Structural)]
pub struct ActionResponseView {
    pub status: PublicActionStatus,
    pub public_reason_code: PublicReasonCode,
    pub expires_at: Option<u64>,
    pub recoverable: bool,
}

/// The coordinator's answer to one input.
#[derive(Debug, Clone, Copy, PartialEq, Eq, Structural)]
pub enum CoordinatorResult {
    NoAction(ActionResponseView),
    ActionProposed(ActionResponseView),
    ActionCompleted(ActionResponseView),
    ClarificationRequired(ActionResponseView),
    ConfirmationRequired(ActionResponseView),
    ActionRejected(ActionResponseView),
    ActionUnsupported(ActionResponseView),
    ActionCancelled(ActionResponseView),
    ActionExpired(ActionResponseView),
    ActionInvalidated(ActionResponseView),
    ActionAlreadyPending(ActionResponseView),
    InvalidInput(ActionResponseView),
    Unknown(ActionResponseView),
}

impl CoordinatorResult {
    /// The public view that every answer carries.
    pub open spec fn spec_response(self) -> ActionResponseView {
        match self {
            CoordinatorResult::NoAction(v) => v,
            CoordinatorResult::ActionProposed(v) => v,
            CoordinatorResult::ActionCompleted(v) => v,
            CoordinatorResult::ClarificationRequired(v) => v,
            CoordinatorResult::ConfirmationRequired(v) => v,
            CoordinatorResult::ActionRejected(v) => v,
            CoordinatorResult::ActionUnsupported(v) => v,
            CoordinatorResult::ActionCancelled(v) => v,
            CoordinatorResult::ActionExpired(v) => v,
            CoordinatorResult::ActionInvalidated(v) => v,
            CoordinatorResult::ActionAlreadyPending(v) => v,
            CoordinatorResult::InvalidInput(v) => v,
            CoordinatorResult::Unknown(v) => v,
        }
    }

    pub fn response(&self) -> (v: ActionResponseView)
        ensures
            v == self.spec_response(),
    {
        match self {
            CoordinatorResult::NoAction(v) => *v,
            CoordinatorResult::ActionProposed(v) => *v,
            CoordinatorResult::ActionCompleted(v) => *v,
            CoordinatorResult::ClarificationRequired(v) => *v,
            CoordinatorResult::ConfirmationRequired(v) => *v,
            CoordinatorResult::ActionRejected(v) => *v,
            CoordinatorResult::ActionUnsupported(v) => *v,
            CoordinatorResult::ActionCancelled(v) => *v,
            CoordinatorResult::ActionExpired(v) => *v,
            CoordinatorResult::ActionInvalidated(v) => *v,
            CoordinatorResult::ActionAlreadyPending(v) => *v,
            CoordinatorResult::InvalidInput(v) => *v,
            CoordinatorResult::Unknown(v) => *v,
        }
    }
}

/// What the coordinator decided: an answer, or the outside work that
/// comes next and whose outcome the caller hands back.
#[derive(Debug, Clone, Copy, PartialEq, Eq, Structural)]
pub enum CoordinatorStep {
    Reply(CoordinatorResult),
    /// Evaluate the active intent against policy; answer with `on_policy_result`.
    EvaluatePolicy,
    /// Create a confirmation challenge; answer with `on_challenge_created`.
    IssueConfirmation,
    /// Ask the planner again with the chosen clarification candidate;
    /// answer with `on_clarification_plan`.
    PlanClarification,
    /// Hand the response to the confirmation authority; answer with
    /// `on_confirmation_answer`.
    AcceptConfirmation,
    /// Prepare the ready envelope; answer with `on_ready`.
    PrepareExecution,
    /// Hand the ready envelope to the executor; answer with `on_execution`.
    Dispatch,
}

/// What policy made of the active intent.
#[derive(Debug, Clone, Copy, PartialEq, Eq, Structural)]
pub enum PolicyOutcome {
    /// The intent failed validation before policy.
    Rejected,
    Decided(PolicyResult),
}

/// What the confirmation authority answered to a response.
#[derive(Debug, Clone, Copy, PartialEq, Eq, Structural)]
pub enum ConfirmationAnswer {
    /// Approved: an exact, single-use grant was issued.
    Granted,
    /// Accepted as a refusal, a cancellation or an expiry.
    Declined,
    /// Not accepted.
    Refused,
}

pub open spec fn view_of(status: PublicActionStatus, reason: PublicReasonCode, expires_at: Option<u64>, recoverable: bool) -> ActionResponseView {
    ActionResponseView { status, public_reason_code: reason, expires_at, recoverable }
}

pub open spec fn spec_invalid_selection() -> CoordinatorResult {
    CoordinatorResult::InvalidInput(view_of(PublicActionStatus::InvalidInput, PublicReasonCode::InvalidSelection, None, true))
}

fn invalid_selection() -> (r: CoordinatorResult)
    ensures
        r == spec_invalid_selection(),
{
    CoordinatorResult::InvalidInput(ActionResponseView {
        status: PublicActionStatus::InvalidInput,
        public_reason_code: PublicReasonCode::InvalidSelection,
        expires_at: None,
        recoverable: true,
    })
}

pub open spec fn sat_add64(a: u64, b: u64) -> u64 {
    if a + b > u64::MAX { u64::MAX } else { (a + b) as u64 }
}

/// The eight little-endian bytes of `x`.
pub open spec fn le_bytes(x: nat, n: nat) -> Seq<u8>
    decreases n,
{
    if n == 0 {
        Seq::empty()
    } else {
        seq![(x % 256) as u8] + le_bytes(x / 256, (n - 1) as nat)
    }
}

/// The intent of an action: its action number, then its request number, each in little-endian bytes.
pub open spec fn spec_intent_bytes(action_id: CoordinatorActionId, request_id: PlannerRequestId) -> Seq<u8> {
    le_bytes(action_id.0 as nat, 8) + le_bytes(request_id.0 as nat, 8)
}

fn write_le(bytes: &mut [u8; 16], start: usize, x: u64)
    requires
        start == 0 || start == 8,
    ensures
        forall|j: int| 0 <= j < 16 && !(start <= j < start + 8) ==> final(bytes)[j] == old(bytes)[j],
        final(bytes)@.subrange(start as int, start + 8) == le_bytes(x as nat, 8),
{
    let mut v: u64 = x;
    let mut i: usize = 0;
    while i < 8
        invariant
            start == 0 || start == 8,
            0 <= i <= 8,
            forall|j: int| 0 <= j < 16 && !(start <= j < start + i) ==> bytes[j] == old(bytes)[j],
            bytes@.subrange(start as int, start + i) + le_bytes(v as nat, (8 - i) as nat) == le_bytes(x as nat, 8),
        decreases 8 - i,
    {
        let ghost before = bytes@;
        bytes[start + i] = (v % 256) as u8;
        proof {
            let rest = le_bytes(v as nat, (8 - i) as nat);
            assert(rest == seq![(v as nat % 256) as u8] + le_bytes(v as nat / 256, (8 - i - 1) as nat));
            assert(bytes@.subrange(start as int, start + i + 1) == before.subrange(start as int, start + i).push((v % 256) as u8));
            assert(bytes@.subrange(start as int, start + i + 1) + le_bytes(v as nat / 256, (8 - i - 1) as nat)
                =~= before.subrange(start as int, start + i) + rest);
        }
        v = v / 256;
        i = i + 1;
    }
    proof {
        assert(le_bytes(v as nat, 0) =~= Seq::<u8>::empty());
        assert(bytes@.subrange(start as int, start + 8) + Seq::<u8>::empty() =~= bytes@.subrange(start as int, start + 8));
    }
}

/// The intent identifier of an action started by a request.
pub fn intent_id(action_id: CoordinatorActionId, request_id: PlannerRequestId) -> (id: IntentId)
    ensures
        id.value()@ == spec_intent_bytes(action_id, request_id),
        id == IntentId::spec_from_bytes(spec_intent_bytes(action_id, request_id)),
{
    let mut bytes = [0u8; 16];
    write_le(&mut bytes, 0, action_id.0);
    let ghost first = bytes@;
    write_le(&mut bytes, 8, request_id.0);
    proof {
        assert(bytes@.subrange(0, 8) =~= first.subrange(0, 8));
        assert(bytes@ =~= bytes@.subrange(0, 8) + bytes@.subrange(8, 16));
    }
    let id = IntentId::new(bytes);
    proof {
        IntentId::lemma_from_own_bytes(id);
    }
    id
}


/// A clarification question the active flow waits on.
#[derive(Debug, Clone, Copy, PartialEq, Eq, Structural)]
pub struct PendingClarification {
    pub clarification_id: ClarificationId,
    pub candidate_count: u8,
    pub expires_at: u64,
}

/// The action the coordinator is working on, the operation it is for, and
/// the clarification it waits on, if any.
#[derive(Debug, Clone, Copy, PartialEq, Eq)]
pub struct ActiveFlow {
    pub record: ActionConversationRecord,
    pub operation: Option<ActionOperation>,
    pub clarification: Option<PendingClarification>,
}

/// The coordinator's state as a mathematical value.
#[verifier::ext_equal]
pub struct CoordinatorView {
    pub config: CoordinatorConfig,
    pub active: Option<ActiveFlow>,
    pub records: Seq<ActionConversationRecord>,
    pub audit: Seq<CoordinatorAuditEntry>,
    pub audit_evicted: u64,
    pub next_action_id: u64,
    pub next_audit_reference: u64,
    pub replay: Seq<(ReplayKey, CoordinatorResult)>,
}

impl ActionConversationRecord {
    /// A fresh record in the planning state for a request.
    pub closed spec fn spec_fresh(
        action_id: CoordinatorActionId,
        request: ActionRequest,
        context: CoordinatorContext,
        expiry_time: u64,
        audit_reference: u64,
    ) -> Self {
        ActionConversationRecord {
            coordinator_action_id: action_id,
            conversation_id: request.conversation_id,
            session_id: request.session_id,
            requester: request.requester,
            original_request_id: request.request_id,
            current_state: CoordinatorState::Planning,
            planner_version: spec_planner_v1(),
            policy_version: context.policy_version,
            runtime_snapshot_generation: context.runtime_generation,
            application_registry_generation: context.application_registry_generation,
            settings_registry_generation: context.settings_registry_generation,
            intent_id: None,
            challenge_id: None,
            readiness_id: None,
            execution_id: None,
            creation_time: context.now,
            update_time: context.now,
            expiry_time,
            public_outcome_code: PublicReasonCode::NoReason,
            bounded_audit_reference: audit_reference,
        }
    }

    /// The record moved to `state` at `now`, to expire at `expiry_time`.
    pub closed spec fn spec_moved(self, state: CoordinatorState, now: u64, expiry_time: u64) -> Self {
        ActionConversationRecord { current_state: state, update_time: now, expiry_time, ..self }
    }

    /// The record closed in `state` with `reason` at `now`.
    pub closed spec fn spec_closed(self, state: CoordinatorState, reason: PublicReasonCode, now: u64, expiry_time: u64) -> Self {
        ActionConversationRecord { current_state: state, public_outcome_code: reason, update_time: now, expiry_time, ..self }
    }

    pub closed spec fn spec_with_plan(self, planner_version: PlannerVersion, intent_id: Option<IntentId>) -> Self {
        ActionConversationRecord { planner_version, intent_id, ..self }
    }

    pub closed spec fn spec_with_readiness(self, readiness_id: AuditId) -> Self {
        ActionConversationRecord { readiness_id: Some(readiness_id), ..self }
    }

    pub closed spec fn spec_with_execution(self, execution_id: ExecutionId) -> Self {
        ActionConversationRecord { execution_id: Some(execution_id), ..self }
    }

    pub closed spec fn spec_with_challenge(self, challenge_id: ChallengeId) -> Self {
        ActionConversationRecord { challenge_id: Some(challenge_id), ..self }
    }
}

impl CoordinatorView {
    /// The audit log after `entry`: the oldest entry leaves a full log.
    pub open spec fn logged(self, entry: CoordinatorAuditEntry) -> Self {
        if self.audit.len() >= DEFAULT_COORDINATOR_AUDIT_CAPACITY {
            CoordinatorView {
                audit: self.audit.drop_first().push(entry),
                audit_evicted: sat_add64(self.audit_evicted, 1),
                ..self
            }
        } else {
            CoordinatorView { audit: self.audit.push(entry), ..self }
        }
    }

    /// The audit entry that the active flow writes for `event`.
    pub open spec fn entry_for(active: ActiveFlow, event: CoordinatorAuditEvent, reason: PublicReasonCode, now: u64) -> CoordinatorAuditEntry {
        CoordinatorAuditEntry {
            audit_reference: active.record.spec_bounded_audit_reference(),
            action_id: active.record.spec_coordinator_action_id(),
            conversation_id: active.record.spec_conversation_id(),
            state: active.record.spec_current_state(),
            operation: active.operation,
            event,
            public_result: reason,
            timestamp: now,
        }
    }

    /// Audits `event` against the active flow; without one, nothing changes.
    pub open spec fn audited(self, event: CoordinatorAuditEvent, reason: PublicReasonCode, now: u64) -> Self {
        match self.active {
            Some(active) => self.logged(Self::entry_for(active, event, reason, now)),
            None => self,
        }
    }

    /// Opens a flow for `request`, numbered by the next action number.
    pub open spec fn created(self, request: ActionRequest, context: CoordinatorContext, expiry_time: u64) -> Self {
        let record = ActionConversationRecord::spec_fresh(
            CoordinatorActionId(self.next_action_id),
            request,
            context,
            expiry_time,
            self.next_audit_reference,
        );
        CoordinatorView {
            active: Some(ActiveFlow { record, operation: None, clarification: None }),
            next_action_id: sat_add64(self.next_action_id, 1),
            next_audit_reference: sat_add64(self.next_audit_reference, 1),
            ..self
        }.audited(CoordinatorAuditEvent::FlowCreated, PublicReasonCode::NoReason, context.now)
    }

    /// Replaces the active flow.
    pub open spec fn with_active(self, active: ActiveFlow) -> Self {
        CoordinatorView { active: Some(active), ..self }
    }

    /// Closes the active flow in `state`: its final entry is audited and its
    /// record kept, the oldest record leaving a full list.
    pub open spec fn finished(self, state: CoordinatorState, reason: PublicReasonCode, now: u64) -> Self {
        match self.active {
            Some(active) => {
                let record = active.record.spec_closed(state, reason, now, sat_add64(now, self.config.record_retention_ms));
                let closed = ActiveFlow { record, ..active };
                let v = CoordinatorView { active: None, ..self }.logged(
                    Self::entry_for(closed, CoordinatorAuditEvent::FinalState, reason, now),
                );
                CoordinatorView {
                    records: if v.records.len() >= DEFAULT_COORDINATOR_RECORD_CAPACITY {
                        v.records.drop_first().push(record)
                    } else {
                        v.records.push(record)
                    },
                    ..v
                }
            },
            None => self,
        }
    }

    /// Moves the active flow to `state` at `now`, to expire at `expiry_time`.
    pub open spec fn moved(self, state: CoordinatorState, now: u64, expiry_time: u64) -> Self {
        match self.active {
            Some(active) => self.with_active(ActiveFlow { record: active.record.spec_moved(state, now, expiry_time), ..active }),
            None => self,
        }
    }
}

/// Keeps one action at a time from request to dispatch: it decides each
/// step, and hands the planner's, policy's and confirmation authority's
/// work to its caller as the next step.
pub struct ActionCoordinator {
    config: CoordinatorConfig,
    active: Option<ActiveFlow>,
    records: Vec<ActionConversationRecord>,
    audit: Vec<CoordinatorAuditEntry>,
    audit_evicted: u64,
    next_action_id: u64,
    next_audit_reference: u64,
    replay: Vec<(ReplayKey, CoordinatorResult)>,
}

impl View for ActionCoordinator {
    type V = CoordinatorView;

    closed spec fn view(&self) -> CoordinatorView {
        CoordinatorView {
            config: self.config,
            active: self.active,
            records: self.records@,
            audit: self.audit@,
            audit_evicted: self.audit_evicted,
            next_action_id: self.next_action_id,
            next_audit_reference: self.next_audit_reference,
            replay: self.replay@,
        }
    }
}

impl ActionCoordinator {
    /// The record and audit lists stay within their capacities.
    pub open spec fn wf(&self) -> bool {
        &&& self@.records.len() <= DEFAULT_COORDINATOR_RECORD_CAPACITY
        &&& self@.audit.len() <= DEFAULT_COORDINATOR_AUDIT_CAPACITY
        &&& self@.replay.len() <= DEFAULT_COORDINATOR_REPLAY_CAPACITY
    }

    pub fn new(config: CoordinatorConfig) -> (c: Self)
        ensures
            c.wf(),
            c@.config == config,
            c@.active is None,
            c@.records.len() == 0,
            c@.audit.len() == 0,
            c@.audit_evicted == 0,
            c@.next_action_id == 1,
            c@.next_audit_reference == 1,
            c@.replay.len() == 0,
    {
        ActionCoordinator {
            config,
            active: None,
            records: Vec::new(),
            audit: Vec::new(),
            audit_evicted: 0,
            next_action_id: 1,
            next_audit_reference: 1,
            replay: Vec::new(),
        }
    }

    pub fn active_record(&self) -> (r: Option<ActionConversationRecord>)
        ensures
            r == (match self@.active {
                Some(a) => Some(a.record),
                None => None,
            }),
    {
        match self.active {
            Some(a) => Some(a.record),
            None => None,
        }
    }

    pub fn records(&self) -> (r: &Vec<ActionConversationRecord>)
        ensures
            r@ == self@.records,
    {
        &self.records
    }

    pub fn audit(&self) -> (r: &Vec<CoordinatorAuditEntry>)
        ensures
            r@ == self@.audit,
    {
        &self.audit
    }

    pub fn audit_evicted(&self) -> (r: u64)
        ensures
            r == self@.audit_evicted,
    {
        self.audit_evicted
    }

    fn log(&mut self, entry: CoordinatorAuditEntry)
        requires
            old(self).wf(),
        ensures
            final(self).wf(),
            final(self)@ == old(self)@.logged(entry),
    {
        if self.audit.len() >= DEFAULT_COORDINATOR_AUDIT_CAPACITY {
            self.audit.remove(0);
            self.audit_evicted = self.audit_evicted.saturating_add(1);
            self.audit.push(entry);
            proof {
                assert(self.audit@ =~= old(self).audit@.drop_first().push(entry));
            }
        } else {
            self.audit.push(entry);
        }
    }

    fn entry_for(active: &ActiveFlow, event: CoordinatorAuditEvent, reason: PublicReasonCode, now: u64) -> (e: CoordinatorAuditEntry)
        ensures
            e == CoordinatorView::entry_for(*active, event, reason, now),
    {
        CoordinatorAuditEntry {
            audit_reference: active.record.bounded_audit_reference,
            action_id: active.record.coordinator_action_id,
            conversation_id: active.record.conversation_id,
            state: active.record.current_state,
            operation: active.operation,
            event,
            public_result: reason,
            timestamp: now,
        }
    }

    fn audit_active(&mut self, event: CoordinatorAuditEvent, reason: PublicReasonCode, now: u64)
        requires
            old(self).wf(),
        ensures
            final(self).wf(),
            final(self)@ == old(self)@.audited(event, reason, now),
    {
        match self.active {
            Some(active) => {
                let e = Self::entry_for(&active, event, reason, now);
                self.log(e);
            },
            None => {},
        }
    }

    fn create_active(&mut self, request: &ActionRequest, context: &CoordinatorContext, expiry_time: u64)
        requires
            old(self).wf(),
        ensures
            final(self).wf(),
            final(self)@ == old(self)@.created(*request, *context, expiry_time),
    {
        let record = ActionConversationRecord {
            coordinator_action_id: CoordinatorActionId(self.next_action_id),
            conversation_id: request.conversation_id,
            session_id: request.session_id,
            requester: request.requester,
            original_request_id: request.request_id,
            current_state: CoordinatorState::Planning,
            planner_version: planner_v1(),
            policy_version: context.policy_version,
            runtime_snapshot_generation: context.runtime_generation,
            application_registry_generation: context.application_registry_generation,
            settings_registry_generation: context.settings_registry_generation,
            intent_id: None,
            challenge_id: None,
            readiness_id: None,
            execution_id: None,
            creation_time: context.now,
            update_time: context.now,
            expiry_time,
            public_outcome_code: PublicReasonCode::NoReason,
            bounded_audit_reference: self.next_audit_reference,
        };
        self.next_action_id = self.next_action_id.saturating_add(1);
        self.next_audit_reference = self.next_audit_reference.saturating_add(1);
        self.active = Some(ActiveFlow { record, operation: None, clarification: None });
        self.audit_active(CoordinatorAuditEvent::FlowCreated, PublicReasonCode::NoReason, context.now);
    }

    fn finish(&mut self, state: CoordinatorState, reason: PublicReasonCode, now: u64)
        requires
            old(self).wf(),
        ensures
            final(self).wf(),
            final(self)@ == old(self)@.finished(state, reason, now),
    {
        match self.active {
            Some(active) => {
                let mut record = active.record;
                record.current_state = state;
                record.public_outcome_code = reason;
                record.update_time = now;
                record.expiry_time = now.saturating_add(self.config.record_retention_ms);
                let closed = ActiveFlow { record, ..active };
                self.active = None;
                let e = Self::entry_for(&closed, CoordinatorAuditEvent::FinalState, reason, now);
                self.log(e);
                let ghost mid = self.records@;
                if self.records.len() >= DEFAULT_COORDINATOR_RECORD_CAPACITY {
                    self.records.remove(0);
                    self.records.push(record);
                    proof {
                        assert(self.records@ =~= mid.drop_first().push(record));
                    }
                } else {
                    self.records.push(record);
                }
            },
            None => {},
        }
    }

    fn move_active(&mut self, state: CoordinatorState, now: u64, expiry_time: u64)
        ensures
            final(self)@ == old(self)@.moved(state, now, expiry_time),
    {
        match self.active {
            Some(active) => {
                let mut a = active;
                a.record.current_state = state;
                a.record.update_time = now;
                a.record.expiry_time = expiry_time;
                self.active = Some(a);
            },
            None => {},
        }
    }
}


/// Whether a confirmation response answers the active flow's outstanding
/// challenge, from the session and responder that the flow belongs to.
pub open spec fn confirmation_admitted(active: ActiveFlow, bound: BoundConfirmationResponse, context: CoordinatorContext) -> bool {
    &&& active.record.spec_current_state() == CoordinatorState::AwaitingConfirmation
    &&& active.record.spec_coordinator_action_id() == bound.action_id
    &&& active.record.spec_challenge_id() == Some(bound.response.spec_challenge_id())
    &&& active.record.spec_session_id() == bound.response.spec_session_id()
    &&& context.session_id == bound.response.spec_session_id()
    &&& context.responder == bound.response.spec_responder()
    &&& context.requester == active.record.spec_requester()
}

/// Whether a cancellation names the active flow, which still waits for the user.
pub open spec fn cancellation_admitted(active: ActiveFlow, cancel: CancelPendingAction, context: CoordinatorContext) -> bool {
    &&& active.record.spec_current_state().spec_is_pending()
    &&& active.record.spec_coordinator_action_id() == cancel.action_id
    &&& active.record.spec_conversation_id() == cancel.conversation_id
    &&& active.record.spec_session_id() == cancel.session_id
    &&& active.record.spec_requester() == cancel.requester
    &&& context.conversation_id == cancel.conversation_id
    &&& context.session_id == cancel.session_id
}

impl CoordinatorView {
    /// What the coordinator does with the planner's answer to a request.
    pub open spec fn after_plan(self, request: ActionRequest, result: PlannerResult, context: CoordinatorContext) -> (CoordinatorView, CoordinatorStep) {
        let now = context.now;
        match self.active {
            Some(active) => (self, CoordinatorStep::Reply(match result {
                PlannerResult::NoAction => CoordinatorResult::NoAction(
                    view_of(PublicActionStatus::NoStatus, PublicReasonCode::NoReason, None, true),
                ),
                PlannerResult::InvalidInput => CoordinatorResult::InvalidInput(
                    view_of(PublicActionStatus::InvalidInput, PublicReasonCode::InvalidInput, None, true),
                ),
                PlannerResult::Unsupported(_) | PlannerResult::Unknown => CoordinatorResult::ActionUnsupported(
                    view_of(PublicActionStatus::Unsupported, PublicReasonCode::Unsupported, None, true),
                ),
                _ => CoordinatorResult::ActionAlreadyPending(
                    view_of(
                        PublicActionStatus::AlreadyPending,
                        PublicReasonCode::ActionAlreadyPending,
                        Some(active.record.spec_expiry_time()),
                        true,
                    ),
                ),
            })),
            None => match result {
                PlannerResult::NoAction => (self, CoordinatorStep::Reply(CoordinatorResult::NoAction(
                    view_of(PublicActionStatus::NoStatus, PublicReasonCode::NoReason, None, false),
                ))),
                PlannerResult::InvalidInput => (self, CoordinatorStep::Reply(CoordinatorResult::InvalidInput(
                    view_of(PublicActionStatus::InvalidInput, PublicReasonCode::InvalidInput, None, false),
                ))),
                PlannerResult::Unsupported(reason) => {
                    let code = spec_unsupported_reason(reason);
                    (
                        self.created(request, context, now).audited(
                            CoordinatorAuditEvent::PlannerResultReceived,
                            PublicReasonCode::Unsupported,
                            now,
                        ).finished(CoordinatorState::Rejected, code, now),
                        CoordinatorStep::Reply(CoordinatorResult::ActionUnsupported(
                            view_of(PublicActionStatus::Unsupported, code, None, false),
                        )),
                    )
                },
                PlannerResult::Unknown => (self, CoordinatorStep::Reply(CoordinatorResult::Unknown(
                    view_of(PublicActionStatus::Unknown, PublicReasonCode::Unknown, None, false),
                ))),
                PlannerResult::NeedsClarification {
                    planner_version,
                    clarification_id,
                    candidate_count,
                    expires_at,
                    first_operation,
                } => {
                    let v = self.created(request, context, expires_at);
                    let record = v.active.unwrap().record;
                    let v2 = v.with_active(ActiveFlow {
                        record: record.spec_with_plan(planner_version, None).spec_moved(
                            CoordinatorState::AwaitingClarification,
                            now,
                            expires_at,
                        ),
                        operation: first_operation,
                        clarification: Some(PendingClarification { clarification_id, candidate_count, expires_at }),
                    });
                    (
                        v2.audited(CoordinatorAuditEvent::PlannerResultReceived, PublicReasonCode::ClarificationNeeded, now)
                            .audited(CoordinatorAuditEvent::ClarificationIssued, PublicReasonCode::ClarificationNeeded, now),
                        CoordinatorStep::Reply(CoordinatorResult::ClarificationRequired(
                            view_of(
                                PublicActionStatus::ClarificationRequired,
                                PublicReasonCode::ClarificationNeeded,
                                Some(expires_at),
                                true,
                            ),
                        )),
                    )
                },
                PlannerResult::Proposed { planner_version, operation } => {
                    let expiry = (now + self.config.ready_ttl_ms) as u64;
                    let v = self.created(request, context, expiry);
                    let record = v.active.unwrap().record;
                    let id = IntentId::spec_from_bytes(
                        spec_intent_bytes(CoordinatorActionId(self.next_action_id), request.request_id),
                    );
                    let v2 = v.with_active(ActiveFlow {
                        record: record.spec_with_plan(planner_version, Some(id)),
                        operation: Some(operation),
                        clarification: None,
                    });
                    (
                        v2.audited(CoordinatorAuditEvent::PlannerResultReceived, PublicReasonCode::NoReason, now)
                            .moved(CoordinatorState::EvaluatingPolicy, now, expiry),
                        CoordinatorStep::EvaluatePolicy,
                    )
                },
            },
        }
    }

    /// The active flow closes as rejected by policy.
    pub open spec fn policy_denied(self, now: u64) -> (CoordinatorView, CoordinatorStep) {
        (
            self.finished(CoordinatorState::Rejected, PublicReasonCode::PolicyDenied, now),
            CoordinatorStep::Reply(CoordinatorResult::ActionRejected(
                view_of(PublicActionStatus::Rejected, PublicReasonCode::PolicyDenied, None, false),
            )),
        )
    }

    /// What the coordinator does with policy's answer for the active intent.
    pub open spec fn after_policy(self, outcome: PolicyOutcome, context: CoordinatorContext) -> (CoordinatorView, CoordinatorStep) {
        let now = context.now;
        match self.active {
            Some(active) if active.record.spec_current_state() == CoordinatorState::EvaluatingPolicy => {
                let v = self.audited(CoordinatorAuditEvent::PolicyResultReceived, PublicReasonCode::NoReason, now);
                match outcome {
                    PolicyOutcome::Decided(PolicyResult::Allowed) => (
                        v.moved(CoordinatorState::PreparingExecution, now, sat_add64(now, self.config.ready_ttl_ms)),
                        CoordinatorStep::PrepareExecution,
                    ),
                    PolicyOutcome::Decided(PolicyResult::ConfirmationRequired) => (v, CoordinatorStep::IssueConfirmation),
                    _ => v.policy_denied(now),
                }
            },
            _ => (self, CoordinatorStep::Reply(spec_invalid_selection())),
        }
    }

    /// The active flow closes as invalidated for `reason`.
    pub open spec fn invalidated(self, reason: PublicReasonCode, now: u64) -> (CoordinatorView, CoordinatorStep) {
        (
            self.audited(CoordinatorAuditEvent::Invalidation, reason, now).finished(CoordinatorState::Invalidated, reason, now),
            CoordinatorStep::Reply(CoordinatorResult::ActionInvalidated(
                view_of(PublicActionStatus::Invalidated, reason, None, false),
            )),
        )
    }

    /// The active flow closes as expired.
    pub open spec fn expired(self, now: u64) -> (CoordinatorView, CoordinatorStep) {
        (
            self.audited(CoordinatorAuditEvent::Expiry, PublicReasonCode::Expired, now).finished(
                CoordinatorState::Expired,
                PublicReasonCode::Expired,
                now,
            ),
            CoordinatorStep::Reply(CoordinatorResult::ActionExpired(
                view_of(PublicActionStatus::Expired, PublicReasonCode::Expired, None, false),
            )),
        )
    }

    /// What the coordinator does once the authority created a challenge
    /// (`Some`) or could not (`None`).
    pub open spec fn after_challenge(self, challenge: Option<ChallengeId>, context: CoordinatorContext) -> (CoordinatorView, CoordinatorStep) {
        let now = context.now;
        match self.active {
            Some(active) if active.record.spec_current_state() == CoordinatorState::EvaluatingPolicy => match challenge {
                Some(id) => {
                    let expires = sat_add64(now, self.config.confirmation_ttl_ms);
                    let v = self.with_active(ActiveFlow {
                        record: active.record.spec_with_challenge(id).spec_moved(
                            CoordinatorState::AwaitingConfirmation,
                            now,
                            expires,
                        ),
                        ..active
                    });
                    (
                        v.audited(
                            CoordinatorAuditEvent::ConfirmationChallengeIssued,
                            PublicReasonCode::ConfirmationNeeded,
                            now,
                        ),
                        CoordinatorStep::Reply(CoordinatorResult::ConfirmationRequired(
                            view_of(
                                PublicActionStatus::ConfirmationRequired,
                                PublicReasonCode::ConfirmationNeeded,
                                Some(expires),
                                true,
                            ),
                        )),
                    )
                },
                None => self.invalidated(PublicReasonCode::Unknown, now),
            },
            _ => (self, CoordinatorStep::Reply(spec_invalid_selection())),
        }
    }

    /// What the coordinator does with a confirmation response before the
    /// authority sees it.
    pub open spec fn after_confirmation_response(self, bound: BoundConfirmationResponse, context: CoordinatorContext) -> (CoordinatorView, CoordinatorStep) {
        match self.active {
            Some(active) => if confirmation_admitted(active, bound, context) {
                (self, CoordinatorStep::AcceptConfirmation)
            } else {
                (
                    self.audited(
                        CoordinatorAuditEvent::ConfirmationResponseRejected,
                        PublicReasonCode::InvalidInput,
                        context.now,
                    ),
                    CoordinatorStep::Reply(spec_invalid_selection()),
                )
            },
            None => (self, CoordinatorStep::Reply(spec_invalid_selection())),
        }
    }

    /// What the coordinator does with the authority's answer to an admitted
    /// confirmation response.
    pub open spec fn after_confirmation_answer(
        self,
        bound: BoundConfirmationResponse,
        answer: ConfirmationAnswer,
        context: CoordinatorContext,
    ) -> (CoordinatorView, CoordinatorStep) {
        let now = context.now;
        match self.active {
            Some(active) if confirmation_admitted(active, bound, context) => match answer {
                ConfirmationAnswer::Granted => (
                    self.audited(CoordinatorAuditEvent::ConfirmationResponseAccepted, PublicReasonCode::NoReason, now)
                        .moved(CoordinatorState::PreparingExecution, now, sat_add64(now, self.config.ready_ttl_ms)),
                    CoordinatorStep::PrepareExecution,
                ),
                ConfirmationAnswer::Declined => {
                    let (state, reason, result) = match bound.response.spec_response_type() {
                        ConfirmationResponseType::Cancelled => (
                            CoordinatorState::Cancelled,
                            PublicReasonCode::CancelledByUser,
                            CoordinatorResult::ActionCancelled(
                                view_of(PublicActionStatus::Cancelled, PublicReasonCode::CancelledByUser, None, false),
                            ),
                        ),
                        ConfirmationResponseType::Expired => (
                            CoordinatorState::Expired,
                            PublicReasonCode::Expired,
                            CoordinatorResult::ActionExpired(
                                view_of(PublicActionStatus::Expired, PublicReasonCode::Expired, None, false),
                            ),
                        ),
                        _ => (
                            CoordinatorState::Rejected,
                            PublicReasonCode::RejectedByUser,
                            CoordinatorResult::ActionRejected(
                                view_of(PublicActionStatus::Rejected, PublicReasonCode::RejectedByUser, None, false),
                            ),
                        ),
                    };
                    (
                        self.audited(CoordinatorAuditEvent::ConfirmationResponseAccepted, reason, now).finished(state, reason, now),
                        CoordinatorStep::Reply(result),
                    )
                },
                ConfirmationAnswer::Refused => if bound.response.spec_submitted_at().0 > active.record.spec_expiry_time() {
                    self.expired(now)
                } else {
                    self.audited(
                        CoordinatorAuditEvent::ConfirmationResponseRejected,
                        PublicReasonCode::InvalidInput,
                        now,
                    ).invalidated(PublicReasonCode::InvalidInput, now)
                },
            },
            _ => (self, CoordinatorStep::Reply(spec_invalid_selection())),
        }
    }

    /// What the coordinator does with a request to cancel the pending action.
    pub open spec fn after_cancel(self, cancel: CancelPendingAction, context: CoordinatorContext) -> (CoordinatorView, CoordinatorResult) {
        match self.active {
            Some(active) if cancellation_admitted(active, cancel, context) => (
                self.audited(CoordinatorAuditEvent::Cancellation, PublicReasonCode::CancelledByUser, context.now).finished(
                    CoordinatorState::Cancelled,
                    PublicReasonCode::CancelledByUser,
                    context.now,
                ),
                CoordinatorResult::ActionCancelled(
                    view_of(PublicActionStatus::Cancelled, PublicReasonCode::CancelledByUser, None, false),
                ),
            ),
            _ => (self, spec_invalid_selection()),
        }
    }
}


fn reply_view(status: PublicActionStatus, reason: PublicReasonCode, expires_at: Option<u64>, recoverable: bool) -> (v: ActionResponseView)
    ensures
        v == view_of(status, reason, expires_at, recoverable),
{
    ActionResponseView { status, public_reason_code: reason, expires_at, recoverable }
}

impl ActionCoordinator {
    fn active_flow(&self) -> (a: ActiveFlow)
        requires
            self@.active is Some,
        ensures
            a == self@.active.unwrap(),
    {
        match self.active {
            Some(a) => a,
            None => {
                proof {
                    assert(false);
                }
                self.active.unwrap()
            },
        }
    }

    /// Decides what a user request comes to, given the planner's answer to it.
    /// With a flow active, nothing changes and the answer says why; without
    /// one, a refusal is recorded as rejected, a clarification opens a flow
    /// that waits for the user, and a proposal opens a flow whose intent
    /// goes to policy next.
    pub fn user_request(&mut self, request: &ActionRequest, result: PlannerResult, context: &CoordinatorContext) -> (r: CoordinatorStep)
        requires
            old(self).wf(),
            old(self)@.active is None && result is Proposed ==> context.now + old(self)@.config.ready_ttl_ms
                <= u64::MAX,
        ensures
            final(self).wf(),
            (final(self)@, r) == old(self)@.after_plan(*request, result, *context),
    {
        let now = context.now;
        match self.active {
            Some(active) => {
                let r = match result {
                    PlannerResult::NoAction => CoordinatorResult::NoAction(
                        reply_view(PublicActionStatus::NoStatus, PublicReasonCode::NoReason, None, true),
                    ),
                    PlannerResult::InvalidInput => CoordinatorResult::InvalidInput(
                        reply_view(PublicActionStatus::InvalidInput, PublicReasonCode::InvalidInput, None, true),
                    ),
                    PlannerResult::Unsupported(_) | PlannerResult::Unknown => CoordinatorResult::ActionUnsupported(
                        reply_view(PublicActionStatus::Unsupported, PublicReasonCode::Unsupported, None, true),
                    ),
                    _ => CoordinatorResult::ActionAlreadyPending(
                        reply_view(
                            PublicActionStatus::AlreadyPending,
                            PublicReasonCode::ActionAlreadyPending,
                            Some(active.record.expiry_time),
                            true,
                        ),
                    ),
                };
                return CoordinatorStep::Reply(r);
            },
            None => {},
        }
        match result {
            PlannerResult::NoAction => CoordinatorStep::Reply(CoordinatorResult::NoAction(
                reply_view(PublicActionStatus::NoStatus, PublicReasonCode::NoReason, None, false),
            )),
            PlannerResult::InvalidInput => CoordinatorStep::Reply(CoordinatorResult::InvalidInput(
                reply_view(PublicActionStatus::InvalidInput, PublicReasonCode::InvalidInput, None, false),
            )),
            PlannerResult::Unsupported(reason) => {
                let code = unsupported_reason(reason);
                self.create_active(request, context, now);
                self.audit_active(CoordinatorAuditEvent::PlannerResultReceived, PublicReasonCode::Unsupported, now);
                self.finish(CoordinatorState::Rejected, code, now);
                CoordinatorStep::Reply(CoordinatorResult::ActionUnsupported(
                    reply_view(PublicActionStatus::Unsupported, code, None, false),
                ))
            },
            PlannerResult::Unknown => CoordinatorStep::Reply(CoordinatorResult::Unknown(
                reply_view(PublicActionStatus::Unknown, PublicReasonCode::Unknown, None, false),
            )),
            PlannerResult::NeedsClarification {
                planner_version,
                clarification_id,
                candidate_count,
                expires_at,
                first_operation,
            } => {
                self.create_active(request, context, expires_at);
                let a = self.active_flow();
                let mut record = a.record;
                record.planner_version = planner_version;
                record.current_state = CoordinatorState::AwaitingClarification;
                record.update_time = now;
                record.expiry_time = expires_at;
                self.active = Some(
                    ActiveFlow {
                        record,
                        operation: first_operation,
                        clarification: Some(PendingClarification { clarification_id, candidate_count, expires_at }),
                    },
                );
                self.audit_active(
                    CoordinatorAuditEvent::PlannerResultReceived,
                    PublicReasonCode::ClarificationNeeded,
                    now,
                );
                self.audit_active(CoordinatorAuditEvent::ClarificationIssued, PublicReasonCode::ClarificationNeeded, now);
                CoordinatorStep::Reply(CoordinatorResult::ClarificationRequired(
                    reply_view(
                        PublicActionStatus::ClarificationRequired,
                        PublicReasonCode::ClarificationNeeded,
                        Some(expires_at),
                        true,
                    ),
                ))
            },
            PlannerResult::Proposed { planner_version, operation } => {
                let expiry = now + self.config.ready_ttl_ms;
                let action_id = CoordinatorActionId(self.next_action_id);
                self.create_active(request, context, expiry);
                let id = intent_id(action_id, request.request_id);
                let a = self.active_flow();
                let mut record = a.record;
                record.planner_version = planner_version;
                record.intent_id = Some(id);
                self.active = Some(ActiveFlow { record, operation: Some(operation), clarification: None });
                self.audit_active(CoordinatorAuditEvent::PlannerResultReceived, PublicReasonCode::NoReason, now);
                self.move_active(CoordinatorState::EvaluatingPolicy, now, expiry);
                CoordinatorStep::EvaluatePolicy
            },
        }
    }
}


fn option_challenge_is(held: Option<ChallengeId>, id: &ChallengeId) -> (r: bool)
    ensures
        r == (held == Some(*id)),
{
    match held {
        Some(h) => h.same_as(id),
        None => false,
    }
}

fn admits_confirmation(active: &ActiveFlow, bound: &BoundConfirmationResponse, context: &CoordinatorContext) -> (r: bool)
    ensures
        r == confirmation_admitted(*active, *bound, *context),
{
    let response = &bound.response;
    active.record.current_state == CoordinatorState::AwaitingConfirmation
        && active.record.coordinator_action_id == bound.action_id
        && option_challenge_is(active.record.challenge_id, &response.challenge_id())
        && active.record.session_id == response.session_id()
        && context.session_id == response.session_id()
        && context.responder == response.responder()
        && context.requester == active.record.requester
}

fn admits_cancellation(active: &ActiveFlow, cancel: &CancelPendingAction, context: &CoordinatorContext) -> (r: bool)
    ensures
        r == cancellation_admitted(*active, *cancel, *context),
{
    active.record.current_state.is_pending()
        && active.record.coordinator_action_id == cancel.action_id
        && active.record.conversation_id == cancel.conversation_id
        && active.record.session_id == cancel.session_id
        && active.record.requester == cancel.requester
        && context.conversation_id == cancel.conversation_id
        && context.session_id == cancel.session_id
}

impl ActionCoordinator {
    fn deny_by_policy(&mut self, now: u64) -> (r: CoordinatorStep)
        requires
            old(self).wf(),
        ensures
            final(self).wf(),
            (final(self)@, r) == old(self)@.policy_denied(now),
    {
        self.finish(CoordinatorState::Rejected, PublicReasonCode::PolicyDenied, now);
        CoordinatorStep::Reply(CoordinatorResult::ActionRejected(
            reply_view(PublicActionStatus::Rejected, PublicReasonCode::PolicyDenied, None, false),
        ))
    }

    fn invalidate_active(&mut self, reason: PublicReasonCode, now: u64) -> (r: CoordinatorStep)
        requires
            old(self).wf(),
        ensures
            final(self).wf(),
            (final(self)@, r) == old(self)@.invalidated(reason, now),
    {
        self.audit_active(CoordinatorAuditEvent::Invalidation, reason, now);
        self.finish(CoordinatorState::Invalidated, reason, now);
        CoordinatorStep::Reply(CoordinatorResult::ActionInvalidated(
            reply_view(PublicActionStatus::Invalidated, reason, None, false),
        ))
    }

    fn expire_active(&mut self, now: u64) -> (r: CoordinatorStep)
        requires
            old(self).wf(),
        ensures
            final(self).wf(),
            (final(self)@, r) == old(self)@.expired(now),
    {
        self.audit_active(CoordinatorAuditEvent::Expiry, PublicReasonCode::Expired, now);
        self.finish(CoordinatorState::Expired, PublicReasonCode::Expired, now);
        CoordinatorStep::Reply(CoordinatorResult::ActionExpired(
            reply_view(PublicActionStatus::Expired, PublicReasonCode::Expired, None, false),
        ))
    }

    /// Decides what policy's answer for the active intent comes to: an
    /// allowed intent goes on to execution, one that needs confirmation to
    /// a challenge, and any other is rejected.
    pub fn on_policy_result(&mut self, outcome: PolicyOutcome, context: &CoordinatorContext) -> (r: CoordinatorStep)
        requires
            old(self).wf(),
        ensures
            final(self).wf(),
            (final(self)@, r) == old(self)@.after_policy(outcome, *context),
    {
        let now = context.now;
        let evaluating = match self.active {
            Some(a) => a.record.current_state == CoordinatorState::EvaluatingPolicy,
            None => false,
        };
        if !evaluating {
            return CoordinatorStep::Reply(invalid_selection());
        }
        self.audit_active(CoordinatorAuditEvent::PolicyResultReceived, PublicReasonCode::NoReason, now);
        match outcome {
            PolicyOutcome::Decided(PolicyResult::Allowed) => {
                let expiry = now.saturating_add(self.config.ready_ttl_ms);
                self.move_active(CoordinatorState::PreparingExecution, now, expiry);
                CoordinatorStep::PrepareExecution
            },
            PolicyOutcome::Decided(PolicyResult::ConfirmationRequired) => CoordinatorStep::IssueConfirmation,
            _ => self.deny_by_policy(now),
        }
    }

    /// Decides what comes of the challenge the authority created for the
    /// active intent (`None` when it could not create one).
    pub fn on_challenge_created(&mut self, challenge: Option<ChallengeId>, context: &CoordinatorContext) -> (r: CoordinatorStep)
        requires
            old(self).wf(),
        ensures
            final(self).wf(),
            (final(self)@, r) == old(self)@.after_challenge(challenge, *context),
    {
        let now = context.now;
        let evaluating = match self.active {
            Some(a) => a.record.current_state == CoordinatorState::EvaluatingPolicy,
            None => false,
        };
        if !evaluating {
            return CoordinatorStep::Reply(invalid_selection());
        }
        match challenge {
            Some(id) => {
                let expires = now.saturating_add(self.config.confirmation_ttl_ms);
                let a = self.active_flow();
                let mut record = a.record;
                record.challenge_id = Some(id);
                record.current_state = CoordinatorState::AwaitingConfirmation;
                record.update_time = now;
                record.expiry_time = expires;
                self.active = Some(ActiveFlow { record, ..a });
                self.audit_active(
                    CoordinatorAuditEvent::ConfirmationChallengeIssued,
                    PublicReasonCode::ConfirmationNeeded,
                    now,
                );
                CoordinatorStep::Reply(CoordinatorResult::ConfirmationRequired(
                    reply_view(
                        PublicActionStatus::ConfirmationRequired,
                        PublicReasonCode::ConfirmationNeeded,
                        Some(expires),
                        true,
                    ),
                ))
            },
            None => self.invalidate_active(PublicReasonCode::Unknown, now),
        }
    }

    /// Checks a confirmation response against the active flow before the
    /// authority sees it: one that does not answer the flow's challenge,
    /// from its session and responder, is refused and audited.
    pub fn confirmation_response(&mut self, bound: &BoundConfirmationResponse, context: &CoordinatorContext) -> (r: CoordinatorStep)
        requires
            old(self).wf(),
        ensures
            final(self).wf(),
            (final(self)@, r) == old(self)@.after_confirmation_response(*bound, *context),
    {
        match self.active {
            Some(active) => {
                if admits_confirmation(&active, bound, context) {
                    CoordinatorStep::AcceptConfirmation
                } else {
                    self.audit_active(
                        CoordinatorAuditEvent::ConfirmationResponseRejected,
                        PublicReasonCode::InvalidInput,
                        context.now,
                    );
                    CoordinatorStep::Reply(invalid_selection())
                }
            },
            None => CoordinatorStep::Reply(invalid_selection()),
        }
    }

    /// Decides what the authority's answer to an admitted confirmation
    /// response comes to: a grant goes on to execution; an accepted
    /// refusal, cancellation or expiry closes the flow so; a response the
    /// authority refused expires the flow when it came late and
    /// invalidates it otherwise.
    pub fn on_confirmation_answer(
        &mut self,
        bound: &BoundConfirmationResponse,
        answer: ConfirmationAnswer,
        context: &CoordinatorContext,
    ) -> (r: CoordinatorStep)
        requires
            old(self).wf(),
        ensures
            final(self).wf(),
            (final(self)@, r) == old(self)@.after_confirmation_answer(*bound, answer, *context),
    {
        let now = context.now;
        let active = match self.active {
            Some(a) => a,
            None => {
                return CoordinatorStep::Reply(invalid_selection());
            },
        };
        if !admits_confirmation(&active, bound, context) {
            return CoordinatorStep::Reply(invalid_selection());
        }
        match answer {
            ConfirmationAnswer::Granted => {
                self.audit_active(
                    CoordinatorAuditEvent::ConfirmationResponseAccepted,
                    PublicReasonCode::NoReason,
                    now,
                );
                let expiry = now.saturating_add(self.config.ready_ttl_ms);
                self.move_active(CoordinatorState::PreparingExecution, now, expiry);
                CoordinatorStep::PrepareExecution
            },
            ConfirmationAnswer::Declined => {
                let (state, reason, result) = match bound.response.response_type() {
                    ConfirmationResponseType::Cancelled => (
                        CoordinatorState::Cancelled,
                        PublicReasonCode::CancelledByUser,
                        CoordinatorResult::ActionCancelled(
                            reply_view(PublicActionStatus::Cancelled, PublicReasonCode::CancelledByUser, None, false),
                        ),
                    ),
                    ConfirmationResponseType::Expired => (
                        CoordinatorState::Expired,
                        PublicReasonCode::Expired,
                        CoordinatorResult::ActionExpired(
                            reply_view(PublicActionStatus::Expired, PublicReasonCode::Expired, None, false),
                        ),
                    ),
                    _ => (
                        CoordinatorState::Rejected,
                        PublicReasonCode::RejectedByUser,
                        CoordinatorResult::ActionRejected(
                            reply_view(PublicActionStatus::Rejected, PublicReasonCode::RejectedByUser, None, false),
                        ),
                    ),
                };
                self.audit_active(CoordinatorAuditEvent::ConfirmationResponseAccepted, reason, now);
                self.finish(state, reason, now);
                CoordinatorStep::Reply(result)
            },
            ConfirmationAnswer::Refused => {
                if bound.response.submitted_at().0 > active.record.expiry_time {
                    self.expire_active(now)
                } else {
                    self.audit_active(
                        CoordinatorAuditEvent::ConfirmationResponseRejected,
                        PublicReasonCode::InvalidInput,
                        now,
                    );
                    self.invalidate_active(PublicReasonCode::InvalidInput, now)
                }
            },
        }
    }

    /// Cancels the pending action the request names. When that action
    /// awaited confirmation, the caller also hands the authority a
    /// cancellation for its challenge.
    pub fn cancel(&mut self, cancel: &CancelPendingAction, context: &CoordinatorContext) -> (r: CoordinatorResult)
        requires
            old(self).wf(),
        ensures
            final(self).wf(),
            (final(self)@, r) == old(self)@.after_cancel(*cancel, *context),
    {
        let active = match self.active {
            Some(a) => a,
            None => {
                return invalid_selection();
            },
        };
        if !admits_cancellation(&active, cancel, context) {
            return invalid_selection();
        }
        self.audit_active(CoordinatorAuditEvent::Cancellation, PublicReasonCode::CancelledByUser, context.now);
        self.finish(CoordinatorState::Cancelled, PublicReasonCode::CancelledByUser, context.now);
        CoordinatorResult::ActionCancelled(
            reply_view(PublicActionStatus::Cancelled, PublicReasonCode::CancelledByUser, None, false),
        )
    }
}


/// Execution is reached only through policy's allowance of the intent under
/// evaluation, or through the authority's grant for a response that answers
/// the outstanding challenge; a request never reaches it directly, and a
/// request made while a flow is active changes nothing. Dispatch follows
/// only a ready envelope prepared for a flow preparing execution.
pub proof fn lemma_execution_needs_allowance_or_grant(
    v: CoordinatorView,
    request: ActionRequest,
    planned: PlannerResult,
    outcome: PolicyOutcome,
    challenge: Option<ChallengeId>,
    bound: BoundConfirmationResponse,
    answer: ConfirmationAnswer,
    clarification: ClarificationResponse,
    readiness: Option<AuditId>,
    context: CoordinatorContext,
)
    ensures
        v.after_plan(request, planned, context).1 != CoordinatorStep::PrepareExecution,
        v.after_clarification_response(clarification, context).1 != CoordinatorStep::PrepareExecution,
        v.after_ready(readiness, context).1 == CoordinatorStep::Dispatch ==> {
            &&& readiness is Some
            &&& v.active.unwrap().record.spec_current_state() == CoordinatorState::PreparingExecution
        },
        v.after_clarification_plan(clarification, planned, context).1 != CoordinatorStep::PrepareExecution,
        v.active is Some ==> v.after_plan(request, planned, context).0 == v,
        v.after_policy(outcome, context).1 == CoordinatorStep::PrepareExecution ==> {
            &&& outcome == PolicyOutcome::Decided(PolicyResult::Allowed)
            &&& v.active.unwrap().record.spec_current_state() == CoordinatorState::EvaluatingPolicy
        },
        v.after_challenge(challenge, context).1 != CoordinatorStep::PrepareExecution,
        v.after_confirmation_response(bound, context).1 != CoordinatorStep::PrepareExecution,
        v.after_confirmation_answer(bound, answer, context).1 == CoordinatorStep::PrepareExecution ==> {
            &&& answer == ConfirmationAnswer::Granted
            &&& confirmation_admitted(v.active.unwrap(), bound, context)
        },
{
}


/// Why the world the active flow was planned in no longer holds, if it
/// does not: policy first, then the runtime, then the registry its
/// operation targets.
pub open spec fn spec_environment_reason(
    record: ActionConversationRecord,
    runtime_generation: u64,
    policy_version: PolicyVersion,
    application_registry_generation: u64,
    settings_registry_generation: u64,
    operation: Option<ActionOperation>,
) -> Option<PublicReasonCode> {
    if record.spec_policy_version() != policy_version {
        Some(PublicReasonCode::PolicyChanged)
    } else if record.spec_runtime_snapshot_generation() != runtime_generation {
        Some(PublicReasonCode::RuntimeChanged)
    } else if operation == Some(ActionOperation::OpenApplication)
        && record.spec_application_registry_generation() != application_registry_generation {
        Some(PublicReasonCode::ApplicationRegistryChanged)
    } else if operation == Some(ActionOperation::OpenSettingsPage)
        && record.spec_settings_registry_generation() != settings_registry_generation {
        Some(PublicReasonCode::SettingsRegistryChanged)
    } else {
        None
    }
}

pub fn environment_reason(
    record: &ActionConversationRecord,
    runtime_generation: u64,
    policy_version: PolicyVersion,
    application_registry_generation: u64,
    settings_registry_generation: u64,
    operation: Option<ActionOperation>,
) -> (r: Option<PublicReasonCode>)
    ensures
        r == spec_environment_reason(
            *record,
            runtime_generation,
            policy_version,
            application_registry_generation,
            settings_registry_generation,
            operation,
        ),
{
    if record.policy_version != policy_version {
        return Some(PublicReasonCode::PolicyChanged);
    }
    if record.runtime_snapshot_generation != runtime_generation {
        return Some(PublicReasonCode::RuntimeChanged);
    }
    let opens_app = match operation {
        Some(ActionOperation::OpenApplication) => true,
        _ => false,
    };
    let opens_settings = match operation {
        Some(ActionOperation::OpenSettingsPage) => true,
        _ => false,
    };
    if opens_app && record.application_registry_generation != application_registry_generation {
        return Some(PublicReasonCode::ApplicationRegistryChanged);
    }
    if opens_settings && record.settings_registry_generation != settings_registry_generation {
        return Some(PublicReasonCode::SettingsRegistryChanged);
    }
    None
}

/// A flow's world has changed exactly when the policy version, the runtime
/// generation, or the generation of the registry its operation targets
/// differs from the one it was planned under; a changed policy is reported
/// first, then a changed runtime, then the registry.
pub proof fn lemma_environment_reason_reports_changes(
    record: ActionConversationRecord,
    runtime_generation: u64,
    policy_version: PolicyVersion,
    application_registry_generation: u64,
    settings_registry_generation: u64,
    operation: Option<ActionOperation>,
)
    ensures
        ({
            let r = spec_environment_reason(
                record,
                runtime_generation,
                policy_version,
                application_registry_generation,
                settings_registry_generation,
                operation,
            );
            let policy_changed = record.spec_policy_version() != policy_version;
            let runtime_changed = record.spec_runtime_snapshot_generation() != runtime_generation;
            let apps_changed = operation == Some(ActionOperation::OpenApplication)
                && record.spec_application_registry_generation() != application_registry_generation;
            let settings_changed = operation == Some(ActionOperation::OpenSettingsPage)
                && record.spec_settings_registry_generation() != settings_registry_generation;
            &&& r is None <==> !(policy_changed || runtime_changed || apps_changed || settings_changed)
            &&& policy_changed ==> r == Some(PublicReasonCode::PolicyChanged)
            &&& !policy_changed && runtime_changed ==> r == Some(PublicReasonCode::RuntimeChanged)
            &&& !policy_changed && !runtime_changed && apps_changed ==> r == Some(
                PublicReasonCode::ApplicationRegistryChanged,
            )
            &&& !policy_changed && !runtime_changed && settings_changed ==> r == Some(
                PublicReasonCode::SettingsRegistryChanged,
            )
        }),
{
}

pub open spec fn spec_no_action() -> CoordinatorResult {
    CoordinatorResult::NoAction(view_of(PublicActionStatus::NoStatus, PublicReasonCode::NoReason, None, false))
}

fn no_action() -> (r: CoordinatorResult)
    ensures
        r == spec_no_action(),
{
    CoordinatorResult::NoAction(reply_view(PublicActionStatus::NoStatus, PublicReasonCode::NoReason, None, false))
}

impl CoordinatorView {
    /// What the coordinator checks before any input other than a session end
    /// or an invalidation: a flow whose conversation, session or requester
    /// changed, or whose session is no longer active, is invalidated; so is
    /// one whose environment changed; a pending flow past its expiry
    /// expires. `None` when the input may proceed.
    pub open spec fn before_input(self, context: CoordinatorContext) -> (CoordinatorView, Option<CoordinatorResult>) {
        match self.active {
            Some(active) => {
                let r = active.record;
                if r.spec_conversation_id() != context.conversation_id || r.spec_session_id() != context.session_id
                    || r.spec_requester() != context.requester || context.session_status != SessionStatus::Active {
                    let (v, step) = self.invalidated(PublicReasonCode::SessionChanged, context.now);
                    (v, Some(step->Reply_0))
                } else {
                    match spec_environment_reason(
                        r,
                        context.runtime_generation,
                        context.policy_version,
                        context.application_registry_generation,
                        context.settings_registry_generation,
                        active.operation,
                    ) {
                        Some(reason) => {
                            let (v, step) = self.invalidated(reason, context.now);
                            (v, Some(step->Reply_0))
                        },
                        None => if r.spec_current_state().spec_is_pending() && context.now > r.spec_expiry_time() {
                            let (v, step) = self.expired(context.now);
                            (v, Some(step->Reply_0))
                        } else {
                            (self, None)
                        },
                    }
                }
            },
            None => (self, None),
        }
    }

    /// The answer to a query about the pending action; nothing changes.
    pub open spec fn answer_query(self, query: QueryPendingAction) -> CoordinatorResult {
        match self.active {
            Some(active) => {
                let r = active.record;
                if r.spec_conversation_id() != query.conversation_id || r.spec_session_id() != query.session_id
                    || r.spec_requester() != query.requester {
                    spec_invalid_selection()
                } else if r.spec_current_state() == CoordinatorState::AwaitingClarification {
                    CoordinatorResult::ClarificationRequired(
                        view_of(
                            PublicActionStatus::ClarificationRequired,
                            PublicReasonCode::ClarificationNeeded,
                            Some(r.spec_expiry_time()),
                            true,
                        ),
                    )
                } else if r.spec_current_state() == CoordinatorState::AwaitingConfirmation {
                    CoordinatorResult::ConfirmationRequired(
                        view_of(
                            PublicActionStatus::ConfirmationRequired,
                            PublicReasonCode::ConfirmationNeeded,
                            Some(r.spec_expiry_time()),
                            true,
                        ),
                    )
                } else {
                    CoordinatorResult::ActionProposed(
                        view_of(PublicActionStatus::Proposed, PublicReasonCode::NoReason, Some(r.spec_expiry_time()), true),
                    )
                }
            },
            None => spec_no_action(),
        }
    }

    /// What the end of a session does to the active flow.
    pub open spec fn after_session_end(self, ended: SessionEndedInput) -> (CoordinatorView, CoordinatorResult) {
        match self.active {
            Some(active) => if active.record.spec_session_id() != ended.session_id {
                (self, spec_invalid_selection())
            } else {
                let (v, step) = self.audited(
                    CoordinatorAuditEvent::Invalidation,
                    PublicReasonCode::SessionEnded,
                    ended.submitted_at,
                ).invalidated(PublicReasonCode::SessionEnded, ended.submitted_at);
                (v, step->Reply_0)
            },
            None => (self, spec_no_action()),
        }
    }

    /// What a change of the runtime, policy or registries does to the
    /// active flow: one planned in the old world is invalidated; otherwise
    /// the answer is that of a query about it.
    pub open spec fn after_runtime_invalidation(self, invalidation: RuntimeInvalidation) -> (CoordinatorView, CoordinatorResult) {
        match self.active {
            Some(active) => match spec_environment_reason(
                active.record,
                invalidation.runtime_snapshot_generation,
                invalidation.policy_version,
                invalidation.application_registry_generation,
                invalidation.settings_registry_generation,
                active.operation,
            ) {
                Some(reason) => {
                    let (v, step) = self.audited(CoordinatorAuditEvent::Invalidation, reason, invalidation.submitted_at)
                        .invalidated(reason, invalidation.submitted_at);
                    (v, step->Reply_0)
                },
                None => (
                    self,
                    self.answer_query(
                        QueryPendingAction {
                            conversation_id: active.record.spec_conversation_id(),
                            session_id: active.record.spec_session_id(),
                            requester: active.record.spec_requester(),
                        },
                    ),
                ),
            },
            None => (self, spec_no_action()),
        }
    }
}

impl ActionCoordinator {
    /// The checks made before an input: see `CoordinatorView::before_input`.
    /// When the flow awaited confirmation and is closed here, the caller
    /// also tells the authority.
    pub fn before_input(&mut self, context: &CoordinatorContext) -> (r: Option<CoordinatorResult>)
        requires
            old(self).wf(),
        ensures
            final(self).wf(),
            (final(self)@, r) == old(self)@.before_input(*context),
    {
        let active = match self.active {
            Some(a) => a,
            None => {
                return None;
            },
        };
        let r = active.record;
        let changed = match context.session_status {
            SessionStatus::Active => false,
            _ => true,
        };
        if r.conversation_id != context.conversation_id || r.session_id != context.session_id
            || r.requester != context.requester || changed {
            return match self.invalidate_active(PublicReasonCode::SessionChanged, context.now) {
                CoordinatorStep::Reply(result) => Some(result),
                _ => None,
            };
        }
        let reason = environment_reason(
            &r,
            context.runtime_generation,
            context.policy_version,
            context.application_registry_generation,
            context.settings_registry_generation,
            active.operation,
        );
        match reason {
            Some(reason) => match self.invalidate_active(reason, context.now) {
                CoordinatorStep::Reply(result) => Some(result),
                _ => None,
            },
            None => {
                if r.current_state.is_pending() && context.now > r.expiry_time {
                    match self.expire_active(context.now) {
                        CoordinatorStep::Reply(result) => Some(result),
                        _ => None,
                    }
                } else {
                    None
                }
            },
        }
    }

    /// Answers a query about the pending action.
    pub fn query(&self, query: &QueryPendingAction) -> (r: CoordinatorResult)
        ensures
            r == self@.answer_query(*query),
    {
        let active = match self.active {
            Some(a) => a,
            None => {
                return no_action();
            },
        };
        let r = active.record;
        if r.conversation_id != query.conversation_id || r.session_id != query.session_id
            || r.requester != query.requester {
            return invalid_selection();
        }
        match r.current_state {
            CoordinatorState::AwaitingClarification => CoordinatorResult::ClarificationRequired(
                reply_view(
                    PublicActionStatus::ClarificationRequired,
                    PublicReasonCode::ClarificationNeeded,
                    Some(r.expiry_time),
                    true,
                ),
            ),
            CoordinatorState::AwaitingConfirmation => CoordinatorResult::ConfirmationRequired(
                reply_view(
                    PublicActionStatus::ConfirmationRequired,
                    PublicReasonCode::ConfirmationNeeded,
                    Some(r.expiry_time),
                    true,
                ),
            ),
            _ => CoordinatorResult::ActionProposed(
                reply_view(PublicActionStatus::Proposed, PublicReasonCode::NoReason, Some(r.expiry_time), true),
            ),
        }
    }

    /// Invalidates the active flow of a session that ended.
    pub fn session_ended(&mut self, ended: &SessionEndedInput) -> (r: CoordinatorResult)
        requires
            old(self).wf(),
        ensures
            final(self).wf(),
            (final(self)@, r) == old(self)@.after_session_end(*ended),
    {
        let active = match self.active {
            Some(a) => a,
            None => {
                return no_action();
            },
        };
        if active.record.session_id != ended.session_id {
            return invalid_selection();
        }
        self.audit_active(CoordinatorAuditEvent::Invalidation, PublicReasonCode::SessionEnded, ended.submitted_at);
        match self.invalidate_active(PublicReasonCode::SessionEnded, ended.submitted_at) {
            CoordinatorStep::Reply(result) => result,
            _ => invalid_selection(),
        }
    }

    /// Invalidates the active flow when the world it was planned in changed.
    pub fn runtime_invalidated(&mut self, invalidation: &RuntimeInvalidation) -> (r: CoordinatorResult)
        requires
            old(self).wf(),
        ensures
            final(self).wf(),
            (final(self)@, r) == old(self)@.after_runtime_invalidation(*invalidation),
    {
        let active = match self.active {
            Some(a) => a,
            None => {
                return no_action();
            },
        };
        let reason = environment_reason(
            &active.record,
            invalidation.runtime_snapshot_generation,
            invalidation.policy_version,
            invalidation.application_registry_generation,
            invalidation.settings_registry_generation,
            active.operation,
        );
        match reason {
            Some(reason) => {
                self.audit_active(CoordinatorAuditEvent::Invalidation, reason, invalidation.submitted_at);
                match self.invalidate_active(reason, invalidation.submitted_at) {
                    CoordinatorStep::Reply(result) => result,
                    _ => invalid_selection(),
                }
            },
            None => {
                let q = QueryPendingAction {
                    conversation_id: active.record.conversation_id,
                    session_id: active.record.session_id,
                    requester: active.record.requester,
                };
                self.query(&q)
            },
        }
    }
}

/// Whether a clarification answer is for the active flow's outstanding
/// question, from its conversation, session and requester, in time, and
/// picks one of its candidates.
pub open spec fn clarification_admitted(active: ActiveFlow, response: ClarificationResponse, context: CoordinatorContext) -> bool {
    &&& active.record.spec_current_state() == CoordinatorState::AwaitingClarification
    &&& active.record.spec_coordinator_action_id() == response.action_id
    &&& active.record.spec_conversation_id() == response.conversation_id
    &&& active.record.spec_session_id() == response.session_id
    &&& active.record.spec_requester() == response.requester
    &&& context.conversation_id == response.conversation_id
    &&& context.session_id == response.session_id
    &&& context.requester == response.requester
    &&& active.clarification matches Some(c) && {
        &&& c.clarification_id == response.clarification_id
        &&& response.submitted_at <= c.expires_at
        &&& response.submitted_at <= context.now
        &&& response.choice_id < c.candidate_count
    }
}

impl CoordinatorView {
    /// What the coordinator does with a clarification answer before the
    /// planner sees the chosen candidate.
    pub open spec fn after_clarification_response(self, response: ClarificationResponse, context: CoordinatorContext) -> (CoordinatorView, CoordinatorStep) {
        match self.active {
            Some(active) => if clarification_admitted(active, response, context) {
                (self, CoordinatorStep::PlanClarification)
            } else {
                (
                    self.audited(
                        CoordinatorAuditEvent::ClarificationRejected,
                        PublicReasonCode::InvalidSelection,
                        context.now,
                    ),
                    CoordinatorStep::Reply(spec_invalid_selection()),
                )
            },
            None => (self, CoordinatorStep::Reply(spec_invalid_selection())),
        }
    }

    /// What the coordinator does with the planner's answer for the chosen
    /// candidate: a proposal goes to policy, an expired question expires
    /// the flow, anything else is refused.
    pub open spec fn after_clarification_plan(
        self,
        response: ClarificationResponse,
        result: PlannerResult,
        context: CoordinatorContext,
    ) -> (CoordinatorView, CoordinatorStep) {
        let now = context.now;
        match self.active {
            Some(active) if clarification_admitted(active, response, context) => match result {
                PlannerResult::Proposed { planner_version: _, operation } => {
                    let expiry = (now + self.config.ready_ttl_ms) as u64;
                    let id = IntentId::spec_from_bytes(
                        spec_intent_bytes(active.record.spec_coordinator_action_id(), PlannerRequestId(response.input_id)),
                    );
                    let v = self.with_active(ActiveFlow {
                        record: active.record.spec_moved(CoordinatorState::Planning, now, expiry).spec_with_plan(
                            active.record.spec_planner_version(),
                            Some(id),
                        ),
                        operation: Some(operation),
                        clarification: None,
                    });
                    (
                        v.audited(CoordinatorAuditEvent::ClarificationAccepted, PublicReasonCode::NoReason, now)
                            .moved(CoordinatorState::EvaluatingPolicy, now, expiry),
                        CoordinatorStep::EvaluatePolicy,
                    )
                },
                PlannerResult::Unsupported(UnsupportedReason::ClarificationExpired) => self.expired(now),
                _ => (
                    self.audited(CoordinatorAuditEvent::ClarificationRejected, PublicReasonCode::InvalidSelection, now),
                    CoordinatorStep::Reply(spec_invalid_selection()),
                ),
            },
            _ => (self, CoordinatorStep::Reply(spec_invalid_selection())),
        }
    }
}

fn admits_clarification(active: &ActiveFlow, response: &ClarificationResponse, context: &CoordinatorContext) -> (r: bool)
    ensures
        r == clarification_admitted(*active, *response, *context),
{
    let r = &active.record;
    if !(r.current_state == CoordinatorState::AwaitingClarification && r.coordinator_action_id == response.action_id
        && r.conversation_id == response.conversation_id && r.session_id == response.session_id
        && r.requester == response.requester && context.conversation_id == response.conversation_id
        && context.session_id == response.session_id && context.requester == response.requester) {
        return false;
    }
    match active.clarification {
        Some(c) => c.clarification_id == response.clarification_id && response.submitted_at <= c.expires_at
            && response.submitted_at <= context.now && response.choice_id < c.candidate_count,
        None => false,
    }
}

impl ActionCoordinator {
    /// Checks a clarification answer against the active flow: one that is
    /// not for its question, from its conversation, session and requester,
    /// in time and within its candidates is refused and audited.
    pub fn clarification_response(&mut self, response: &ClarificationResponse, context: &CoordinatorContext) -> (r: CoordinatorStep)
        requires
            old(self).wf(),
        ensures
            final(self).wf(),
            (final(self)@, r) == old(self)@.after_clarification_response(*response, *context),
    {
        match self.active {
            Some(active) => {
                if admits_clarification(&active, response, context) {
                    CoordinatorStep::PlanClarification
                } else {
                    self.audit_active(
                        CoordinatorAuditEvent::ClarificationRejected,
                        PublicReasonCode::InvalidSelection,
                        context.now,
                    );
                    CoordinatorStep::Reply(invalid_selection())
                }
            },
            None => CoordinatorStep::Reply(invalid_selection()),
        }
    }

    /// Decides what the planner's answer for a chosen clarification
    /// candidate comes to.
    pub fn on_clarification_plan(
        &mut self,
        response: &ClarificationResponse,
        result: PlannerResult,
        context: &CoordinatorContext,
    ) -> (r: CoordinatorStep)
        requires
            old(self).wf(),
            result is Proposed ==> context.now + old(self)@.config.ready_ttl_ms <= u64::MAX,
        ensures
            final(self).wf(),
            (final(self)@, r) == old(self)@.after_clarification_plan(*response, result, *context),
    {
        let now = context.now;
        let active = match self.active {
            Some(a) => a,
            None => {
                return CoordinatorStep::Reply(invalid_selection());
            },
        };
        if !admits_clarification(&active, response, context) {
            return CoordinatorStep::Reply(invalid_selection());
        }
        match result {
            PlannerResult::Proposed { planner_version: _, operation } => {
                let expiry = now + self.config.ready_ttl_ms;
                let id = intent_id(active.record.coordinator_action_id, PlannerRequestId(response.input_id));
                let mut record = active.record;
                record.current_state = CoordinatorState::Planning;
                record.update_time = now;
                record.expiry_time = expiry;
                record.intent_id = Some(id);
                self.active = Some(ActiveFlow { record, operation: Some(operation), clarification: None });
                self.audit_active(CoordinatorAuditEvent::ClarificationAccepted, PublicReasonCode::NoReason, now);
                self.move_active(CoordinatorState::EvaluatingPolicy, now, expiry);
                CoordinatorStep::EvaluatePolicy
            },
            PlannerResult::Unsupported(UnsupportedReason::ClarificationExpired) => self.expire_active(now),
            _ => {
                self.audit_active(
                    CoordinatorAuditEvent::ClarificationRejected,
                    PublicReasonCode::InvalidSelection,
                    now,
                );
                CoordinatorStep::Reply(invalid_selection())
            },
        }
    }
}

/// White space as `str::trim` removes it: Unicode's `White_Space`.
pub open spec fn is_white_space(c: char) -> bool {
    let n = c as u32;
    ||| 0x09 <= n <= 0x0d
    ||| n == 0x20
    ||| n == 0x85
    ||| n == 0xa0
    ||| n == 0x1680
    ||| 0x2000 <= n <= 0x200a
    ||| n == 0x2028
    ||| n == 0x2029
    ||| n == 0x202f
    ||| n == 0x205f
    ||| n == 0x3000
}

pub open spec fn trim_start(s: Seq<char>) -> Seq<char>
    decreases s.len(),
{
    if s.len() > 0 && is_white_space(s[0]) {
        trim_start(s.drop_first())
    } else {
        s
    }
}

pub open spec fn trim_end(s: Seq<char>) -> Seq<char>
    decreases s.len(),
{
    if s.len() > 0 && is_white_space(s.last()) {
        trim_end(s.drop_last())
    } else {
        s
    }
}

/// The text without white space at either end.
pub open spec fn trimmed(s: Seq<char>) -> Seq<char> {
    trim_end(trim_start(s))
}

/// A character's code with ASCII capitals folded to lower case.
pub open spec fn ascii_lower(c: char) -> u32 {
    let n = c as u32;
    if 0x41 <= n <= 0x5a {
        (n + 32) as u32
    } else {
        n
    }
}

/// Equal once ASCII letters are folded to lower case.
pub open spec fn eq_ignore_ascii_case(a: Seq<char>, b: Seq<char>) -> bool {
    &&& a.len() == b.len()
    &&& forall|i: int| 0 <= i < a.len() ==> ascii_lower(#[trigger] a[i]) == ascii_lower(b[i])
}

/// Whether a request's whole text, trimmed, asks to cancel: one of the
/// Persian phrases under a Persian locale, otherwise "cancel", "never mind"
/// or "stop" in any ASCII case.
pub open spec fn spec_is_exact_cancellation(text: Seq<char>, locale: Seq<char>) -> bool {
    let t = trimmed(text);
    if locale.len() >= 2 && locale[0] == 'f' && locale[1] == 'a' {
        t == "لغو"@ || t == "بی‌خیال"@ || t == "بی خیال"@ || t == "انجام نده"@
    } else {
        eq_ignore_ascii_case(t, "cancel"@) || eq_ignore_ascii_case(t, "never mind"@) || eq_ignore_ascii_case(
            t,
            "stop"@,
        )
    }
}

fn white_space(c: char) -> (r: bool)
    ensures
        r == is_white_space(c),
{
    let n = c as u32;
    (0x09 <= n && n <= 0x0d) || n == 0x20 || n == 0x85 || n == 0xa0 || n == 0x1680 || (0x2000 <= n && n
        <= 0x200a) || n == 0x2028 || n == 0x2029 || n == 0x202f || n == 0x205f || n == 0x3000
}

fn chars_of(s: &str) -> (v: Vec<char>)
    ensures
        v@ == s@,
{
    let n = s.unicode_len();
    let mut v: Vec<char> = Vec::new();
    let mut i: usize = 0;
    while i < n
        invariant
            n == s@.len(),
            0 <= i <= n,
            v@ == s@.subrange(0, i as int),
        decreases n - i,
    {
        v.push(s.get_char(i));
        proof {
            assert(v@ =~= s@.subrange(0, i + 1));
        }
        i = i + 1;
    }
    proof {
        assert(v@ =~= s@);
    }
    v
}

fn fold_ascii(c: char) -> (r: u32)
    ensures
        r == ascii_lower(c),
{
    let n = c as u32;
    if 0x41 <= n && n <= 0x5a {
        n + 32
    } else {
        n
    }
}

/// Whether `v[lo..hi]` equals `target`, folding ASCII case when asked.
fn range_matches(v: &Vec<char>, lo: usize, hi: usize, target: &Vec<char>, fold: bool) -> (r: bool)
    requires
        lo <= hi <= v@.len(),
    ensures
        r == (if fold {
            eq_ignore_ascii_case(v@.subrange(lo as int, hi as int), target@)
        } else {
            v@.subrange(lo as int, hi as int) == target@
        }),
{
    if hi - lo != target.len() {
        proof {
            assert(v@.subrange(lo as int, hi as int).len() != target@.len());
        }
        return false;
    }
    let ghost t = v@.subrange(lo as int, hi as int);
    let mut k: usize = 0;
    while k < target.len()
        invariant
            lo <= hi <= v@.len(),
            hi - lo == target@.len(),
            t == v@.subrange(lo as int, hi as int),
            0 <= k <= target@.len(),
            forall|i: int| 0 <= i < k ==> if fold {
                ascii_lower(#[trigger] t[i]) == ascii_lower(target@[i])
            } else {
                t[i] == target@[i]
            },
        decreases target@.len() - k,
    {
        let a = v[lo + k];
        let b = target[k];
        proof {
            assert(t[k as int] == a);
        }
        let same = if fold {
            fold_ascii(a) == fold_ascii(b)
        } else {
            a == b
        };
        if !same {
            return false;
        }
        k = k + 1;
    }
    proof {
        if !fold {
            assert(t =~= target@);
        }
    }
    true
}

proof fn lemma_trim_start_step(s: Seq<char>, i: int)
    requires
        0 <= i < s.len(),
        is_white_space(s[i]),
    ensures
        trim_start(s.subrange(i, s.len() as int)) == trim_start(s.subrange(i + 1, s.len() as int)),
{
    assert(s.subrange(i, s.len() as int).drop_first() =~= s.subrange(i + 1, s.len() as int));
}

proof fn lemma_trim_end_step(s: Seq<char>, i: int, j: int)
    requires
        0 <= i < j <= s.len(),
        is_white_space(s[j - 1]),
    ensures
        trim_end(s.subrange(i, j)) == trim_end(s.subrange(i, j - 1)),
{
    assert(s.subrange(i, j).drop_last() =~= s.subrange(i, j - 1));
}

/// Whether a request's text, trimmed, is exactly a cancellation in its locale.
pub fn is_exact_cancellation(text: &str, locale: &str) -> (r: bool)
    ensures
        r == spec_is_exact_cancellation(text@, locale@),
{
    let v = chars_of(text);
    let n = v.len();
    let ghost s = v@;
    let mut i: usize = 0;
    proof {
        assert(s.subrange(0, n as int) =~= s);
    }
    while i < n && white_space(v[i])
        invariant
            s == v@,
            n == s.len(),
            0 <= i <= n,
            trim_start(s) == trim_start(s.subrange(i as int, n as int)),
        decreases n - i,
    {
        proof {
            lemma_trim_start_step(s, i as int);
        }
        i = i + 1;
    }
    proof {
        assert(trim_start(s.subrange(i as int, n as int)) == s.subrange(i as int, n as int));
    }
    let mut j: usize = n;
    while j > i && white_space(v[j - 1])
        invariant
            s == v@,
            n == s.len(),
            0 <= i <= j <= n,
            trim_end(s.subrange(i as int, n as int)) == trim_end(s.subrange(i as int, j as int)),
        decreases j - i,
    {
        proof {
            lemma_trim_end_step(s, i as int, j as int);
        }
        j = j - 1;
    }
    proof {
        assert(trim_end(s.subrange(i as int, j as int)) == s.subrange(i as int, j as int));
        assert(trimmed(s) == s.subrange(i as int, j as int));
    }
    let loc = chars_of(locale);
    if loc.len() >= 2 && loc[0] == 'f' && loc[1] == 'a' {
        range_matches(&v, i, j, &chars_of("لغو"), false) || range_matches(&v, i, j, &chars_of("بی‌خیال"), false)
            || range_matches(&v, i, j, &chars_of("بی خیال"), false) || range_matches(
            &v,
            i,
            j,
            &chars_of("انجام نده"),
            false,
        )
    } else {
        range_matches(&v, i, j, &chars_of("cancel"), true) || range_matches(&v, i, j, &chars_of("never mind"), true)
            || range_matches(&v, i, j, &chars_of("stop"), true)
    }
}

impl CoordinatorView {
    /// What a request comes to before the planner sees it: made while a
    /// flow is active, with a text that is exactly a cancellation, it
    /// cancels that flow; otherwise nothing happens (`None`) and the
    /// request goes to the planner.
    pub open spec fn before_plan(
        self,
        request: ActionRequest,
        text: Seq<char>,
        locale: Seq<char>,
        submitted_at: u64,
        context: CoordinatorContext,
    ) -> (CoordinatorView, Option<CoordinatorResult>) {
        match self.active {
            Some(active) => if spec_is_exact_cancellation(text, locale) {
                let cancel = CancelPendingAction {
                    input_id: request.request_id.0,
                    action_id: active.record.spec_coordinator_action_id(),
                    conversation_id: request.conversation_id,
                    session_id: request.session_id,
                    requester: request.requester,
                    submitted_at,
                };
                let (v, r) = self.after_cancel(cancel, context);
                (v, Some(r))
            } else {
                (self, None)
            },
            None => (self, None),
        }
    }
}

impl ActionCoordinator {
    /// Decides whether a request is a cancellation of the active flow; see
    /// `CoordinatorView::before_plan`.
    pub fn request_cancels(
        &mut self,
        request: &ActionRequest,
        text: &str,
        locale: &str,
        submitted_at: u64,
        context: &CoordinatorContext,
    ) -> (r: Option<CoordinatorResult>)
        requires
            old(self).wf(),
        ensures
            final(self).wf(),
            (final(self)@, r) == old(self)@.before_plan(*request, text@, locale@, submitted_at, *context),
    {
        let active = match self.active {
            Some(a) => a,
            None => {
                return None;
            },
        };
        if !is_exact_cancellation(text, locale) {
            return None;
        }
        let cancel = CancelPendingAction {
            input_id: request.request_id.0,
            action_id: active.record.coordinator_action_id,
            conversation_id: request.conversation_id,
            session_id: request.session_id,
            requester: request.requester,
            submitted_at,
        };
        Some(self.cancel(&cancel, context))
    }
}

/// What identifies a repeated input: the request, or the input number of
/// an answer, a cancellation, a session end or an invalidation.
#[derive(Debug, Clone, Copy, PartialEq, Eq, Structural)]
pub enum ReplayKey {
    Request(PlannerRequestId),
    Clarification(u64),
    Confirmation(u64),
    Cancellation(u64),
    SessionEnd(u64),
    Invalidation(u64),
}

/// One input to the coordinator.
#[derive(Debug, Clone, Copy, PartialEq, Eq)]
pub enum CoordinatorInput {
    UserRequest(ActionRequest),
    ClarificationResponse(ClarificationResponse),
    ConfirmationResponse(BoundConfirmationResponse),
    CancelPendingAction(CancelPendingAction),
    QueryPendingAction(QueryPendingAction),
    SessionEnded(SessionEndedInput),
    RuntimeInvalidated(RuntimeInvalidation),
}

/// What identifies an input when it is repeated; a query is never cached.
pub open spec fn spec_replay_key(input: CoordinatorInput) -> Option<ReplayKey> {
    match input {
        CoordinatorInput::UserRequest(r) => Some(ReplayKey::Request(r.request_id)),
        CoordinatorInput::ClarificationResponse(r) => Some(ReplayKey::Clarification(r.input_id)),
        CoordinatorInput::ConfirmationResponse(r) => Some(ReplayKey::Confirmation(r.input_id)),
        CoordinatorInput::CancelPendingAction(r) => Some(ReplayKey::Cancellation(r.input_id)),
        CoordinatorInput::QueryPendingAction(_) => None,
        CoordinatorInput::SessionEnded(r) => Some(ReplayKey::SessionEnd(r.input_id)),
        CoordinatorInput::RuntimeInvalidated(r) => Some(ReplayKey::Invalidation(r.input_id)),
    }
}

pub fn replay_key(input: &CoordinatorInput) -> (k: Option<ReplayKey>)
    ensures
        k == spec_replay_key(*input),
{
    match input {
        CoordinatorInput::UserRequest(r) => Some(ReplayKey::Request(r.request_id)),
        CoordinatorInput::ClarificationResponse(r) => Some(ReplayKey::Clarification(r.input_id)),
        CoordinatorInput::ConfirmationResponse(r) => Some(ReplayKey::Confirmation(r.input_id)),
        CoordinatorInput::CancelPendingAction(r) => Some(ReplayKey::Cancellation(r.input_id)),
        CoordinatorInput::QueryPendingAction(_) => None,
        CoordinatorInput::SessionEnded(r) => Some(ReplayKey::SessionEnd(r.input_id)),
        CoordinatorInput::RuntimeInvalidated(r) => Some(ReplayKey::Invalidation(r.input_id)),
    }
}

/// The position of the first cached answer for `key`, if there is one.
pub open spec fn replay_index(replay: Seq<(ReplayKey, CoordinatorResult)>, key: ReplayKey) -> Option<int>
    decreases replay.len(),
{
    if replay.len() == 0 {
        None
    } else {
        match replay_index(replay.drop_last(), key) {
            Some(i) => Some(i),
            None => if replay.last().0 == key {
                Some(replay.len() - 1)
            } else {
                None
            },
        }
    }
}

impl CoordinatorView {
    /// The answer to a repeated input: its cached answer; when the cache
    /// is full and holds none, the input is refused as a replay (and
    /// audited); `None` when the input is new.
    pub open spec fn replayed(self, key: ReplayKey, now: u64) -> (CoordinatorView, Option<CoordinatorResult>) {
        match replay_index(self.replay, key) {
            Some(i) => (self, Some(self.replay[i].1)),
            None => if self.replay.len() >= DEFAULT_COORDINATOR_REPLAY_CAPACITY {
                (
                    self.audited(CoordinatorAuditEvent::ReplayRejected, PublicReasonCode::ReplayRejected, now),
                    Some(CoordinatorResult::Unknown(
                        view_of(PublicActionStatus::Unknown, PublicReasonCode::ReplayRejected, None, false),
                    )),
                )
            } else {
                (self, None)
            },
        }
    }

    /// The cache after remembering the answer to an input; a full cache
    /// keeps what it holds.
    pub open spec fn remembered(self, key: ReplayKey, result: CoordinatorResult) -> CoordinatorView {
        if self.replay.len() < DEFAULT_COORDINATOR_REPLAY_CAPACITY {
            CoordinatorView { replay: self.replay.push((key, result)), ..self }
        } else {
            self
        }
    }

    /// The kept records after `now`: the oldest leave while they have expired.
    pub open spec fn records_after(records: Seq<ActionConversationRecord>, now: u64) -> Seq<ActionConversationRecord>
        decreases records.len(),
    {
        if records.len() > 0 && now > records[0].spec_expiry_time() {
            Self::records_after(records.drop_first(), now)
        } else {
            records
        }
    }
}

impl ActionCoordinator {
    /// Looks a repeated input up; see `CoordinatorView::replayed`.
    pub fn replayed(&mut self, key: ReplayKey, now: u64) -> (r: Option<CoordinatorResult>)
        requires
            old(self).wf(),
        ensures
            final(self).wf(),
            (final(self)@, r) == old(self)@.replayed(key, now),
    {
        let mut i: usize = 0;
        while i < self.replay.len()
            invariant
                self.wf(),
                *self == *old(self),
                0 <= i <= self.replay@.len(),
                replay_index(self.replay@.take(i as int), key) is None,
            decreases self.replay@.len() - i,
        {
            let entry = self.replay[i];
            proof {
                assert(self.replay@.take(i + 1).drop_last() =~= self.replay@.take(i as int));
            }
            if entry.0 == key {
                proof {
                    let t = self.replay@.take(i + 1);
                    assert(replay_index(t, key) == Some(i as int));
                    lemma_replay_prefix(self.replay@, key, i as int + 1);
                }
                return Some(entry.1);
            }
            i = i + 1;
        }
        proof {
            assert(self.replay@.take(i as int) =~= self.replay@);
        }
        if self.replay.len() >= DEFAULT_COORDINATOR_REPLAY_CAPACITY {
            self.audit_active(CoordinatorAuditEvent::ReplayRejected, PublicReasonCode::ReplayRejected, now);
            return Some(CoordinatorResult::Unknown(
                reply_view(PublicActionStatus::Unknown, PublicReasonCode::ReplayRejected, None, false),
            ));
        }
        None
    }

    /// Remembers the answer to an input; see `CoordinatorView::remembered`.
    pub fn remember(&mut self, key: ReplayKey, result: CoordinatorResult)
        requires
            old(self).wf(),
        ensures
            final(self).wf(),
            final(self)@ == old(self)@.remembered(key, result),
    {
        if self.replay.len() < DEFAULT_COORDINATOR_REPLAY_CAPACITY {
            self.replay.push((key, result));
        }
    }

    /// Drops the oldest kept records while they have expired.
    pub fn expire_records(&mut self, now: u64)
        requires
            old(self).wf(),
        ensures
            final(self).wf(),
            final(self)@ == (CoordinatorView { records: CoordinatorView::records_after(old(self)@.records, now), ..old(self)@ }),
    {
        while self.records.len() > 0 && now > self.records[0].expiry_time
            invariant
                self.wf(),
                self.config == old(self).config,
                self.active == old(self).active,
                self.audit == old(self).audit,
                self.audit_evicted == old(self).audit_evicted,
                self.next_action_id == old(self).next_action_id,
                self.next_audit_reference == old(self).next_audit_reference,
                self.replay == old(self).replay,
                CoordinatorView::records_after(self.records@, now) == CoordinatorView::records_after(old(self).records@, now),
            decreases self.records@.len(),
        {
            let ghost before = self.records@;
            self.records.remove(0);
            proof {
                assert(self.records@ =~= before.drop_first());
            }
        }
    }
}

/// A key found in a prefix is found at the same place in the whole cache.
proof fn lemma_replay_prefix(replay: Seq<(ReplayKey, CoordinatorResult)>, key: ReplayKey, n: int)
    requires
        0 <= n <= replay.len(),
        replay_index(replay.take(n), key) is Some,
    ensures
        replay_index(replay, key) == replay_index(replay.take(n), key),
    decreases replay.len() - n,
{
    if n < replay.len() {
        assert(replay.take(n + 1).drop_last() =~= replay.take(n));
        lemma_replay_prefix(replay, key, n + 1);
    } else {
        assert(replay.take(n) =~= replay);
    }
}

/// The public reason for an executor's result.
pub open spec fn spec_execution_reason(code: ExecutionResultCode) -> PublicReasonCode {
    match code {
        ExecutionResultCode::Succeeded => PublicReasonCode::DispatchAccepted,
        ExecutionResultCode::TargetNotFound => PublicReasonCode::TargetNotFound,
        ExecutionResultCode::TargetUnavailable => PublicReasonCode::TargetUnavailable,
        ExecutionResultCode::PolicyChanged => PublicReasonCode::PolicyChanged,
        ExecutionResultCode::RuntimeStale => PublicReasonCode::RuntimeChanged,
        ExecutionResultCode::ConfirmationExpired => PublicReasonCode::Expired,
        ExecutionResultCode::AlreadyConsumed => PublicReasonCode::ReplayRejected,
        ExecutionResultCode::DispatchFailed => PublicReasonCode::DispatchFailed,
        _ => PublicReasonCode::PolicyDenied,
    }
}

pub fn execution_reason(code: ExecutionResultCode) -> (r: PublicReasonCode)
    ensures
        r == spec_execution_reason(code),
{
    match code {
        ExecutionResultCode::Succeeded => PublicReasonCode::DispatchAccepted,
        ExecutionResultCode::TargetNotFound => PublicReasonCode::TargetNotFound,
        ExecutionResultCode::TargetUnavailable => PublicReasonCode::TargetUnavailable,
        ExecutionResultCode::PolicyChanged => PublicReasonCode::PolicyChanged,
        ExecutionResultCode::RuntimeStale => PublicReasonCode::RuntimeChanged,
        ExecutionResultCode::ConfirmationExpired => PublicReasonCode::Expired,
        ExecutionResultCode::AlreadyConsumed => PublicReasonCode::ReplayRejected,
        ExecutionResultCode::DispatchFailed => PublicReasonCode::DispatchFailed,
        _ => PublicReasonCode::PolicyDenied,
    }
}

/// The public reason for an executor's result names that result's own
/// cause: each cause has its own reason, and a policy refusal is reported
/// only for a result that is a refusal (rejected, unsupported, malformed,
/// inactive session, invalid confirmation, or unknown).
pub proof fn lemma_execution_reason_names_cause(code: ExecutionResultCode)
    ensures
        (spec_execution_reason(code) == PublicReasonCode::DispatchAccepted) <==> (code == ExecutionResultCode::Succeeded),
        (spec_execution_reason(code) == PublicReasonCode::TargetNotFound) <==> (code == ExecutionResultCode::TargetNotFound),
        (spec_execution_reason(code) == PublicReasonCode::TargetUnavailable) <==> (code
            == ExecutionResultCode::TargetUnavailable),
        (spec_execution_reason(code) == PublicReasonCode::PolicyChanged) <==> (code == ExecutionResultCode::PolicyChanged),
        (spec_execution_reason(code) == PublicReasonCode::RuntimeChanged) <==> (code == ExecutionResultCode::RuntimeStale),
        (spec_execution_reason(code) == PublicReasonCode::Expired) <==> (code == ExecutionResultCode::ConfirmationExpired),
        (spec_execution_reason(code) == PublicReasonCode::ReplayRejected) <==> (code == ExecutionResultCode::AlreadyConsumed),
        (spec_execution_reason(code) == PublicReasonCode::DispatchFailed) <==> (code == ExecutionResultCode::DispatchFailed),
        (spec_execution_reason(code) == PublicReasonCode::PolicyDenied) <==> (code == ExecutionResultCode::Rejected
            || code == ExecutionResultCode::UnsupportedOperation || code == ExecutionResultCode::InvalidEnvelope
            || code == ExecutionResultCode::SessionInactive || code == ExecutionResultCode::ConfirmationInvalid
            || code == ExecutionResultCode::Unknown),
{
}

/// A dispatching flow whose executor reports a failure is rejected, and both
/// the answer and the kept record name the failure's own cause: a missing
/// target as not found, an unavailable one as unavailable, a failed dispatch
/// as failed. A success completes the flow as an accepted dispatch.
pub proof fn lemma_execution_outcome_names_cause(
    v: CoordinatorView,
    execution_id: ExecutionId,
    code: ExecutionResultCode,
    context: CoordinatorContext,
)
    requires
        v.active matches Some(a) && a.record.spec_current_state() == CoordinatorState::Dispatching,
    ensures
        ({
            let (after, step) = v.after_execution(execution_id, code, context);
            let kept = after.records.last();
            &&& after.active is None
            &&& kept.spec_execution_id() == Some(execution_id)
            &&& code == ExecutionResultCode::Succeeded ==> {
                &&& step == CoordinatorStep::Reply(CoordinatorResult::ActionCompleted(
                    view_of(PublicActionStatus::Completed, PublicReasonCode::DispatchAccepted, None, false),
                ))
                &&& kept.spec_current_state() == CoordinatorState::Completed
                &&& kept.spec_public_outcome_code() == PublicReasonCode::DispatchAccepted
            }
            &&& code == ExecutionResultCode::TargetNotFound ==> {
                &&& step == CoordinatorStep::Reply(CoordinatorResult::ActionRejected(
                    view_of(PublicActionStatus::Rejected, PublicReasonCode::TargetNotFound, None, false),
                ))
                &&& kept.spec_current_state() == CoordinatorState::Rejected
                &&& kept.spec_public_outcome_code() == PublicReasonCode::TargetNotFound
            }
            &&& code == ExecutionResultCode::TargetUnavailable ==> {
                &&& step == CoordinatorStep::Reply(CoordinatorResult::ActionRejected(
                    view_of(PublicActionStatus::Rejected, PublicReasonCode::TargetUnavailable, None, false),
                ))
                &&& kept.spec_public_outcome_code() == PublicReasonCode::TargetUnavailable
            }
            &&& code == ExecutionResultCode::DispatchFailed ==> {
                &&& step == CoordinatorStep::Reply(CoordinatorResult::ActionRejected(
                    view_of(PublicActionStatus::Rejected, PublicReasonCode::DispatchFailed, None, false),
                ))
                &&& kept.spec_public_outcome_code() == PublicReasonCode::DispatchFailed
            }
            &&& code != ExecutionResultCode::Succeeded ==> {
                &&& kept.spec_current_state() == CoordinatorState::Rejected
                &&& step matches CoordinatorStep::Reply(CoordinatorResult::ActionRejected(view))
                    && view.public_reason_code == kept.spec_public_outcome_code()
                    && view.public_reason_code != PublicReasonCode::DispatchAccepted
            }
        }),
{
    lemma_execution_reason_names_cause(code);
}

impl CoordinatorView {
    /// What the coordinator does once the flow prepared its ready envelope
    /// (`Some` with the readiness audit number) or could not (`None`).
    pub open spec fn after_ready(self, readiness: Option<AuditId>, context: CoordinatorContext) -> (CoordinatorView, CoordinatorStep) {
        let now = context.now;
        match self.active {
            Some(active) if active.record.spec_current_state() == CoordinatorState::PreparingExecution => match readiness {
                Some(id) => {
                    let v = self.with_active(ActiveFlow {
                        record: active.record.spec_with_readiness(id).spec_moved(
                            CoordinatorState::Dispatching,
                            now,
                            active.record.spec_expiry_time(),
                        ),
                        ..active
                    });
                    (
                        v.audited(CoordinatorAuditEvent::ReadinessProduced, PublicReasonCode::NoReason, now).audited(
                            CoordinatorAuditEvent::DispatchAttempted,
                            PublicReasonCode::NoReason,
                            now,
                        ),
                        CoordinatorStep::Dispatch,
                    )
                },
                None => self.invalidated(PublicReasonCode::RuntimeChanged, now),
            },
            _ => (self, CoordinatorStep::Reply(spec_invalid_selection())),
        }
    }

    /// What the executor's result comes to: a dispatch the launcher
    /// accepted completes the flow, anything else rejects it.
    pub open spec fn after_execution(
        self,
        execution_id: ExecutionId,
        code: ExecutionResultCode,
        context: CoordinatorContext,
    ) -> (CoordinatorView, CoordinatorStep) {
        let now = context.now;
        let reason = spec_execution_reason(code);
        match self.active {
            Some(active) if active.record.spec_current_state() == CoordinatorState::Dispatching => {
                let v = self.with_active(ActiveFlow { record: active.record.spec_with_execution(execution_id), ..active })
                    .audited(CoordinatorAuditEvent::ExecutionResultReceived, reason, now);
                if code == ExecutionResultCode::Succeeded {
                    (
                        v.finished(CoordinatorState::Completed, PublicReasonCode::DispatchAccepted, now),
                        CoordinatorStep::Reply(CoordinatorResult::ActionCompleted(
                            view_of(PublicActionStatus::Completed, PublicReasonCode::DispatchAccepted, None, false),
                        )),
                    )
                } else {
                    (
                        v.finished(CoordinatorState::Rejected, reason, now),
                        CoordinatorStep::Reply(CoordinatorResult::ActionRejected(
                            view_of(PublicActionStatus::Rejected, reason, None, false),
                        )),
                    )
                }
            },
            _ => (self, CoordinatorStep::Reply(spec_invalid_selection())),
        }
    }
}

impl ActionCoordinator {
    /// Decides what comes of preparing the ready envelope.
    pub fn on_ready(&mut self, readiness: Option<AuditId>, context: &CoordinatorContext) -> (r: CoordinatorStep)
        requires
            old(self).wf(),
        ensures
            final(self).wf(),
            (final(self)@, r) == old(self)@.after_ready(readiness, *context),
    {
        let now = context.now;
        let active = match self.active {
            Some(a) => a,
            None => {
                return CoordinatorStep::Reply(invalid_selection());
            },
        };
        if active.record.current_state != CoordinatorState::PreparingExecution {
            return CoordinatorStep::Reply(invalid_selection());
        }
        match readiness {
            Some(id) => {
                let mut record = active.record;
                record.readiness_id = Some(id);
                record.current_state = CoordinatorState::Dispatching;
                record.update_time = now;
                self.active = Some(ActiveFlow { record, ..active });
                self.audit_active(CoordinatorAuditEvent::ReadinessProduced, PublicReasonCode::NoReason, now);
                self.audit_active(CoordinatorAuditEvent::DispatchAttempted, PublicReasonCode::NoReason, now);
                CoordinatorStep::Dispatch
            },
            None => self.invalidate_active(PublicReasonCode::RuntimeChanged, now),
        }
    }

    /// Decides what the executor's result comes to.
    pub fn on_execution(&mut self, execution_id: ExecutionId, code: ExecutionResultCode, context: &CoordinatorContext) -> (r: CoordinatorStep)
        requires
            old(self).wf(),
        ensures
            final(self).wf(),
            (final(self)@, r) == old(self)@.after_execution(execution_id, code, *context),
    {
        let now = context.now;
        let active = match self.active {
            Some(a) => a,
            None => {
                return CoordinatorStep::Reply(invalid_selection());
            },
        };
        if active.record.current_state != CoordinatorState::Dispatching {
            return CoordinatorStep::Reply(invalid_selection());
        }
        let reason = execution_reason(code);
        let mut record = active.record;
        record.execution_id = Some(execution_id);
        self.active = Some(ActiveFlow { record, ..active });
        self.audit_active(CoordinatorAuditEvent::ExecutionResultReceived, reason, now);
        if code == ExecutionResultCode::Succeeded {
            self.finish(CoordinatorState::Completed, PublicReasonCode::DispatchAccepted, now);
            CoordinatorStep::Reply(CoordinatorResult::ActionCompleted(
                reply_view(PublicActionStatus::Completed, PublicReasonCode::DispatchAccepted, None, false),
            ))
        } else {
            self.finish(CoordinatorState::Rejected, reason, now);
            CoordinatorStep::Reply(CoordinatorResult::ActionRejected(
                reply_view(PublicActionStatus::Rejected, reason, None, false),
            ))
        }
    }
}

/// The title and message a public answer is presented with, in Persian or
/// in English: by its status first, then by its reason.
pub open spec fn spec_localized_text(persian: bool, status: PublicActionStatus, reason: PublicReasonCode) -> (
    &'static str,
    &'static str,
) {
    if persian {
        match (status, reason) {
            (PublicActionStatus::ClarificationRequired, _) => ("نیاز به توضیح", "کدام بخش تنظیمات را باز کنم؟"),
            (PublicActionStatus::ConfirmationRequired, _) => ("تأیید لازم است", "آیا می‌خواهید این کار انجام شود؟"),
            (PublicActionStatus::Completed, _) => ("انجام شد", "درخواست پذیرفته شد."),
            (PublicActionStatus::Cancelled, _) => ("لغو شد", "درخواست لغو شد."),
            (PublicActionStatus::Expired, _) => ("زمان پایان یافت", "زمان این درخواست به پایان رسید."),
            (PublicActionStatus::AlreadyPending, _) => ("درخواست در انتظار است", "ابتدا درخواست در انتظار را لغو کنید."),
            (_, PublicReasonCode::TargetNotFound) => ("یافت نشد", "هدف درخواستی پیدا نشد."),
            (_, PublicReasonCode::DispatchFailed) => ("ناموفق", "باز کردن هدف انجام نشد."),
            (_, PublicReasonCode::InvalidSelection) => ("نامعتبر", "انتخاب معتبر نیست."),
            (PublicActionStatus::Invalidated, _) => ("نامعتبر شد", "محیط تغییر کرده است؛ درخواست را دوباره آغاز کنید."),
            (PublicActionStatus::Unsupported, _) => ("پشتیبانی نمی‌شود", "این درخواست پشتیبانی نمی‌شود."),
            (PublicActionStatus::Rejected, _) => ("رد شد", "این درخواست انجام نشد."),
            (PublicActionStatus::InvalidInput, _) => ("نامعتبر", "ورودی معتبر نیست."),
            _ => ("", ""),
        }
    } else {
        match (status, reason) {
            (PublicActionStatus::ClarificationRequired, _) => ("Clarification needed", "Which settings page should I open?"),
            (PublicActionStatus::ConfirmationRequired, _) => ("Confirmation required", "Do you want me to perform this action?"),
            (PublicActionStatus::Completed, _) => ("Completed", "The dispatch was accepted."),
            (PublicActionStatus::Cancelled, _) => ("Cancelled", "The request was cancelled."),
            (PublicActionStatus::Expired, _) => ("Expired", "The request expired."),
            (PublicActionStatus::AlreadyPending, _) => ("Action already pending", "Cancel the pending action before starting another."),
            (_, PublicReasonCode::TargetNotFound) => ("Not found", "I could not find that registered target."),
            (_, PublicReasonCode::DispatchFailed) => ("Dispatch failed", "The target was not opened."),
            (_, PublicReasonCode::InvalidSelection) => ("Invalid choice", "That choice is not valid."),
            (PublicActionStatus::Invalidated, _) => ("Request invalidated", "The environment changed. Start the request again."),
            (PublicActionStatus::Unsupported, _) => ("Unsupported", "This request is not supported."),
            (PublicActionStatus::Rejected, _) => ("Rejected", "The request was not performed."),
            (PublicActionStatus::InvalidInput, _) => ("Invalid input", "The input is not valid."),
            _ => ("", ""),
        }
    }
}

/// The title and message of a public answer in a locale.
pub fn localized_text(persian: bool, status: PublicActionStatus, reason: PublicReasonCode) -> (r: (
    &'static str,
    &'static str,
))
    ensures
        r == spec_localized_text(persian, status, reason),
{
    if persian {
        match (status, reason) {
            (PublicActionStatus::ClarificationRequired, _) => ("نیاز به توضیح", "کدام بخش تنظیمات را باز کنم؟"),
            (PublicActionStatus::ConfirmationRequired, _) => ("تأیید لازم است", "آیا می‌خواهید این کار انجام شود؟"),
            (PublicActionStatus::Completed, _) => ("انجام شد", "درخواست پذیرفته شد."),
            (PublicActionStatus::Cancelled, _) => ("لغو شد", "درخواست لغو شد."),
            (PublicActionStatus::Expired, _) => ("زمان پایان یافت", "زمان این درخواست به پایان رسید."),
            (PublicActionStatus::AlreadyPending, _) => ("درخواست در انتظار است", "ابتدا درخواست در انتظار را لغو کنید."),
            (_, PublicReasonCode::TargetNotFound) => ("یافت نشد", "هدف درخواستی پیدا نشد."),
            (_, PublicReasonCode::DispatchFailed) => ("ناموفق", "باز کردن هدف انجام نشد."),
            (_, PublicReasonCode::InvalidSelection) => ("نامعتبر", "انتخاب معتبر نیست."),
            (PublicActionStatus::Invalidated, _) => ("نامعتبر شد", "محیط تغییر کرده است؛ درخواست را دوباره آغاز کنید."),
            (PublicActionStatus::Unsupported, _) => ("پشتیبانی نمی‌شود", "این درخواست پشتیبانی نمی‌شود."),
            (PublicActionStatus::Rejected, _) => ("رد شد", "این درخواست انجام نشد."),
            (PublicActionStatus::InvalidInput, _) => ("نامعتبر", "ورودی معتبر نیست."),
            _ => ("", ""),
        }
    } else {
        match (status, reason) {
            (PublicActionStatus::ClarificationRequired, _) => ("Clarification needed", "Which settings page should I open?"),
            (PublicActionStatus::ConfirmationRequired, _) => ("Confirmation required", "Do you want me to perform this action?"),
            (PublicActionStatus::Completed, _) => ("Completed", "The dispatch was accepted."),
            (PublicActionStatus::Cancelled, _) => ("Cancelled", "The request was cancelled."),
            (PublicActionStatus::Expired, _) => ("Expired", "The request expired."),
            (PublicActionStatus::AlreadyPending, _) => ("Action already pending", "Cancel the pending action before starting another."),
            (_, PublicReasonCode::TargetNotFound) => ("Not found", "I could not find that registered target."),
            (_, PublicReasonCode::DispatchFailed) => ("Dispatch failed", "The target was not opened."),
            (_, PublicReasonCode::InvalidSelection) => ("Invalid choice", "That choice is not valid."),
            (PublicActionStatus::Invalidated, _) => ("Request invalidated", "The environment changed. Start the request again."),
            (PublicActionStatus::Unsupported, _) => ("Unsupported", "This request is not supported."),
            (PublicActionStatus::Rejected, _) => ("Rejected", "The request was not performed."),
            (PublicActionStatus::InvalidInput, _) => ("Invalid input", "The input is not valid."),
            _ => ("", ""),
        }
    }
}

/// How far the coordinator self-check got.
#[derive(Debug, Clone, Copy, PartialEq, Eq, Structural)]
pub enum CoordinatorGateStage {
    Ready,
    ExactAction,
    Clarification,
    Confirmation,
    Cancellation,
    Complete,
}

fn gate_context(at: u64, session: u64) -> (c: CoordinatorContext)
    ensures
        c.conversation_id == ConversationId(4),
        c.session_id == SessionId(session),
        c.session_status == SessionStatus::Active,
        c.responder == ResponderIdentity::User(0),
        c.requester == RequestedBy::User(0),
        c.now == at,
        c.runtime_generation == 1,
        c.policy_version == (PolicyVersion { major: 1, minor: 0 }),
        c.application_registry_generation == 1,
        c.settings_registry_generation == 1,
{
    CoordinatorContext {
        conversation_id: ConversationId(4),
        session_id: SessionId(session),
        session_status: SessionStatus::Active,
        responder: ResponderIdentity::User(0),
        requester: RequestedBy::User(0),
        now: at,
        runtime_generation: 1,
        policy_version: PolicyVersion { major: 1, minor: 0 },
        application_registry_generation: 1,
        settings_registry_generation: 1,
    }
}

fn gate_request(id: u64) -> (r: ActionRequest)
    ensures
        r == (ActionRequest {
            request_id: PlannerRequestId(id),
            conversation_id: ConversationId(4),
            session_id: SessionId(7),
            requester: RequestedBy::User(0),
        }),
{
    ActionRequest {
        request_id: PlannerRequestId(id),
        conversation_id: ConversationId(4),
        session_id: SessionId(7),
        requester: RequestedBy::User(0),
    }
}

fn gate_config() -> (c: CoordinatorConfig)
    ensures
        c.clarification_ttl_ms == 30_000,
        c.confirmation_ttl_ms == 30_000,
        c.ready_ttl_ms == 5_000,
        c.record_retention_ms == 300_000,
{
    CoordinatorConfig::default()
}

/// An exact request that policy allows goes to execution.
fn gate_exact() -> (passed: bool)
    ensures
        passed,
{
    let mut c = ActionCoordinator::new(gate_config());
    let proposal = PlannerResult::Proposed { planner_version: planner_v1(), operation: ActionOperation::OpenApplication };
    let step = c.user_request(&gate_request(1), proposal, &gate_context(101, 7));
    if !matches!(step, CoordinatorStep::EvaluatePolicy) {
        return false;
    }
    let step = c.on_policy_result(PolicyOutcome::Decided(PolicyResult::Allowed), &gate_context(101, 7));
    if !matches!(step, CoordinatorStep::PrepareExecution) {
        return false;
    }
    let step = c.on_ready(Some(AuditId(1)), &gate_context(101, 7));
    if !matches!(step, CoordinatorStep::Dispatch) {
        return false;
    }
    let step = c.on_execution(ExecutionId(1), ExecutionResultCode::Succeeded, &gate_context(101, 7));
    matches!(step, CoordinatorStep::Reply(CoordinatorResult::ActionCompleted(_))) && c.active_record().is_none()
}

/// An ambiguous request waits for the user; a second request meanwhile is
/// told that an action is already pending, an answer from another session
/// is refused, and the user's choice goes through policy to execution.
#[verifier::rlimit(40)]
fn gate_clarification() -> (passed: bool)
    ensures
        passed,
{
    let mut c = ActionCoordinator::new(gate_config());
    let ambiguous = PlannerResult::NeedsClarification {
        planner_version: planner_v1(),
        clarification_id: ClarificationId(1),
        candidate_count: 2,
        expires_at: 30_100,
        first_operation: Some(ActionOperation::OpenSettingsPage),
    };
    let step = c.user_request(&gate_request(2), ambiguous, &gate_context(100, 7));
    if !matches!(step, CoordinatorStep::Reply(CoordinatorResult::ClarificationRequired(_))) {
        return false;
    }
    let proposal = PlannerResult::Proposed { planner_version: planner_v1(), operation: ActionOperation::OpenApplication };
    let step = c.user_request(&gate_request(3), proposal, &gate_context(101, 7));
    if !matches!(step, CoordinatorStep::Reply(CoordinatorResult::ActionAlreadyPending(_))) {
        return false;
    }
    let record = match c.active_record() {
        Some(r) => r,
        None => {
            return false;
        },
    };
    let foreign = ClarificationResponse {
        input_id: 3,
        action_id: record.coordinator_action_id(),
        clarification_id: ClarificationId(1),
        choice_id: 0,
        conversation_id: ConversationId(4),
        session_id: SessionId(8),
        requester: RequestedBy::User(0),
        submitted_at: 101,
    };
    let step = c.clarification_response(&foreign, &gate_context(101, 8));
    if !matches!(step, CoordinatorStep::Reply(CoordinatorResult::InvalidInput(_))) {
        return false;
    }
    let valid = ClarificationResponse { input_id: 4, session_id: SessionId(7), submitted_at: 102, ..foreign };
    let step = c.clarification_response(&valid, &gate_context(102, 7));
    if !matches!(step, CoordinatorStep::PlanClarification) {
        return false;
    }
    let chosen = PlannerResult::Proposed { planner_version: planner_v1(), operation: ActionOperation::OpenSettingsPage };
    let step = c.on_clarification_plan(&valid, chosen, &gate_context(102, 7));
    if !matches!(step, CoordinatorStep::EvaluatePolicy) {
        return false;
    }
    let step = c.on_policy_result(PolicyOutcome::Decided(PolicyResult::Allowed), &gate_context(102, 7));
    if !matches!(step, CoordinatorStep::PrepareExecution) {
        return false;
    }
    let step = c.on_ready(Some(AuditId(2)), &gate_context(102, 7));
    if !matches!(step, CoordinatorStep::Dispatch) {
        return false;
    }
    let step = c.on_execution(ExecutionId(2), ExecutionResultCode::Succeeded, &gate_context(102, 7));
    matches!(step, CoordinatorStep::Reply(CoordinatorResult::ActionCompleted(_)))
}

/// A request that needs confirmation waits for it; a response from another
/// session is refused, and the user's approval, once granted, goes to
/// execution.
#[verifier::rlimit(40)]
fn gate_confirmation() -> (passed: bool)
    ensures
        passed,
{
    let mut c = ActionCoordinator::new(gate_config());
    let proposal = PlannerResult::Proposed { planner_version: planner_v1(), operation: ActionOperation::OpenApplication };
    let step = c.user_request(&gate_request(5), proposal, &gate_context(100, 7));
    if !matches!(step, CoordinatorStep::EvaluatePolicy) {
        return false;
    }
    let step = c.on_policy_result(PolicyOutcome::Decided(PolicyResult::ConfirmationRequired), &gate_context(100, 7));
    if !matches!(step, CoordinatorStep::IssueConfirmation) {
        return false;
    }
    let challenge = ChallengeId::new([0x83u8; 16]);
    let step = c.on_challenge_created(Some(challenge), &gate_context(100, 7));
    if !matches!(step, CoordinatorStep::Reply(CoordinatorResult::ConfirmationRequired(_))) {
        return false;
    }
    let record = match c.active_record() {
        Some(r) => r,
        None => {
            return false;
        },
    };
    let approval = ConfirmationResponseType::Approved(ApprovalProof::SoftExplicit);
    let foreign = BoundConfirmationResponse {
        input_id: 6,
        action_id: record.coordinator_action_id(),
        response: ConfirmationResponse::new(challenge, SessionId(8), ResponderIdentity::User(0), approval, AuthorityTime(101)),
    };
    let step = c.confirmation_response(&foreign, &gate_context(101, 8));
    if !matches!(step, CoordinatorStep::Reply(CoordinatorResult::InvalidInput(_))) {
        return false;
    }
    let approved = BoundConfirmationResponse {
        input_id: 7,
        action_id: record.coordinator_action_id(),
        response: ConfirmationResponse::new(challenge, SessionId(7), ResponderIdentity::User(0), approval, AuthorityTime(101)),
    };
    let step = c.confirmation_response(&approved, &gate_context(101, 7));
    if !matches!(step, CoordinatorStep::AcceptConfirmation) {
        return false;
    }
    let step = c.on_confirmation_answer(&approved, ConfirmationAnswer::Granted, &gate_context(101, 7));
    if !matches!(step, CoordinatorStep::PrepareExecution) {
        return false;
    }
    let step = c.on_ready(Some(AuditId(3)), &gate_context(101, 7));
    if !matches!(step, CoordinatorStep::Dispatch) {
        return false;
    }
    let step = c.on_execution(ExecutionId(3), ExecutionResultCode::Succeeded, &gate_context(101, 7));
    matches!(step, CoordinatorStep::Reply(CoordinatorResult::ActionCompleted(_)))
}

/// A pending action is cancelled when its user says so, in Persian.
fn gate_cancellation() -> (passed: bool)
    ensures
        passed,
{
    let mut c = ActionCoordinator::new(gate_config());
    let ambiguous = PlannerResult::NeedsClarification {
        planner_version: planner_v1(),
        clarification_id: ClarificationId(1),
        candidate_count: 2,
        expires_at: 30_100,
        first_operation: Some(ActionOperation::OpenSettingsPage),
    };
    let _ = c.user_request(&gate_request(7), ambiguous, &gate_context(100, 7));
    if c.active_record().is_none() {
        return false;
    }
    proof {
        reveal_strlit("لغو");
        reveal_strlit("fa");
    }
    let result = c.request_cancels(&gate_request(8), "لغو", "fa", 101, &gate_context(101, 7));
    matches!(result, Some(CoordinatorResult::ActionCancelled(_))) && c.active_record().is_none()
}

/// Runs the coordinator self-check over its decisions: an exact action,
/// a clarification, a confirmation and a cancellation.
pub fn run_coordinator_v1_gate() -> (reached: CoordinatorGateStage)
    ensures
        reached == CoordinatorGateStage::Complete,
{
    if !gate_exact() {
        return CoordinatorGateStage::Ready;
    }
    if !gate_clarification() {
        return CoordinatorGateStage::ExactAction;
    }
    if !gate_confirmation() {
        return CoordinatorGateStage::Clarification;
    }
    if !gate_cancellation() {
        return CoordinatorGateStage::Confirmation;
    }
    CoordinatorGateStage::Complete
}

} // verus!
