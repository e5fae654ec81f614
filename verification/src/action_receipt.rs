//! Immutable, redacted action receipt ledger.
//!
//! The ledger consumes typed lifecycle facts and has no policy, confirmation,
//! execution, retry, observation or parsing capability.

use vstd::prelude::*;

use crate::action_intent::{
    lemma_intent_id_eq, ActionOperation, AuditId, IntentId, RequestedBy, SessionId, TargetKind,
};
use crate::coordinator::{ActionConversationRecord, CoordinatorActionId, PublicReasonCode};
use crate::digest::{
    le16, le32, le64, lemma_concat_assoc, push_byte, push_bytes, push_u16, push_u32, push_u64, push_u8,
    sha256, spec_sha256,
};
use crate::executor::{ExecutionId, ExecutionResult, ExecutionResultCode};
use crate::outcome::ObservationId;
use crate::planner::{ConversationId, PlannerRequestId, PlannerVersion};
use crate::policy::{PolicyResult, PolicyVersion};
use vstd::string::StringSliceAdditionalSpecFns;

verus! {

pub const ACTION_RECEIPT_SCHEMA_VERSION: u16 = 1;
pub const MAX_TARGET_DISPLAY_KEY_LEN: usize = 64;
pub const MAX_RECEIPT_TIMELINE_EVENTS: usize = 24;
pub const MAX_RECEIPT_AUDIT_REFERENCES: usize = 8;
pub const MAX_RECEIPT_QUERY_RESULTS: usize = 8;
pub const MAX_RECEIPT_VIEW_TEXT: usize = 192;
pub const MAX_RECEIPT_VIEW_STEPS: usize = 24;
pub const DEFAULT_ACTIVE_RECEIPTS: usize = 8;
pub const DEFAULT_SEALED_RECEIPTS: usize = 32;
pub const DEFAULT_RECEIPT_AUDIT_CAPACITY: usize = 96;
/// Largest encoding of one sealed receipt that durable storage accepts.
pub const MAX_SEALED_RECEIPT_BYTES: usize = 2048;

/// Domain separator of the integrity digest.
pub const ACTION_RECEIPT_DIGEST_DOMAIN: [u8; 26] = [119u8, 105u8, 115u8, 101u8, 111u8, 119u8, 108u8, 46u8, 97u8, 99u8, 116u8, 105u8, 111u8, 110u8, 45u8, 114u8, 101u8, 99u8, 101u8, 105u8, 112u8, 116u8, 46u8, 118u8, 49u8, 0u8];

/// Domain separator of receipt identifiers.
pub const RECEIPT_ID_DOMAIN: [u8; 29] = [119u8, 105u8, 115u8, 101u8, 111u8, 119u8, 108u8, 46u8, 97u8, 99u8, 116u8, 105u8, 111u8, 110u8, 45u8, 114u8, 101u8, 99u8, 101u8, 105u8, 112u8, 116u8, 45u8, 105u8, 100u8, 46u8, 118u8, 49u8, 0u8];

/// Leading bytes of a sealed receipt encoding.
pub const SEALED_MAGIC: [u8; 4] = [87u8, 79u8, 82u8, 67u8];

/// Leading bytes of an open fragment.
pub const OPEN_MAGIC: [u8; 4] = [79u8, 80u8, 69u8, 78u8];

/// Leading bytes of an event fragment.
pub const EVENT_MAGIC: [u8; 4] = [69u8, 86u8, 78u8, 84u8];

/// Identifies one action receipt.
#[derive(Debug, Clone, Copy, Hash, PartialOrd, Ord)]
pub struct ActionReceiptId([u8; 16]);

impl ActionReceiptId {
    pub closed spec fn value(self) -> [u8; 16] {
        self.0
    }

    pub fn new(bytes: [u8; 16]) -> (id: Self)
        ensures
            id.value() == bytes,
    {
        ActionReceiptId(bytes)
    }

    pub fn bytes(self) -> (b: [u8; 16])
        ensures
            b == self.value(),
    {
        self.0
    }

    /// Derives the receipt identifier of an action from its binding.
    pub fn for_action(
        action_id: CoordinatorActionId,
        conversation_id: ConversationId,
        session_id: SessionId,
        requester: RequestedBy,
        request_id: PlannerRequestId,
    ) -> (id: Self)
        ensures
            id.value()@ == spec_sha256(
                receipt_id_preimage(action_id, conversation_id, session_id, requester, request_id),
            ).subrange(0, 16),
    {
        let mut bytes: Vec<u8> = Vec::new();
        push_bytes(&mut bytes, &RECEIPT_ID_DOMAIN);
        push_u64(&mut bytes, action_id.0);
        push_u64(&mut bytes, conversation_id.0);
        push_u64(&mut bytes, session_id.0);
        push_requester(&mut bytes, requester);
        push_u64(&mut bytes, request_id.0);
        assert(bytes@ =~= receipt_id_preimage(
            action_id,
            conversation_id,
            session_id,
            requester,
            request_id,
        ));
        let digest = sha256(bytes.as_slice());
        let mut id = [0u8; 16];
        let mut i: usize = 0;
        while i < 16
            invariant
                0 <= i <= 16,
                digest@.len() == 32,
                forall|j: int| 0 <= j < i ==> id@[j] == digest@[j],
            decreases 16 - i,
        {
            id[i] = digest[i];
            i = i + 1;
        }
        assert(id@ =~= digest@.subrange(0, 16));
        ActionReceiptId(id)
    }
}

impl PartialEq for ActionReceiptId {
    fn eq(&self, other: &Self) -> (r: bool) {
        crate::action_intent::bytes16_eq(&self.0, &other.0)
    }
}

impl Eq for ActionReceiptId {
}

impl vstd::std_specs::cmp::PartialEqSpecImpl for ActionReceiptId {
    open spec fn obeys_eq_spec() -> bool {
        true
    }

    open spec fn eq_spec(&self, other: &ActionReceiptId) -> bool {
        self.value() == other.value()
    }
}

/// Receipt identifiers are equal exactly when their bytes are.
pub proof fn lemma_receipt_id_eq(a: ActionReceiptId, b: ActionReceiptId)
    ensures
        (a == b) <==> (a.value() == b.value()),
{
}

fn receipt_id_eq(a: ActionReceiptId, b: ActionReceiptId) -> (r: bool)
    ensures
        r == (a == b),
{
    proof {
        lemma_receipt_id_eq(a, b);
    }
    crate::action_intent::bytes16_eq(&a.0, &b.0)
}

/// The bytes that stand for a requester in digests.
pub open spec fn requester_bytes(requester: RequestedBy) -> Seq<u8> {
    match requester {
        RequestedBy::User(user_id) => seq![1u8] + le32(user_id),
        RequestedBy::WiseOwlReasoning => seq![2u8],
        RequestedBy::SystemComponent(component) => seq![3u8] + le16(component),
    }
}

pub(crate) fn push_requester(out: &mut Vec<u8>, requester: RequestedBy)
    ensures
        final(out)@ == old(out)@ + requester_bytes(requester),
{
    match requester {
        RequestedBy::User(user_id) => {
            push_u8(out, 1);
            push_u32(out, user_id);
            assert(out@ =~= old(out)@ + requester_bytes(requester));
        },
        RequestedBy::WiseOwlReasoning => {
            push_u8(out, 2);
            assert(out@ =~= old(out)@ + requester_bytes(requester));
        },
        RequestedBy::SystemComponent(component) => {
            push_u8(out, 3);
            push_u16(out, component);
            assert(out@ =~= old(out)@ + requester_bytes(requester));
        },
    }
}

/// The bytes whose digest names a receipt.
pub open spec fn receipt_id_preimage(
    action_id: CoordinatorActionId,
    conversation_id: ConversationId,
    session_id: SessionId,
    requester: RequestedBy,
    request_id: PlannerRequestId,
) -> Seq<u8> {
    RECEIPT_ID_DOMAIN@ + le64(action_id.0) + le64(conversation_id.0) + le64(session_id.0)
        + requester_bytes(requester) + le64(request_id.0)
}

/// Bytes allowed in a target display key: ASCII letters, digits, `.`, `_`, `-`.
pub open spec fn display_key_check(value: &str) -> bool {
    &&& value@.len() != 0
    &&& value.spec_bytes().len() <= MAX_TARGET_DISPLAY_KEY_LEN
    &&& forall|i: int|
        0 <= i < value.spec_bytes().len() ==> crate::action_intent::is_identifier_byte(
            #[trigger] value.spec_bytes()[i],
        )
}

/// A bounded, redacted key naming a target for display.
#[derive(Debug, PartialEq, Eq)]
pub struct TargetDisplayKey(String);

impl View for TargetDisplayKey {
    type V = Seq<char>;

    closed spec fn view(&self) -> Seq<char> {
        self.0@
    }
}

impl Clone for TargetDisplayKey {
    fn clone(&self) -> (r: Self)
        ensures
            r@ == self@,
    {
        TargetDisplayKey(self.0.clone())
    }
}

impl TargetDisplayKey {
    pub fn new(value: &str) -> (r: Result<Self, ReceiptError>)
        ensures
            r is Ok <==> display_key_check(value),
            r matches Err(e) ==> e == ReceiptError::InvalidTargetDisplayKey,
            r matches Ok(k) ==> k@ == value@,
    {
        match crate::action_intent::bounded_identifier(value) {
            Ok(s) => Ok(TargetDisplayKey(s)),
            Err(_) => {
                proof {
                    if display_key_check(value) {
                        assert(!(exists|i: int|
                            0 <= i < value.spec_bytes().len()
                                && !crate::action_intent::allowed_byte(
                                #[trigger] value.spec_bytes()[i],
                                false,
                            )));
                    }
                }
                Err(ReceiptError::InvalidTargetDisplayKey)
            },
        }
    }

    pub fn as_str(&self) -> (s: &str)
        ensures
            s@ == self@,
    {
        self.0.as_str()
    }
}

#[derive(Debug, Clone, Copy, PartialEq, Eq, Structural)]
pub enum ReceiptEventSource {
    Planner,
    Policy,
    ConfirmationAuthority,
    Coordinator,
    Executor,
    OutcomeObserver,
}

#[derive(Debug, Clone, Copy, PartialEq, Eq, Structural)]
pub enum ReceiptLifecycleEventType {
    RequestAccepted,
    NoAction,
    Unsupported,
    ClarificationRequested,
    ClarificationResolved,
    ClarificationExpired,
    PolicyAllowed,
    PolicyDenied,
    ConfirmationRequested,
    ConfirmationApproved,
    ConfirmationRejected,
    ConfirmationExpired,
    Cancelled,
    ReadyForExecutionProduced,
    DispatchAccepted,
    DispatchFailed,
    AwaitingOutcome,
    TargetReady,
    TargetExitedEarly,
    OutcomeTimedOut,
    SessionInvalidated,
    RegistryInvalidated,
    InvalidInput,
    Completed,
}

#[derive(Debug, Clone, Copy, PartialEq, Eq, Structural)]
pub enum ActionReceiptTerminalStatus {
    CompletedReady,
    DispatchAcceptedOnly,
    Denied,
    Unsupported,
    Cancelled,
    ClarificationExpired,
    ConfirmationRejected,
    ConfirmationExpired,
    DispatchFailed,
    ExitedEarly,
    OutcomeTimedOut,
    SessionInvalidated,
    RegistryInvalidated,
    InvalidInput,
    Interrupted,
    Unknown,
}

impl ActionReceiptTerminalStatus {
    pub open spec fn spec_is_success(self) -> bool {
        self is CompletedReady || self is DispatchAcceptedOnly
    }

    pub open spec fn spec_is_executed(self) -> bool {
        self is CompletedReady || self is DispatchAcceptedOnly || self is ExitedEarly
            || self is OutcomeTimedOut
    }

    /// The action reached its goal, or at least its dispatch was accepted.
    pub fn is_success(self) -> (r: bool)
        ensures
            r == self.spec_is_success(),
    {
        match self {
            ActionReceiptTerminalStatus::CompletedReady
            | ActionReceiptTerminalStatus::DispatchAcceptedOnly => true,
            _ => false,
        }
    }

    /// Something was actually dispatched for this action.
    pub fn is_executed(self) -> (r: bool)
        ensures
            r == self.spec_is_executed(),
    {
        match self {
            ActionReceiptTerminalStatus::CompletedReady
            | ActionReceiptTerminalStatus::DispatchAcceptedOnly
            | ActionReceiptTerminalStatus::ExitedEarly
            | ActionReceiptTerminalStatus::OutcomeTimedOut => true,
            _ => false,
        }
    }
}

/// Every successful status is an executed one.
pub proof fn lemma_success_implies_executed(status: ActionReceiptTerminalStatus)
    ensures
        status.spec_is_success() ==> status.spec_is_executed(),
{
}

#[derive(Debug, Clone, Copy, PartialEq, Eq, Default)]
pub struct ReceiptRelevantIds {
    pub intent_id: Option<IntentId>,
    pub execution_id: Option<ExecutionId>,
    pub observation_id: Option<ObservationId>,
    pub audit_id: Option<AuditId>,
}

/// One typed, bound lifecycle fact about an action.
#[derive(Debug, Clone, Copy, PartialEq, Eq)]
pub struct ActionReceiptLifecycleEvent {
    receipt_id: ActionReceiptId,
    coordinator_action_id: CoordinatorActionId,
    session_id: SessionId,
    requester: RequestedBy,
    sequence: u16,
    timestamp: u64,
    event_type: ReceiptLifecycleEventType,
    public_reason: PublicReasonCode,
    ids: ReceiptRelevantIds,
    source: ReceiptEventSource,
    terminal_status: Option<ActionReceiptTerminalStatus>,
}

impl ActionReceiptLifecycleEvent {
    pub closed spec fn spec_receipt_id(&self) -> ActionReceiptId {
        self.receipt_id
    }

    pub closed spec fn spec_coordinator_action_id(&self) -> CoordinatorActionId {
        self.coordinator_action_id
    }

    pub closed spec fn spec_session_id(&self) -> SessionId {
        self.session_id
    }

    pub closed spec fn spec_requester(&self) -> RequestedBy {
        self.requester
    }

    pub closed spec fn spec_sequence(&self) -> u16 {
        self.sequence
    }

    pub closed spec fn spec_timestamp(&self) -> u64 {
        self.timestamp
    }

    pub closed spec fn spec_event_type(&self) -> ReceiptLifecycleEventType {
        self.event_type
    }

    pub closed spec fn spec_public_reason(&self) -> PublicReasonCode {
        self.public_reason
    }

    pub closed spec fn spec_ids(&self) -> ReceiptRelevantIds {
        self.ids
    }

    pub closed spec fn spec_source(&self) -> ReceiptEventSource {
        self.source
    }

    pub closed spec fn spec_terminal_status(&self) -> Option<ActionReceiptTerminalStatus> {
        self.terminal_status
    }

    #[allow(clippy::too_many_arguments)]
    pub fn new(
        receipt_id: ActionReceiptId,
        coordinator_action_id: CoordinatorActionId,
        session_id: SessionId,
        requester: RequestedBy,
        sequence: u16,
        timestamp: u64,
        event_type: ReceiptLifecycleEventType,
        public_reason: PublicReasonCode,
        ids: ReceiptRelevantIds,
        source: ReceiptEventSource,
        terminal_status: Option<ActionReceiptTerminalStatus>,
    ) -> (e: Self)
        ensures
            e.spec_receipt_id() == receipt_id,
            e.spec_coordinator_action_id() == coordinator_action_id,
            e.spec_session_id() == session_id,
            e.spec_requester() == requester,
            e.spec_sequence() == sequence,
            e.spec_timestamp() == timestamp,
            e.spec_event_type() == event_type,
            e.spec_public_reason() == public_reason,
            e.spec_ids() == ids,
            e.spec_source() == source,
            e.spec_terminal_status() == terminal_status,
    {
        ActionReceiptLifecycleEvent {
            receipt_id,
            coordinator_action_id,
            session_id,
            requester,
            sequence,
            timestamp,
            event_type,
            public_reason,
            ids,
            source,
            terminal_status,
        }
    }

    pub fn receipt_id(&self) -> (r: ActionReceiptId)
        ensures
            r == self.spec_receipt_id(),
    {
        self.receipt_id
    }

    pub fn coordinator_action_id(&self) -> (r: CoordinatorActionId)
        ensures
            r == self.spec_coordinator_action_id(),
    {
        self.coordinator_action_id
    }

    pub fn session_id(&self) -> (r: SessionId)
        ensures
            r == self.spec_session_id(),
    {
        self.session_id
    }

    pub fn requester(&self) -> (r: RequestedBy)
        ensures
            r == self.spec_requester(),
    {
        self.requester
    }

    pub fn sequence(&self) -> (r: u16)
        ensures
            r == self.spec_sequence(),
    {
        self.sequence
    }

    pub fn timestamp(&self) -> (r: u64)
        ensures
            r == self.spec_timestamp(),
    {
        self.timestamp
    }

    pub fn event_type(&self) -> (r: ReceiptLifecycleEventType)
        ensures
            r == self.spec_event_type(),
    {
        self.event_type
    }

    pub fn public_reason(&self) -> (r: PublicReasonCode)
        ensures
            r == self.spec_public_reason(),
    {
        self.public_reason
    }

    pub fn ids(&self) -> (r: ReceiptRelevantIds)
        ensures
            r == self.spec_ids(),
    {
        self.ids
    }

    pub fn source(&self) -> (r: ReceiptEventSource)
        ensures
            r == self.spec_source(),
    {
        self.source
    }

    pub fn terminal_status(&self) -> (r: Option<ActionReceiptTerminalStatus>)
        ensures
            r == self.spec_terminal_status(),
    {
        self.terminal_status
    }

}

fn opt_intent_eq(a: Option<IntentId>, b: Option<IntentId>) -> (r: bool)
    ensures
        r == (a == b),
{
    match (a, b) {
        (Some(x), Some(y)) => {
            proof {
                lemma_intent_id_eq(x, y);
            }
            crate::action_intent::bytes16_eq(&x.bytes(), &y.bytes())
        },
        (None, None) => true,
        _ => false,
    }
}

fn ids_eq(a: ReceiptRelevantIds, b: ReceiptRelevantIds) -> (r: bool)
    ensures
        r == (a == b),
{
    opt_intent_eq(a.intent_id, b.intent_id) && a.execution_id == b.execution_id
        && a.observation_id == b.observation_id && a.audit_id == b.audit_id
}

/// Whether two lifecycle events are the same fact.
pub fn events_equal(a: &ActionReceiptLifecycleEvent, b: &ActionReceiptLifecycleEvent) -> (r: bool)
    ensures
        r == (*a == *b),
{
    receipt_id_eq(a.receipt_id, b.receipt_id) && a.coordinator_action_id == b.coordinator_action_id
        && a.session_id == b.session_id && a.requester == b.requester && a.sequence == b.sequence
        && a.timestamp == b.timestamp && a.event_type == b.event_type && a.public_reason
        == b.public_reason && ids_eq(a.ids, b.ids) && a.source == b.source && a.terminal_status
        == b.terminal_status
}

/// Wire code of an event source.
pub open spec fn spec_source_code(x: ReceiptEventSource) -> u8 {
    match x {
        ReceiptEventSource::Planner => 1,
        ReceiptEventSource::Policy => 2,
        ReceiptEventSource::ConfirmationAuthority => 3,
        ReceiptEventSource::Coordinator => 4,
        ReceiptEventSource::Executor => 5,
        ReceiptEventSource::OutcomeObserver => 6,
    }
}

pub fn source_code(x: ReceiptEventSource) -> (r: u8)
    ensures
        r == spec_source_code(x),
{
    match x {
        ReceiptEventSource::Planner => 1,
        ReceiptEventSource::Policy => 2,
        ReceiptEventSource::ConfirmationAuthority => 3,
        ReceiptEventSource::Coordinator => 4,
        ReceiptEventSource::Executor => 5,
        ReceiptEventSource::OutcomeObserver => 6,
    }
}

/// Wire code of a lifecycle event type.
pub open spec fn spec_event_type_code(x: ReceiptLifecycleEventType) -> u8 {
    match x {
        ReceiptLifecycleEventType::RequestAccepted => 1,
        ReceiptLifecycleEventType::NoAction => 2,
        ReceiptLifecycleEventType::Unsupported => 3,
        ReceiptLifecycleEventType::ClarificationRequested => 4,
        ReceiptLifecycleEventType::ClarificationResolved => 5,
        ReceiptLifecycleEventType::ClarificationExpired => 6,
        ReceiptLifecycleEventType::PolicyAllowed => 7,
        ReceiptLifecycleEventType::PolicyDenied => 8,
        ReceiptLifecycleEventType::ConfirmationRequested => 9,
        ReceiptLifecycleEventType::ConfirmationApproved => 10,
        ReceiptLifecycleEventType::ConfirmationRejected => 11,
        ReceiptLifecycleEventType::ConfirmationExpired => 12,
        ReceiptLifecycleEventType::Cancelled => 13,
        ReceiptLifecycleEventType::ReadyForExecutionProduced => 14,
        ReceiptLifecycleEventType::DispatchAccepted => 15,
        ReceiptLifecycleEventType::DispatchFailed => 16,
        ReceiptLifecycleEventType::AwaitingOutcome => 17,
        ReceiptLifecycleEventType::TargetReady => 18,
        ReceiptLifecycleEventType::TargetExitedEarly => 19,
        ReceiptLifecycleEventType::OutcomeTimedOut => 20,
        ReceiptLifecycleEventType::SessionInvalidated => 21,
        ReceiptLifecycleEventType::RegistryInvalidated => 22,
        ReceiptLifecycleEventType::InvalidInput => 23,
        ReceiptLifecycleEventType::Completed => 24,
    }
}

pub fn event_type_code(x: ReceiptLifecycleEventType) -> (r: u8)
    ensures
        r == spec_event_type_code(x),
{
    match x {
        ReceiptLifecycleEventType::RequestAccepted => 1,
        ReceiptLifecycleEventType::NoAction => 2,
        ReceiptLifecycleEventType::Unsupported => 3,
        ReceiptLifecycleEventType::ClarificationRequested => 4,
        ReceiptLifecycleEventType::ClarificationResolved => 5,
        ReceiptLifecycleEventType::ClarificationExpired => 6,
        ReceiptLifecycleEventType::PolicyAllowed => 7,
        ReceiptLifecycleEventType::PolicyDenied => 8,
        ReceiptLifecycleEventType::ConfirmationRequested => 9,
        ReceiptLifecycleEventType::ConfirmationApproved => 10,
        ReceiptLifecycleEventType::ConfirmationRejected => 11,
        ReceiptLifecycleEventType::ConfirmationExpired => 12,
        ReceiptLifecycleEventType::Cancelled => 13,
        ReceiptLifecycleEventType::ReadyForExecutionProduced => 14,
        ReceiptLifecycleEventType::DispatchAccepted => 15,
        ReceiptLifecycleEventType::DispatchFailed => 16,
        ReceiptLifecycleEventType::AwaitingOutcome => 17,
        ReceiptLifecycleEventType::TargetReady => 18,
        ReceiptLifecycleEventType::TargetExitedEarly => 19,
        ReceiptLifecycleEventType::OutcomeTimedOut => 20,
        ReceiptLifecycleEventType::SessionInvalidated => 21,
        ReceiptLifecycleEventType::RegistryInvalidated => 22,
        ReceiptLifecycleEventType::InvalidInput => 23,
        ReceiptLifecycleEventType::Completed => 24,
    }
}

/// Wire code of a terminal status.
pub open spec fn spec_terminal_status_code(x: ActionReceiptTerminalStatus) -> u8 {
    match x {
        ActionReceiptTerminalStatus::CompletedReady => 1,
        ActionReceiptTerminalStatus::DispatchAcceptedOnly => 2,
        ActionReceiptTerminalStatus::Denied => 3,
        ActionReceiptTerminalStatus::Unsupported => 4,
        ActionReceiptTerminalStatus::Cancelled => 5,
        ActionReceiptTerminalStatus::ClarificationExpired => 6,
        ActionReceiptTerminalStatus::ConfirmationRejected => 7,
        ActionReceiptTerminalStatus::ConfirmationExpired => 8,
        ActionReceiptTerminalStatus::DispatchFailed => 9,
        ActionReceiptTerminalStatus::ExitedEarly => 10,
        ActionReceiptTerminalStatus::OutcomeTimedOut => 11,
        ActionReceiptTerminalStatus::SessionInvalidated => 12,
        ActionReceiptTerminalStatus::RegistryInvalidated => 13,
        ActionReceiptTerminalStatus::InvalidInput => 14,
        ActionReceiptTerminalStatus::Interrupted => 15,
        ActionReceiptTerminalStatus::Unknown => 0,
    }
}

pub fn terminal_status_code(x: ActionReceiptTerminalStatus) -> (r: u8)
    ensures
        r == spec_terminal_status_code(x),
{
    match x {
        ActionReceiptTerminalStatus::CompletedReady => 1,
        ActionReceiptTerminalStatus::DispatchAcceptedOnly => 2,
        ActionReceiptTerminalStatus::Denied => 3,
        ActionReceiptTerminalStatus::Unsupported => 4,
        ActionReceiptTerminalStatus::Cancelled => 5,
        ActionReceiptTerminalStatus::ClarificationExpired => 6,
        ActionReceiptTerminalStatus::ConfirmationRejected => 7,
        ActionReceiptTerminalStatus::ConfirmationExpired => 8,
        ActionReceiptTerminalStatus::DispatchFailed => 9,
        ActionReceiptTerminalStatus::ExitedEarly => 10,
        ActionReceiptTerminalStatus::OutcomeTimedOut => 11,
        ActionReceiptTerminalStatus::SessionInvalidated => 12,
        ActionReceiptTerminalStatus::RegistryInvalidated => 13,
        ActionReceiptTerminalStatus::InvalidInput => 14,
        ActionReceiptTerminalStatus::Interrupted => 15,
        ActionReceiptTerminalStatus::Unknown => 0,
    }
}

/// Wire code of a public reason.
pub open spec fn spec_reason_code(x: PublicReasonCode) -> u8 {
    match x {
        PublicReasonCode::NoReason => 0,
        PublicReasonCode::ClarificationNeeded => 1,
        PublicReasonCode::ConfirmationNeeded => 2,
        PublicReasonCode::DispatchAccepted => 3,
        PublicReasonCode::OutcomeReady => 4,
        PublicReasonCode::OutcomeFailed => 5,
        PublicReasonCode::OutcomeTimedOut => 6,
        PublicReasonCode::ExitedBeforeReady => 7,
        PublicReasonCode::ObservationCancelled => 8,
        PublicReasonCode::DispatchFailed => 9,
        PublicReasonCode::TargetNotFound => 10,
        PublicReasonCode::TargetUnavailable => 11,
        PublicReasonCode::PolicyDenied => 12,
        PublicReasonCode::Unsupported => 13,
        PublicReasonCode::InvalidInput => 14,
        PublicReasonCode::InvalidSelection => 15,
        PublicReasonCode::RejectedByUser => 16,
        PublicReasonCode::CancelledByUser => 17,
        PublicReasonCode::Expired => 18,
        PublicReasonCode::SessionEnded => 19,
        PublicReasonCode::SessionChanged => 20,
        PublicReasonCode::PolicyChanged => 21,
        PublicReasonCode::RuntimeChanged => 22,
        PublicReasonCode::ApplicationRegistryChanged => 23,
        PublicReasonCode::SettingsRegistryChanged => 24,
        PublicReasonCode::ReplayRejected => 25,
        PublicReasonCode::ActionAlreadyPending => 26,
        PublicReasonCode::Unknown => 255,
    }
}

pub fn reason_code(x: PublicReasonCode) -> (r: u8)
    ensures
        r == spec_reason_code(x),
{
    match x {
        PublicReasonCode::NoReason => 0,
        PublicReasonCode::ClarificationNeeded => 1,
        PublicReasonCode::ConfirmationNeeded => 2,
        PublicReasonCode::DispatchAccepted => 3,
        PublicReasonCode::OutcomeReady => 4,
        PublicReasonCode::OutcomeFailed => 5,
        PublicReasonCode::OutcomeTimedOut => 6,
        PublicReasonCode::ExitedBeforeReady => 7,
        PublicReasonCode::ObservationCancelled => 8,
        PublicReasonCode::DispatchFailed => 9,
        PublicReasonCode::TargetNotFound => 10,
        PublicReasonCode::TargetUnavailable => 11,
        PublicReasonCode::PolicyDenied => 12,
        PublicReasonCode::Unsupported => 13,
        PublicReasonCode::InvalidInput => 14,
        PublicReasonCode::InvalidSelection => 15,
        PublicReasonCode::RejectedByUser => 16,
        PublicReasonCode::CancelledByUser => 17,
        PublicReasonCode::Expired => 18,
        PublicReasonCode::SessionEnded => 19,
        PublicReasonCode::SessionChanged => 20,
        PublicReasonCode::PolicyChanged => 21,
        PublicReasonCode::RuntimeChanged => 22,
        PublicReasonCode::ApplicationRegistryChanged => 23,
        PublicReasonCode::SettingsRegistryChanged => 24,
        PublicReasonCode::ReplayRejected => 25,
        PublicReasonCode::ActionAlreadyPending => 26,
        PublicReasonCode::Unknown => 255,
    }
}

/// Wire code of an operation; unknown operations keep their value under the high bit.
pub open spec fn spec_action_operation_code(x: ActionOperation) -> u16 {
    match x {
        ActionOperation::Observe => 1,
        ActionOperation::OpenApplication => 2,
        ActionOperation::OpenSettingsPage => 3,
        ActionOperation::LaunchUtility => 4,
        ActionOperation::RestartService => 5,
        ActionOperation::StopService => 6,
        ActionOperation::InstallPackage => 7,
        ActionOperation::RemovePackage => 8,
        ActionOperation::ModifyFile => 9,
        ActionOperation::DeleteFile => 10,
        ActionOperation::ModifyBootConfiguration => 11,
        ActionOperation::EraseDisk => 12,
        ActionOperation::UnknownOperation(value) => 0x8000u16 | value,
    }
}

pub fn action_operation_code(x: ActionOperation) -> (r: u16)
    ensures
        r == spec_action_operation_code(x),
{
    match x {
        ActionOperation::Observe => 1,
        ActionOperation::OpenApplication => 2,
        ActionOperation::OpenSettingsPage => 3,
        ActionOperation::LaunchUtility => 4,
        ActionOperation::RestartService => 5,
        ActionOperation::StopService => 6,
        ActionOperation::InstallPackage => 7,
        ActionOperation::RemovePackage => 8,
        ActionOperation::ModifyFile => 9,
        ActionOperation::DeleteFile => 10,
        ActionOperation::ModifyBootConfiguration => 11,
        ActionOperation::EraseDisk => 12,
        ActionOperation::UnknownOperation(value) => 0x8000u16 | value,
    }
}

/// Wire code of a target kind.
pub open spec fn spec_target_kind_code(x: TargetKind) -> u16 {
    match x {
        TargetKind::Application => 1,
        TargetKind::SettingsPage => 2,
        TargetKind::Utility => 3,
        TargetKind::Service => 4,
        TargetKind::Package => 5,
        TargetKind::File => 6,
        TargetKind::Disk => 7,
        TargetKind::System => 8,
        TargetKind::Unknown => 0,
    }
}

pub fn target_kind_code(x: TargetKind) -> (r: u16)
    ensures
        r == spec_target_kind_code(x),
{
    match x {
        TargetKind::Application => 1,
        TargetKind::SettingsPage => 2,
        TargetKind::Utility => 3,
        TargetKind::Service => 4,
        TargetKind::Package => 5,
        TargetKind::File => 6,
        TargetKind::Disk => 7,
        TargetKind::System => 8,
        TargetKind::Unknown => 0,
    }
}

/// Public reason reported for an execution result.
pub open spec fn spec_execution_reason(x: ExecutionResultCode) -> PublicReasonCode {
    match x {
        ExecutionResultCode::Succeeded => PublicReasonCode::DispatchAccepted,
        ExecutionResultCode::TargetNotFound => PublicReasonCode::TargetNotFound,
        ExecutionResultCode::TargetUnavailable => PublicReasonCode::TargetUnavailable,
        ExecutionResultCode::SessionInactive => PublicReasonCode::SessionEnded,
        ExecutionResultCode::PolicyChanged => PublicReasonCode::PolicyChanged,
        ExecutionResultCode::RuntimeStale => PublicReasonCode::RuntimeChanged,
        ExecutionResultCode::ConfirmationExpired => PublicReasonCode::Expired,
        ExecutionResultCode::DispatchFailed => PublicReasonCode::DispatchFailed,
        ExecutionResultCode::Rejected => PublicReasonCode::Unknown,
        ExecutionResultCode::UnsupportedOperation => PublicReasonCode::Unknown,
        ExecutionResultCode::InvalidEnvelope => PublicReasonCode::Unknown,
        ExecutionResultCode::ConfirmationInvalid => PublicReasonCode::Unknown,
        ExecutionResultCode::AlreadyConsumed => PublicReasonCode::Unknown,
        ExecutionResultCode::Unknown => PublicReasonCode::Unknown,
    }
}

pub fn execution_reason(x: ExecutionResultCode) -> (r: PublicReasonCode)
    ensures
        r == spec_execution_reason(x),
{
    match x {
        ExecutionResultCode::Succeeded => PublicReasonCode::DispatchAccepted,
        ExecutionResultCode::TargetNotFound => PublicReasonCode::TargetNotFound,
        ExecutionResultCode::TargetUnavailable => PublicReasonCode::TargetUnavailable,
        ExecutionResultCode::SessionInactive => PublicReasonCode::SessionEnded,
        ExecutionResultCode::PolicyChanged => PublicReasonCode::PolicyChanged,
        ExecutionResultCode::RuntimeStale => PublicReasonCode::RuntimeChanged,
        ExecutionResultCode::ConfirmationExpired => PublicReasonCode::Expired,
        ExecutionResultCode::DispatchFailed => PublicReasonCode::DispatchFailed,
        ExecutionResultCode::Rejected => PublicReasonCode::Unknown,
        ExecutionResultCode::UnsupportedOperation => PublicReasonCode::Unknown,
        ExecutionResultCode::InvalidEnvelope => PublicReasonCode::Unknown,
        ExecutionResultCode::ConfirmationInvalid => PublicReasonCode::Unknown,
        ExecutionResultCode::AlreadyConsumed => PublicReasonCode::Unknown,
        ExecutionResultCode::Unknown => PublicReasonCode::Unknown,
    }
}

/// Which lifecycle events each component may report.
pub open spec fn source_allows(source: ReceiptEventSource, event: ReceiptLifecycleEventType) -> bool {
    match source {
        ReceiptEventSource::Planner => event is RequestAccepted || event is NoAction
            || event is Unsupported || event is ClarificationRequested
            || event is ClarificationResolved || event is ClarificationExpired
            || event is InvalidInput,
        ReceiptEventSource::Policy => event is PolicyAllowed || event is PolicyDenied,
        ReceiptEventSource::ConfirmationAuthority => event is ConfirmationRequested
            || event is ConfirmationApproved || event is ConfirmationRejected
            || event is ConfirmationExpired,
        ReceiptEventSource::Coordinator => event is RequestAccepted || event is Cancelled
            || event is ReadyForExecutionProduced || event is AwaitingOutcome
            || event is SessionInvalidated || event is RegistryInvalidated || event is Completed,
        ReceiptEventSource::Executor => event is DispatchAccepted || event is DispatchFailed,
        ReceiptEventSource::OutcomeObserver => event is TargetReady || event is TargetExitedEarly
            || event is OutcomeTimedOut || event is SessionInvalidated
            || event is RegistryInvalidated,
    }
}

pub fn validate_source(source: ReceiptEventSource, event: ReceiptLifecycleEventType) -> (r: Result<
    (),
    ReceiptError,
>)
    ensures
        r is Ok <==> source_allows(source, event),
        r matches Err(e) ==> e == ReceiptError::UnsupportedEvent,
{
    let valid = match source {
        ReceiptEventSource::Planner => match event {
            ReceiptLifecycleEventType::RequestAccepted
            | ReceiptLifecycleEventType::NoAction
            | ReceiptLifecycleEventType::Unsupported
            | ReceiptLifecycleEventType::ClarificationRequested
            | ReceiptLifecycleEventType::ClarificationResolved
            | ReceiptLifecycleEventType::ClarificationExpired
            | ReceiptLifecycleEventType::InvalidInput => true,
            _ => false,
        },
        ReceiptEventSource::Policy => match event {
            ReceiptLifecycleEventType::PolicyAllowed | ReceiptLifecycleEventType::PolicyDenied => true,
            _ => false,
        },
        ReceiptEventSource::ConfirmationAuthority => match event {
            ReceiptLifecycleEventType::ConfirmationRequested
            | ReceiptLifecycleEventType::ConfirmationApproved
            | ReceiptLifecycleEventType::ConfirmationRejected
            | ReceiptLifecycleEventType::ConfirmationExpired => true,
            _ => false,
        },
        ReceiptEventSource::Coordinator => match event {
            ReceiptLifecycleEventType::RequestAccepted
            | ReceiptLifecycleEventType::Cancelled
            | ReceiptLifecycleEventType::ReadyForExecutionProduced
            | ReceiptLifecycleEventType::AwaitingOutcome
            | ReceiptLifecycleEventType::SessionInvalidated
            | ReceiptLifecycleEventType::RegistryInvalidated
            | ReceiptLifecycleEventType::Completed => true,
            _ => false,
        },
        ReceiptEventSource::Executor => match event {
            ReceiptLifecycleEventType::DispatchAccepted
            | ReceiptLifecycleEventType::DispatchFailed => true,
            _ => false,
        },
        ReceiptEventSource::OutcomeObserver => match event {
            ReceiptLifecycleEventType::TargetReady
            | ReceiptLifecycleEventType::TargetExitedEarly
            | ReceiptLifecycleEventType::OutcomeTimedOut
            | ReceiptLifecycleEventType::SessionInvalidated
            | ReceiptLifecycleEventType::RegistryInvalidated => true,
            _ => false,
        },
    };
    if valid {
        Ok(())
    } else {
        Err(ReceiptError::UnsupportedEvent)
    }
}

/// Event types that can only close a receipt.
pub open spec fn is_terminal_event(event: ReceiptLifecycleEventType) -> bool {
    event is NoAction || event is Unsupported || event is ClarificationExpired
        || event is PolicyDenied || event is ConfirmationRejected || event is ConfirmationExpired
        || event is Cancelled || event is DispatchFailed || event is TargetExitedEarly
        || event is OutcomeTimedOut || event is SessionInvalidated || event is RegistryInvalidated
        || event is InvalidInput || event is Completed
}

/// Whether a terminal status (or its absence) fits the event that carries it.
pub open spec fn terminal_fits(
    event: ReceiptLifecycleEventType,
    status: Option<ActionReceiptTerminalStatus>,
) -> bool {
    match status {
        None => !is_terminal_event(event),
        Some(ActionReceiptTerminalStatus::Unsupported) => event is Unsupported,
        Some(ActionReceiptTerminalStatus::ClarificationExpired) => event is ClarificationExpired,
        Some(ActionReceiptTerminalStatus::Denied) => event is PolicyDenied,
        Some(ActionReceiptTerminalStatus::ConfirmationRejected) => event is ConfirmationRejected,
        Some(ActionReceiptTerminalStatus::ConfirmationExpired) => event is ConfirmationExpired,
        Some(ActionReceiptTerminalStatus::Cancelled) => event is Cancelled,
        Some(ActionReceiptTerminalStatus::DispatchFailed) => event is DispatchFailed,
        Some(ActionReceiptTerminalStatus::ExitedEarly) => event is TargetExitedEarly,
        Some(ActionReceiptTerminalStatus::OutcomeTimedOut) => event is OutcomeTimedOut,
        Some(ActionReceiptTerminalStatus::SessionInvalidated) => event is SessionInvalidated,
        Some(ActionReceiptTerminalStatus::RegistryInvalidated) => event is RegistryInvalidated,
        Some(ActionReceiptTerminalStatus::InvalidInput) => event is InvalidInput || event is NoAction,
        Some(ActionReceiptTerminalStatus::CompletedReady)
        | Some(ActionReceiptTerminalStatus::DispatchAcceptedOnly)
        | Some(ActionReceiptTerminalStatus::Interrupted)
        | Some(ActionReceiptTerminalStatus::Unknown) => event is Completed,
    }
}

pub fn validate_terminal(
    event: ReceiptLifecycleEventType,
    status: Option<ActionReceiptTerminalStatus>,
) -> (r: Result<(), ReceiptError>)
    ensures
        r is Ok <==> terminal_fits(event, status),
        r matches Err(e) ==> e == ReceiptError::InvalidTerminalStatus,
{
    let valid = match status {
        None => match event {
            ReceiptLifecycleEventType::NoAction
            | ReceiptLifecycleEventType::Unsupported
            | ReceiptLifecycleEventType::ClarificationExpired
            | ReceiptLifecycleEventType::PolicyDenied
            | ReceiptLifecycleEventType::ConfirmationRejected
            | ReceiptLifecycleEventType::ConfirmationExpired
            | ReceiptLifecycleEventType::Cancelled
            | ReceiptLifecycleEventType::DispatchFailed
            | ReceiptLifecycleEventType::TargetExitedEarly
            | ReceiptLifecycleEventType::OutcomeTimedOut
            | ReceiptLifecycleEventType::SessionInvalidated
            | ReceiptLifecycleEventType::RegistryInvalidated
            | ReceiptLifecycleEventType::InvalidInput
            | ReceiptLifecycleEventType::Completed => false,
            _ => true,
        },
        Some(ActionReceiptTerminalStatus::Unsupported) => event
            == ReceiptLifecycleEventType::Unsupported,
        Some(ActionReceiptTerminalStatus::ClarificationExpired) => event
            == ReceiptLifecycleEventType::ClarificationExpired,
        Some(ActionReceiptTerminalStatus::Denied) => event == ReceiptLifecycleEventType::PolicyDenied,
        Some(ActionReceiptTerminalStatus::ConfirmationRejected) => event
            == ReceiptLifecycleEventType::ConfirmationRejected,
        Some(ActionReceiptTerminalStatus::ConfirmationExpired) => event
            == ReceiptLifecycleEventType::ConfirmationExpired,
        Some(ActionReceiptTerminalStatus::Cancelled) => event == ReceiptLifecycleEventType::Cancelled,
        Some(ActionReceiptTerminalStatus::DispatchFailed) => event
            == ReceiptLifecycleEventType::DispatchFailed,
        Some(ActionReceiptTerminalStatus::ExitedEarly) => event
            == ReceiptLifecycleEventType::TargetExitedEarly,
        Some(ActionReceiptTerminalStatus::OutcomeTimedOut) => event
            == ReceiptLifecycleEventType::OutcomeTimedOut,
        Some(ActionReceiptTerminalStatus::SessionInvalidated) => event
            == ReceiptLifecycleEventType::SessionInvalidated,
        Some(ActionReceiptTerminalStatus::RegistryInvalidated) => event
            == ReceiptLifecycleEventType::RegistryInvalidated,
        Some(ActionReceiptTerminalStatus::InvalidInput) => event
            == ReceiptLifecycleEventType::InvalidInput || event
            == ReceiptLifecycleEventType::NoAction,
        Some(ActionReceiptTerminalStatus::CompletedReady)
        | Some(ActionReceiptTerminalStatus::DispatchAcceptedOnly)
        | Some(ActionReceiptTerminalStatus::Interrupted)
        | Some(ActionReceiptTerminalStatus::Unknown) => event == ReceiptLifecycleEventType::Completed,
    };
    if valid {
        Ok(())
    } else {
        Err(ReceiptError::InvalidTerminalStatus)
    }
}

/// A terminal status is carried exactly by a terminal event type.
pub proof fn lemma_status_iff_terminal_event(
    event: ReceiptLifecycleEventType,
    status: Option<ActionReceiptTerminalStatus>,
)
    requires
        terminal_fits(event, status),
    ensures
        status is Some <==> is_terminal_event(event),
{
}

/// The storage domain of a requester: users by id, the reasoning engine and
/// system components in reserved ranges at the top of the space.
pub open spec fn spec_requester_domain(requester: RequestedBy) -> u64 {
    match requester {
        RequestedBy::User(user_id) => user_id as u64,
        RequestedBy::WiseOwlReasoning => (u64::MAX - 1) as u64,
        RequestedBy::SystemComponent(component) => ((u64::MAX - 0x1_0000) + component) as u64,
    }
}

pub fn requester_domain(requester: RequestedBy) -> (d: u64)
    ensures
        d == spec_requester_domain(requester),
{
    match requester {
        RequestedBy::User(user_id) => user_id as u64,
        RequestedBy::WiseOwlReasoning => u64::MAX - 1,
        RequestedBy::SystemComponent(component) => (u64::MAX - 0x1_0000) + component as u64,
    }
}

/// Different requesters never share a storage domain, except that the last
/// system component number lands on the reasoning engine's domain.
pub proof fn lemma_requester_domain_injective(a: RequestedBy, b: RequestedBy)
    requires
        spec_requester_domain(a) == spec_requester_domain(b),
        a != RequestedBy::SystemComponent(0xffff),
        b != RequestedBy::SystemComponent(0xffff),
    ensures
        a == b,
{
}

#[derive(Debug, Clone, Copy, PartialEq, Eq, Structural)]
pub enum ReceiptError {
    DuplicateReceipt,
    ActiveCapacity,
    ReceiptNotFound,
    AlreadySealed,
    WrongAction,
    WrongSession,
    WrongRequester,
    UnknownSource,
    UnsupportedEvent,
    OutOfOrder,
    DuplicateSequenceConflict,
    DuplicateTerminal,
    TimelineFull,
    InvalidTerminalStatus,
    InvalidTargetDisplayKey,
    UnboundedQuery,
    IntegrityFailure,
    ReceiptTooLarge,
    PersistenceFailure,
}

#[derive(Debug, Clone, Copy, PartialEq, Eq, Structural)]
pub struct PolicyReceiptSummary {
    pub result: PolicyResult,
    pub public_reason: PublicReasonCode,
    pub audit_id: Option<AuditId>,
}

#[derive(Debug, Clone, Copy, PartialEq, Eq, Structural)]
pub enum ConfirmationReceiptOutcome {
    NotRequired,
    Requested,
    Approved,
    Rejected,
    Expired,
}

#[derive(Debug, Clone, Copy, PartialEq, Eq, Structural)]
pub struct ConfirmationReceiptSummary {
    pub outcome: ConfirmationReceiptOutcome,
}

#[derive(Debug, Clone, Copy, PartialEq, Eq, Structural)]
pub enum DispatchReceiptStatus {
    NotDispatched,
    ReadyProduced,
    Accepted,
    Failed,
}

#[derive(Debug, Clone, Copy, PartialEq, Eq, Structural)]
pub struct DispatchReceiptSummary {
    pub status: DispatchReceiptStatus,
    pub execution_id: Option<ExecutionId>,
    pub audit_id: Option<AuditId>,
}

#[derive(Debug, Clone, Copy, PartialEq, Eq, Structural)]
pub enum ObservedReceiptOutcome {
    NotObserved,
    Awaiting,
    Ready,
    ExitedEarly,
    TimedOut,
    SessionInvalidated,
    RegistryInvalidated,
}

#[derive(Debug, Clone, Copy, PartialEq, Eq, Structural)]
pub struct ObservedOutcomeReceiptSummary {
    pub outcome: ObservedReceiptOutcome,
    pub observation_id: Option<ObservationId>,
    pub audit_id: Option<AuditId>,
}

/// Everything known about an action when its receipt is opened.
#[derive(Debug, PartialEq, Eq)]
pub struct ReceiptOpen {
    pub receipt_id: ActionReceiptId,
    pub coordinator_action_id: CoordinatorActionId,
    pub conversation_id: ConversationId,
    pub session_id: SessionId,
    pub requester: RequestedBy,
    pub original_request_id: PlannerRequestId,
    pub intent_id: Option<IntentId>,
    pub operation: Option<ActionOperation>,
    pub target_kind: Option<TargetKind>,
    pub target_display_key: Option<TargetDisplayKey>,
    pub request_timestamp: u64,
    pub policy_version: PolicyVersion,
    pub planner_version: PlannerVersion,
    pub runtime_snapshot_generation: u64,
    pub application_registry_generation: u64,
    pub settings_registry_generation: u64,
    pub bounded_audit_references: Vec<AuditId>,
}

fn clone_key(key: &Option<TargetDisplayKey>) -> (r: Option<TargetDisplayKey>)
    ensures
        r is Some == key is Some,
        r is Some ==> r->0@ == key->0@,
{
    match key {
        Some(k) => Some(k.clone()),
        None => None,
    }
}

fn clone_audit_refs(refs: &Vec<AuditId>) -> (r: Vec<AuditId>)
    ensures
        r@ == refs@,
{
    let mut out: Vec<AuditId> = Vec::new();
    let mut i: usize = 0;
    while i < refs.len()
        invariant
            0 <= i <= refs@.len(),
            out@ == refs@.subrange(0, i as int),
        decreases refs@.len() - i,
    {
        out.push(refs[i]);
        i = i + 1;
        assert(out@ =~= refs@.subrange(0, i as int));
    }
    assert(refs@.subrange(0, refs@.len() as int) =~= refs@);
    out
}

/// Two opens agree on everything a receipt records.
pub open spec fn opens_agree(a: ReceiptOpen, b: ReceiptOpen) -> bool {
    &&& a.receipt_id == b.receipt_id
    &&& a.coordinator_action_id == b.coordinator_action_id
    &&& a.conversation_id == b.conversation_id
    &&& a.session_id == b.session_id
    &&& a.requester == b.requester
    &&& a.original_request_id == b.original_request_id
    &&& a.intent_id == b.intent_id
    &&& a.operation == b.operation
    &&& a.target_kind == b.target_kind
    &&& a.target_display_key is Some == b.target_display_key is Some
    &&& (a.target_display_key is Some ==> a.target_display_key->0@ == b.target_display_key->0@)
    &&& a.request_timestamp == b.request_timestamp
    &&& a.policy_version == b.policy_version
    &&& a.planner_version == b.planner_version
    &&& a.runtime_snapshot_generation == b.runtime_snapshot_generation
    &&& a.application_registry_generation == b.application_registry_generation
    &&& a.settings_registry_generation == b.settings_registry_generation
    &&& a.bounded_audit_references@ == b.bounded_audit_references@
}

impl Clone for ReceiptOpen {
    fn clone(&self) -> (r: Self)
        ensures
            opens_agree(r, *self),
    {
        ReceiptOpen {
            receipt_id: self.receipt_id,
            coordinator_action_id: self.coordinator_action_id,
            conversation_id: self.conversation_id,
            session_id: self.session_id,
            requester: self.requester,
            original_request_id: self.original_request_id,
            intent_id: self.intent_id,
            operation: self.operation,
            target_kind: self.target_kind,
            target_display_key: clone_key(&self.target_display_key),
            request_timestamp: self.request_timestamp,
            policy_version: self.policy_version,
            planner_version: self.planner_version,
            runtime_snapshot_generation: self.runtime_snapshot_generation,
            application_registry_generation: self.application_registry_generation,
            settings_registry_generation: self.settings_registry_generation,
            bounded_audit_references: clone_audit_refs(&self.bounded_audit_references),
        }
    }
}

impl ReceiptOpen {
    /// Opens the receipt of a coordinated action from its conversation record.
    pub fn from_coordinator_record(
        record: &ActionConversationRecord,
        operation: Option<ActionOperation>,
        target_kind: Option<TargetKind>,
        target_display_key: Option<TargetDisplayKey>,
    ) -> (open: Self)
        ensures
            open.receipt_id.value()@ == spec_sha256(
                receipt_id_preimage(
                    record.spec_coordinator_action_id(),
                    record.spec_conversation_id(),
                    record.spec_session_id(),
                    record.spec_requester(),
                    record.spec_original_request_id(),
                ),
            ).subrange(0, 16),
            open.coordinator_action_id == record.spec_coordinator_action_id(),
            open.conversation_id == record.spec_conversation_id(),
            open.session_id == record.spec_session_id(),
            open.requester == record.spec_requester(),
            open.original_request_id == record.spec_original_request_id(),
            open.intent_id == record.spec_intent_id(),
            open.operation == operation,
            open.target_kind == target_kind,
            open.target_display_key == target_display_key,
            open.request_timestamp == record.spec_creation_time(),
            open.policy_version == record.spec_policy_version(),
            open.planner_version == record.spec_planner_version(),
            open.runtime_snapshot_generation == record.spec_runtime_snapshot_generation(),
            open.application_registry_generation == record.spec_application_registry_generation(),
            open.settings_registry_generation == record.spec_settings_registry_generation(),
            open.bounded_audit_references@ == (if record.spec_bounded_audit_reference() != 0 {
                seq![AuditId(record.spec_bounded_audit_reference())]
            } else {
                Seq::<AuditId>::empty()
            }),
    {
        let receipt_id = ActionReceiptId::for_action(
            record.coordinator_action_id(),
            record.conversation_id(),
            record.session_id(),
            record.requester(),
            record.original_request_id(),
        );
        let mut bounded_audit_references: Vec<AuditId> = Vec::new();
        if record.bounded_audit_reference() != 0 {
            bounded_audit_references.push(AuditId(record.bounded_audit_reference()));
        }
        ReceiptOpen {
            receipt_id,
            coordinator_action_id: record.coordinator_action_id(),
            conversation_id: record.conversation_id(),
            session_id: record.session_id(),
            requester: record.requester(),
            original_request_id: record.original_request_id(),
            intent_id: record.intent_id(),
            operation,
            target_kind,
            target_display_key,
            request_timestamp: record.creation_time(),
            policy_version: record.policy_version(),
            planner_version: record.planner_version(),
            runtime_snapshot_generation: record.runtime_snapshot_generation(),
            application_registry_generation: record.application_registry_generation(),
            settings_registry_generation: record.settings_registry_generation(),
            bounded_audit_references,
        }
    }
}

/// The timestamp an execution result is recorded at: dispatch time, else
/// completion time, else the time of the request.
pub open spec fn execution_timestamp(open_ts: u64, execution: ExecutionResult) -> u64 {
    match execution.spec_dispatch_timestamp() {
        Some(t) => t.0,
        None => match execution.spec_completion_timestamp() {
            Some(t) => t.0,
            None => open_ts,
        },
    }
}

impl ActionReceiptLifecycleEvent {
    /// Records policy's decision on the intent of `open` as one of its
    /// lifecycle events: the decision must be for that intent, under the
    /// receipt's policy version and runtime generation.
    pub fn from_policy_decision(
        open: &ReceiptOpen,
        sequence: u16,
        timestamp: u64,
        intent_id: IntentId,
        policy_version: PolicyVersion,
        runtime_snapshot_generation: u64,
        result: PolicyResult,
        audit_id: AuditId,
    ) -> (r: Result<Self, ReceiptError>)
        ensures
            r is Err <==> (open.intent_id != Some(intent_id) || open.policy_version != policy_version
                || open.runtime_snapshot_generation != runtime_snapshot_generation),
            r matches Err(e) ==> e == ReceiptError::WrongAction,
            r matches Ok(ev) ==> {
                let denied = result == PolicyResult::Denied || result == PolicyResult::Unknown;
                &&& ev.spec_receipt_id() == open.receipt_id
                &&& ev.spec_coordinator_action_id() == open.coordinator_action_id
                &&& ev.spec_session_id() == open.session_id
                &&& ev.spec_requester() == open.requester
                &&& ev.spec_sequence() == sequence
                &&& ev.spec_timestamp() == timestamp
                &&& ev.spec_event_type() == (if denied {
                    ReceiptLifecycleEventType::PolicyDenied
                } else {
                    ReceiptLifecycleEventType::PolicyAllowed
                })
                &&& ev.spec_public_reason() == (if denied {
                    PublicReasonCode::PolicyDenied
                } else if result == PolicyResult::ConfirmationRequired {
                    PublicReasonCode::ConfirmationNeeded
                } else {
                    PublicReasonCode::NoReason
                })
                &&& ev.spec_ids() == (ReceiptRelevantIds {
                    intent_id: Some(intent_id),
                    execution_id: None,
                    observation_id: None,
                    audit_id: Some(audit_id),
                })
                &&& ev.spec_source() == ReceiptEventSource::Policy
                &&& ev.spec_terminal_status() == (if denied {
                    Some(ActionReceiptTerminalStatus::Denied)
                } else {
                    None
                })
            },
    {
        if !opt_intent_eq(open.intent_id, Some(intent_id)) || open.policy_version != policy_version
            || open.runtime_snapshot_generation != runtime_snapshot_generation {
            return Err(ReceiptError::WrongAction);
        }
        let (event_type, reason, terminal_status) = match result {
            PolicyResult::Allowed => (ReceiptLifecycleEventType::PolicyAllowed, PublicReasonCode::NoReason, None),
            PolicyResult::ConfirmationRequired => (
                ReceiptLifecycleEventType::PolicyAllowed,
                PublicReasonCode::ConfirmationNeeded,
                None,
            ),
            _ => (
                ReceiptLifecycleEventType::PolicyDenied,
                PublicReasonCode::PolicyDenied,
                Some(ActionReceiptTerminalStatus::Denied),
            ),
        };
        Ok(
            Self::new(
                open.receipt_id,
                open.coordinator_action_id,
                open.session_id,
                open.requester,
                sequence,
                timestamp,
                event_type,
                reason,
                ReceiptRelevantIds { intent_id: Some(intent_id), execution_id: None, observation_id: None, audit_id: Some(audit_id) },
                ReceiptEventSource::Policy,
                terminal_status,
            ),
        )
    }

    /// Records the executor's dispatch outcome as a lifecycle event of `open`.
    pub fn from_execution_result(open: &ReceiptOpen, sequence: u16, execution: &ExecutionResult) -> (r:
        Result<Self, ReceiptError>)
        ensures
            r is Err <==> open.intent_id != Some(execution.spec_intent_id()),
            r matches Err(e) ==> e == ReceiptError::WrongAction,
            r matches Ok(ev) ==> {
                let accepted = execution.spec_code() == ExecutionResultCode::Succeeded;
                &&& ev.spec_receipt_id() == open.receipt_id
                &&& ev.spec_coordinator_action_id() == open.coordinator_action_id
                &&& ev.spec_session_id() == open.session_id
                &&& ev.spec_requester() == open.requester
                &&& ev.spec_sequence() == sequence
                &&& ev.spec_timestamp() == execution_timestamp(open.request_timestamp, *execution)
                &&& ev.spec_event_type() == (if accepted {
                    ReceiptLifecycleEventType::DispatchAccepted
                } else {
                    ReceiptLifecycleEventType::DispatchFailed
                })
                &&& ev.spec_public_reason() == spec_execution_reason(execution.spec_code())
                &&& ev.spec_ids() == (ReceiptRelevantIds {
                    intent_id: Some(execution.spec_intent_id()),
                    execution_id: Some(execution.spec_execution_id()),
                    observation_id: None,
                    audit_id: Some(execution.spec_audit_id()),
                })
                &&& ev.spec_source() == ReceiptEventSource::Executor
                &&& ev.spec_terminal_status() == (if accepted {
                    None
                } else {
                    Some(ActionReceiptTerminalStatus::DispatchFailed)
                })
            },
    {
        if !opt_intent_eq(open.intent_id, Some(execution.intent_id())) {
            return Err(ReceiptError::WrongAction);
        }
        let timestamp = match execution.dispatch_timestamp() {
            Some(t) => t.0,
            None => match execution.completion_timestamp() {
                Some(t) => t.0,
                None => open.request_timestamp,
            },
        };
        let accepted = execution.code() == ExecutionResultCode::Succeeded;
        Ok(
            Self::new(
                open.receipt_id,
                open.coordinator_action_id,
                open.session_id,
                open.requester,
                sequence,
                timestamp,
                if accepted {
                    ReceiptLifecycleEventType::DispatchAccepted
                } else {
                    ReceiptLifecycleEventType::DispatchFailed
                },
                execution_reason(execution.code()),
                ReceiptRelevantIds {
                    intent_id: Some(execution.intent_id()),
                    execution_id: Some(execution.execution_id()),
                    observation_id: None,
                    audit_id: Some(execution.audit_id()),
                },
                ReceiptEventSource::Executor,
                if accepted {
                    None
                } else {
                    Some(ActionReceiptTerminalStatus::DispatchFailed)
                },
            ),
        )
    }
}

/// An open receipt and the facts recorded about it so far.
#[derive(Debug, PartialEq, Eq)]
struct ReceiptBuilder {
    open: ReceiptOpen,
    timeline: Vec<ActionReceiptLifecycleEvent>,
    summaries: ReceiptSummaries,
}

/// A sealed, immutable receipt of one action.
#[derive(Debug, Clone, PartialEq, Eq)]
pub struct ActionReceipt {
    receipt_id: ActionReceiptId,
    coordinator_action_id: CoordinatorActionId,
    conversation_id: ConversationId,
    session_id: SessionId,
    requester: RequestedBy,
    original_request_id: PlannerRequestId,
    intent_id: Option<IntentId>,
    execution_id: Option<ExecutionId>,
    observation_id: Option<ObservationId>,
    operation: Option<ActionOperation>,
    target_kind: Option<TargetKind>,
    target_display_key: Option<TargetDisplayKey>,
    request_timestamp: u64,
    terminal_timestamp: u64,
    terminal_status: ActionReceiptTerminalStatus,
    policy: Option<PolicyReceiptSummary>,
    confirmation: ConfirmationReceiptSummary,
    dispatch: DispatchReceiptSummary,
    observed_outcome: ObservedOutcomeReceiptSummary,
    policy_version: PolicyVersion,
    planner_version: PlannerVersion,
    runtime_snapshot_generation: u64,
    application_registry_generation: u64,
    settings_registry_generation: u64,
    bounded_audit_references: Vec<AuditId>,
    timeline: Vec<ActionReceiptLifecycleEvent>,
    integrity_digest: [u8; 32],
    schema_version: u16,
}

impl ActionReceipt {
    pub closed spec fn spec_receipt_id(&self) -> ActionReceiptId {
        self.receipt_id
    }

    pub closed spec fn spec_coordinator_action_id(&self) -> CoordinatorActionId {
        self.coordinator_action_id
    }

    pub closed spec fn spec_conversation_id(&self) -> ConversationId {
        self.conversation_id
    }

    pub closed spec fn spec_session_id(&self) -> SessionId {
        self.session_id
    }

    pub closed spec fn spec_requester(&self) -> RequestedBy {
        self.requester
    }

    pub closed spec fn spec_original_request_id(&self) -> PlannerRequestId {
        self.original_request_id
    }

    pub closed spec fn spec_intent_id(&self) -> Option<IntentId> {
        self.intent_id
    }

    pub closed spec fn spec_execution_id(&self) -> Option<ExecutionId> {
        self.execution_id
    }

    pub closed spec fn spec_observation_id(&self) -> Option<ObservationId> {
        self.observation_id
    }

    pub closed spec fn spec_operation(&self) -> Option<ActionOperation> {
        self.operation
    }

    pub closed spec fn spec_target_kind(&self) -> Option<TargetKind> {
        self.target_kind
    }

    pub closed spec fn spec_target_display_key(&self) -> Option<Seq<char>> {
        match self.target_display_key {
            Some(k) => Some(k@),
            None => None,
        }
    }

    pub closed spec fn spec_request_timestamp(&self) -> u64 {
        self.request_timestamp
    }

    pub closed spec fn spec_terminal_timestamp(&self) -> u64 {
        self.terminal_timestamp
    }

    pub closed spec fn spec_terminal_status(&self) -> ActionReceiptTerminalStatus {
        self.terminal_status
    }

    pub closed spec fn spec_policy(&self) -> Option<PolicyReceiptSummary> {
        self.policy
    }

    pub closed spec fn spec_confirmation(&self) -> ConfirmationReceiptSummary {
        self.confirmation
    }

    pub closed spec fn spec_dispatch(&self) -> DispatchReceiptSummary {
        self.dispatch
    }

    pub closed spec fn spec_observed_outcome(&self) -> ObservedOutcomeReceiptSummary {
        self.observed_outcome
    }

    pub closed spec fn spec_policy_version(&self) -> PolicyVersion {
        self.policy_version
    }

    pub closed spec fn spec_planner_version(&self) -> PlannerVersion {
        self.planner_version
    }

    pub closed spec fn spec_runtime_snapshot_generation(&self) -> u64 {
        self.runtime_snapshot_generation
    }

    pub closed spec fn spec_application_registry_generation(&self) -> u64 {
        self.application_registry_generation
    }

    pub closed spec fn spec_settings_registry_generation(&self) -> u64 {
        self.settings_registry_generation
    }

    pub closed spec fn spec_bounded_audit_references(&self) -> Seq<AuditId> {
        self.bounded_audit_references@
    }

    pub closed spec fn spec_timeline(&self) -> Seq<ActionReceiptLifecycleEvent> {
        self.timeline@
    }

    pub closed spec fn spec_integrity_digest(&self) -> [u8; 32] {
        self.integrity_digest
    }

    pub closed spec fn spec_schema_version(&self) -> u16 {
        self.schema_version
    }

    pub fn receipt_id(&self) -> (r: ActionReceiptId)
        ensures
            r == self.spec_receipt_id(),
    {
        self.receipt_id
    }

    pub fn coordinator_action_id(&self) -> (r: CoordinatorActionId)
        ensures
            r == self.spec_coordinator_action_id(),
    {
        self.coordinator_action_id
    }

    pub fn conversation_id(&self) -> (r: ConversationId)
        ensures
            r == self.spec_conversation_id(),
    {
        self.conversation_id
    }

    pub fn session_id(&self) -> (r: SessionId)
        ensures
            r == self.spec_session_id(),
    {
        self.session_id
    }

    pub fn requester(&self) -> (r: RequestedBy)
        ensures
            r == self.spec_requester(),
    {
        self.requester
    }

    pub fn original_request_id(&self) -> (r: PlannerRequestId)
        ensures
            r == self.spec_original_request_id(),
    {
        self.original_request_id
    }

    pub fn intent_id(&self) -> (r: Option<IntentId>)
        ensures
            r == self.spec_intent_id(),
    {
        self.intent_id
    }

    pub fn execution_id(&self) -> (r: Option<ExecutionId>)
        ensures
            r == self.spec_execution_id(),
    {
        self.execution_id
    }

    pub fn observation_id(&self) -> (r: Option<ObservationId>)
        ensures
            r == self.spec_observation_id(),
    {
        self.observation_id
    }

    pub fn operation(&self) -> (r: Option<ActionOperation>)
        ensures
            r == self.spec_operation(),
    {
        self.operation
    }

    pub fn target_kind(&self) -> (r: Option<TargetKind>)
        ensures
            r == self.spec_target_kind(),
    {
        self.target_kind
    }

    pub fn request_timestamp(&self) -> (r: u64)
        ensures
            r == self.spec_request_timestamp(),
    {
        self.request_timestamp
    }

    pub fn terminal_timestamp(&self) -> (r: u64)
        ensures
            r == self.spec_terminal_timestamp(),
    {
        self.terminal_timestamp
    }

    pub fn terminal_status(&self) -> (r: ActionReceiptTerminalStatus)
        ensures
            r == self.spec_terminal_status(),
    {
        self.terminal_status
    }

    pub fn policy_summary(&self) -> (r: Option<PolicyReceiptSummary>)
        ensures
            r == self.spec_policy(),
    {
        self.policy
    }

    pub fn confirmation_summary(&self) -> (r: ConfirmationReceiptSummary)
        ensures
            r == self.spec_confirmation(),
    {
        self.confirmation
    }

    pub fn dispatch_summary(&self) -> (r: DispatchReceiptSummary)
        ensures
            r == self.spec_dispatch(),
    {
        self.dispatch
    }

    pub fn observed_outcome_summary(&self) -> (r: ObservedOutcomeReceiptSummary)
        ensures
            r == self.spec_observed_outcome(),
    {
        self.observed_outcome
    }

    pub fn integrity_digest(&self) -> (r: [u8; 32])
        ensures
            r == self.spec_integrity_digest(),
    {
        self.integrity_digest
    }

    pub fn schema_version(&self) -> (r: u16)
        ensures
            r == self.spec_schema_version(),
    {
        self.schema_version
    }

    pub fn target_display_key(&self) -> (r: Option<&TargetDisplayKey>)
        ensures
            r is Some == self.spec_target_display_key() is Some,
            r is Some ==> r->0@ == self.spec_target_display_key()->0,
    {
        match &self.target_display_key {
            Some(k) => Some(k),
            None => None,
        }
    }

    pub fn timeline(&self) -> (r: &[ActionReceiptLifecycleEvent])
        ensures
            r@ == self.spec_timeline(),
    {
        self.timeline.as_slice()
    }

    /// The receipt's digest, schema and final event are all as sealed.
    pub open spec fn spec_integrity_holds(&self) -> bool {
        &&& self.spec_schema_version() == ACTION_RECEIPT_SCHEMA_VERSION
        &&& self.spec_integrity_digest()@ == spec_sha256(integrity_preimage(*self))
        &&& self.spec_timeline().len() > 0
        &&& self.spec_timeline().last().spec_terminal_status() == Some(self.spec_terminal_status())
    }

    /// Flips every bit of the digest's first byte, so that the receipt no
    /// longer matches its digest; for exercising integrity checks.
    pub fn corrupt_digest_for_test(&mut self)
        ensures
            final(self).spec_integrity_digest()@ == old(self).spec_integrity_digest()@.update(
                0,
                old(self).spec_integrity_digest()[0] ^ 0xffu8,
            ),
    {
        let first = self.integrity_digest[0] ^ 0xffu8;
        self.integrity_digest[0] = first;
        proof {
            assert(self.integrity_digest@ =~= old(self).integrity_digest@.update(0, first));
        }
    }

    pub fn verify_integrity(&self) -> (r: bool)
        ensures
            r == self.spec_integrity_holds(),
    {
        if self.schema_version != ACTION_RECEIPT_SCHEMA_VERSION {
            return false;
        }
        let digest = compute_integrity_digest(self);
        if !bytes32_eq(&self.integrity_digest, &digest) {
            return false;
        }
        let n = self.timeline.len();
        if n == 0 {
            return false;
        }
        match self.timeline[n - 1].terminal_status {
            Some(status) => status == self.terminal_status,
            None => false,
        }
    }

    /// Encodes a receipt whose integrity holds for durable storage.
    pub fn encode_sealed(&self) -> (r: Result<Vec<u8>, ReceiptError>)
        ensures
            !self.spec_integrity_holds() ==> r == Err::<Vec<u8>, ReceiptError>(
                ReceiptError::IntegrityFailure,
            ),
            self.spec_integrity_holds() && sealed_encoding(*self).len() > MAX_SEALED_RECEIPT_BYTES
                ==> r == Err::<Vec<u8>, ReceiptError>(ReceiptError::ReceiptTooLarge),
            self.spec_integrity_holds() && sealed_encoding(*self).len() <= MAX_SEALED_RECEIPT_BYTES
                ==> (r matches Ok(bytes) && bytes@ == sealed_encoding(*self)),
    {
        if !self.verify_integrity() {
            return Err(ReceiptError::IntegrityFailure);
        }
        let mut bytes: Vec<u8> = Vec::new();
        push_bytes(&mut bytes, &SEALED_MAGIC);
        push_u16(&mut bytes, self.schema_version);
        push_bytes(&mut bytes, &self.receipt_id.0);
        push_bytes(&mut bytes, &self.integrity_digest);
        push_u64(&mut bytes, self.terminal_timestamp);
        push_u16(&mut bytes, self.timeline.len() as u16);
        let ghost head = bytes@;
        let mut i: usize = 0;
        while i < self.timeline.len()
            invariant
                0 <= i <= self.timeline@.len(),
                bytes@ == head + events_encoding(self.timeline@.subrange(0, i as int)),
            decreases self.timeline@.len() - i,
        {
            let ghost before = bytes@;
            encode_event(&mut bytes, &self.timeline[i]);
            proof {
                lemma_events_encoding_push(self.timeline@.subrange(0, i as int), self.timeline@[i as int]);
                assert(self.timeline@.subrange(0, i + 1) =~= self.timeline@.subrange(0, i as int).push(self.timeline@[i as int]));
            }
            i = i + 1;
        }
        assert(self.timeline@.subrange(0, self.timeline@.len() as int) =~= self.timeline@);
        assert(bytes@ =~= sealed_encoding(*self));
        if bytes.len() > MAX_SEALED_RECEIPT_BYTES {
            return Err(ReceiptError::ReceiptTooLarge);
        }
        Ok(bytes)
    }
}

fn bytes32_eq(a: &[u8; 32], b: &[u8; 32]) -> (r: bool)
    ensures
        r == (a@ == b@),
{
    let mut i: usize = 0;
    while i < 32
        invariant
            0 <= i <= 32,
            forall|j: int| 0 <= j < i ==> a@[j] == b@[j],
        decreases 32 - i,
    {
        if a[i] != b[i] {
            return false;
        }
        i = i + 1;
    }
    assert(a@ =~= b@);
    true
}

/// Digest bytes of an optional intent identifier.
pub open spec fn opt_intent_bytes(value: Option<IntentId>) -> Seq<u8> {
    match value {
        Some(v) => seq![1u8] + v.value()@,
        None => seq![0u8],
    }
}

/// Digest bytes of an optional `u64`.
pub open spec fn opt_u64_bytes(value: Option<u64>) -> Seq<u8> {
    match value {
        Some(v) => seq![1u8] + le64(v),
        None => seq![0u8],
    }
}

/// Digest bytes of an optional `u16`.
pub open spec fn opt_u16_bytes(value: Option<u16>) -> Seq<u8> {
    match value {
        Some(v) => seq![1u8] + le16(v),
        None => seq![0u8],
    }
}

/// Digest bytes of an optional `u8`.
pub open spec fn opt_u8_bytes(value: Option<u8>) -> Seq<u8> {
    match value {
        Some(v) => seq![1u8, v],
        None => seq![0u8],
    }
}

pub open spec fn opt_exec_u64(value: Option<ExecutionId>) -> Option<u64> {
    match value {
        Some(v) => Some(v.0),
        None => None,
    }
}

pub open spec fn opt_obs_u64(value: Option<ObservationId>) -> Option<u64> {
    match value {
        Some(v) => Some(v.0),
        None => None,
    }
}

pub open spec fn opt_audit_u64(value: Option<AuditId>) -> Option<u64> {
    match value {
        Some(v) => Some(v.0),
        None => None,
    }
}

/// Digest bytes of one lifecycle event.
pub open spec fn event_digest_bytes(e: ActionReceiptLifecycleEvent) -> Seq<u8> {
    e.spec_receipt_id().value()@ + le64(e.spec_coordinator_action_id().0) + le64(
        e.spec_session_id().0,
    ) + requester_bytes(e.spec_requester()) + le16(e.spec_sequence()) + le64(e.spec_timestamp())
        + seq![spec_event_type_code(e.spec_event_type())] + seq![spec_reason_code(e.spec_public_reason())]
        + seq![spec_source_code(e.spec_source())] + opt_intent_bytes(e.spec_ids().intent_id) + opt_u64_bytes(opt_exec_u64(e.spec_ids().execution_id))
        + opt_u64_bytes(opt_obs_u64(e.spec_ids().observation_id)) + opt_u64_bytes(
        opt_audit_u64(e.spec_ids().audit_id),
    ) + opt_u8_bytes(
        match e.spec_terminal_status() {
            Some(s) => Some(spec_terminal_status_code(s)),
            None => None,
        },
    )
}

/// Digest bytes of a sequence of events, in order.
pub open spec fn events_digest_bytes(events: Seq<ActionReceiptLifecycleEvent>) -> Seq<u8>
    decreases events.len(),
{
    if events.len() == 0 {
        Seq::empty()
    } else {
        events_digest_bytes(events.drop_last()) + event_digest_bytes(events.last())
    }
}

/// Digest bytes of a sequence of audit references, in order.
pub open spec fn audit_refs_bytes(refs: Seq<AuditId>) -> Seq<u8>
    decreases refs.len(),
{
    if refs.len() == 0 {
        Seq::empty()
    } else {
        audit_refs_bytes(refs.drop_last()) + le64(refs.last().0)
    }
}

/// Digest bytes of an optional display key.
pub open spec fn key_bytes(key: Option<Seq<char>>) -> Seq<u8> {
    match key {
        Some(k) => seq![1u8] + le16(vstd::utf8::encode_utf8(k).len() as u16) + vstd::utf8::encode_utf8(k),
        None => seq![0u8],
    }
}

/// Everything the integrity digest of a receipt covers, in order.
pub open spec fn integrity_preimage(r: ActionReceipt) -> Seq<u8> {
    ACTION_RECEIPT_DIGEST_DOMAIN@ + le16(r.spec_schema_version()) + r.spec_receipt_id().value()@
        + le64(r.spec_coordinator_action_id().0) + le64(r.spec_conversation_id().0) + le64(
        r.spec_session_id().0,
    ) + requester_bytes(r.spec_requester()) + le64(r.spec_original_request_id().0)
        + opt_intent_bytes(r.spec_intent_id()) + opt_u64_bytes(opt_exec_u64(r.spec_execution_id()))
        + opt_u64_bytes(opt_obs_u64(r.spec_observation_id())) + opt_u16_bytes(
        match r.spec_operation() {
            Some(op) => Some(spec_action_operation_code(op)),
            None => None,
        },
    ) + opt_u16_bytes(
        match r.spec_target_kind() {
            Some(k) => Some(spec_target_kind_code(k)),
            None => None,
        },
    ) + key_bytes(r.spec_target_display_key()) + le64(r.spec_request_timestamp()) + le64(
        r.spec_terminal_timestamp(),
    ) + seq![spec_terminal_status_code(r.spec_terminal_status())] + le16(
        r.spec_policy_version().major,
    ) + le16(r.spec_policy_version().minor) + le16(r.spec_planner_version().major) + le16(
        r.spec_planner_version().minor,
    ) + le64(r.spec_runtime_snapshot_generation()) + le64(r.spec_application_registry_generation())
        + le64(r.spec_settings_registry_generation()) + le16(
        r.spec_bounded_audit_references().len() as u16,
    ) + audit_refs_bytes(r.spec_bounded_audit_references()) + le16(r.spec_timeline().len() as u16)
        + events_digest_bytes(r.spec_timeline())
}

/// Sealed-storage bytes of one lifecycle event.
pub open spec fn event_encoding(e: ActionReceiptLifecycleEvent) -> Seq<u8> {
    e.spec_receipt_id().value()@ + le64(e.spec_coordinator_action_id().0) + le64(
        e.spec_session_id().0,
    ) + le16(e.spec_sequence()) + le64(e.spec_timestamp()) + seq![
        spec_event_type_code(e.spec_event_type()),
        spec_reason_code(e.spec_public_reason()),
        spec_source_code(e.spec_source()),
        match e.spec_terminal_status() {
            Some(s) => spec_terminal_status_code(s),
            None => 255u8,
        },
    ]
}

/// Sealed-storage bytes of a sequence of events, in order.
pub open spec fn events_encoding(events: Seq<ActionReceiptLifecycleEvent>) -> Seq<u8>
    decreases events.len(),
{
    if events.len() == 0 {
        Seq::empty()
    } else {
        events_encoding(events.drop_last()) + event_encoding(events.last())
    }
}

proof fn lemma_events_encoding_push(events: Seq<ActionReceiptLifecycleEvent>, e: ActionReceiptLifecycleEvent)
    ensures
        events_encoding(events.push(e)) == events_encoding(events) + event_encoding(e),
        events_digest_bytes(events.push(e)) == events_digest_bytes(events) + event_digest_bytes(e),
{
    assert(events.push(e).drop_last() =~= events);
}

/// The encoding of a sealed receipt for durable storage.
pub open spec fn sealed_encoding(r: ActionReceipt) -> Seq<u8> {
    SEALED_MAGIC@ + le16(r.spec_schema_version()) + r.spec_receipt_id().value()@
        + r.spec_integrity_digest()@ + le64(r.spec_terminal_timestamp()) + le16(
        r.spec_timeline().len() as u16,
    ) + events_encoding(r.spec_timeline())
}

fn encode_event(bytes: &mut Vec<u8>, event: &ActionReceiptLifecycleEvent)
    ensures
        final(bytes)@ == old(bytes)@ + event_encoding(*event),
{
    push_bytes(bytes, &event.receipt_id.0);
    push_u64(bytes, event.coordinator_action_id.0);
    push_u64(bytes, event.session_id.0);
    push_u16(bytes, event.sequence);
    push_u64(bytes, event.timestamp);
    push_u8(bytes, event_type_code(event.event_type));
    push_u8(bytes, reason_code(event.public_reason));
    push_u8(bytes, source_code(event.source));
    let t = match event.terminal_status {
        Some(s) => terminal_status_code(s),
        None => 255u8,
    };
    push_u8(bytes, t);
    assert(bytes@ =~= old(bytes)@ + event_encoding(*event));
}

fn push_opt_intent(out: &mut Vec<u8>, value: Option<IntentId>)
    ensures
        final(out)@ == old(out)@ + opt_intent_bytes(value),
{
    match value {
        Some(v) => {
            push_u8(out, 1);
            let b = v.bytes();
            push_bytes(out, &b);
        },
        None => push_u8(out, 0),
    }
    assert(out@ =~= old(out)@ + opt_intent_bytes(value));
}

fn push_opt_u64(out: &mut Vec<u8>, value: Option<u64>)
    ensures
        final(out)@ == old(out)@ + opt_u64_bytes(value),
{
    match value {
        Some(v) => {
            push_u8(out, 1);
            push_u64(out, v);
        },
        None => push_u8(out, 0),
    }
    assert(out@ =~= old(out)@ + opt_u64_bytes(value));
}

fn push_opt_u16(out: &mut Vec<u8>, value: Option<u16>)
    ensures
        final(out)@ == old(out)@ + opt_u16_bytes(value),
{
    match value {
        Some(v) => {
            push_u8(out, 1);
            push_u16(out, v);
        },
        None => push_u8(out, 0),
    }
    assert(out@ =~= old(out)@ + opt_u16_bytes(value));
}

fn push_opt_u8(out: &mut Vec<u8>, value: Option<u8>)
    ensures
        final(out)@ == old(out)@ + opt_u8_bytes(value),
{
    match value {
        Some(v) => {
            push_u8(out, 1);
            push_u8(out, v);
        },
        None => push_u8(out, 0),
    }
    assert(out@ =~= old(out)@ + opt_u8_bytes(value));
}

#[verifier::rlimit(50)]
fn hash_event(out: &mut Vec<u8>, event: &ActionReceiptLifecycleEvent)
    ensures
        final(out)@ == old(out)@ + event_digest_bytes(*event),
{
    let ghost o0 = out@;
    push_bytes(out, &event.receipt_id.0);
    let ghost mut acc = event.spec_receipt_id().value()@;
    push_u64(out, event.coordinator_action_id.0);
    proof {
        lemma_concat_assoc(o0, acc, le64(event.spec_coordinator_action_id().0));
        acc = acc + le64(event.spec_coordinator_action_id().0);
    }
    push_u64(out, event.session_id.0);
    proof {
        lemma_concat_assoc(o0, acc, le64(event.spec_session_id().0));
        acc = acc + le64(event.spec_session_id().0);
    }
    push_requester(out, event.requester);
    proof {
        lemma_concat_assoc(o0, acc, requester_bytes(event.spec_requester()));
        acc = acc + requester_bytes(event.spec_requester());
    }
    push_u16(out, event.sequence);
    proof {
        lemma_concat_assoc(o0, acc, le16(event.spec_sequence()));
        acc = acc + le16(event.spec_sequence());
    }
    push_u64(out, event.timestamp);
    proof {
        lemma_concat_assoc(o0, acc, le64(event.spec_timestamp()));
        acc = acc + le64(event.spec_timestamp());
    }
    push_byte(out, event_type_code(event.event_type));
    proof {
        lemma_concat_assoc(o0, acc, seq![spec_event_type_code(event.spec_event_type())]);
        acc = acc + seq![spec_event_type_code(event.spec_event_type())];
    }
    push_byte(out, reason_code(event.public_reason));
    proof {
        lemma_concat_assoc(o0, acc, seq![spec_reason_code(event.spec_public_reason())]);
        acc = acc + seq![spec_reason_code(event.spec_public_reason())];
    }
    push_byte(out, source_code(event.source));
    proof {
        lemma_concat_assoc(o0, acc, seq![spec_source_code(event.spec_source())]);
        acc = acc + seq![spec_source_code(event.spec_source())];
    }
    push_opt_intent(out, event.ids.intent_id);
    proof {
        lemma_concat_assoc(o0, acc, opt_intent_bytes(event.spec_ids().intent_id));
        acc = acc + opt_intent_bytes(event.spec_ids().intent_id);
    }
    push_opt_u64(out, match event.ids.execution_id { Some(v) => Some(v.0), None => None });
    proof {
        lemma_concat_assoc(o0, acc, opt_u64_bytes(opt_exec_u64(event.spec_ids().execution_id)));
        acc = acc + opt_u64_bytes(opt_exec_u64(event.spec_ids().execution_id));
    }
    push_opt_u64(out, match event.ids.observation_id { Some(v) => Some(v.0), None => None });
    proof {
        lemma_concat_assoc(o0, acc, opt_u64_bytes(opt_obs_u64(event.spec_ids().observation_id)));
        acc = acc + opt_u64_bytes(opt_obs_u64(event.spec_ids().observation_id));
    }
    push_opt_u64(out, match event.ids.audit_id { Some(v) => Some(v.0), None => None });
    proof {
        lemma_concat_assoc(o0, acc, opt_u64_bytes(opt_audit_u64(event.spec_ids().audit_id)));
        acc = acc + opt_u64_bytes(opt_audit_u64(event.spec_ids().audit_id));
    }
    push_opt_u8(out, match event.terminal_status { Some(st) => Some(terminal_status_code(st)), None => None });
    proof {
        lemma_concat_assoc(o0, acc, opt_u8_bytes(match event.spec_terminal_status() { Some(st) => Some(spec_terminal_status_code(st)), None => None }));
        acc = acc + opt_u8_bytes(match event.spec_terminal_status() { Some(st) => Some(spec_terminal_status_code(st)), None => None });
    }
    assert(acc == event_digest_bytes(*event));
}

/// Computes the integrity digest over everything a receipt records.
fn compute_integrity_digest(receipt: &ActionReceipt) -> (d: [u8; 32])
    ensures
        d@ == spec_sha256(integrity_preimage(*receipt)),
{
    let mut out: Vec<u8> = Vec::new();
    let ghost o0 = out@;
    push_bytes(&mut out, &ACTION_RECEIPT_DIGEST_DOMAIN);
    let ghost mut acc = ACTION_RECEIPT_DIGEST_DOMAIN@;
    assert(out@ == o0 + acc);
    push_u16(&mut out, receipt.schema_version);
    proof {
        lemma_concat_assoc(o0, acc, le16(receipt.spec_schema_version()));
        acc = acc + le16(receipt.spec_schema_version());
    }
    push_bytes(&mut out, &receipt.receipt_id.0);
    proof {
        lemma_concat_assoc(o0, acc, receipt.spec_receipt_id().value()@);
        acc = acc + receipt.spec_receipt_id().value()@;
    }
    push_u64(&mut out, receipt.coordinator_action_id.0);
    proof {
        lemma_concat_assoc(o0, acc, le64(receipt.spec_coordinator_action_id().0));
        acc = acc + le64(receipt.spec_coordinator_action_id().0);
    }
    push_u64(&mut out, receipt.conversation_id.0);
    proof {
        lemma_concat_assoc(o0, acc, le64(receipt.spec_conversation_id().0));
        acc = acc + le64(receipt.spec_conversation_id().0);
    }
    push_u64(&mut out, receipt.session_id.0);
    proof {
        lemma_concat_assoc(o0, acc, le64(receipt.spec_session_id().0));
        acc = acc + le64(receipt.spec_session_id().0);
    }
    push_requester(&mut out, receipt.requester);
    proof {
        lemma_concat_assoc(o0, acc, requester_bytes(receipt.spec_requester()));
        acc = acc + requester_bytes(receipt.spec_requester());
    }
    push_u64(&mut out, receipt.original_request_id.0);
    proof {
        lemma_concat_assoc(o0, acc, le64(receipt.spec_original_request_id().0));
        acc = acc + le64(receipt.spec_original_request_id().0);
    }
    push_opt_intent(&mut out, receipt.intent_id);
    proof {
        lemma_concat_assoc(o0, acc, opt_intent_bytes(receipt.spec_intent_id()));
        acc = acc + opt_intent_bytes(receipt.spec_intent_id());
    }
    push_opt_u64(&mut out, match receipt.execution_id { Some(v) => Some(v.0), None => None });
    proof {
        lemma_concat_assoc(o0, acc, opt_u64_bytes(opt_exec_u64(receipt.spec_execution_id())));
        acc = acc + opt_u64_bytes(opt_exec_u64(receipt.spec_execution_id()));
    }
    push_opt_u64(&mut out, match receipt.observation_id { Some(v) => Some(v.0), None => None });
    proof {
        lemma_concat_assoc(o0, acc, opt_u64_bytes(opt_obs_u64(receipt.spec_observation_id())));
        acc = acc + opt_u64_bytes(opt_obs_u64(receipt.spec_observation_id()));
    }
    push_opt_u16(&mut out, match receipt.operation { Some(op) => Some(action_operation_code(op)), None => None });
    proof {
        lemma_concat_assoc(o0, acc, opt_u16_bytes(match receipt.spec_operation() { Some(op) => Some(spec_action_operation_code(op)), None => None }));
        acc = acc + opt_u16_bytes(match receipt.spec_operation() { Some(op) => Some(spec_action_operation_code(op)), None => None });
    }
    push_opt_u16(&mut out, match receipt.target_kind { Some(k) => Some(target_kind_code(k)), None => None });
    proof {
        lemma_concat_assoc(o0, acc, opt_u16_bytes(match receipt.spec_target_kind() { Some(k) => Some(spec_target_kind_code(k)), None => None }));
        acc = acc + opt_u16_bytes(match receipt.spec_target_kind() { Some(k) => Some(spec_target_kind_code(k)), None => None });
    }
    push_key(&mut out, &receipt.target_display_key);
    proof {
        lemma_concat_assoc(o0, acc, key_bytes(receipt.spec_target_display_key()));
        acc = acc + key_bytes(receipt.spec_target_display_key());
    }
    push_u64(&mut out, receipt.request_timestamp);
    proof {
        lemma_concat_assoc(o0, acc, le64(receipt.spec_request_timestamp()));
        acc = acc + le64(receipt.spec_request_timestamp());
    }
    push_u64(&mut out, receipt.terminal_timestamp);
    proof {
        lemma_concat_assoc(o0, acc, le64(receipt.spec_terminal_timestamp()));
        acc = acc + le64(receipt.spec_terminal_timestamp());
    }
    push_byte(&mut out, terminal_status_code(receipt.terminal_status));
    proof {
        lemma_concat_assoc(o0, acc, seq![spec_terminal_status_code(receipt.spec_terminal_status())]);
        acc = acc + seq![spec_terminal_status_code(receipt.spec_terminal_status())];
    }
    push_u16(&mut out, receipt.policy_version.major);
    proof {
        lemma_concat_assoc(o0, acc, le16(receipt.spec_policy_version().major));
        acc = acc + le16(receipt.spec_policy_version().major);
    }
    push_u16(&mut out, receipt.policy_version.minor);
    proof {
        lemma_concat_assoc(o0, acc, le16(receipt.spec_policy_version().minor));
        acc = acc + le16(receipt.spec_policy_version().minor);
    }
    push_u16(&mut out, receipt.planner_version.major);
    proof {
        lemma_concat_assoc(o0, acc, le16(receipt.spec_planner_version().major));
        acc = acc + le16(receipt.spec_planner_version().major);
    }
    push_u16(&mut out, receipt.planner_version.minor);
    proof {
        lemma_concat_assoc(o0, acc, le16(receipt.spec_planner_version().minor));
        acc = acc + le16(receipt.spec_planner_version().minor);
    }
    push_u64(&mut out, receipt.runtime_snapshot_generation);
    proof {
        lemma_concat_assoc(o0, acc, le64(receipt.spec_runtime_snapshot_generation()));
        acc = acc + le64(receipt.spec_runtime_snapshot_generation());
    }
    push_u64(&mut out, receipt.application_registry_generation);
    proof {
        lemma_concat_assoc(o0, acc, le64(receipt.spec_application_registry_generation()));
        acc = acc + le64(receipt.spec_application_registry_generation());
    }
    push_u64(&mut out, receipt.settings_registry_generation);
    proof {
        lemma_concat_assoc(o0, acc, le64(receipt.spec_settings_registry_generation()));
        acc = acc + le64(receipt.spec_settings_registry_generation());
    }
    push_u16(&mut out, receipt.bounded_audit_references.len() as u16);
    proof {
        lemma_concat_assoc(o0, acc, le16(receipt.spec_bounded_audit_references().len() as u16));
        acc = acc + le16(receipt.spec_bounded_audit_references().len() as u16);
    }
    push_audit_refs(&mut out, &receipt.bounded_audit_references);
    proof {
        lemma_concat_assoc(o0, acc, audit_refs_bytes(receipt.spec_bounded_audit_references()));
        acc = acc + audit_refs_bytes(receipt.spec_bounded_audit_references());
    }
    push_u16(&mut out, receipt.timeline.len() as u16);
    proof {
        lemma_concat_assoc(o0, acc, le16(receipt.spec_timeline().len() as u16));
        acc = acc + le16(receipt.spec_timeline().len() as u16);
    }
    push_events_digest(&mut out, &receipt.timeline);
    proof {
        lemma_concat_assoc(o0, acc, events_digest_bytes(receipt.spec_timeline()));
        acc = acc + events_digest_bytes(receipt.spec_timeline());
    }
    assert(acc == integrity_preimage(*receipt));
    assert(o0 =~= Seq::<u8>::empty());
    assert(out@ =~= acc);
    sha256(out.as_slice())
}

fn push_key(out: &mut Vec<u8>, key: &Option<TargetDisplayKey>)
    ensures
        final(out)@ == old(out)@ + key_bytes(
            match key {
                Some(k) => Some(k@),
                None => None,
            },
        ),
{
    match key {
        Some(k) => {
            let kb = k.as_str().as_bytes();
            push_u8(out, 1);
            push_u16(out, kb.len() as u16);
            push_bytes(out, kb);
        },
        None => push_u8(out, 0),
    }
    assert(out@ =~= old(out)@ + key_bytes(
        match key {
            Some(k) => Some(k@),
            None => None,
        },
    ));
}

fn push_audit_refs(out: &mut Vec<u8>, refs: &Vec<AuditId>)
    ensures
        final(out)@ == old(out)@ + audit_refs_bytes(refs@),
{
    let ghost o0 = out@;
    let mut i: usize = 0;
    assert(audit_refs_bytes(refs@.subrange(0, 0)) =~= Seq::<u8>::empty());
    assert(out@ =~= o0 + audit_refs_bytes(refs@.subrange(0, 0)));
    while i < refs.len()
        invariant
            0 <= i <= refs@.len(),
            out@ == o0 + audit_refs_bytes(refs@.subrange(0, i as int)),
        decreases refs@.len() - i,
    {
        push_u64(out, refs[i].0);
        proof {
            let s = refs@.subrange(0, i + 1);
            assert(s.drop_last() =~= refs@.subrange(0, i as int));
            lemma_concat_assoc(o0, audit_refs_bytes(refs@.subrange(0, i as int)), le64(refs@[i as int].0));
        }
        i = i + 1;
    }
    assert(refs@.subrange(0, refs@.len() as int) =~= refs@);
}

fn push_events_digest(out: &mut Vec<u8>, events: &Vec<ActionReceiptLifecycleEvent>)
    ensures
        final(out)@ == old(out)@ + events_digest_bytes(events@),
{
    let ghost o0 = out@;
    let mut j: usize = 0;
    assert(events_digest_bytes(events@.subrange(0, 0)) =~= Seq::<u8>::empty());
    assert(out@ =~= o0 + events_digest_bytes(events@.subrange(0, 0)));
    while j < events.len()
        invariant
            0 <= j <= events@.len(),
            out@ == o0 + events_digest_bytes(events@.subrange(0, j as int)),
        decreases events@.len() - j,
    {
        hash_event(out, &events[j]);
        proof {
            lemma_events_encoding_push(events@.subrange(0, j as int), events@[j as int]);
            assert(events@.subrange(0, j + 1) =~= events@.subrange(0, j as int).push(events@[j as int]));
            lemma_concat_assoc(o0, events_digest_bytes(events@.subrange(0, j as int)), event_digest_bytes(events@[j as int]));
        }
        j = j + 1;
    }
    assert(events@.subrange(0, events@.len() as int) =~= events@);
}


#[derive(Debug, Clone, Copy, PartialEq, Eq, Structural)]
pub struct ReceiptRetentionPolicy {
    pub max_sealed_per_domain: usize,
    pub max_nonexecuted_per_domain: usize,
}

impl ReceiptRetentionPolicy {
    /// The retention limits of the first ledger version.
    pub fn v1() -> (p: Self)
        ensures
            p.max_sealed_per_domain == 16,
            p.max_nonexecuted_per_domain == 4,
    {
        ReceiptRetentionPolicy { max_sealed_per_domain: 16, max_nonexecuted_per_domain: 4 }
    }
}

#[derive(Debug, Clone, Copy, PartialEq, Eq)]
pub enum ReceiptQueryKind {
    Latest,
    LatestCompleted,
    ByReceiptId(ActionReceiptId),
    RecentLimited,
    PendingCurrentAction,
    LastFailure,
}

#[derive(Debug, Clone, Copy, PartialEq, Eq)]
pub struct ReceiptQuery {
    pub requester: RequestedBy,
    pub active_session: SessionId,
    pub maximum_results: u8,
    pub kind: ReceiptQueryKind,
}

/// A query is bounded: 1..=8 results, and more than one only for `RecentLimited`.
pub open spec fn query_is_bounded(q: ReceiptQuery) -> bool {
    &&& 1 <= q.maximum_results <= MAX_RECEIPT_QUERY_RESULTS
    &&& (q.kind is RecentLimited || q.maximum_results == 1)
}

impl ReceiptQuery {
    pub fn validate(self) -> (r: Result<Self, ReceiptError>)
        ensures
            query_is_bounded(self) ==> r == Ok::<Self, ReceiptError>(self),
            !query_is_bounded(self) ==> r == Err::<Self, ReceiptError>(ReceiptError::UnboundedQuery),
    {
        if self.maximum_results == 0 || self.maximum_results as usize > MAX_RECEIPT_QUERY_RESULTS {
            return Err(ReceiptError::UnboundedQuery);
        }
        let recent = match self.kind {
            ReceiptQueryKind::RecentLimited => true,
            _ => false,
        };
        if !recent && self.maximum_results != 1 {
            return Err(ReceiptError::UnboundedQuery);
        }
        Ok(self)
    }
}

#[derive(Debug, Clone, Copy, PartialEq, Eq, Structural)]
pub enum ReceiptConversationQuestion {
    WhatDidYouDo,
    DidItOpen,
}

#[derive(Debug, Clone, Copy, PartialEq, Eq, Structural)]
pub enum ReceiptReadinessAnswer {
    Ready,
    NotReady,
    Pending,
    Unknown,
}

#[derive(Debug, Clone, Copy, PartialEq, Eq, Structural)]
pub enum ReceiptAuditEvent {
    ReceiptOpened,
    LifecycleEventAppended,
    DuplicateIgnored,
    MismatchedEventRejected,
    ReceiptSealed,
    IntegrityVerified,
    IntegrityFailure,
    ReceiptEvicted,
    QueryAllowed,
    QueryDenied,
}

/// A redacted audit record: identifiers and codes only.
#[derive(Debug, Clone, Copy, PartialEq, Eq)]
pub struct ReceiptAuditEntry {
    pub receipt_id: Option<ActionReceiptId>,
    pub coordinator_action_id: Option<CoordinatorActionId>,
    pub session_id: SessionId,
    pub event: ReceiptAuditEvent,
    pub public_reason: PublicReasonCode,
    pub timestamp: u64,
}

/// Saturating counter step.
pub open spec fn sat_inc(x: u64) -> u64 {
    if x == u64::MAX {
        x
    } else {
        (x + 1) as u64
    }
}

/// The entries of a bounded log after one more entry: the oldest entry is
/// evicted when the log is full, and nothing is kept when it has no room.
pub open spec fn log_after_push<T>(entries: Seq<T>, capacity: nat, entry: T) -> Seq<T> {
    if capacity == 0 {
        entries
    } else if entries.len() >= capacity {
        entries.drop_first().push(entry)
    } else {
        entries.push(entry)
    }
}

/// Fixed-capacity audit ring. Oldest entries are explicitly evicted.
pub struct ReceiptAuditLog<const N: usize> {
    entries: Vec<ReceiptAuditEntry>,
    evicted: u64,
}

impl<const N: usize> ReceiptAuditLog<N> {
    pub closed spec fn spec_entries(&self) -> Seq<ReceiptAuditEntry> {
        self.entries@
    }

    pub closed spec fn spec_evicted(&self) -> u64 {
        self.evicted
    }

    pub closed spec fn wf(&self) -> bool {
        self.entries@.len() <= N
    }

    pub fn new() -> (l: Self)
        ensures
            l.wf(),
            l.spec_entries() == Seq::<ReceiptAuditEntry>::empty(),
            l.spec_evicted() == 0,
    {
        ReceiptAuditLog { entries: Vec::new(), evicted: 0 }
    }

    pub fn entries(&self) -> (r: &[ReceiptAuditEntry])
        ensures
            r@ == self.spec_entries(),
    {
        self.entries.as_slice()
    }

    pub fn evicted(&self) -> (r: u64)
        ensures
            r == self.spec_evicted(),
    {
        self.evicted
    }

    fn push(&mut self, entry: ReceiptAuditEntry)
        requires
            old(self).wf(),
        ensures
            final(self).wf(),
            final(self).spec_entries() == log_after_push(old(self).spec_entries(), N as nat, entry),
            final(self).spec_evicted() == (if N == 0 || old(self).spec_entries().len() >= N {
                sat_inc(old(self).spec_evicted())
            } else {
                old(self).spec_evicted()
            }),
    {
        if N == 0 {
            self.evicted = if self.evicted == u64::MAX {
                self.evicted
            } else {
                self.evicted + 1
            };
            return;
        }
        if self.entries.len() >= N {
            self.entries.remove(0);
            self.evicted = if self.evicted == u64::MAX {
                self.evicted
            } else {
                self.evicted + 1
            };
        }
        self.entries.push(entry);
    }
}

/// The log holds at most its capacity, and always the newest entry when it has room.
pub proof fn lemma_log_push_bounded<T>(entries: Seq<T>, capacity: nat, entry: T)
    requires
        entries.len() <= capacity,
    ensures
        log_after_push(entries, capacity, entry).len() <= capacity,
        capacity > 0 ==> log_after_push(entries, capacity, entry).last() == entry,
{
}

#[derive(Debug, Clone, Copy, PartialEq, Eq, Structural)]
pub enum AppendDisposition {
    Appended,
    DuplicateIgnored,
    Sealed,
}

#[derive(Debug, Clone, Copy, PartialEq, Eq, Structural)]
pub enum ReceiptPersistenceError {
    Unavailable,
    Corrupt,
    Capacity,
}

/// Durable storage for receipt fragments and sealed receipts.
pub trait ReceiptPersistence {
    /// Whether this storage accepts every write: such a storage answers every
    /// call with `Ok` and stays such a storage.
    spec fn spec_infallible(&self) -> bool;

    fn append_fragment(
        &mut self,
        owner_domain: u64,
        session_id: SessionId,
        receipt_id: ActionReceiptId,
        fragment: &[u8],
    ) -> (r: Result<(), ReceiptPersistenceError>)
        ensures
            old(self).spec_infallible() ==> r is Ok && final(self).spec_infallible(),
    ;

    fn seal(
        &mut self,
        owner_domain: u64,
        session_id: SessionId,
        receipt_id: ActionReceiptId,
        receipt: &[u8],
    ) -> (r: Result<(), ReceiptPersistenceError>)
        ensures
            old(self).spec_infallible() ==> r is Ok && final(self).spec_infallible(),
    ;

    fn evict(&mut self, owner_domain: u64, session_id: SessionId, receipt_id: ActionReceiptId) -> (r: Result<
        (),
        ReceiptPersistenceError,
    >)
        ensures
            old(self).spec_infallible() ==> r is Ok && final(self).spec_infallible(),
    ;
}

/// Storage that keeps nothing beyond the process; every call succeeds.
#[derive(Default)]
pub struct VolatileReceiptPersistence;

impl ReceiptPersistence for VolatileReceiptPersistence {
    open spec fn spec_infallible(&self) -> bool {
        true
    }

    fn append_fragment(
        &mut self,
        _owner_domain: u64,
        _session_id: SessionId,
        _receipt_id: ActionReceiptId,
        _fragment: &[u8],
    ) -> Result<(), ReceiptPersistenceError> {
        Ok(())
    }

    fn seal(
        &mut self,
        _owner_domain: u64,
        _session_id: SessionId,
        _receipt_id: ActionReceiptId,
        _receipt: &[u8],
    ) -> Result<(), ReceiptPersistenceError> {
        Ok(())
    }

    fn evict(
        &mut self,
        _owner_domain: u64,
        _session_id: SessionId,
        _receipt_id: ActionReceiptId,
    ) -> Result<(), ReceiptPersistenceError> {
        Ok(())
    }
}

/// Bytes recorded durably when a receipt is opened.
pub open spec fn open_fragment(open: ReceiptOpen) -> Seq<u8> {
    OPEN_MAGIC@ + open.receipt_id.value()@ + le64(open.coordinator_action_id.0) + le64(
        open.conversation_id.0,
    ) + le64(open.session_id.0) + le64(open.original_request_id.0) + le64(open.request_timestamp)
}

fn encode_open_fragment(open: &ReceiptOpen) -> (r: Vec<u8>)
    ensures
        r@ == open_fragment(*open),
{
    let mut bytes: Vec<u8> = Vec::new();
    push_bytes(&mut bytes, &OPEN_MAGIC);
    push_bytes(&mut bytes, &open.receipt_id.0);
    push_u64(&mut bytes, open.coordinator_action_id.0);
    push_u64(&mut bytes, open.conversation_id.0);
    push_u64(&mut bytes, open.session_id.0);
    push_u64(&mut bytes, open.original_request_id.0);
    push_u64(&mut bytes, open.request_timestamp);
    assert(bytes@ =~= open_fragment(*open));
    bytes
}

/// Bytes recorded durably when an event is appended.
pub open spec fn event_fragment(event: ActionReceiptLifecycleEvent) -> Seq<u8> {
    EVENT_MAGIC@ + event_encoding(event)
}

fn encode_event_fragment(event: &ActionReceiptLifecycleEvent) -> (r: Vec<u8>)
    ensures
        r@ == event_fragment(*event),
{
    let mut bytes: Vec<u8> = Vec::new();
    push_bytes(&mut bytes, &EVENT_MAGIC);
    encode_event(&mut bytes, event);
    assert(bytes@ =~= event_fragment(*event));
    bytes
}

/// What a receipt summarizes of its timeline.
#[derive(Debug, Clone, Copy, PartialEq, Eq, Structural)]
pub struct ReceiptSummaries {
    pub policy: Option<PolicyReceiptSummary>,
    pub confirmation: ConfirmationReceiptSummary,
    pub dispatch: DispatchReceiptSummary,
    pub observed_outcome: ObservedOutcomeReceiptSummary,
}

/// Summaries before any event.
pub open spec fn initial_summaries() -> ReceiptSummaries {
    ReceiptSummaries {
        policy: None,
        confirmation: ConfirmationReceiptSummary { outcome: ConfirmationReceiptOutcome::NotRequired },
        dispatch: DispatchReceiptSummary {
            status: DispatchReceiptStatus::NotDispatched,
            execution_id: None,
            audit_id: None,
        },
        observed_outcome: ObservedOutcomeReceiptSummary {
            outcome: ObservedReceiptOutcome::NotObserved,
            observation_id: None,
            audit_id: None,
        },
    }
}

/// How one event changes the summaries.
pub open spec fn summaries_after(s: ReceiptSummaries, e: ActionReceiptLifecycleEvent) -> ReceiptSummaries {
    let ids = e.spec_ids();
    match e.spec_event_type() {
        ReceiptLifecycleEventType::PolicyAllowed => ReceiptSummaries {
            policy: Some(
                PolicyReceiptSummary {
                    result: PolicyResult::Allowed,
                    public_reason: e.spec_public_reason(),
                    audit_id: ids.audit_id,
                },
            ),
            ..s
        },
        ReceiptLifecycleEventType::PolicyDenied => ReceiptSummaries {
            policy: Some(
                PolicyReceiptSummary {
                    result: PolicyResult::Denied,
                    public_reason: e.spec_public_reason(),
                    audit_id: ids.audit_id,
                },
            ),
            ..s
        },
        ReceiptLifecycleEventType::ConfirmationRequested => ReceiptSummaries {
            confirmation: ConfirmationReceiptSummary { outcome: ConfirmationReceiptOutcome::Requested },
            ..s
        },
        ReceiptLifecycleEventType::ConfirmationApproved => ReceiptSummaries {
            confirmation: ConfirmationReceiptSummary { outcome: ConfirmationReceiptOutcome::Approved },
            ..s
        },
        ReceiptLifecycleEventType::ConfirmationRejected => ReceiptSummaries {
            confirmation: ConfirmationReceiptSummary { outcome: ConfirmationReceiptOutcome::Rejected },
            ..s
        },
        ReceiptLifecycleEventType::ConfirmationExpired => ReceiptSummaries {
            confirmation: ConfirmationReceiptSummary { outcome: ConfirmationReceiptOutcome::Expired },
            ..s
        },
        ReceiptLifecycleEventType::ReadyForExecutionProduced => ReceiptSummaries {
            dispatch: DispatchReceiptSummary {
                status: DispatchReceiptStatus::ReadyProduced,
                audit_id: ids.audit_id,
                ..s.dispatch
            },
            ..s
        },
        ReceiptLifecycleEventType::DispatchAccepted => ReceiptSummaries {
            dispatch: DispatchReceiptSummary {
                status: DispatchReceiptStatus::Accepted,
                execution_id: ids.execution_id,
                audit_id: ids.audit_id,
            },
            ..s
        },
        ReceiptLifecycleEventType::DispatchFailed => ReceiptSummaries {
            dispatch: DispatchReceiptSummary {
                status: DispatchReceiptStatus::Failed,
                execution_id: ids.execution_id,
                audit_id: ids.audit_id,
            },
            ..s
        },
        ReceiptLifecycleEventType::AwaitingOutcome => ReceiptSummaries {
            observed_outcome: ObservedOutcomeReceiptSummary {
                outcome: ObservedReceiptOutcome::Awaiting,
                observation_id: ids.observation_id,
                ..s.observed_outcome
            },
            ..s
        },
        ReceiptLifecycleEventType::TargetReady => ReceiptSummaries {
            observed_outcome: ObservedOutcomeReceiptSummary {
                outcome: ObservedReceiptOutcome::Ready,
                observation_id: ids.observation_id,
                audit_id: ids.audit_id,
            },
            ..s
        },
        ReceiptLifecycleEventType::TargetExitedEarly => ReceiptSummaries {
            observed_outcome: ObservedOutcomeReceiptSummary {
                outcome: ObservedReceiptOutcome::ExitedEarly,
                observation_id: ids.observation_id,
                audit_id: ids.audit_id,
            },
            ..s
        },
        ReceiptLifecycleEventType::OutcomeTimedOut => ReceiptSummaries {
            observed_outcome: ObservedOutcomeReceiptSummary {
                outcome: ObservedReceiptOutcome::TimedOut,
                observation_id: ids.observation_id,
                audit_id: ids.audit_id,
            },
            ..s
        },
        ReceiptLifecycleEventType::SessionInvalidated => ReceiptSummaries {
            observed_outcome: ObservedOutcomeReceiptSummary {
                outcome: ObservedReceiptOutcome::SessionInvalidated,
                ..s.observed_outcome
            },
            ..s
        },
        ReceiptLifecycleEventType::RegistryInvalidated => ReceiptSummaries {
            observed_outcome: ObservedOutcomeReceiptSummary {
                outcome: ObservedReceiptOutcome::RegistryInvalidated,
                ..s.observed_outcome
            },
            ..s
        },
        _ => s,
    }
}

/// The summaries of a whole timeline, folded from the first event on.
pub open spec fn summaries_of(events: Seq<ActionReceiptLifecycleEvent>) -> ReceiptSummaries
    decreases events.len(),
{
    if events.len() == 0 {
        initial_summaries()
    } else {
        summaries_after(summaries_of(events.drop_last()), events.last())
    }
}

fn update_summaries(s: ReceiptSummaries, event: &ActionReceiptLifecycleEvent) -> (r: ReceiptSummaries)
    ensures
        r == summaries_after(s, *event),
{
    let ids = event.ids;
    match event.event_type {
        ReceiptLifecycleEventType::PolicyAllowed => ReceiptSummaries {
            policy: Some(
                PolicyReceiptSummary {
                    result: PolicyResult::Allowed,
                    public_reason: event.public_reason,
                    audit_id: ids.audit_id,
                },
            ),
            ..s
        },
        ReceiptLifecycleEventType::PolicyDenied => ReceiptSummaries {
            policy: Some(
                PolicyReceiptSummary {
                    result: PolicyResult::Denied,
                    public_reason: event.public_reason,
                    audit_id: ids.audit_id,
                },
            ),
            ..s
        },
        ReceiptLifecycleEventType::ConfirmationRequested => ReceiptSummaries {
            confirmation: ConfirmationReceiptSummary { outcome: ConfirmationReceiptOutcome::Requested },
            ..s
        },
        ReceiptLifecycleEventType::ConfirmationApproved => ReceiptSummaries {
            confirmation: ConfirmationReceiptSummary { outcome: ConfirmationReceiptOutcome::Approved },
            ..s
        },
        ReceiptLifecycleEventType::ConfirmationRejected => ReceiptSummaries {
            confirmation: ConfirmationReceiptSummary { outcome: ConfirmationReceiptOutcome::Rejected },
            ..s
        },
        ReceiptLifecycleEventType::ConfirmationExpired => ReceiptSummaries {
            confirmation: ConfirmationReceiptSummary { outcome: ConfirmationReceiptOutcome::Expired },
            ..s
        },
        ReceiptLifecycleEventType::ReadyForExecutionProduced => ReceiptSummaries {
            dispatch: DispatchReceiptSummary {
                status: DispatchReceiptStatus::ReadyProduced,
                audit_id: ids.audit_id,
                ..s.dispatch
            },
            ..s
        },
        ReceiptLifecycleEventType::DispatchAccepted => ReceiptSummaries {
            dispatch: DispatchReceiptSummary {
                status: DispatchReceiptStatus::Accepted,
                execution_id: ids.execution_id,
                audit_id: ids.audit_id,
            },
            ..s
        },
        ReceiptLifecycleEventType::DispatchFailed => ReceiptSummaries {
            dispatch: DispatchReceiptSummary {
                status: DispatchReceiptStatus::Failed,
                execution_id: ids.execution_id,
                audit_id: ids.audit_id,
            },
            ..s
        },
        ReceiptLifecycleEventType::AwaitingOutcome => ReceiptSummaries {
            observed_outcome: ObservedOutcomeReceiptSummary {
                outcome: ObservedReceiptOutcome::Awaiting,
                observation_id: ids.observation_id,
                ..s.observed_outcome
            },
            ..s
        },
        ReceiptLifecycleEventType::TargetReady => ReceiptSummaries {
            observed_outcome: ObservedOutcomeReceiptSummary {
                outcome: ObservedReceiptOutcome::Ready,
                observation_id: ids.observation_id,
                audit_id: ids.audit_id,
            },
            ..s
        },
        ReceiptLifecycleEventType::TargetExitedEarly => ReceiptSummaries {
            observed_outcome: ObservedOutcomeReceiptSummary {
                outcome: ObservedReceiptOutcome::ExitedEarly,
                observation_id: ids.observation_id,
                audit_id: ids.audit_id,
            },
            ..s
        },
        ReceiptLifecycleEventType::OutcomeTimedOut => ReceiptSummaries {
            observed_outcome: ObservedOutcomeReceiptSummary {
                outcome: ObservedReceiptOutcome::TimedOut,
                observation_id: ids.observation_id,
                audit_id: ids.audit_id,
            },
            ..s
        },
        ReceiptLifecycleEventType::SessionInvalidated => ReceiptSummaries {
            observed_outcome: ObservedOutcomeReceiptSummary {
                outcome: ObservedReceiptOutcome::SessionInvalidated,
                ..s.observed_outcome
            },
            ..s
        },
        ReceiptLifecycleEventType::RegistryInvalidated => ReceiptSummaries {
            observed_outcome: ObservedOutcomeReceiptSummary {
                outcome: ObservedReceiptOutcome::RegistryInvalidated,
                ..s.observed_outcome
            },
            ..s
        },
        _ => s,
    }
}

/// The latest execution identifier that any event of the timeline carries.
pub open spec fn last_execution_id(events: Seq<ActionReceiptLifecycleEvent>) -> Option<ExecutionId>
    decreases events.len(),
{
    if events.len() == 0 {
        None
    } else {
        match events.last().spec_ids().execution_id {
            Some(x) => Some(x),
            None => last_execution_id(events.drop_last()),
        }
    }
}

/// The latest observation identifier that any event of the timeline carries.
pub open spec fn last_observation_id(events: Seq<ActionReceiptLifecycleEvent>) -> Option<ObservationId>
    decreases events.len(),
{
    if events.len() == 0 {
        None
    } else {
        match events.last().spec_ids().observation_id {
            Some(x) => Some(x),
            None => last_observation_id(events.drop_last()),
        }
    }
}

fn find_last_execution_id(events: &Vec<ActionReceiptLifecycleEvent>) -> (r: Option<ExecutionId>)
    ensures
        r == last_execution_id(events@),
{
    let mut i: usize = events.len();
    assert(events@.subrange(0, i as int) =~= events@);
    while i > 0
        invariant
            0 <= i <= events@.len(),
            last_execution_id(events@) == last_execution_id(events@.subrange(0, i as int)),
        decreases i,
    {
        let s = Ghost(events@.subrange(0, i as int));
        assert(s@.drop_last() =~= events@.subrange(0, i - 1));
        if let Some(x) = events[i - 1].ids.execution_id {
            return Some(x);
        }
        i = i - 1;
    }
    None
}

fn find_last_observation_id(events: &Vec<ActionReceiptLifecycleEvent>) -> (r: Option<ObservationId>)
    ensures
        r == last_observation_id(events@),
{
    let mut i: usize = events.len();
    assert(events@.subrange(0, i as int) =~= events@);
    while i > 0
        invariant
            0 <= i <= events@.len(),
            last_observation_id(events@) == last_observation_id(events@.subrange(0, i as int)),
        decreases i,
    {
        let s = Ghost(events@.subrange(0, i as int));
        assert(s@.drop_last() =~= events@.subrange(0, i - 1));
        if let Some(x) = events[i - 1].ids.observation_id {
            return Some(x);
        }
        i = i - 1;
    }
    None
}

/// An event belongs to the receipt with the given binding.
pub open spec fn event_bound_to(
    e: ActionReceiptLifecycleEvent,
    id: ActionReceiptId,
    action: CoordinatorActionId,
    session: SessionId,
    requester: RequestedBy,
) -> bool {
    &&& e.spec_receipt_id() == id
    &&& e.spec_coordinator_action_id() == action
    &&& e.spec_session_id() == session
    &&& e.spec_requester() == requester
}

/// A timeline is bounded, numbered 1, 2, ... without gaps, and bound to one receipt.
pub open spec fn timeline_wf(
    tl: Seq<ActionReceiptLifecycleEvent>,
    id: ActionReceiptId,
    action: CoordinatorActionId,
    session: SessionId,
    requester: RequestedBy,
) -> bool {
    &&& tl.len() <= MAX_RECEIPT_TIMELINE_EVENTS
    &&& forall|k: int| 0 <= k < tl.len() ==> #[trigger] tl[k].spec_sequence() == k + 1
    &&& forall|k: int|
        0 <= k < tl.len() ==> event_bound_to(#[trigger] tl[k], id, action, session, requester)
    &&& forall|k: int|
        0 <= k < tl.len() ==> source_allows((#[trigger] tl[k]).spec_source(), tl[k].spec_event_type())
}

/// A sealed receipt is internally consistent: its digest verifies, its
/// timeline is well-formed and ends in its terminal status, and its
/// summaries are those of its timeline.
pub open spec fn sealed_wf(r: ActionReceipt) -> bool {
    &&& r.spec_integrity_holds()
    &&& timeline_wf(
        r.spec_timeline(),
        r.spec_receipt_id(),
        r.spec_coordinator_action_id(),
        r.spec_session_id(),
        r.spec_requester(),
    )
    &&& r.spec_policy() == summaries_of(r.spec_timeline()).policy
    &&& r.spec_confirmation() == summaries_of(r.spec_timeline()).confirmation
    &&& r.spec_dispatch() == summaries_of(r.spec_timeline()).dispatch
    &&& r.spec_observed_outcome() == summaries_of(r.spec_timeline()).observed_outcome
    &&& r.spec_terminal_timestamp() == r.spec_timeline().last().spec_timestamp()
    &&& r.spec_timeline().len() > 0
    &&& r.spec_timeline().last().spec_terminal_status() == Some(r.spec_terminal_status())
}

/// Number of receipts of `s` in a requester/session domain; only non-executed
/// ones when `nonexecuted_only`.
pub open spec fn domain_count(
    s: Seq<ActionReceipt>,
    requester: RequestedBy,
    session: SessionId,
    nonexecuted_only: bool,
) -> nat
    decreases s.len(),
{
    if s.len() == 0 {
        0
    } else {
        domain_count(s.drop_last(), requester, session, nonexecuted_only) + (if s.last().spec_requester()
            == requester && s.last().spec_session_id() == session && (!nonexecuted_only
            || !s.last().spec_terminal_status().spec_is_executed()) {
            1nat
        } else {
            0nat
        })
    }
}

/// No requester/session domain holds more sealed receipts, or more
/// non-executed ones, than the retention policy allows.
pub open spec fn retention_ok(s: Seq<ActionReceipt>, p: ReceiptRetentionPolicy) -> bool {
    forall|i: int|
        0 <= i < s.len() ==> domain_count(s, (#[trigger] s[i]).spec_requester(), s[i].spec_session_id(), false)
            <= p.max_sealed_per_domain && domain_count(
            s,
            s[i].spec_requester(),
            s[i].spec_session_id(),
            true,
        ) <= p.max_nonexecuted_per_domain
}

/// The receipts of `s` whose ids pairwise differ.
pub open spec fn sealed_ids_distinct(s: Seq<ActionReceipt>) -> bool {
    forall|i: int, j: int|
        0 <= i < s.len() && 0 <= j < s.len() && i != j ==> (#[trigger] s[i]).spec_receipt_id()
            != (#[trigger] s[j]).spec_receipt_id()
}

/// Whether receipt `r` is evictable under the predicate.
pub open spec fn evict_match(
    r: ActionReceipt,
    domain: Option<(RequestedBy, SessionId)>,
    nonexecuted_only: bool,
) -> bool {
    match domain {
        None => true,
        Some((req, sess)) => r.spec_requester() == req && r.spec_session_id() == sess && (
        !nonexecuted_only || !r.spec_terminal_status().spec_is_executed()),
    }
}

proof fn lemma_domain_count_bound(
    s: Seq<ActionReceipt>,
    requester: RequestedBy,
    session: SessionId,
    nonexecuted_only: bool,
)
    ensures
        domain_count(s, requester, session, nonexecuted_only) <= s.len(),
    decreases s.len(),
{
    if s.len() > 0 {
        lemma_domain_count_bound(s.drop_last(), requester, session, nonexecuted_only);
    }
}

fn count_domain(
    sealed: &Vec<ActionReceipt>,
    requester: RequestedBy,
    session: SessionId,
    nonexecuted_only: bool,
) -> (c: usize)
    ensures
        c == domain_count(sealed@, requester, session, nonexecuted_only),
{
    let mut c: usize = 0;
    let mut i: usize = 0;
    while i < sealed.len()
        invariant
            0 <= i <= sealed@.len(),
            c == domain_count(sealed@.subrange(0, i as int), requester, session, nonexecuted_only),
            c <= i,
        decreases sealed@.len() - i,
    {
        let r = &sealed[i];
        proof {
            assert(sealed@.subrange(0, i + 1).drop_last() =~= sealed@.subrange(0, i as int));
        }
        if r.requester == requester && r.session_id == session && (!nonexecuted_only
            || !r.terminal_status.is_executed()) {
            c = c + 1;
        }
        i = i + 1;
    }
    assert(sealed@.subrange(0, sealed@.len() as int) =~= sealed@);
    c
}

fn clone_events(events: &Vec<ActionReceiptLifecycleEvent>) -> (r: Vec<ActionReceiptLifecycleEvent>)
    ensures
        r@ == events@,
{
    let mut out: Vec<ActionReceiptLifecycleEvent> = Vec::new();
    let mut i: usize = 0;
    while i < events.len()
        invariant
            0 <= i <= events@.len(),
            out@ == events@.subrange(0, i as int),
        decreases events@.len() - i,
    {
        out.push(events[i]);
        i = i + 1;
        assert(out@ =~= events@.subrange(0, i as int));
    }
    assert(events@.subrange(0, events@.len() as int) =~= events@);
    out
}

/// The receipt that sealing a builder produces, in every recorded field but
/// the digest (which `sealed_wf` pins down).
pub open spec fn sealed_matches_builder(
    r: ActionReceipt,
    open: ReceiptOpen,
    timeline: Seq<ActionReceiptLifecycleEvent>,
    terminal_status: ActionReceiptTerminalStatus,
) -> bool {
    &&& r.spec_receipt_id() == open.receipt_id
    &&& r.spec_coordinator_action_id() == open.coordinator_action_id
    &&& r.spec_conversation_id() == open.conversation_id
    &&& r.spec_session_id() == open.session_id
    &&& r.spec_requester() == open.requester
    &&& r.spec_original_request_id() == open.original_request_id
    &&& r.spec_intent_id() == open.intent_id
    &&& r.spec_operation() == open.operation
    &&& r.spec_target_kind() == open.target_kind
    &&& r.spec_request_timestamp() == open.request_timestamp
    &&& r.spec_policy_version() == open.policy_version
    &&& r.spec_planner_version() == open.planner_version
    &&& r.spec_runtime_snapshot_generation() == open.runtime_snapshot_generation
    &&& r.spec_application_registry_generation() == open.application_registry_generation
    &&& r.spec_settings_registry_generation() == open.settings_registry_generation
    &&& r.spec_bounded_audit_references() == open.bounded_audit_references@
    &&& r.spec_timeline() == timeline
    &&& r.spec_terminal_status() == terminal_status
    &&& r.spec_execution_id() == (match last_execution_id(timeline) {
        Some(x) => Some(x),
        None => summaries_of(timeline).dispatch.execution_id,
    })
    &&& r.spec_observation_id() == (match last_observation_id(timeline) {
        Some(x) => Some(x),
        None => summaries_of(timeline).observed_outcome.observation_id,
    })
}

/// Seals a builder whose timeline ends in a terminal event of the given status.
fn seal_builder(builder: &ReceiptBuilder, terminal_status: ActionReceiptTerminalStatus) -> (r:
    ActionReceipt)
    requires
        builder_wf(*builder),
        builder.timeline@.len() > 0,
        builder.timeline@.last().spec_terminal_status() == Some(terminal_status),
    ensures
        sealed_wf(r),
        sealed_matches_builder(r, builder.open, builder.timeline@, terminal_status),
{
    let execution_id = match find_last_execution_id(&builder.timeline) {
        Some(x) => Some(x),
        None => builder.summaries.dispatch.execution_id,
    };
    let observation_id = match find_last_observation_id(&builder.timeline) {
        Some(x) => Some(x),
        None => builder.summaries.observed_outcome.observation_id,
    };
    let n = builder.timeline.len();
    let terminal_timestamp = builder.timeline[n - 1].timestamp;
    let open = &builder.open;
    let summaries = builder.summaries;
    let mut receipt = ActionReceipt {
        receipt_id: open.receipt_id,
        coordinator_action_id: open.coordinator_action_id,
        conversation_id: open.conversation_id,
        session_id: open.session_id,
        requester: open.requester,
        original_request_id: open.original_request_id,
        intent_id: open.intent_id,
        execution_id,
        observation_id,
        operation: open.operation,
        target_kind: open.target_kind,
        target_display_key: clone_key(&open.target_display_key),
        request_timestamp: open.request_timestamp,
        terminal_timestamp,
        terminal_status,
        policy: summaries.policy,
        confirmation: summaries.confirmation,
        dispatch: summaries.dispatch,
        observed_outcome: summaries.observed_outcome,
        policy_version: open.policy_version,
        planner_version: open.planner_version,
        runtime_snapshot_generation: open.runtime_snapshot_generation,
        application_registry_generation: open.application_registry_generation,
        settings_registry_generation: open.settings_registry_generation,
        bounded_audit_references: clone_audit_refs(&open.bounded_audit_references),
        timeline: clone_events(&builder.timeline),
        integrity_digest: [0u8; 32],
        schema_version: ACTION_RECEIPT_SCHEMA_VERSION,
    };
    let digest = compute_integrity_digest(&receipt);
    receipt.integrity_digest = digest;
    receipt
}

/// A builder's timeline is well-formed for its open and its summaries are the timeline's.
spec fn builder_wf(b: ReceiptBuilder) -> bool {
    &&& timeline_wf(
        b.timeline@,
        b.open.receipt_id,
        b.open.coordinator_action_id,
        b.open.session_id,
        b.open.requester,
    )
    &&& b.summaries == summaries_of(b.timeline@)
}

/// Which storage operation the ledger called.
#[derive(Debug, Clone, Copy, PartialEq, Eq, Structural)]
pub enum StorageOperation {
    AppendFragment,
    Seal,
    Evict,
}

/// One call the ledger made on its storage: the operation, the owner domain,
/// session and receipt it named, the bytes it handed over (none for an
/// eviction), and whether storage accepted it.
pub struct StorageCall {
    pub operation: StorageOperation,
    pub owner_domain: u64,
    pub session_id: SessionId,
    pub receipt_id: ActionReceiptId,
    pub bytes: Seq<u8>,
    pub accepted: bool,
}

/// The ledger of open and sealed action receipts.
pub struct ActionReceiptLedger<P: ReceiptPersistence, const ACTIVE: usize, const SEALED: usize, const AUDIT: usize> {
    persistence: P,
    active: Vec<ReceiptBuilder>,
    sealed: Vec<ActionReceipt>,
    retention: ReceiptRetentionPolicy,
    audit: ReceiptAuditLog<AUDIT>,
    calls: Ghost<Seq<StorageCall>>,
}

impl<P: ReceiptPersistence, const ACTIVE: usize, const SEALED: usize, const AUDIT: usize>
    ActionReceiptLedger<P, ACTIVE, SEALED, AUDIT> {
    /// Number of open receipts.
    pub closed spec fn spec_active_len(&self) -> nat {
        self.active@.len()
    }

    /// The open of the `i`-th open receipt.
    pub closed spec fn spec_active_open(&self, i: int) -> ReceiptOpen {
        self.active@[i].open
    }

    /// The identifier of the `i`-th open receipt.
    pub closed spec fn spec_active_id(&self, i: int) -> ActionReceiptId {
        self.active@[i].open.receipt_id
    }

    /// The timeline recorded so far for the `i`-th open receipt.
    pub closed spec fn spec_active_timeline(&self, i: int) -> Seq<ActionReceiptLifecycleEvent> {
        self.active@[i].timeline@
    }

    /// The sealed receipts, oldest first.
    pub closed spec fn spec_sealed(&self) -> Seq<ActionReceipt> {
        self.sealed@
    }

    pub closed spec fn spec_retention(&self) -> ReceiptRetentionPolicy {
        self.retention
    }

    /// The storage backend the ledger currently owns.
    pub closed spec fn spec_persistence(&self) -> P {
        self.persistence
    }

    /// Every call the ledger has made on its storage, oldest first.
    pub closed spec fn spec_storage_calls(&self) -> Seq<StorageCall> {
        self.calls@
    }

    /// Whether the ledger's storage accepts every write.
    pub closed spec fn storage_infallible(&self) -> bool {
        self.persistence.spec_infallible()
    }

    pub closed spec fn spec_audit(&self) -> Seq<ReceiptAuditEntry> {
        self.audit.spec_entries()
    }

    /// Whether some open receipt has this identifier.
    pub open spec fn spec_is_active(&self, id: ActionReceiptId) -> bool {
        exists|i: int| 0 <= i < self.spec_active_len() && self.spec_active_id(i) == id
    }

    /// Whether some sealed receipt has this identifier.
    pub open spec fn spec_is_sealed(&self, id: ActionReceiptId) -> bool {
        exists|j: int| 0 <= j < self.spec_sealed().len() && (#[trigger] self.spec_sealed()[j]).spec_receipt_id() == id
    }

    /// The ledger invariant, apart from the retention bound.
    pub closed spec fn core_wf(&self) -> bool {
        &&& self.active@.len() <= ACTIVE
        &&& self.sealed@.len() <= SEALED
        &&& self.audit.wf()
        &&& forall|i: int| 0 <= i < self.active@.len() ==> builder_wf(#[trigger] self.active@[i])
        &&& forall|j: int| 0 <= j < self.sealed@.len() ==> sealed_wf(#[trigger] self.sealed@[j])
        &&& forall|i: int, k: int|
            0 <= i < self.active@.len() && 0 <= k < self.active@.len() && i != k
                ==> (#[trigger] self.active@[i]).open.receipt_id != (#[trigger] self.active@[k]).open.receipt_id
        &&& sealed_ids_distinct(self.sealed@)
        &&& forall|i: int, j: int|
            0 <= i < self.active@.len() && 0 <= j < self.sealed@.len()
                ==> (#[trigger] self.active@[i]).open.receipt_id != (#[trigger] self.sealed@[j]).spec_receipt_id()
    }

    /// The ledger invariant: capacities, well-formed open and sealed receipts,
    /// and unique identifiers.
    pub open spec fn wf(&self) -> bool {
        self.core_wf()
    }

    pub fn new(persistence: P, retention: ReceiptRetentionPolicy) -> (l: Self)
        ensures
            l.wf(),
            retention_ok(l.spec_sealed(), l.spec_retention()),
            l.spec_active_len() == 0,
            l.spec_sealed() == Seq::<ActionReceipt>::empty(),
            l.spec_retention() == retention,
            l.spec_audit() == Seq::<ReceiptAuditEntry>::empty(),
            l.spec_persistence() == persistence,
            l.spec_storage_calls() == Seq::<StorageCall>::empty(),
            l.storage_infallible() == persistence.spec_infallible(),
    {
        ActionReceiptLedger {
            persistence,
            active: Vec::new(),
            sealed: Vec::new(),
            retention,
            audit: ReceiptAuditLog::new(),
            calls: Ghost(Seq::empty()),
        }
    }

    pub fn audit(&self) -> (r: &ReceiptAuditLog<AUDIT>)
        ensures
            r.spec_entries() == self.spec_audit(),
    {
        &self.audit
    }

    pub fn active_len(&self) -> (r: usize)
        ensures
            r == self.spec_active_len(),
    {
        self.active.len()
    }

    pub fn sealed_len(&self) -> (r: usize)
        ensures
            r == self.spec_sealed().len(),
    {
        self.sealed.len()
    }

    pub fn sealed_receipts(&self) -> (r: &[ActionReceipt])
        ensures
            r@ == self.spec_sealed(),
    {
        self.sealed.as_slice()
    }

    pub fn into_persistence(self) -> (p: P)
        ensures
            p == self.spec_persistence(),
    {
        self.persistence
    }

    fn find_active(&self, id: ActionReceiptId) -> (r: Option<usize>)
        ensures
            r matches Some(i) ==> i < self.active@.len() && self.active@[i as int].open.receipt_id == id,
            r is None ==> forall|i: int| 0 <= i < self.active@.len() ==> self.active@[i].open.receipt_id != id,
    {
        let mut i: usize = 0;
        while i < self.active.len()
            invariant
                0 <= i <= self.active@.len(),
                forall|k: int| 0 <= k < i ==> self.active@[k].open.receipt_id != id,
            decreases self.active@.len() - i,
        {
            if receipt_id_eq(self.active[i].open.receipt_id, id) {
                return Some(i);
            }
            i = i + 1;
        }
        None
    }

    fn find_sealed(&self, id: ActionReceiptId) -> (r: bool)
        ensures
            r == self.spec_is_sealed(id),
    {
        let mut j: usize = 0;
        while j < self.sealed.len()
            invariant
                0 <= j <= self.sealed@.len(),
                forall|k: int| 0 <= k < j ==> self.sealed@[k].spec_receipt_id() != id,
            decreases self.sealed@.len() - j,
        {
            if receipt_id_eq(self.sealed[j].receipt_id, id) {
                assert(self.spec_sealed()[j as int].spec_receipt_id() == id);
                return true;
            }
            j = j + 1;
        }
        false
    }

    /// Opens the receipt of a new action.
    pub fn open(&mut self, open: ReceiptOpen) -> (r: Result<(), ReceiptError>)
        requires
            old(self).wf(),
        ensures
            final(self).wf(),
            final(self).spec_sealed() == old(self).spec_sealed(),
            final(self).spec_retention() == old(self).spec_retention(),
            (old(self).spec_is_active(open.receipt_id) || old(self).spec_is_sealed(open.receipt_id))
                ==> r == Err::<(), ReceiptError>(ReceiptError::DuplicateReceipt),
            !(old(self).spec_is_active(open.receipt_id) || old(self).spec_is_sealed(open.receipt_id))
                && old(self).spec_active_len() >= ACTIVE ==> r == Err::<(), ReceiptError>(
                ReceiptError::ActiveCapacity,
            ),
            !(old(self).spec_is_active(open.receipt_id) || old(self).spec_is_sealed(open.receipt_id))
                && old(self).spec_active_len() < ACTIVE ==> (r is Ok || r == Err::<(), ReceiptError>(
                ReceiptError::PersistenceFailure,
            )),
            r is Err ==> final(self).spec_audit() == old(self).spec_audit(),
            (old(self).spec_is_active(open.receipt_id) || old(self).spec_is_sealed(open.receipt_id)
                || old(self).spec_active_len() >= ACTIVE) ==> final(self).spec_storage_calls() == old(
                self,
            ).spec_storage_calls() && final(self).spec_persistence() == old(self).spec_persistence(),
            !(old(self).spec_is_active(open.receipt_id) || old(self).spec_is_sealed(open.receipt_id)
                || old(self).spec_active_len() >= ACTIVE) ==> final(self).spec_storage_calls() == old(
                self,
            ).spec_storage_calls().push(open_call(open, r is Ok)),
            old(self).storage_infallible() ==> final(self).storage_infallible() && r != Err::<(), ReceiptError>(
                ReceiptError::PersistenceFailure,
            ),
            r is Ok ==> final(self).spec_audit() == log_after_push(old(self).spec_audit(), AUDIT as nat, opened_entry(open)),
            r is Err ==> Self::active_unchanged(*old(self), *final(self)),
            r is Ok ==> {
                &&& final(self).spec_active_len() == old(self).spec_active_len() + 1
                &&& forall|i: int|
                    0 <= i < old(self).spec_active_len() ==> final(self).spec_active_id(i) == old(
                        self,
                    ).spec_active_id(i) && final(self).spec_active_timeline(i) == old(
                        self,
                    ).spec_active_timeline(i) && final(self).spec_active_open(i) == old(self).spec_active_open(i)
                &&& final(self).spec_active_id(old(self).spec_active_len() as int) == open.receipt_id
                &&& opens_agree(final(self).spec_active_open(old(self).spec_active_len() as int), open)
                &&& final(self).spec_active_timeline(old(self).spec_active_len() as int) == Seq::<
                    ActionReceiptLifecycleEvent,
                >::empty()
            },
    {
        let id = open.receipt_id;
        if let Some(i) = self.find_active(id) {
            assert(self.spec_active_id(i as int) == id);
            return Err(ReceiptError::DuplicateReceipt);
        }
        if self.find_sealed(id) {
            return Err(ReceiptError::DuplicateReceipt);
        }
        assert(!self.spec_is_active(id));
        if self.active.len() >= ACTIVE {
            return Err(ReceiptError::ActiveCapacity);
        }
        let fragment = encode_open_fragment(&open);
        let stored = self.persistence.append_fragment(
            requester_domain(open.requester),
            open.session_id,
            open.receipt_id,
            fragment.as_slice(),
        );
        self.calls = Ghost(self.calls@.push(open_call(open, stored is Ok)));
        match stored {
            Ok(()) => {},
            Err(_) => return Err(ReceiptError::PersistenceFailure),
        }
        let session_id = open.session_id;
        let coordinator_action_id = open.coordinator_action_id;
        let builder = ReceiptBuilder {
            open,
            timeline: Vec::new(),
            summaries: ReceiptSummaries {
                policy: None,
                confirmation: ConfirmationReceiptSummary {
                    outcome: ConfirmationReceiptOutcome::NotRequired,
                },
                dispatch: DispatchReceiptSummary {
                    status: DispatchReceiptStatus::NotDispatched,
                    execution_id: None,
                    audit_id: None,
                },
                observed_outcome: ObservedOutcomeReceiptSummary {
                    outcome: ObservedReceiptOutcome::NotObserved,
                    observation_id: None,
                    audit_id: None,
                },
            },
        };
        assert(builder.timeline@ =~= Seq::<ActionReceiptLifecycleEvent>::empty());
        self.active.push(builder);
        self.audit.push(
            ReceiptAuditEntry {
                receipt_id: Some(id),
                coordinator_action_id: Some(coordinator_action_id),
                session_id,
                event: ReceiptAuditEvent::ReceiptOpened,
                public_reason: PublicReasonCode::NoReason,
                timestamp: 0,
            },
        );
        Ok(())
    }
}

/// What appending decides before anything is written: an answer, or `None`
/// when the event is new, bound, well-typed and next in sequence.
pub open spec fn append_check(
    open: ReceiptOpen,
    tl: Seq<ActionReceiptLifecycleEvent>,
    e: ActionReceiptLifecycleEvent,
) -> Option<Result<AppendDisposition, ReceiptError>> {
    if e.spec_coordinator_action_id() != open.coordinator_action_id {
        Some(Err(ReceiptError::WrongAction))
    } else if e.spec_session_id() != open.session_id {
        Some(Err(ReceiptError::WrongSession))
    } else if e.spec_requester() != open.requester {
        Some(Err(ReceiptError::WrongRequester))
    } else if !source_allows(e.spec_source(), e.spec_event_type()) {
        Some(Err(ReceiptError::UnsupportedEvent))
    } else if !terminal_fits(e.spec_event_type(), e.spec_terminal_status()) {
        Some(Err(ReceiptError::InvalidTerminalStatus))
    } else if 1 <= e.spec_sequence() <= tl.len() {
        if tl[e.spec_sequence() - 1] == e {
            Some(Ok(AppendDisposition::DuplicateIgnored))
        } else {
            Some(Err(ReceiptError::DuplicateSequenceConflict))
        }
    } else if e.spec_sequence() != tl.len() + 1 {
        Some(Err(ReceiptError::OutOfOrder))
    } else if tl.len() >= MAX_RECEIPT_TIMELINE_EVENTS {
        Some(Err(ReceiptError::TimelineFull))
    } else {
        None
    }
}

/// Every receipt of `new` was already in `old` or is `r`, and `r` keeps its
/// place relative to the others: nothing sealed is ever altered.
pub open spec fn sealed_grows_by(old: Seq<ActionReceipt>, new: Seq<ActionReceipt>, r: ActionReceipt) -> bool {
    forall|j: int| 0 <= j < new.len() ==> (#[trigger] new[j] == r || old.contains(new[j]))
}

/// The index of the oldest receipt of `s`, from `from` on, that eviction
/// under this predicate may take.
pub open spec fn first_evictable(
    s: Seq<ActionReceipt>,
    domain: Option<(RequestedBy, SessionId)>,
    nonexecuted_only: bool,
    from: int,
) -> Option<int>
    decreases s.len() - from,
{
    if from < 0 || from >= s.len() {
        None
    } else if evict_match(s[from], domain, nonexecuted_only) {
        Some(from)
    } else {
        first_evictable(s, domain, nonexecuted_only, from + 1)
    }
}

/// The first domain over a retention bound, scanning the receipts oldest
/// first from `from` on; the bound on all receipts is checked before the
/// bound on non-executed ones, and the flag tells which one is exceeded.
pub open spec fn over_retention(s: Seq<ActionReceipt>, p: ReceiptRetentionPolicy, from: int) -> Option<
    (RequestedBy, SessionId, bool),
>
    decreases s.len() - from,
{
    if from < 0 || from >= s.len() {
        None
    } else if domain_count(s, s[from].spec_requester(), s[from].spec_session_id(), false)
        > p.max_sealed_per_domain {
        Some((s[from].spec_requester(), s[from].spec_session_id(), false))
    } else if domain_count(s, s[from].spec_requester(), s[from].spec_session_id(), true)
        > p.max_nonexecuted_per_domain {
        Some((s[from].spec_requester(), s[from].spec_session_id(), true))
    } else {
        over_retention(s, p, from + 1)
    }
}

/// Retention on `s`: the receipts it keeps, and those it evicts in order.
/// While some domain is over a bound, its oldest receipt of the kind that
/// bound counts is evicted.
#[verifier::opaque]
pub open spec fn retention_run(s: Seq<ActionReceipt>, p: ReceiptRetentionPolicy) -> (
    Seq<ActionReceipt>,
    Seq<ActionReceipt>,
)
    decreases s.len(),
{
    match over_retention(s, p, 0) {
        None => (s, Seq::empty()),
        Some((req, sess, nonexecuted_only)) => match first_evictable(s, Some((req, sess)), nonexecuted_only, 0) {
            Some(k) => if 0 <= k < s.len() {
                (
                    retention_run(s.remove(k), p).0,
                    seq![s[k]] + retention_run(s.remove(k), p).1,
                )
            } else {
                (s, Seq::empty())
            },
            None => (s, Seq::empty()),
        },
    }
}

/// Making room under capacity `cap`: the oldest receipts are evicted, in
/// order, until fewer than `cap` remain.
#[verifier::opaque]
pub open spec fn capacity_run(s: Seq<ActionReceipt>, cap: nat) -> (Seq<ActionReceipt>, Seq<ActionReceipt>)
    decreases s.len(),
{
    if s.len() > 0 && s.len() >= cap {
        (capacity_run(s.drop_first(), cap).0, seq![s[0]] + capacity_run(s.drop_first(), cap).1)
    } else {
        (s, Seq::empty())
    }
}

/// Sealing `r` into `s`: room is made under capacity `cap`, `r` is added
/// as the newest receipt, and retention runs. The receipts kept, and those
/// evicted in order.
pub open spec fn sealing_run(s: Seq<ActionReceipt>, r: ActionReceipt, p: ReceiptRetentionPolicy, cap: nat) -> (
    Seq<ActionReceipt>,
    Seq<ActionReceipt>,
) {
    (
        retention_run(capacity_run(s, cap).0.push(r), p).0,
        capacity_run(s, cap).1 + retention_run(capacity_run(s, cap).0.push(r), p).1,
    )
}

/// The audit entry recorded when a sealed receipt is evicted.
pub open spec fn evicted_entry(r: ActionReceipt) -> ReceiptAuditEntry {
    ReceiptAuditEntry {
        receipt_id: Some(r.spec_receipt_id()),
        coordinator_action_id: Some(r.spec_coordinator_action_id()),
        session_id: r.spec_session_id(),
        event: ReceiptAuditEvent::ReceiptEvicted,
        public_reason: PublicReasonCode::NoReason,
        timestamp: r.spec_terminal_timestamp(),
    }
}

/// The storage call that records the opening of a receipt.
pub open spec fn open_call(open: ReceiptOpen, accepted: bool) -> StorageCall {
    StorageCall {
        operation: StorageOperation::AppendFragment,
        owner_domain: spec_requester_domain(open.requester),
        session_id: open.session_id,
        receipt_id: open.receipt_id,
        bytes: open_fragment(open),
        accepted,
    }
}

/// The storage call that records one lifecycle event.
pub open spec fn event_call(e: ActionReceiptLifecycleEvent, accepted: bool) -> StorageCall {
    StorageCall {
        operation: StorageOperation::AppendFragment,
        owner_domain: spec_requester_domain(e.spec_requester()),
        session_id: e.spec_session_id(),
        receipt_id: e.spec_receipt_id(),
        bytes: event_fragment(e),
        accepted,
    }
}

/// The storage call that seals receipt `r`, sealed by event `e`, with its encoding.
pub open spec fn seal_call(e: ActionReceiptLifecycleEvent, r: ActionReceipt, accepted: bool) -> StorageCall {
    StorageCall {
        operation: StorageOperation::Seal,
        owner_domain: spec_requester_domain(e.spec_requester()),
        session_id: r.spec_session_id(),
        receipt_id: r.spec_receipt_id(),
        bytes: sealed_encoding(r),
        accepted,
    }
}

/// The storage call that evicts sealed receipt `r`.
pub open spec fn evict_call(r: ActionReceipt, accepted: bool) -> StorageCall {
    StorageCall {
        operation: StorageOperation::Evict,
        owner_domain: spec_requester_domain(r.spec_requester()),
        session_id: r.spec_session_id(),
        receipt_id: r.spec_receipt_id(),
        bytes: Seq::empty(),
        accepted,
    }
}

/// The accepted storage calls of these evictions, in order.
pub open spec fn eviction_calls(evicted: Seq<ActionReceipt>) -> Seq<StorageCall> {
    evicted.map_values(|r: ActionReceipt| evict_call(r, true))
}

/// The audit entries of these evictions, in order.
pub open spec fn eviction_entries(evicted: Seq<ActionReceipt>) -> Seq<ReceiptAuditEntry> {
    evicted.map_values(|r: ActionReceipt| evicted_entry(r))
}

/// A domain over a bound has a receipt of the kind that bound counts.
proof fn lemma_over_counts(s: Seq<ActionReceipt>, p: ReceiptRetentionPolicy, from: int)
    requires
        over_retention(s, p, from) is Some,
    ensures
        ({
            let (req, sess, nonexecuted_only) = over_retention(s, p, from)->0;
            domain_count(s, req, sess, nonexecuted_only) > 0
        }),
    decreases s.len() - from,
{
    if 0 <= from < s.len() && domain_count(s, s[from].spec_requester(), s[from].spec_session_id(), false)
        <= p.max_sealed_per_domain && domain_count(s, s[from].spec_requester(), s[from].spec_session_id(), true)
        <= p.max_nonexecuted_per_domain {
        lemma_over_counts(s, p, from + 1);
    }
}

/// A domain that counts a receipt has one that eviction under it may take.
proof fn lemma_counted_is_evictable(s: Seq<ActionReceipt>, req: RequestedBy, sess: SessionId, nonexecuted_only: bool)
    requires
        domain_count(s, req, sess, nonexecuted_only) > 0,
    ensures
        exists|k: int| 0 <= k < s.len() && evict_match(#[trigger] s[k], Some((req, sess)), nonexecuted_only),
    decreases s.len(),
{
    let last = s.len() - 1;
    if evict_match(s[last], Some((req, sess)), nonexecuted_only) {
        assert(evict_match(s[last], Some((req, sess)), nonexecuted_only));
    } else {
        lemma_counted_is_evictable(s.drop_last(), req, sess, nonexecuted_only);
        let k = choose|k: int|
            0 <= k < s.drop_last().len() && evict_match(#[trigger] s.drop_last()[k], Some((req, sess)), nonexecuted_only);
        assert(s[k] == s.drop_last()[k]);
    }
}

/// The scan for an evictable receipt finds one when one lies ahead.
proof fn lemma_first_evictable_finds(
    s: Seq<ActionReceipt>,
    domain: Option<(RequestedBy, SessionId)>,
    nonexecuted_only: bool,
    from: int,
    k: int,
)
    requires
        0 <= from <= k < s.len(),
        evict_match(s[k], domain, nonexecuted_only),
    ensures
        first_evictable(s, domain, nonexecuted_only, from) is Some,
    decreases k - from,
{
    if from < k {
        lemma_first_evictable_finds(s, domain, nonexecuted_only, from + 1, k);
    }
}

/// The first domain over a bound always has a receipt to evict.
proof fn lemma_over_has_evictable(s: Seq<ActionReceipt>, p: ReceiptRetentionPolicy)
    requires
        over_retention(s, p, 0) is Some,
    ensures
        ({
            let (req, sess, nonexecuted_only) = over_retention(s, p, 0)->0;
            first_evictable(s, Some((req, sess)), nonexecuted_only, 0) is Some
        }),
{
    let (req, sess, nonexecuted_only) = over_retention(s, p, 0)->0;
    lemma_over_counts(s, p, 0);
    lemma_counted_is_evictable(s, req, sess, nonexecuted_only);
    let k = choose|k: int| 0 <= k < s.len() && evict_match(#[trigger] s[k], Some((req, sess)), nonexecuted_only);
    lemma_first_evictable_finds(s, Some((req, sess)), nonexecuted_only, 0, k);
}

/// The scan for an evictable receipt stops at the first one: at or before
/// any evictable receipt that lies ahead.
proof fn lemma_first_evictable_at_most(
    s: Seq<ActionReceipt>,
    domain: Option<(RequestedBy, SessionId)>,
    nonexecuted_only: bool,
    from: int,
    j: int,
)
    requires
        0 <= from <= j < s.len(),
        evict_match(s[j], domain, nonexecuted_only),
    ensures
        first_evictable(s, domain, nonexecuted_only, from) matches Some(k) && from <= k <= j,
    decreases j - from,
{
    if from < j && !evict_match(s[from], domain, nonexecuted_only) {
        lemma_first_evictable_at_most(s, domain, nonexecuted_only, from + 1, j);
    }
}

/// The bound that the first domain over retention exceeds is exceeded.
proof fn lemma_over_exceeds(s: Seq<ActionReceipt>, p: ReceiptRetentionPolicy, from: int)
    requires
        over_retention(s, p, from) is Some,
    ensures
        ({
            let (req, sess, nonexecuted_only) = over_retention(s, p, from)->0;
            domain_count(s, req, sess, nonexecuted_only) > (if nonexecuted_only {
                p.max_nonexecuted_per_domain
            } else {
                p.max_sealed_per_domain
            })
        }),
    decreases s.len() - from,
{
    if 0 <= from < s.len() && domain_count(s, s[from].spec_requester(), s[from].spec_session_id(), false)
        <= p.max_sealed_per_domain && domain_count(s, s[from].spec_requester(), s[from].spec_session_id(), true)
        <= p.max_nonexecuted_per_domain {
        lemma_over_exceeds(s, p, from + 1);
    }
}

/// Where a domain counts two receipts, the oldest evictable one is not the last receipt.
proof fn lemma_two_counted_first_not_last(
    s: Seq<ActionReceipt>,
    req: RequestedBy,
    sess: SessionId,
    nonexecuted_only: bool,
)
    requires
        domain_count(s, req, sess, nonexecuted_only) >= 2,
    ensures
        first_evictable(s, Some((req, sess)), nonexecuted_only, 0) matches Some(k) && 0 <= k < s.len() - 1,
{
    let t = s.drop_last();
    assert(domain_count(t, req, sess, nonexecuted_only) >= 1);
    lemma_counted_is_evictable(t, req, sess, nonexecuted_only);
    let j = choose|j: int| 0 <= j < t.len() && evict_match(#[trigger] t[j], Some((req, sess)), nonexecuted_only);
    assert(s[j] == t[j]);
    lemma_first_evictable_at_most(s, Some((req, sess)), nonexecuted_only, 0, j);
}

/// Retention never evicts the newest receipt when each bound admits at
/// least one receipt per domain.
pub proof fn lemma_retention_keeps_newest(s: Seq<ActionReceipt>, p: ReceiptRetentionPolicy)
    requires
        s.len() > 0,
        p.max_sealed_per_domain >= 1,
        p.max_nonexecuted_per_domain >= 1,
    ensures
        retention_run(s, p).0.len() > 0,
        retention_run(s, p).0.last() == s.last(),
    decreases s.len(),
{
    reveal(retention_run);
    if over_retention(s, p, 0) is Some {
        let (req, sess, nonexecuted_only) = over_retention(s, p, 0)->0;
        lemma_over_exceeds(s, p, 0);
        lemma_two_counted_first_not_last(s, req, sess, nonexecuted_only);
        let k = first_evictable(s, Some((req, sess)), nonexecuted_only, 0)->0;
        let t = s.remove(k);
        assert(t.last() == s.last());
        lemma_retention_keeps_newest(t, p);
    }
}

/// Sealing a receipt keeps it, as the newest sealed receipt, when the
/// capacity and each retention bound admit at least one receipt.
pub proof fn lemma_sealing_keeps_new(s: Seq<ActionReceipt>, r: ActionReceipt, p: ReceiptRetentionPolicy, cap: nat)
    requires
        p.max_sealed_per_domain >= 1,
        p.max_nonexecuted_per_domain >= 1,
    ensures
        sealing_run(s, r, p, cap).0.len() > 0,
        sealing_run(s, r, p, cap).0.last() == r,
{
    let pushed = capacity_run(s, cap).0.push(r);
    lemma_retention_keeps_newest(pushed, p);
}

/// Removing a sealed receipt keeps the others well formed, distinct, and
/// apart from the open ones.
proof fn lemma_sealed_remove_keeps_wf(o: Seq<ActionReceipt>, active: Seq<ReceiptBuilder>, index: int)
    requires
        0 <= index < o.len(),
        forall|j: int| 0 <= j < o.len() ==> sealed_wf(#[trigger] o[j]),
        sealed_ids_distinct(o),
        forall|i: int, j: int|
            0 <= i < active.len() && 0 <= j < o.len() ==> (#[trigger] active[i]).open.receipt_id
                != (#[trigger] o[j]).spec_receipt_id(),
    ensures
        forall|j: int| 0 <= j < o.remove(index).len() ==> sealed_wf(#[trigger] o.remove(index)[j]),
        sealed_ids_distinct(o.remove(index)),
        forall|i: int, j: int|
            0 <= i < active.len() && 0 <= j < o.remove(index).len() ==> (#[trigger] active[i]).open.receipt_id
                != (#[trigger] o.remove(index)[j]).spec_receipt_id(),
{
    let n = o.remove(index);
    assert forall|j: int| 0 <= j < n.len() implies sealed_wf(#[trigger] n[j]) by {
        if j < index {
            assert(n[j] == o[j]);
        } else {
            assert(n[j] == o[j + 1]);
        }
    }
    assert forall|a: int, b: int| 0 <= a < n.len() && 0 <= b < n.len() && a != b implies (#[trigger] n[a]).spec_receipt_id()
        != (#[trigger] n[b]).spec_receipt_id() by {
        let a2 = if a < index { a } else { a + 1 };
        let b2 = if b < index { b } else { b + 1 };
        assert(n[a] == o[a2]);
        assert(n[b] == o[b2]);
    }
    assert forall|i: int, j: int|
        0 <= i < active.len() && 0 <= j < n.len() implies (#[trigger] active[i]).open.receipt_id
            != (#[trigger] n[j]).spec_receipt_id() by {
        let j2 = if j < index { j } else { j + 1 };
        assert(n[j] == o[j2]);
    }
}

/// One retention step records its eviction first among the calls retention makes.
proof fn lemma_retention_step_calls(s: Seq<ActionReceipt>, p: ReceiptRetentionPolicy, calls: Seq<StorageCall>)
    requires
        over_retention(s, p, 0) matches Some((req, sess, nonexecuted_only)) && first_evictable(
            s,
            Some((req, sess)),
            nonexecuted_only,
            0,
        ) matches Some(k) && 0 <= k < s.len(),
    ensures
        ({
            let (req, sess, nonexecuted_only) = over_retention(s, p, 0)->0;
            let k = first_evictable(s, Some((req, sess)), nonexecuted_only, 0)->0;
            calls.push(evict_call(s[k], true)) + eviction_calls(retention_run(s.remove(k), p).1) == calls
                + eviction_calls(retention_run(s, p).1)
        }),
{
    reveal(retention_run);
    let (req, sess, nonexecuted_only) = over_retention(s, p, 0)->0;
    let k = first_evictable(s, Some((req, sess)), nonexecuted_only, 0)->0;
    let rest = retention_run(s.remove(k), p).1;
    assert(retention_run(s, p).1 == seq![s[k]] + rest);
    assert(eviction_calls(seq![s[k]] + rest) =~= seq![evict_call(s[k], true)] + eviction_calls(rest));
    assert(calls.push(evict_call(s[k], true)) + eviction_calls(rest) =~= calls + (seq![evict_call(s[k], true)]
        + eviction_calls(rest)));
}

/// One step of making room records its eviction first among the calls it makes.
proof fn lemma_capacity_step_calls(s: Seq<ActionReceipt>, cap: nat, calls: Seq<StorageCall>)
    requires
        s.len() > 0,
        s.len() >= cap,
    ensures
        calls.push(evict_call(s[0], true)) + eviction_calls(capacity_run(s.remove(0), cap).1) == calls
            + eviction_calls(capacity_run(s, cap).1),
{
    reveal(capacity_run);
    assert(s.remove(0) =~= s.drop_first());
    let rest = capacity_run(s.drop_first(), cap).1;
    assert(capacity_run(s, cap).1 == seq![s[0]] + rest);
    assert(eviction_calls(seq![s[0]] + rest) =~= seq![evict_call(s[0], true)] + eviction_calls(rest));
    assert(calls.push(evict_call(s[0], true)) + eviction_calls(rest) =~= calls + (seq![evict_call(s[0], true)]
        + eviction_calls(rest)));
}

/// Pushing `x` and then `ys` leaves the log that pushing `seq![x] + ys` leaves.
proof fn lemma_pushes_prepend<T>(a: Seq<T>, c: nat, x: T, ys: Seq<T>)
    ensures
        log_after_pushes(a, c, seq![x] + ys) == log_after_pushes(log_after_push(a, c, x), c, ys),
    decreases ys.len(),
{
    if ys.len() == 0 {
        assert(seq![x] + ys =~= seq![x]);
        assert(seq![x].drop_last() =~= Seq::<T>::empty());
        assert(log_after_pushes(a, c, Seq::<T>::empty()) == a);
        assert(log_after_pushes(a, c, seq![x]) == log_after_push(a, c, x));
        assert(log_after_pushes(log_after_push(a, c, x), c, ys) == log_after_push(a, c, x));
    } else {
        lemma_pushes_prepend(a, c, x, ys.drop_last());
        assert((seq![x] + ys).drop_last() =~= seq![x] + ys.drop_last());
        assert((seq![x] + ys).last() == ys.last());
    }
}

/// Pushing `xs` and then `ys` leaves the log that pushing `xs + ys` leaves.
proof fn lemma_pushes_concat<T>(a: Seq<T>, c: nat, xs: Seq<T>, ys: Seq<T>)
    ensures
        log_after_pushes(a, c, xs + ys) == log_after_pushes(log_after_pushes(a, c, xs), c, ys),
    decreases ys.len(),
{
    if ys.len() == 0 {
        assert(xs + ys =~= xs);
    } else {
        lemma_pushes_concat(a, c, xs, ys.drop_last());
        assert((xs + ys).drop_last() =~= xs + ys.drop_last());
        assert((xs + ys).last() == ys.last());
    }
}

/// Below capacity, nothing has to make room.
proof fn lemma_capacity_done(s: Seq<ActionReceipt>, cap: nat)
    requires
        s.len() < cap,
    ensures
        capacity_run(s, cap) == (s, Seq::<ActionReceipt>::empty()),
        eviction_entries(capacity_run(s, cap).1) == Seq::<ReceiptAuditEntry>::empty(),
        eviction_calls(capacity_run(s, cap).1) == Seq::<StorageCall>::empty(),
{
    reveal(capacity_run);
    assert(eviction_entries(Seq::<ActionReceipt>::empty()) =~= Seq::<ReceiptAuditEntry>::empty());
    assert(eviction_calls(Seq::<ActionReceipt>::empty()) =~= Seq::<StorageCall>::empty());
}

/// One step of making room: the oldest receipt goes, and is logged first.
proof fn lemma_capacity_step(s: Seq<ActionReceipt>, cap: nat, audit: Seq<ReceiptAuditEntry>, c: nat)
    requires
        s.len() > 0,
        s.len() >= cap,
    ensures
        capacity_run(s, cap).0 == capacity_run(s.remove(0), cap).0,
        log_after_pushes(
            log_after_push(audit, c, evicted_entry(s[0])),
            c,
            eviction_entries(capacity_run(s.remove(0), cap).1),
        ) == log_after_pushes(audit, c, eviction_entries(capacity_run(s, cap).1)),
{
    reveal(capacity_run);
    assert(s.remove(0) =~= s.drop_first());
    let rest = capacity_run(s.drop_first(), cap).1;
    assert(capacity_run(s, cap).1 == seq![s[0]] + rest);
    assert(eviction_entries(seq![s[0]] + rest) =~= seq![evicted_entry(s[0])] + eviction_entries(rest));
    lemma_pushes_prepend(audit, c, evicted_entry(s[0]), eviction_entries(rest));
}

/// Where no domain is over a bound, retention keeps everything.
proof fn lemma_retention_done(s: Seq<ActionReceipt>, p: ReceiptRetentionPolicy)
    requires
        over_retention(s, p, 0) is None,
    ensures
        retention_run(s, p) == (s, Seq::<ActionReceipt>::empty()),
        eviction_entries(retention_run(s, p).1) == Seq::<ReceiptAuditEntry>::empty(),
        eviction_calls(retention_run(s, p).1) == Seq::<StorageCall>::empty(),
{
    reveal(retention_run);
    assert(eviction_entries(Seq::<ActionReceipt>::empty()) =~= Seq::<ReceiptAuditEntry>::empty());
    assert(eviction_calls(Seq::<ActionReceipt>::empty()) =~= Seq::<StorageCall>::empty());
}

/// One retention step: evicting the oldest receipt of the first domain over
/// a bound leaves what is kept unchanged and logs that eviction first.
proof fn lemma_retention_step(s: Seq<ActionReceipt>, p: ReceiptRetentionPolicy, audit: Seq<ReceiptAuditEntry>, c: nat)
    requires
        over_retention(s, p, 0) matches Some((req, sess, nonexecuted_only)) && first_evictable(
            s,
            Some((req, sess)),
            nonexecuted_only,
            0,
        ) matches Some(k) && 0 <= k < s.len(),
    ensures
        ({
            let (req, sess, nonexecuted_only) = over_retention(s, p, 0)->0;
            let k = first_evictable(s, Some((req, sess)), nonexecuted_only, 0)->0;
            &&& retention_run(s, p).0 == retention_run(s.remove(k), p).0
            &&& log_after_pushes(
                log_after_push(audit, c, evicted_entry(s[k])),
                c,
                eviction_entries(retention_run(s.remove(k), p).1),
            ) == log_after_pushes(audit, c, eviction_entries(retention_run(s, p).1))
        }),
{
    reveal(retention_run);
    let (req, sess, nonexecuted_only) = over_retention(s, p, 0)->0;
    let k = first_evictable(s, Some((req, sess)), nonexecuted_only, 0)->0;
    let rest = retention_run(s.remove(k), p).1;
    assert(retention_run(s, p).1 == seq![s[k]] + rest);
    assert(eviction_entries(seq![s[k]] + rest) =~= seq![evicted_entry(s[k])] + eviction_entries(rest));
    lemma_pushes_prepend(audit, c, evicted_entry(s[k]), eviction_entries(rest));
}

fn evict_matches_at(
    sealed: &Vec<ActionReceipt>,
    index: usize,
    domain: Option<(RequestedBy, SessionId)>,
    nonexecuted_only: bool,
) -> (r: bool)
    requires
        index < sealed@.len(),
    ensures
        r == evict_match(sealed@[index as int], domain, nonexecuted_only),
{
    let rcpt = &sealed[index];
    match domain {
        None => true,
        Some((req, sess)) => rcpt.requester == req && rcpt.session_id == sess && (!nonexecuted_only
            || !rcpt.terminal_status.is_executed()),
    }
}

/// Finds a requester/session domain over its retention bound, if any, and
/// whether the non-executed bound is the one exceeded.
fn find_over_retention(sealed: &Vec<ActionReceipt>, retention: ReceiptRetentionPolicy) -> (over: Option<
    (RequestedBy, SessionId, bool),
>)
    ensures
        over == over_retention(sealed@, retention, 0),
        over is None ==> retention_ok(sealed@, retention),
{
    let mut over: Option<(RequestedBy, SessionId, bool)> = None;
    let mut index: usize = 0;
    let n = sealed.len();
    while index < n && over.is_none()
        invariant
            n == sealed@.len(),
            0 <= index <= n,
            over is None ==> forall|k: int|
                0 <= k < index ==> domain_count(
                    sealed@,
                    (#[trigger] sealed@[k]).spec_requester(),
                    sealed@[k].spec_session_id(),
                    false,
                ) <= retention.max_sealed_per_domain && domain_count(
                    sealed@,
                    sealed@[k].spec_requester(),
                    sealed@[k].spec_session_id(),
                    true,
                ) <= retention.max_nonexecuted_per_domain,
            over is None ==> over_retention(sealed@, retention, 0) == over_retention(sealed@, retention, index as int),
            over is Some ==> over == over_retention(sealed@, retention, 0),
        decreases n - index,
    {
        let req = sealed[index].requester;
        let sess = sealed[index].session_id;
        let dc = count_domain(sealed, req, sess, false);
        if dc > retention.max_sealed_per_domain {
            over = Some((req, sess, false));
        } else {
            let nc = count_domain(sealed, req, sess, true);
            if nc > retention.max_nonexecuted_per_domain {
                over = Some((req, sess, true));
            }
        }
        index = index + 1;
    }
    over
}

impl<P: ReceiptPersistence, const ACTIVE: usize, const SEALED: usize, const AUDIT: usize>
    ActionReceiptLedger<P, ACTIVE, SEALED, AUDIT> {
    /// The open receipts of `new` are those of `old`, unchanged.
    pub open spec fn active_unchanged(old: Self, new: Self) -> bool {
        &&& new.spec_active_len() == old.spec_active_len()
        &&& forall|i: int|
            0 <= i < old.spec_active_len() ==> new.spec_active_id(i) == old.spec_active_id(i)
                && new.spec_active_timeline(i) == old.spec_active_timeline(i)
                && new.spec_active_open(i) == old.spec_active_open(i)
    }

    /// The open receipts of `new` are those of `old`, with `e` appended to the `i`-th.
    pub open spec fn active_appended(old: Self, new: Self, i: int, e: ActionReceiptLifecycleEvent) -> bool {
        &&& new.spec_active_len() == old.spec_active_len()
        &&& forall|k: int|
            0 <= k < old.spec_active_len() ==> new.spec_active_id(k) == old.spec_active_id(k)
                && new.spec_active_open(k) == old.spec_active_open(k)
        &&& forall|k: int|
            0 <= k < old.spec_active_len() && k != i ==> new.spec_active_timeline(k)
                == old.spec_active_timeline(k)
        &&& new.spec_active_timeline(i) == old.spec_active_timeline(i).push(e)
    }

    /// The open receipts of `new` are those of `old` without the `i`-th.
    pub open spec fn active_removed(old: Self, new: Self, i: int) -> bool {
        &&& new.spec_active_len() + 1 == old.spec_active_len()
        &&& forall|k: int|
            0 <= k < i ==> new.spec_active_id(k) == old.spec_active_id(k)
                && new.spec_active_timeline(k) == old.spec_active_timeline(k)
                && new.spec_active_open(k) == old.spec_active_open(k)
        &&& forall|k: int|
            i <= k < new.spec_active_len() ==> new.spec_active_id(k) == old.spec_active_id(k + 1)
                && new.spec_active_timeline(k) == old.spec_active_timeline(k + 1)
                && new.spec_active_open(k) == old.spec_active_open(k + 1)
    }

    /// Evicts the oldest sealed receipt that matches, after durable storage agrees.
    #[verifier::spinoff_prover]
    #[verifier::rlimit(100)]
    fn evict_oldest_matching(&mut self, domain: Option<(RequestedBy, SessionId)>, nonexecuted_only: bool) -> (r:
        Result<(), ReceiptError>)
        requires
            old(self).core_wf(),
        ensures
            final(self).core_wf(),
            final(self).active == old(self).active,
            final(self).retention == old(self).retention,
            r is Err ==> final(self).sealed@ == old(self).sealed@ && final(self).spec_audit() == old(
                self,
            ).spec_audit(),
            old(self).storage_infallible() ==> final(self).storage_infallible() && r != Err::<(), ReceiptError>(
                ReceiptError::PersistenceFailure,
            ),
            match first_evictable(old(self).sealed@, domain, nonexecuted_only, 0) {
                None => r == Err::<(), ReceiptError>(ReceiptError::ReceiptTooLarge) && final(self).calls@ == old(
                    self,
                ).calls@ && final(self).persistence == old(self).persistence,
                Some(k) => {
                    &&& 0 <= k < old(self).sealed@.len()
                    &&& evict_match(old(self).sealed@[k], domain, nonexecuted_only)
                    &&& final(self).calls@ == old(self).calls@.push(evict_call(old(self).sealed@[k], r is Ok))
                    &&& r is Err ==> r == Err::<(), ReceiptError>(ReceiptError::PersistenceFailure)
                    &&& r is Ok ==> final(self).sealed@ == old(self).sealed@.remove(k) && final(self).spec_audit()
                        == log_after_push(old(self).spec_audit(), AUDIT as nat, evicted_entry(old(self).sealed@[k]))
                },
            },
    {
        let mut index: usize = 0;
        while index < self.sealed.len() && !evict_matches_at(&self.sealed, index, domain, nonexecuted_only)
            invariant
                0 <= index <= self.sealed@.len(),
                forall|k: int| 0 <= k < index ==> !evict_match(#[trigger] self.sealed@[k], domain, nonexecuted_only),
                first_evictable(self.sealed@, domain, nonexecuted_only, 0) == first_evictable(
                    self.sealed@,
                    domain,
                    nonexecuted_only,
                    index as int,
                ),
            decreases self.sealed@.len() - index,
        {
            index = index + 1;
        }
        if index >= self.sealed.len() {
            return Err(ReceiptError::ReceiptTooLarge);
        }
        assert(evict_match(self.sealed@[index as int], domain, nonexecuted_only));
        let requester = self.sealed[index].requester;
        let session_id = self.sealed[index].session_id;
        let receipt_id = self.sealed[index].receipt_id;
        let stored = self.persistence.evict(requester_domain(requester), session_id, receipt_id);
        self.calls = Ghost(self.calls@.push(evict_call(self.sealed@[index as int], stored is Ok)));
        match stored {
            Ok(()) => {},
            Err(_) => return Err(ReceiptError::PersistenceFailure),
        }
        let evicted = self.sealed.remove(index);
        self.audit.push(
            ReceiptAuditEntry {
                receipt_id: Some(evicted.receipt_id),
                coordinator_action_id: Some(evicted.coordinator_action_id),
                session_id: evicted.session_id,
                event: ReceiptAuditEvent::ReceiptEvicted,
                public_reason: PublicReasonCode::NoReason,
                timestamp: evicted.terminal_timestamp,
            },
        );
        proof {
            lemma_sealed_remove_keeps_wf(old(self).sealed@, self.active@, index as int);
        }
        Ok(())
    }

    #[verifier::spinoff_prover]
    #[verifier::rlimit(100)]
    fn enforce_domain_retention(&mut self) -> (r: Result<(), ReceiptError>)
        requires
            old(self).core_wf(),
        ensures
            final(self).core_wf(),
            final(self).active == old(self).active,
            final(self).retention == old(self).retention,
            forall|j: int| 0 <= j < final(self).sealed@.len() ==> old(self).sealed@.contains(
                #[trigger] final(self).sealed@[j],
            ),
            r is Ok ==> retention_ok(final(self).sealed@, final(self).retention),
            r is Ok ==> final(self).sealed@ == retention_run(old(self).sealed@, old(self).retention).0,
            r is Ok ==> final(self).calls@ == old(self).calls@ + eviction_calls(
                retention_run(old(self).sealed@, old(self).retention).1,
            ),
            old(self).calls@.is_prefix_of(final(self).calls@),
            old(self).storage_infallible() ==> final(self).storage_infallible() && r is Ok,
            r is Ok ==> final(self).spec_audit() == log_after_pushes(
                old(self).spec_audit(),
                AUDIT as nat,
                eviction_entries(retention_run(old(self).sealed@, old(self).retention).1),
            ),
            r is Err ==> r == Err::<(), ReceiptError>(ReceiptError::PersistenceFailure),
    {
        let ghost original = self.sealed@;
        loop
            invariant
                self.core_wf(),
                self.active == old(self).active,
                self.retention == old(self).retention,
                original == old(self).sealed@,
                forall|j: int| 0 <= j < self.sealed@.len() ==> original.contains(#[trigger] self.sealed@[j]),
                retention_run(self.sealed@, self.retention).0 == retention_run(original, self.retention).0,
                old(self).storage_infallible() ==> self.storage_infallible(),
                self.calls@ + eviction_calls(retention_run(self.sealed@, self.retention).1) == old(self).calls@
                    + eviction_calls(retention_run(original, self.retention).1),
                old(self).calls@.is_prefix_of(self.calls@),
                log_after_pushes(
                    self.spec_audit(),
                    AUDIT as nat,
                    eviction_entries(retention_run(self.sealed@, self.retention).1),
                ) == log_after_pushes(
                    old(self).spec_audit(),
                    AUDIT as nat,
                    eviction_entries(retention_run(original, self.retention).1),
                ),
            decreases self.sealed@.len(),
        {
            let over = find_over_retention(&self.sealed, self.retention);
            match over {
                None => {
                    proof {
                        lemma_retention_done(self.sealed@, self.retention);
                        assert(self.calls@ + Seq::<StorageCall>::empty() =~= self.calls@);
                    }
                    return Ok(());
                },
                Some((req, sess, nonexecuted_only)) => {
                    let ghost before = self.sealed@;
                    let ghost audit_before = self.spec_audit();
                    let ghost calls_before = self.calls@;
                    proof {
                        lemma_over_has_evictable(before, self.retention);
                    }
                    match self.evict_oldest_matching(Some((req, sess)), nonexecuted_only) {
                        Ok(()) => {
                            proof {
                                let k = first_evictable(before, Some((req, sess)), nonexecuted_only, 0)->0;
                                lemma_retention_step(before, self.retention, audit_before, AUDIT as nat);
                                lemma_retention_step_calls(before, self.retention, calls_before);
                                assert forall|j: int| 0 <= j < self.sealed@.len() implies original.contains(
                                    #[trigger] self.sealed@[j],
                                ) by {
                                    let j2 = if j < k { j } else { j + 1 };
                                    assert(self.sealed@[j] == before[j2]);
                                    assert(original.contains(before[j2]));
                                }
                            }
                        },
                        Err(e) => {
                            return Err(e);
                        },
                    }
                },
            }
        }
    }

    #[verifier::spinoff_prover]
    fn insert_sealed(&mut self, receipt: ActionReceipt) -> (r: Result<(), ReceiptError>)
        requires
            old(self).core_wf(),
            sealed_wf(receipt),
            forall|i: int| 0 <= i < old(self).active@.len() ==> (#[trigger] old(self).active@[i]).open.receipt_id
                != receipt.spec_receipt_id(),
            forall|j: int| 0 <= j < old(self).sealed@.len() ==> (#[trigger] old(self).sealed@[j]).spec_receipt_id()
                != receipt.spec_receipt_id(),
        ensures
            final(self).core_wf(),
            final(self).active == old(self).active,
            final(self).retention == old(self).retention,
            sealed_grows_by(old(self).sealed@, final(self).sealed@, receipt),
            r is Ok ==> retention_ok(final(self).sealed@, final(self).retention),
            r is Ok ==> final(self).sealed@ == sealing_run(
                old(self).sealed@,
                receipt,
                old(self).retention,
                SEALED as nat,
            ).0,
            r is Ok ==> final(self).calls@ == old(self).calls@ + eviction_calls(
                sealing_run(old(self).sealed@, receipt, old(self).retention, SEALED as nat).1,
            ),
            old(self).calls@.is_prefix_of(final(self).calls@),
            old(self).storage_infallible() ==> final(self).storage_infallible(),
            old(self).storage_infallible() && SEALED > 0 ==> r is Ok,
            old(self).storage_infallible() ==> r != Err::<(), ReceiptError>(ReceiptError::PersistenceFailure),
            r is Ok ==> final(self).spec_audit() == log_after_pushes(
                old(self).spec_audit(),
                AUDIT as nat,
                eviction_entries(sealing_run(old(self).sealed@, receipt, old(self).retention, SEALED as nat).1),
            ),
            r is Err ==> r == Err::<(), ReceiptError>(ReceiptError::PersistenceFailure) || SEALED == 0 && r
                == Err::<(), ReceiptError>(ReceiptError::ReceiptTooLarge),
    {
        let ghost original = self.sealed@;
        while self.sealed.len() >= SEALED
            invariant
                self.core_wf(),
                self.active == old(self).active,
                self.retention == old(self).retention,
                original == old(self).sealed@,
                kept_from(original, self.sealed@, receipt.spec_receipt_id()),
                old(self).storage_infallible() ==> self.storage_infallible(),
                capacity_run(self.sealed@, SEALED as nat).0 == capacity_run(original, SEALED as nat).0,
                self.calls@ + eviction_calls(capacity_run(self.sealed@, SEALED as nat).1) == old(self).calls@
                    + eviction_calls(capacity_run(original, SEALED as nat).1),
                old(self).calls@.is_prefix_of(self.calls@),
                log_after_pushes(
                    self.spec_audit(),
                    AUDIT as nat,
                    eviction_entries(capacity_run(self.sealed@, SEALED as nat).1),
                ) == log_after_pushes(
                    old(self).spec_audit(),
                    AUDIT as nat,
                    eviction_entries(capacity_run(original, SEALED as nat).1),
                ),
            decreases self.sealed@.len(),
        {
            let ghost before = self.sealed@;
            let ghost audit_before = self.spec_audit();
            let ghost calls_before = self.calls@;
            proof {
                if SEALED > 0 {
                    lemma_first_evictable_finds(before, None, false, 0, 0);
                }
            }
            match self.evict_oldest_matching(None, false) {
                Ok(()) => {
                    proof {
                        lemma_kept_after_remove(original, before, self.sealed@, receipt.spec_receipt_id(), None, false);
                        lemma_capacity_step(before, SEALED as nat, audit_before, AUDIT as nat);
                        lemma_capacity_step_calls(before, SEALED as nat, calls_before);
                    }
                },
                Err(e) => {
                    proof {
                        lemma_kept_grows(original, self.sealed@, receipt);
                    }
                    return Err(e);
                },
            }
        }
        let ghost before_push = self.sealed@;
        proof {
            lemma_capacity_done(before_push, SEALED as nat);
        }
        self.sealed.push(receipt);
        proof {
            lemma_push_sealed_wf(before_push, receipt);
        }
        let ghost mid = self.sealed@;
        let ghost audit_mid = self.spec_audit();
        let ghost calls_mid = self.calls@;
        let r = self.enforce_domain_retention();
        proof {
            lemma_grows_after_push(original, before_push, mid, self.sealed@, receipt);
            let cap = capacity_run(original, SEALED as nat);
            let ret = retention_run(cap.0.push(receipt), self.retention);
            assert(mid == cap.0.push(receipt));
            assert(eviction_entries(cap.1 + ret.1) =~= eviction_entries(cap.1) + eviction_entries(ret.1));
            lemma_pushes_concat(old(self).spec_audit(), AUDIT as nat, eviction_entries(cap.1), eviction_entries(ret.1));
            assert(calls_mid + Seq::<StorageCall>::empty() =~= calls_mid);
            assert(eviction_calls(cap.1 + ret.1) =~= eviction_calls(cap.1) + eviction_calls(ret.1));
            assert(old(self).calls@ + (eviction_calls(cap.1) + eviction_calls(ret.1)) =~= (old(self).calls@
                + eviction_calls(cap.1)) + eviction_calls(ret.1));
        }
        r
    }
}

/// Every receipt of `now` came from `original` and none has identifier `id`.
pub open spec fn kept_from(original: Seq<ActionReceipt>, now: Seq<ActionReceipt>, id: ActionReceiptId) -> bool {
    forall|j: int| 0 <= j < now.len() ==> original.contains(#[trigger] now[j]) && now[j].spec_receipt_id() != id
}

proof fn lemma_kept_after_remove(
    original: Seq<ActionReceipt>,
    before: Seq<ActionReceipt>,
    after: Seq<ActionReceipt>,
    id: ActionReceiptId,
    domain: Option<(RequestedBy, SessionId)>,
    nonexecuted_only: bool,
)
    requires
        kept_from(original, before, id),
        exists|k: int|
            0 <= k < before.len() && evict_match(#[trigger] before[k], domain, nonexecuted_only) && after
                == before.remove(k),
    ensures
        kept_from(original, after, id),
{
    let k = choose|k: int|
        0 <= k < before.len() && evict_match(#[trigger] before[k], domain, nonexecuted_only) && after
            == before.remove(k);
    assert forall|j: int| 0 <= j < after.len() implies original.contains(#[trigger] after[j])
        && after[j].spec_receipt_id() != id by {
        let j2 = if j < k { j } else { j + 1 };
        assert(after[j] == before[j2]);
    }
}

proof fn lemma_kept_grows(original: Seq<ActionReceipt>, now: Seq<ActionReceipt>, receipt: ActionReceipt)
    requires
        kept_from(original, now, receipt.spec_receipt_id()),
    ensures
        sealed_grows_by(original, now, receipt),
{
}

proof fn lemma_push_sealed_wf(before: Seq<ActionReceipt>, receipt: ActionReceipt)
    requires
        sealed_wf(receipt),
        forall|j: int| 0 <= j < before.len() ==> sealed_wf(#[trigger] before[j]),
        sealed_ids_distinct(before),
        forall|j: int| 0 <= j < before.len() ==> (#[trigger] before[j]).spec_receipt_id() != receipt.spec_receipt_id(),
    ensures
        forall|j: int| 0 <= j < before.push(receipt).len() ==> sealed_wf(#[trigger] before.push(receipt)[j]),
        sealed_ids_distinct(before.push(receipt)),
{
    let n = before.push(receipt);
    assert forall|j: int| 0 <= j < n.len() implies sealed_wf(#[trigger] n[j]) by {
        if j < before.len() {
            assert(n[j] == before[j]);
        }
    }
}

proof fn lemma_grows_after_push(
    original: Seq<ActionReceipt>,
    before_push: Seq<ActionReceipt>,
    mid: Seq<ActionReceipt>,
    now: Seq<ActionReceipt>,
    receipt: ActionReceipt,
)
    requires
        kept_from(original, before_push, receipt.spec_receipt_id()),
        mid == before_push.push(receipt),
        forall|j: int| 0 <= j < now.len() ==> mid.contains(#[trigger] now[j]),
    ensures
        sealed_grows_by(original, now, receipt),
{
    assert forall|j: int| 0 <= j < now.len() implies (#[trigger] now[j] == receipt || original.contains(now[j])) by {
        let m = choose|m: int| 0 <= m < mid.len() && mid[m] == now[j];
        if m < before_push.len() {
            assert(mid[m] == before_push[m]);
        }
    }
}

/// The audit entry recorded when an event is turned away or ignored.
pub open spec fn rejection_entry(e: ActionReceiptLifecycleEvent, kind: ReceiptAuditEvent) -> ReceiptAuditEntry {
    ReceiptAuditEntry {
        receipt_id: Some(e.spec_receipt_id()),
        coordinator_action_id: Some(e.spec_coordinator_action_id()),
        session_id: e.spec_session_id(),
        event: kind,
        public_reason: PublicReasonCode::ReplayRejected,
        timestamp: e.spec_timestamp(),
    }
}

/// The audit entry recorded when a receipt is opened.
pub open spec fn opened_entry(open: ReceiptOpen) -> ReceiptAuditEntry {
    ReceiptAuditEntry {
        receipt_id: Some(open.receipt_id),
        coordinator_action_id: Some(open.coordinator_action_id),
        session_id: open.session_id,
        event: ReceiptAuditEvent::ReceiptOpened,
        public_reason: PublicReasonCode::NoReason,
        timestamp: 0,
    }
}

/// The audit entry recorded when a terminal event seals its receipt.
pub open spec fn sealed_entry(e: ActionReceiptLifecycleEvent) -> ReceiptAuditEntry {
    ReceiptAuditEntry {
        receipt_id: Some(e.spec_receipt_id()),
        coordinator_action_id: Some(e.spec_coordinator_action_id()),
        session_id: e.spec_session_id(),
        event: ReceiptAuditEvent::ReceiptSealed,
        public_reason: e.spec_public_reason(),
        timestamp: e.spec_timestamp(),
    }
}

/// The audit entry recorded when an event joins a timeline.
pub open spec fn appended_entry(e: ActionReceiptLifecycleEvent) -> ReceiptAuditEntry {
    ReceiptAuditEntry {
        receipt_id: Some(e.spec_receipt_id()),
        coordinator_action_id: Some(e.spec_coordinator_action_id()),
        session_id: e.spec_session_id(),
        event: ReceiptAuditEvent::LifecycleEventAppended,
        public_reason: e.spec_public_reason(),
        timestamp: e.spec_timestamp(),
    }
}

/// The error for an event whose receipt is not open: a sealed receipt takes
/// no more events, and an unknown one is not found.
pub open spec fn not_open_error(sealed: bool, e: ActionReceiptLifecycleEvent) -> ReceiptError {
    if sealed {
        if e.spec_terminal_status() is Some {
            ReceiptError::DuplicateTerminal
        } else {
            ReceiptError::AlreadySealed
        }
    } else {
        ReceiptError::ReceiptNotFound
    }
}

/// The audit entry kind recorded for an answer of `append_check`; a full
/// timeline is answered without one.
pub open spec fn check_audit_kind(res: Result<AppendDisposition, ReceiptError>) -> Option<ReceiptAuditEvent> {
    match res {
        Ok(_) => Some(ReceiptAuditEvent::DuplicateIgnored),
        Err(ReceiptError::TimelineFull) => None,
        Err(_) => Some(ReceiptAuditEvent::MismatchedEventRejected),
    }
}

/// The audit log after an answer of `append_check`.
pub open spec fn audit_after_check(
    audit: Seq<ReceiptAuditEntry>,
    capacity: nat,
    e: ActionReceiptLifecycleEvent,
    res: Result<AppendDisposition, ReceiptError>,
) -> Seq<ReceiptAuditEntry> {
    match check_audit_kind(res) {
        Some(kind) => log_after_push(audit, capacity, rejection_entry(e, kind)),
        None => audit,
    }
}

/// Decides what `append_check` decides, on a well-formed builder.
fn check_append(b: &ReceiptBuilder, e: &ActionReceiptLifecycleEvent) -> (r: Option<
    Result<AppendDisposition, ReceiptError>,
>)
    requires
        builder_wf(*b),
    ensures
        r == append_check(b.open, b.timeline@, *e),
{
    if e.coordinator_action_id != b.open.coordinator_action_id {
        return Some(Err(ReceiptError::WrongAction));
    }
    if e.session_id != b.open.session_id {
        return Some(Err(ReceiptError::WrongSession));
    }
    if e.requester != b.open.requester {
        return Some(Err(ReceiptError::WrongRequester));
    }
    if let Err(err) = validate_source(e.source, e.event_type) {
        return Some(Err(err));
    }
    if let Err(err) = validate_terminal(e.event_type, e.terminal_status) {
        return Some(Err(err));
    }
    let n = b.timeline.len();
    let seq = e.sequence as usize;
    if 1 <= seq && seq <= n {
        if events_equal(&b.timeline[seq - 1], e) {
            return Some(Ok(AppendDisposition::DuplicateIgnored));
        }
        return Some(Err(ReceiptError::DuplicateSequenceConflict));
    }
    if seq != n + 1 {
        return Some(Err(ReceiptError::OutOfOrder));
    }
    if n >= MAX_RECEIPT_TIMELINE_EVENTS {
        return Some(Err(ReceiptError::TimelineFull));
    }
    None
}

/// A builder stays well-formed when an event that passed `append_check` joins it.
proof fn lemma_builder_push(b: ReceiptBuilder, nb: ReceiptBuilder, e: ActionReceiptLifecycleEvent)
    requires
        builder_wf(b),
        append_check(b.open, b.timeline@, e) is None,
        e.spec_receipt_id() == b.open.receipt_id,
        nb.open == b.open,
        nb.timeline@ == b.timeline@.push(e),
        nb.summaries == summaries_after(b.summaries, e),
    ensures
        builder_wf(nb),
{
    let tl = b.timeline@;
    let ntl = nb.timeline@;
    assert(ntl.drop_last() =~= tl);
    assert forall|k: int| 0 <= k < ntl.len() implies #[trigger] ntl[k].spec_sequence() == k + 1 by {
        if k < tl.len() {
            assert(ntl[k] == tl[k]);
        }
    }
    assert forall|k: int| 0 <= k < ntl.len() implies source_allows(
        (#[trigger] ntl[k]).spec_source(),
        ntl[k].spec_event_type(),
    ) by {
        if k < tl.len() {
            assert(ntl[k] == tl[k]);
        }
    }
    assert forall|k: int| 0 <= k < ntl.len() implies event_bound_to(
        #[trigger] ntl[k],
        nb.open.receipt_id,
        nb.open.coordinator_action_id,
        nb.open.session_id,
        nb.open.requester,
    ) by {
        if k < tl.len() {
            assert(ntl[k] == tl[k]);
        }
    }
}

impl<P: ReceiptPersistence, const ACTIVE: usize, const SEALED: usize, const AUDIT: usize>
    ActionReceiptLedger<P, ACTIVE, SEALED, AUDIT> {
    /// What sealing the `i`-th open receipt with `e` as its last event does:
    /// the sealed receipt is the builder's, with `e` appended; it is turned
    /// down when its encoding is too large, and otherwise leaves the open
    /// receipts for the sealed ones unless storage refuses.
    pub open spec fn sealing_effect(
        old: Self,
        new: Self,
        i: int,
        e: ActionReceiptLifecycleEvent,
        r: Result<AppendDisposition, ReceiptError>,
    ) -> bool {
        exists|rc: ActionReceipt|
            {
                &&& sealed_wf(rc)
                &&& #[trigger] sealed_matches_builder(
                    rc,
                    old.spec_active_open(i),
                    old.spec_active_timeline(i).push(e),
                    e.spec_terminal_status().unwrap(),
                )
                &&& sealed_encoding(rc).len() > MAX_SEALED_RECEIPT_BYTES ==> {
                    &&& r == Err::<AppendDisposition, ReceiptError>(ReceiptError::ReceiptTooLarge)
                    &&& new.spec_storage_calls() == old.spec_storage_calls().push(event_call(e, true))
                    &&& Self::active_appended(old, new, i, e)
                    &&& new.spec_sealed() == old.spec_sealed()
                    &&& new.spec_audit() == log_after_push(old.spec_audit(), AUDIT as nat, appended_entry(e))
                }
                &&& sealed_encoding(rc).len() <= MAX_SEALED_RECEIPT_BYTES ==> {
                    ||| {
                        &&& r == Err::<AppendDisposition, ReceiptError>(ReceiptError::PersistenceFailure)
                        &&& new.spec_storage_calls() == old.spec_storage_calls().push(event_call(e, true)).push(
                            seal_call(e, rc, false),
                        )
                        &&& Self::active_appended(old, new, i, e)
                        &&& new.spec_sealed() == old.spec_sealed()
                        &&& new.spec_audit() == log_after_push(
                            old.spec_audit(),
                            AUDIT as nat,
                            appended_entry(e),
                        )
                    }
                    ||| {
                        &&& Self::active_removed(old, new, i)
                        &&& sealed_grows_by(old.spec_sealed(), new.spec_sealed(), rc)
                        &&& old.spec_storage_calls().push(event_call(e, true)).push(seal_call(e, rc, true)).is_prefix_of(
                            new.spec_storage_calls(),
                        )
                        &&& r is Ok ==> new.spec_storage_calls() == old.spec_storage_calls().push(
                            event_call(e, true),
                        ).push(seal_call(e, rc, true)) + eviction_calls(
                            sealing_run(old.spec_sealed(), rc, old.spec_retention(), SEALED as nat).1,
                        )
                        &&& r is Ok ==> r == Ok::<AppendDisposition, ReceiptError>(AppendDisposition::Sealed)
                            && retention_ok(new.spec_sealed(), new.spec_retention())
                        &&& r is Ok ==> new.spec_sealed() == sealing_run(
                            old.spec_sealed(),
                            rc,
                            old.spec_retention(),
                            SEALED as nat,
                        ).0
                        &&& r is Ok ==> new.spec_audit() == log_after_push(
                            log_after_pushes(
                                log_after_push(old.spec_audit(), AUDIT as nat, appended_entry(e)),
                                AUDIT as nat,
                                eviction_entries(
                                    sealing_run(old.spec_sealed(), rc, old.spec_retention(), SEALED as nat).1,
                                ),
                            ),
                            AUDIT as nat,
                            sealed_entry(e),
                        )
                        &&& r is Err ==> r == Err::<AppendDisposition, ReceiptError>(
                            ReceiptError::PersistenceFailure,
                        ) || SEALED == 0 && r == Err::<AppendDisposition, ReceiptError>(
                            ReceiptError::ReceiptTooLarge,
                        )
                    }
                }
            }
    }

    /// What appending `e` to the `i`-th open receipt does.
    pub open spec fn append_effect(
        old: Self,
        new: Self,
        i: int,
        e: ActionReceiptLifecycleEvent,
        r: Result<AppendDisposition, ReceiptError>,
    ) -> bool {
        match append_check(old.spec_active_open(i), old.spec_active_timeline(i), e) {
            Some(res) => {
                &&& r == res
                &&& Self::active_unchanged(old, new)
                &&& new.spec_sealed() == old.spec_sealed()
                &&& new.spec_audit() == audit_after_check(old.spec_audit(), AUDIT as nat, e, res)
                &&& new.spec_storage_calls() == old.spec_storage_calls()
                &&& new.spec_persistence() == old.spec_persistence()
            },
            None => {
                ||| {
                    &&& r == Err::<AppendDisposition, ReceiptError>(ReceiptError::PersistenceFailure)
                    &&& Self::active_unchanged(old, new)
                    &&& new.spec_sealed() == old.spec_sealed()
                    &&& new.spec_audit() == old.spec_audit()
                    &&& new.spec_storage_calls() == old.spec_storage_calls().push(event_call(e, false))
                }
                ||| {
                    &&& e.spec_terminal_status() is None
                    &&& r == Ok::<AppendDisposition, ReceiptError>(AppendDisposition::Appended)
                    &&& Self::active_appended(old, new, i, e)
                    &&& new.spec_sealed() == old.spec_sealed()
                    &&& new.spec_audit() == log_after_push(old.spec_audit(), AUDIT as nat, appended_entry(e))
                    &&& new.spec_storage_calls() == old.spec_storage_calls().push(event_call(e, true))
                }
                ||| {
                    &&& e.spec_terminal_status() is Some
                    &&& Self::sealing_effect(old, new, i, e, r)
                }
            },
        }
    }

    fn audit_rejection(&mut self, event: &ActionReceiptLifecycleEvent, audit_event: ReceiptAuditEvent)
        requires
            old(self).core_wf(),
        ensures
            final(self).core_wf(),
            final(self).active == old(self).active,
            final(self).sealed == old(self).sealed,
            final(self).retention == old(self).retention,
            final(self).persistence == old(self).persistence,
            final(self).calls == old(self).calls,
            final(self).spec_audit() == log_after_push(
                old(self).spec_audit(),
                AUDIT as nat,
                rejection_entry(*event, audit_event),
            ),
    {
        self.audit.push(
            ReceiptAuditEntry {
                receipt_id: Some(event.receipt_id),
                coordinator_action_id: Some(event.coordinator_action_id),
                session_id: event.session_id,
                event: audit_event,
                public_reason: PublicReasonCode::ReplayRejected,
                timestamp: event.timestamp,
            },
        );
    }

    /// The ledger stays well-formed when an open receipt is replaced by one
    /// with the same open and a well-formed timeline.
    proof fn lemma_replace_active(old: Self, new: Self, i: int, b: ReceiptBuilder)
        requires
            old.core_wf(),
            0 <= i < old.active@.len(),
            builder_wf(b),
            b.open.receipt_id == old.active@[i].open.receipt_id,
            new.active@ == old.active@.update(i, b),
            new.sealed@ == old.sealed@,
            new.audit.wf(),
        ensures
            new.core_wf(),
    {
        let o = old.active@;
        let n = new.active@;
        assert forall|k: int| 0 <= k < n.len() implies builder_wf(#[trigger] n[k]) by {
            if k != i {
                assert(n[k] == o[k]);
            }
        }
        assert forall|a: int, c: int|
            0 <= a < n.len() && 0 <= c < n.len() && a != c implies (#[trigger] n[a]).open.receipt_id
                != (#[trigger] n[c]).open.receipt_id by {
            assert(n[a].open.receipt_id == o[a].open.receipt_id);
            assert(n[c].open.receipt_id == o[c].open.receipt_id);
        }
        assert forall|a: int, j: int|
            0 <= a < n.len() && 0 <= j < new.sealed@.len() implies (#[trigger] n[a]).open.receipt_id
                != (#[trigger] new.sealed@[j]).spec_receipt_id() by {
            assert(n[a].open.receipt_id == o[a].open.receipt_id);
        }
    }

    /// The ledger stays well-formed when an open receipt leaves it.
    proof fn lemma_remove_active(old: Self, new: Self, i: int)
        requires
            old.core_wf(),
            0 <= i < old.active@.len(),
            new.active@ == old.active@.remove(i),
            new.sealed@ == old.sealed@,
            new.audit.wf(),
        ensures
            new.core_wf(),
            forall|k: int| 0 <= k < new.active@.len() ==> (#[trigger] new.active@[k]).open.receipt_id
                != old.active@[i].open.receipt_id,
            forall|j: int| 0 <= j < new.sealed@.len() ==> (#[trigger] new.sealed@[j]).spec_receipt_id()
                != old.active@[i].open.receipt_id,
    {
        let o = old.active@;
        let n = new.active@;
        assert forall|k: int| 0 <= k < n.len() implies builder_wf(#[trigger] n[k]) && n[k].open.receipt_id
            != o[i].open.receipt_id by {
            let k2 = if k < i { k } else { k + 1 };
            assert(n[k] == o[k2]);
        }
        assert forall|a: int, c: int|
            0 <= a < n.len() && 0 <= c < n.len() && a != c implies (#[trigger] n[a]).open.receipt_id
                != (#[trigger] n[c]).open.receipt_id by {
            let a2 = if a < i { a } else { a + 1 };
            let c2 = if c < i { c } else { c + 1 };
            assert(n[a] == o[a2]);
            assert(n[c] == o[c2]);
        }
        assert forall|a: int, j: int|
            0 <= a < n.len() && 0 <= j < new.sealed@.len() implies (#[trigger] n[a]).open.receipt_id
                != (#[trigger] new.sealed@[j]).spec_receipt_id() by {
            let a2 = if a < i { a } else { a + 1 };
            assert(n[a] == o[a2]);
        }
        assert forall|j: int| 0 <= j < new.sealed@.len() implies (#[trigger] new.sealed@[j]).spec_receipt_id()
            != o[i].open.receipt_id by {
            assert(o[i] == old.active@[i]);
        }
    }
}

impl<P: ReceiptPersistence, const ACTIVE: usize, const SEALED: usize, const AUDIT: usize>
    ActionReceiptLedger<P, ACTIVE, SEALED, AUDIT> {
    #[verifier::spinoff_prover]
    #[verifier::rlimit(60)]
    fn append_to(&mut self, index: usize, event: ActionReceiptLifecycleEvent) -> (r: Result<
        AppendDisposition,
        ReceiptError,
    >)
        requires
            old(self).core_wf(),
            index < old(self).active@.len(),
            old(self).active@[index as int].open.receipt_id == event.spec_receipt_id(),
        ensures
            final(self).core_wf(),
            final(self).retention == old(self).retention,
            Self::append_effect(*old(self), *final(self), index as int, event, r),
            old(self).storage_infallible() ==> final(self).storage_infallible() && r != Err::<
                AppendDisposition,
                ReceiptError,
            >(ReceiptError::PersistenceFailure),
    {
        let answer = check_append(&self.active[index], &event);
        if let Some(res) = answer {
            match res {
                Ok(_) => self.audit_rejection(&event, ReceiptAuditEvent::DuplicateIgnored),
                Err(ReceiptError::TimelineFull) => {},
                Err(_) => self.audit_rejection(&event, ReceiptAuditEvent::MismatchedEventRejected),
            }
            return res;
        }
        let fragment = encode_event_fragment(&event);
        let stored = self.persistence.append_fragment(
            requester_domain(event.requester),
            event.session_id,
            event.receipt_id,
            fragment.as_slice(),
        );
        self.calls = Ghost(self.calls@.push(event_call(event, stored is Ok)));
        match stored {
            Ok(()) => {},
            Err(_) => return Err(ReceiptError::PersistenceFailure),
        }
        let ghost start = *self;
        let mut b = self.active.remove(index);
        let ghost b0 = b;
        let next = update_summaries(b.summaries, &event);
        b.summaries = next;
        b.timeline.push(event);
        proof {
            lemma_builder_push(b0, b, event);
        }
        self.audit.push(
            ReceiptAuditEntry {
                receipt_id: Some(event.receipt_id),
                coordinator_action_id: Some(event.coordinator_action_id),
                session_id: event.session_id,
                event: ReceiptAuditEvent::LifecycleEventAppended,
                public_reason: event.public_reason,
                timestamp: event.timestamp,
            },
        );
        match event.terminal_status {
            None => {
                self.active.insert(index, b);
                proof {
                    assert(self.active@ =~= start.active@.update(index as int, b));
                    Self::lemma_replace_active(start, *self, index as int, b);
                }
                Ok(AppendDisposition::Appended)
            },
            Some(status) => {
                let receipt = seal_builder(&b, status);
                proof {
                    assert(sealed_matches_builder(
                        receipt,
                        old(self).spec_active_open(index as int),
                        old(self).spec_active_timeline(index as int).push(event),
                        event.spec_terminal_status().unwrap(),
                    ));
                }
                let encoded = match receipt.encode_sealed() {
                    Ok(bytes) => bytes,
                    Err(err) => {
                        self.active.insert(index, b);
                        proof {
                            assert(self.active@ =~= start.active@.update(index as int, b));
                            Self::lemma_replace_active(start, *self, index as int, b);
                        }
                        return Err(err);
                    },
                };
                let sealed_stored = self.persistence.seal(
                    requester_domain(event.requester),
                    receipt.session_id,
                    receipt.receipt_id,
                    encoded.as_slice(),
                );
                self.calls = Ghost(self.calls@.push(seal_call(event, receipt, sealed_stored is Ok)));
                match sealed_stored {
                    Ok(()) => {},
                    Err(_) => {
                        self.active.insert(index, b);
                        proof {
                            assert(self.active@ =~= start.active@.update(index as int, b));
                            Self::lemma_replace_active(start, *self, index as int, b);
                        }
                        return Err(ReceiptError::PersistenceFailure);
                    },
                }
                proof {
                    Self::lemma_remove_active(start, *self, index as int);
                }
                match self.insert_sealed(receipt) {
                    Ok(()) => {},
                    Err(err) => {
                        return Err(err);
                    },
                }
                self.audit.push(
                    ReceiptAuditEntry {
                        receipt_id: Some(event.receipt_id),
                        coordinator_action_id: Some(event.coordinator_action_id),
                        session_id: event.session_id,
                        event: ReceiptAuditEvent::ReceiptSealed,
                        public_reason: event.public_reason,
                        timestamp: event.timestamp,
                    },
                );
                Ok(AppendDisposition::Sealed)
            },
        }
    }

    /// Appends a lifecycle event to the open receipt it names, sealing the
    /// receipt when the event is terminal.
    #[verifier::spinoff_prover]
    pub fn append(&mut self, event: ActionReceiptLifecycleEvent) -> (r: Result<AppendDisposition, ReceiptError>)
        requires
            old(self).wf(),
        ensures
            final(self).wf(),
            final(self).spec_retention() == old(self).spec_retention(),
            old(self).storage_infallible() ==> final(self).storage_infallible() && r != Err::<
                AppendDisposition,
                ReceiptError,
            >(ReceiptError::PersistenceFailure),
            !old(self).spec_is_active(event.spec_receipt_id()) ==> {
                &&& r == Err::<AppendDisposition, ReceiptError>(
                    not_open_error(old(self).spec_is_sealed(event.spec_receipt_id()), event),
                )
                &&& Self::active_unchanged(*old(self), *final(self))
                &&& final(self).spec_sealed() == old(self).spec_sealed()
                &&& final(self).spec_storage_calls() == old(self).spec_storage_calls()
                &&& final(self).spec_persistence() == old(self).spec_persistence()
                &&& final(self).spec_audit() == log_after_push(
                    old(self).spec_audit(),
                    AUDIT as nat,
                    rejection_entry(event, ReceiptAuditEvent::MismatchedEventRejected),
                )
            },
            forall|i: int|
                0 <= i < old(self).spec_active_len() && #[trigger] old(self).spec_active_id(i)
                    == event.spec_receipt_id() ==> Self::append_effect(*old(self), *final(self), i, event, r),
    {
        match self.find_active(event.receipt_id) {
            None => {
                let sealed = self.find_sealed(event.receipt_id);
                self.audit_rejection(&event, ReceiptAuditEvent::MismatchedEventRejected);
                if sealed {
                    if event.terminal_status.is_some() {
                        Err(ReceiptError::DuplicateTerminal)
                    } else {
                        Err(ReceiptError::AlreadySealed)
                    }
                } else {
                    Err(ReceiptError::ReceiptNotFound)
                }
            },
            Some(index) => {
                let r = self.append_to(index, event);
                proof {
                    assert(old(self).spec_active_id(index as int) == event.spec_receipt_id());
                    assert forall|i: int|
                        0 <= i < old(self).spec_active_len() && #[trigger] old(self).spec_active_id(i)
                            == event.spec_receipt_id() implies Self::append_effect(
                        *old(self),
                        *self,
                        i,
                        event,
                        r,
                    ) by {
                        if i != index as int {
                            assert(old(self).active@[i].open.receipt_id != old(
                                self,
                            ).active@[index as int].open.receipt_id);
                        }
                    }
                }
                r
            },
        }
    }
}

/// A locale selects Persian text when its tag begins with `fa`.
pub open spec fn is_persian_locale(locale: Seq<u8>) -> bool {
    locale.len() >= 2 && locale[0] == 102 && locale[1] == 97
}

fn persian_locale(locale: &str) -> (r: bool)
    ensures
        r == is_persian_locale(locale.spec_bytes()),
{
    let b = locale.as_bytes();
    b.len() >= 2 && b[0] == 102 && b[1] == 97
}

/// The view of an optional display key.
pub open spec fn key_view(key: Option<TargetDisplayKey>) -> Option<Seq<char>> {
    match key {
        Some(k) => Some(k@),
        None => None,
    }
}

pub open spec fn receipt_title_text(persian: bool) -> Seq<char> {
    if persian {
        "گزارش عملیات"@
    } else {
        "Action receipt"@
    }
}

pub open spec fn operation_label_text(operation: Option<ActionOperation>, persian: bool) -> Seq<char> {
    match operation {
        Some(ActionOperation::OpenApplication) => if persian {
            "باز کردن برنامه"@
        } else {
            "Open application"@
        },
        Some(ActionOperation::OpenSettingsPage) => if persian {
            "باز کردن تنظیمات"@
        } else {
            "Open settings"@
        },
        Some(_) => if persian {
            "عملیات سامانه"@
        } else {
            "System action"@
        },
        None => if persian {
            "عملیات"@
        } else {
            "Action"@
        },
    }
}

pub open spec fn target_label_text(key: Option<Seq<char>>, persian: bool) -> Seq<char> {
    match key {
        Some(k) => if k == "calculator"@ {
            if persian {
                "ماشین حساب"@
            } else {
                "Calculator"@
            }
        } else if k == "display-settings"@ {
            if persian {
                "تنظیمات نمایش"@
            } else {
                "Display Settings"@
            }
        } else if k == "network-settings"@ {
            if persian {
                "تنظیمات شبکه"@
            } else {
                "Network Settings"@
            }
        } else if persian {
            "هدف درخواست‌شده"@
        } else {
            "Requested target"@
        },
        None => if persian {
            "هدف نامشخص"@
        } else {
            "Unknown target"@
        },
    }
}

pub open spec fn terminal_label_text(status: ActionReceiptTerminalStatus, persian: bool) -> Seq<char> {
    match status {
        ActionReceiptTerminalStatus::CompletedReady => if persian {
            "آماده"@
        } else {
            "Ready"@
        },
        ActionReceiptTerminalStatus::DispatchAcceptedOnly => if persian {
            "اجرای برنامه پذیرفته شد"@
        } else {
            "Launch accepted"@
        },
        ActionReceiptTerminalStatus::Denied => if persian {
            "رد شد"@
        } else {
            "Denied"@
        },
        ActionReceiptTerminalStatus::Unsupported => if persian {
            "پشتیبانی نمی‌شود"@
        } else {
            "Unsupported"@
        },
        ActionReceiptTerminalStatus::Cancelled => if persian {
            "لغو شد"@
        } else {
            "Cancelled"@
        },
        ActionReceiptTerminalStatus::OutcomeTimedOut => if persian {
            "زمان انتظار پایان یافت"@
        } else {
            "Timed out"@
        },
        ActionReceiptTerminalStatus::DispatchFailed => if persian {
            "اجرا ناموفق بود"@
        } else {
            "Launch failed"@
        },
        _ => if persian {
            "با موفقیت کامل نشد"@
        } else {
            "Not completed successfully"@
        },
    }
}

pub open spec fn event_label_text(event: ReceiptLifecycleEventType, persian: bool) -> Seq<char> {
    match event {
        ReceiptLifecycleEventType::RequestAccepted => if persian {
            "درخواست تشخیص داده شد"@
        } else {
            "Request understood"@
        },
        ReceiptLifecycleEventType::PolicyAllowed => if persian {
            "سیاست اجازه داد"@
        } else {
            "Policy allowed"@
        },
        ReceiptLifecycleEventType::PolicyDenied => if persian {
            "سیاست اجازه نداد"@
        } else {
            "Policy denied"@
        },
        ReceiptLifecycleEventType::ConfirmationRequested => if persian {
            "تأیید درخواست شد"@
        } else {
            "Confirmation requested"@
        },
        ReceiptLifecycleEventType::ConfirmationApproved => if persian {
            "تأیید پذیرفته شد"@
        } else {
            "Confirmation approved"@
        },
        ReceiptLifecycleEventType::ReadyForExecutionProduced => if persian {
            "عملیات برای اجرای امن آماده شد"@
        } else {
            "Action prepared for trusted execution"@
        },
        ReceiptLifecycleEventType::DispatchAccepted => if persian {
            "اجرای برنامه پذیرفته شد"@
        } else {
            "Launch accepted"@
        },
        ReceiptLifecycleEventType::AwaitingOutcome => if persian {
            "در انتظار آماده‌شدن هدف"@
        } else {
            "Waiting for target readiness"@
        },
        ReceiptLifecycleEventType::TargetReady => if persian {
            "هدف آماده شد"@
        } else {
            "Target became ready"@
        },
        ReceiptLifecycleEventType::Completed => if persian {
            "عملیات کامل شد"@
        } else {
            "Action completed"@
        },
        _ => if persian {
            "روند عملیات به‌روزرسانی شد"@
        } else {
            "Action lifecycle updated"@
        },
    }
}

fn receipt_title(persian: bool) -> (r: String)
    ensures
        r@ == receipt_title_text(persian),
{
    if persian {
        "گزارش عملیات".to_owned()
    } else {
        "Action receipt".to_owned()
    }
}

fn operation_label(operation: Option<ActionOperation>, persian: bool) -> (r: String)
    ensures
        r@ == operation_label_text(operation, persian),
{
    match operation {
        Some(ActionOperation::OpenApplication) => if persian {
            "باز کردن برنامه".to_owned()
        } else {
            "Open application".to_owned()
        },
        Some(ActionOperation::OpenSettingsPage) => if persian {
            "باز کردن تنظیمات".to_owned()
        } else {
            "Open settings".to_owned()
        },
        Some(_) => if persian {
            "عملیات سامانه".to_owned()
        } else {
            "System action".to_owned()
        },
        None => if persian {
            "عملیات".to_owned()
        } else {
            "Action".to_owned()
        },
    }
}

fn target_label(key: &Option<TargetDisplayKey>, persian: bool) -> (r: String)
    ensures
        r@ == target_label_text(key_view(*key), persian),
{
    match key {
        Some(k) => {
            if k.0 == "calculator".to_owned() {
                if persian {
                    "ماشین حساب".to_owned()
                } else {
                    "Calculator".to_owned()
                }
            } else if k.0 == "display-settings".to_owned() {
                if persian {
                    "تنظیمات نمایش".to_owned()
                } else {
                    "Display Settings".to_owned()
                }
            } else if k.0 == "network-settings".to_owned() {
                if persian {
                    "تنظیمات شبکه".to_owned()
                } else {
                    "Network Settings".to_owned()
                }
            } else if persian {
                "هدف درخواست‌شده".to_owned()
            } else {
                "Requested target".to_owned()
            }
        },
        None => if persian {
            "هدف نامشخص".to_owned()
        } else {
            "Unknown target".to_owned()
        },
    }
}

fn terminal_label(status: ActionReceiptTerminalStatus, persian: bool) -> (r: String)
    ensures
        r@ == terminal_label_text(status, persian),
{
    match status {
        ActionReceiptTerminalStatus::CompletedReady => if persian {
            "آماده".to_owned()
        } else {
            "Ready".to_owned()
        },
        ActionReceiptTerminalStatus::DispatchAcceptedOnly => if persian {
            "اجرای برنامه پذیرفته شد".to_owned()
        } else {
            "Launch accepted".to_owned()
        },
        ActionReceiptTerminalStatus::Denied => if persian {
            "رد شد".to_owned()
        } else {
            "Denied".to_owned()
        },
        ActionReceiptTerminalStatus::Unsupported => if persian {
            "پشتیبانی نمی‌شود".to_owned()
        } else {
            "Unsupported".to_owned()
        },
        ActionReceiptTerminalStatus::Cancelled => if persian {
            "لغو شد".to_owned()
        } else {
            "Cancelled".to_owned()
        },
        ActionReceiptTerminalStatus::OutcomeTimedOut => if persian {
            "زمان انتظار پایان یافت".to_owned()
        } else {
            "Timed out".to_owned()
        },
        ActionReceiptTerminalStatus::DispatchFailed => if persian {
            "اجرا ناموفق بود".to_owned()
        } else {
            "Launch failed".to_owned()
        },
        _ => if persian {
            "با موفقیت کامل نشد".to_owned()
        } else {
            "Not completed successfully".to_owned()
        },
    }
}

fn event_label(event: ReceiptLifecycleEventType, persian: bool) -> (r: String)
    ensures
        r@ == event_label_text(event, persian),
{
    match event {
        ReceiptLifecycleEventType::RequestAccepted => if persian {
            "درخواست تشخیص داده شد".to_owned()
        } else {
            "Request understood".to_owned()
        },
        ReceiptLifecycleEventType::PolicyAllowed => if persian {
            "سیاست اجازه داد".to_owned()
        } else {
            "Policy allowed".to_owned()
        },
        ReceiptLifecycleEventType::PolicyDenied => if persian {
            "سیاست اجازه نداد".to_owned()
        } else {
            "Policy denied".to_owned()
        },
        ReceiptLifecycleEventType::ConfirmationRequested => if persian {
            "تأیید درخواست شد".to_owned()
        } else {
            "Confirmation requested".to_owned()
        },
        ReceiptLifecycleEventType::ConfirmationApproved => if persian {
            "تأیید پذیرفته شد".to_owned()
        } else {
            "Confirmation approved".to_owned()
        },
        ReceiptLifecycleEventType::ReadyForExecutionProduced => if persian {
            "عملیات برای اجرای امن آماده شد".to_owned()
        } else {
            "Action prepared for trusted execution".to_owned()
        },
        ReceiptLifecycleEventType::DispatchAccepted => if persian {
            "اجرای برنامه پذیرفته شد".to_owned()
        } else {
            "Launch accepted".to_owned()
        },
        ReceiptLifecycleEventType::AwaitingOutcome => if persian {
            "در انتظار آماده‌شدن هدف".to_owned()
        } else {
            "Waiting for target readiness".to_owned()
        },
        ReceiptLifecycleEventType::TargetReady => if persian {
            "هدف آماده شد".to_owned()
        } else {
            "Target became ready".to_owned()
        },
        ReceiptLifecycleEventType::Completed => if persian {
            "عملیات کامل شد".to_owned()
        } else {
            "Action completed".to_owned()
        },
        _ => if persian {
            "روند عملیات به‌روزرسانی شد".to_owned()
        } else {
            "Action lifecycle updated".to_owned()
        },
    }
}

/// What a pending receipt is waiting for, by its last event.
#[derive(Debug, Clone, Copy, PartialEq, Eq, Structural)]
pub enum PendingReceiptState {
    AwaitingClarification,
    AwaitingConfirmation,
    Dispatching,
    AwaitingOutcome,
}

/// A redacted, localized view of an open receipt.
#[derive(Debug, Clone, PartialEq, Eq)]
pub struct PendingActionReceiptView {
    pub receipt_id: ActionReceiptId,
    pub state: PendingReceiptState,
    pub operation_label: String,
    pub target_label: String,
    pub start_time: u64,
}

/// A redacted, localized view of a sealed receipt.
#[derive(Debug, Clone, PartialEq, Eq)]
pub struct ActionReceiptView {
    pub receipt_id: ActionReceiptId,
    pub localized_title: String,
    pub operation_display_label: String,
    pub target_display_label: String,
    pub terminal_status_label: String,
    pub start_time: u64,
    pub completion_time: u64,
    pub lifecycle_steps: Vec<String>,
    pub public_reason: PublicReasonCode,
    pub confirmation_occurred: bool,
    pub readiness_observed: bool,
}

#[derive(Debug, Clone, PartialEq, Eq)]
pub enum ReceiptQueryResult {
    Sealed(Vec<ActionReceiptView>),
    Pending(PendingActionReceiptView),
    NotFound,
    ReceiptUnavailable,
    ReceiptIntegrityFailure,
}

#[derive(Debug, Clone, PartialEq, Eq)]
pub struct ReceiptConversationAnswer {
    pub view: Option<ActionReceiptView>,
    pub readiness: ReceiptReadinessAnswer,
}

/// The state of an open receipt with this timeline.
pub open spec fn pending_state_of(tl: Seq<ActionReceiptLifecycleEvent>) -> PendingReceiptState {
    if tl.len() == 0 {
        PendingReceiptState::Dispatching
    } else {
        match tl.last().spec_event_type() {
            ReceiptLifecycleEventType::ClarificationRequested => PendingReceiptState::AwaitingClarification,
            ReceiptLifecycleEventType::ConfirmationRequested => PendingReceiptState::AwaitingConfirmation,
            ReceiptLifecycleEventType::DispatchAccepted => PendingReceiptState::AwaitingOutcome,
            ReceiptLifecycleEventType::AwaitingOutcome => PendingReceiptState::AwaitingOutcome,
            _ => PendingReceiptState::Dispatching,
        }
    }
}

/// The view of an open receipt, in the chosen language.
pub open spec fn pending_view_matches(
    v: PendingActionReceiptView,
    open: ReceiptOpen,
    tl: Seq<ActionReceiptLifecycleEvent>,
    persian: bool,
) -> bool {
    &&& v.receipt_id == open.receipt_id
    &&& v.state == pending_state_of(tl)
    &&& v.operation_label@ == operation_label_text(open.operation, persian)
    &&& v.target_label@ == target_label_text(key_view(open.target_display_key), persian)
    &&& v.start_time == open.request_timestamp
}

/// The view of a sealed receipt, in the chosen language: what happened, and
/// whether readiness was observed (not merely dispatched).
pub open spec fn receipt_view_matches(v: ActionReceiptView, r: ActionReceipt, persian: bool) -> bool {
    &&& v.receipt_id == r.spec_receipt_id()
    &&& v.localized_title@ == receipt_title_text(persian)
    &&& v.operation_display_label@ == operation_label_text(r.spec_operation(), persian)
    &&& v.target_display_label@ == target_label_text(r.spec_target_display_key(), persian)
    &&& v.terminal_status_label@ == terminal_label_text(r.spec_terminal_status(), persian)
    &&& v.start_time == r.spec_request_timestamp()
    &&& v.completion_time == r.spec_terminal_timestamp()
    &&& v.lifecycle_steps@.len() == r.spec_timeline().len()
    &&& forall|k: int|
        0 <= k < r.spec_timeline().len() ==> (#[trigger] v.lifecycle_steps@[k])@ == event_label_text(
            r.spec_timeline()[k].spec_event_type(),
            persian,
        )
    &&& v.public_reason == (if r.spec_timeline().len() > 0 {
        r.spec_timeline().last().spec_public_reason()
    } else {
        PublicReasonCode::Unknown
    })
    &&& v.confirmation_occurred == !(r.spec_confirmation().outcome is NotRequired)
    &&& v.readiness_observed == (r.spec_observed_outcome().outcome is Ready)
}

fn pending_view(builder: &ReceiptBuilder, persian: bool) -> (v: PendingActionReceiptView)
    ensures
        pending_view_matches(v, builder.open, builder.timeline@, persian),
{
    let n = builder.timeline.len();
    let state = if n == 0 {
        PendingReceiptState::Dispatching
    } else {
        match builder.timeline[n - 1].event_type {
            ReceiptLifecycleEventType::ClarificationRequested => PendingReceiptState::AwaitingClarification,
            ReceiptLifecycleEventType::ConfirmationRequested => PendingReceiptState::AwaitingConfirmation,
            ReceiptLifecycleEventType::DispatchAccepted => PendingReceiptState::AwaitingOutcome,
            ReceiptLifecycleEventType::AwaitingOutcome => PendingReceiptState::AwaitingOutcome,
            _ => PendingReceiptState::Dispatching,
        }
    };
    PendingActionReceiptView {
        receipt_id: builder.open.receipt_id,
        state,
        operation_label: operation_label(builder.open.operation, persian),
        target_label: target_label(&builder.open.target_display_key, persian),
        start_time: builder.open.request_timestamp,
    }
}

/// The view of a receipt that passes its integrity check; nothing for one
/// that fails it.
pub fn present_verified(receipt: &ActionReceipt, persian: bool) -> (r: Option<ActionReceiptView>)
    ensures
        r is None <==> !receipt.spec_integrity_holds(),
        r matches Some(v) ==> receipt_view_matches(v, *receipt, persian),
{
    if !receipt.verify_integrity() {
        return None;
    }
    Some(presentation_view(receipt, persian))
}

fn presentation_view(receipt: &ActionReceipt, persian: bool) -> (v: ActionReceiptView)
    ensures
        receipt_view_matches(v, *receipt, persian),
{
    let mut steps: Vec<String> = Vec::new();
    let mut i: usize = 0;
    while i < receipt.timeline.len()
        invariant
            0 <= i <= receipt.timeline@.len(),
            steps@.len() == i,
            forall|k: int| 0 <= k < i ==> (#[trigger] steps@[k])@ == event_label_text(
                receipt.timeline@[k].spec_event_type(),
                persian,
            ),
        decreases receipt.timeline@.len() - i,
    {
        steps.push(event_label(receipt.timeline[i].event_type, persian));
        i = i + 1;
    }
    let n = receipt.timeline.len();
    let public_reason = if n > 0 {
        receipt.timeline[n - 1].public_reason
    } else {
        PublicReasonCode::Unknown
    };
    let confirmation_occurred = match receipt.confirmation.outcome {
        ConfirmationReceiptOutcome::NotRequired => false,
        _ => true,
    };
    let readiness_observed = match receipt.observed_outcome.outcome {
        ObservedReceiptOutcome::Ready => true,
        _ => false,
    };
    ActionReceiptView {
        receipt_id: receipt.receipt_id,
        localized_title: receipt_title(persian),
        operation_display_label: operation_label(receipt.operation, persian),
        target_display_label: target_label(&receipt.target_display_key, persian),
        terminal_status_label: terminal_label(receipt.terminal_status, persian),
        start_time: receipt.request_timestamp,
        completion_time: receipt.terminal_timestamp,
        lifecycle_steps: steps,
        public_reason,
        confirmation_occurred,
        readiness_observed,
    }
}

/// Whether a sealed receipt answers a query: it belongs to the asking
/// requester and session, and is of the asked kind.
pub open spec fn query_matches(r: ActionReceipt, q: ReceiptQuery) -> bool {
    &&& r.spec_session_id() == q.active_session
    &&& r.spec_requester() == q.requester
    &&& match q.kind {
        ReceiptQueryKind::Latest => true,
        ReceiptQueryKind::RecentLimited => true,
        ReceiptQueryKind::LatestCompleted => r.spec_terminal_status().spec_is_success(),
        ReceiptQueryKind::ByReceiptId(id) => r.spec_receipt_id() == id,
        ReceiptQueryKind::LastFailure => !r.spec_terminal_status().spec_is_success(),
        ReceiptQueryKind::PendingCurrentAction => false,
    }
}

/// The receipts of `s` from index `j` on that answer `q`, newest first.
pub open spec fn newest_matches(s: Seq<ActionReceipt>, q: ReceiptQuery, j: int) -> Seq<ActionReceipt>
    decreases s.len() - j,
{
    if j < 0 || j >= s.len() {
        Seq::<ActionReceipt>::empty()
    } else if query_matches(s[j], q) {
        newest_matches(s, q, j + 1).push(s[j])
    } else {
        newest_matches(s, q, j + 1)
    }
}

/// A receipt of the query's requester and session that ended in neither a
/// ready completion nor an accepted dispatch.
pub open spec fn caller_failure(r: ActionReceipt, q: ReceiptQuery) -> bool {
    &&& r.spec_requester() == q.requester
    &&& r.spec_session_id() == q.active_session
    &&& r.spec_terminal_status() != ActionReceiptTerminalStatus::CompletedReady
    &&& r.spec_terminal_status() != ActionReceiptTerminalStatus::DispatchAcceptedOnly
}

proof fn lemma_newest_matches_members(s: Seq<ActionReceipt>, q: ReceiptQuery, j: int)
    requires
        0 <= j <= s.len(),
    ensures
        forall|k: int|
            0 <= k < newest_matches(s, q, j).len() ==> query_matches(#[trigger] newest_matches(s, q, j)[k], q)
                && exists|i: int| j <= i < s.len() && s[i] == newest_matches(s, q, j)[k],
        forall|i: int| j <= i < s.len() && #[trigger] query_matches(s[i], q) ==> newest_matches(s, q, j).len() > 0,
        newest_matches(s, q, j).len() > 0 ==> exists|m: int|
            j <= m < s.len() && newest_matches(s, q, j)[0] == s[m] && forall|t: int|
                m < t < s.len() ==> !#[trigger] query_matches(s[t], q),
    decreases s.len() - j,
{
    if j < s.len() {
        lemma_newest_matches_members(s, q, j + 1);
        let rest = newest_matches(s, q, j + 1);
        let nm = newest_matches(s, q, j);
        if query_matches(s[j], q) {
            assert(nm == rest.push(s[j]));
            assert forall|k: int| 0 <= k < nm.len() implies query_matches(#[trigger] nm[k], q) && exists|i: int|
                j <= i < s.len() && s[i] == nm[k] by {
                if k < rest.len() {
                    assert(nm[k] == rest[k]);
                    let i = choose|i: int| j + 1 <= i < s.len() && s[i] == rest[k];
                    assert(s[i] == nm[k]);
                } else {
                    assert(nm[k] == s[j]);
                }
            }
            if rest.len() > 0 {
                let m = choose|m: int| j + 1 <= m < s.len() && rest[0] == s[m] && forall|t: int|
                    m < t < s.len() ==> !#[trigger] query_matches(s[t], q);
                assert(nm[0] == s[m]);
            } else {
                assert(nm[0] == s[j]);
                assert forall|t: int| j < t < s.len() implies !#[trigger] query_matches(s[t], q) by {}
            }
        } else {
            assert(nm == rest);
            assert forall|k: int| 0 <= k < nm.len() implies query_matches(#[trigger] nm[k], q) && exists|i: int|
                j <= i < s.len() && s[i] == nm[k] by {
                let i = choose|i: int| j + 1 <= i < s.len() && s[i] == rest[k];
                assert(s[i] == nm[k]);
            }
            if rest.len() > 0 {
                let m = choose|m: int| j + 1 <= m < s.len() && rest[0] == s[m] && forall|t: int|
                    m < t < s.len() ==> !#[trigger] query_matches(s[t], q);
                assert(nm[0] == s[m]);
            }
        }
    }
}

/// A last-failure query answers with the caller's receipts that did not
/// succeed: a receipt answers it exactly when it belongs to the query's
/// requester and session and ended in neither a ready completion nor an
/// accepted dispatch; every receipt it selects is such a failure from the
/// ledger; and when the ledger holds one, the query selects the newest.
pub proof fn lemma_last_failure_selects_failures(s: Seq<ActionReceipt>, q: ReceiptQuery)
    requires
        q.kind == ReceiptQueryKind::LastFailure,
    ensures
        forall|r: ActionReceipt| #[trigger] query_matches(r, q) <==> caller_failure(r, q),
        forall|k: int|
            0 <= k < query_selection(s, q).len() ==> caller_failure(#[trigger] query_selection(s, q)[k], q)
                && s.contains(query_selection(s, q)[k]),
        q.maximum_results > 0 && (exists|i: int| 0 <= i < s.len() && #[trigger] caller_failure(s[i], q)) ==> {
            &&& query_selection(s, q).len() > 0
            &&& exists|m: int|
                0 <= m < s.len() && query_selection(s, q)[0] == s[m] && forall|t: int|
                    m < t < s.len() ==> !#[trigger] caller_failure(s[t], q)
        },
{
    lemma_newest_matches_members(s, q, 0);
    let nm = newest_matches(s, q, 0);
    let sel = query_selection(s, q);
    assert forall|k: int| 0 <= k < sel.len() implies caller_failure(#[trigger] sel[k], q) && s.contains(sel[k]) by {
        assert(sel[k] == nm[k]);
        assert(query_matches(nm[k], q));
        let i = choose|i: int| 0 <= i < s.len() && s[i] == nm[k];
        assert(s[i] == sel[k]);
    }
    if q.maximum_results > 0 && (exists|i: int| 0 <= i < s.len() && #[trigger] caller_failure(s[i], q)) {
        let i = choose|i: int| 0 <= i < s.len() && #[trigger] caller_failure(s[i], q);
        assert(query_matches(s[i], q));
        assert(nm.len() > 0);
        assert(sel[0] == nm[0]);
        let m = choose|m: int| 0 <= m < s.len() && nm[0] == s[m] && forall|t: int|
            m < t < s.len() ==> !#[trigger] query_matches(s[t], q);
        assert forall|t: int| m < t < s.len() implies !#[trigger] caller_failure(s[t], q) by {
            assert(!query_matches(s[t], q));
        }
    }
}

/// Which sealed receipts answer a query: only those of the query's
/// requester and session; of these, every one for a latest or recent query,
/// those that succeeded (completed ready, or dispatch accepted) for a
/// latest-completed query, the one carrying the named id for a by-id query,
/// those that did not succeed for a last-failure query, and none for a
/// pending query, which looks at open receipts instead.
pub proof fn lemma_query_kinds_select(r: ActionReceipt, q: ReceiptQuery)
    ensures
        query_matches(r, q) ==> r.spec_requester() == q.requester && r.spec_session_id() == q.active_session,
        r.spec_requester() == q.requester && r.spec_session_id() == q.active_session ==> {
            let succeeded = r.spec_terminal_status() == ActionReceiptTerminalStatus::CompletedReady
                || r.spec_terminal_status() == ActionReceiptTerminalStatus::DispatchAcceptedOnly;
            &&& q.kind == ReceiptQueryKind::Latest ==> query_matches(r, q)
            &&& q.kind == ReceiptQueryKind::RecentLimited ==> query_matches(r, q)
            &&& q.kind == ReceiptQueryKind::LatestCompleted ==> (query_matches(r, q) <==> succeeded)
            &&& q.kind == ReceiptQueryKind::LastFailure ==> (query_matches(r, q) <==> !succeeded)
            &&& q.kind == ReceiptQueryKind::PendingCurrentAction ==> !query_matches(r, q)
            &&& q.kind matches ReceiptQueryKind::ByReceiptId(id) ==> (query_matches(r, q) <==> r.spec_receipt_id() == id)
        },
{
}

/// What a query selects from the sealed receipts: those that answer it,
/// newest first, at most its bound.
pub open spec fn query_selection(s: Seq<ActionReceipt>, q: ReceiptQuery) -> Seq<ActionReceipt> {
    let m = newest_matches(s, q, 0);
    if m.len() <= q.maximum_results {
        m
    } else {
        m.take(q.maximum_results as int)
    }
}

/// Matches found from a later index are a prefix of those found from an earlier one.
proof fn lemma_newest_matches_prefix(s: Seq<ActionReceipt>, q: ReceiptQuery, i: int, j: int)
    requires
        0 <= i <= j <= s.len(),
    ensures
        newest_matches(s, q, j).len() <= newest_matches(s, q, i).len(),
        forall|k: int|
            0 <= k < newest_matches(s, q, j).len() ==> newest_matches(s, q, i)[k] == newest_matches(
                s,
                q,
                j,
            )[k],
    decreases j - i,
{
    if i < j {
        lemma_newest_matches_prefix(s, q, i + 1, j);
    }
}

/// The log after a series of pushes.
pub open spec fn log_after_pushes<T>(entries: Seq<T>, capacity: nat, pushed: Seq<T>) -> Seq<T>
    decreases pushed.len(),
{
    if pushed.len() == 0 {
        entries
    } else {
        log_after_push(log_after_pushes(entries, capacity, pushed.drop_last()), capacity, pushed.last())
    }
}

/// The audit entry of a query decision.
pub open spec fn query_entry(q: ReceiptQuery, kind: ReceiptAuditEvent, reason: PublicReasonCode) -> ReceiptAuditEntry {
    ReceiptAuditEntry {
        receipt_id: match q.kind {
            ReceiptQueryKind::ByReceiptId(id) => Some(id),
            _ => None,
        },
        coordinator_action_id: None,
        session_id: q.active_session,
        event: kind,
        public_reason: reason,
        timestamp: 0,
    }
}

/// The audit entry recorded when a receipt shown to a query verified.
pub open spec fn verified_entry(r: ActionReceipt) -> ReceiptAuditEntry {
    ReceiptAuditEntry {
        receipt_id: Some(r.spec_receipt_id()),
        coordinator_action_id: Some(r.spec_coordinator_action_id()),
        session_id: r.spec_session_id(),
        event: ReceiptAuditEvent::IntegrityVerified,
        public_reason: if r.spec_timeline().len() > 0 {
            r.spec_timeline().last().spec_public_reason()
        } else {
            PublicReasonCode::Unknown
        },
        timestamp: r.spec_terminal_timestamp(),
    }
}

pub open spec fn verified_entries(sel: Seq<ActionReceipt>) -> Seq<ReceiptAuditEntry> {
    Seq::new(sel.len(), |k: int| verified_entry(sel[k]))
}

/// The answer to "did it open?": readiness as the outcome observer saw it.
pub open spec fn readiness_answer(question: ReceiptConversationQuestion, r: ActionReceipt) -> ReceiptReadinessAnswer {
    if question is DidItOpen {
        if r.spec_observed_outcome().outcome is Ready {
            ReceiptReadinessAnswer::Ready
        } else {
            ReceiptReadinessAnswer::NotReady
        }
    } else {
        ReceiptReadinessAnswer::Unknown
    }
}

/// The query of the latest receipt of a requester in a session.
pub open spec fn latest_query(requester: RequestedBy, session_id: SessionId) -> ReceiptQuery {
    ReceiptQuery { requester, active_session: session_id, maximum_results: 1, kind: ReceiptQueryKind::Latest }
}

fn receipt_matches_query(r: &ActionReceipt, q: &ReceiptQuery) -> (b: bool)
    ensures
        b == query_matches(*r, *q),
{
    if r.session_id != q.active_session || r.requester != q.requester {
        return false;
    }
    match q.kind {
        ReceiptQueryKind::Latest => true,
        ReceiptQueryKind::RecentLimited => true,
        ReceiptQueryKind::LatestCompleted => r.terminal_status.is_success(),
        ReceiptQueryKind::ByReceiptId(id) => receipt_id_eq(r.receipt_id, id),
        ReceiptQueryKind::LastFailure => !r.terminal_status.is_success(),
        ReceiptQueryKind::PendingCurrentAction => false,
    }
}

impl<P: ReceiptPersistence, const ACTIVE: usize, const SEALED: usize, const AUDIT: usize>
    ActionReceiptLedger<P, ACTIVE, SEALED, AUDIT> {
    /// The newest open receipt below index `j` that belongs to the query's
    /// requester and session.
    pub open spec fn pending_index_below(&self, q: ReceiptQuery, j: int) -> Option<int>
        decreases j,
    {
        if j <= 0 {
            None
        } else if self.spec_active_open(j - 1).session_id == q.active_session && self.spec_active_open(
            j - 1,
        ).requester == q.requester {
            Some(j - 1)
        } else {
            self.pending_index_below(q, j - 1)
        }
    }

    /// The answer to a bounded query, on this ledger.
    pub open spec fn query_answer(&self, q: ReceiptQuery, persian: bool, res: ReceiptQueryResult) -> bool {
        if q.kind is PendingCurrentAction {
            match self.pending_index_below(q, self.spec_active_len() as int) {
                None => res is NotFound,
                Some(i) => res matches ReceiptQueryResult::Pending(v) && pending_view_matches(
                    v,
                    self.spec_active_open(i),
                    self.spec_active_timeline(i),
                    persian,
                ),
            }
        } else {
            let sel = query_selection(self.spec_sealed(), q);
            if sel.len() == 0 {
                res is NotFound
            } else {
                res matches ReceiptQueryResult::Sealed(views) && views@.len() == sel.len() && forall|k: int|
                    0 <= k < sel.len() ==> receipt_view_matches(#[trigger] views@[k], sel[k], persian)
            }
        }
    }

    /// The audit log after a bounded query is answered.
    pub open spec fn query_audit(&self, q: ReceiptQuery) -> Seq<ReceiptAuditEntry> {
        let allowed = query_entry(q, ReceiptAuditEvent::QueryAllowed, PublicReasonCode::NoReason);
        if q.kind is PendingCurrentAction {
            log_after_push(self.spec_audit(), AUDIT as nat, allowed)
        } else {
            let sel = query_selection(self.spec_sealed(), q);
            log_after_pushes(self.spec_audit(), AUDIT as nat, verified_entries(sel).push(allowed))
        }
    }

    fn audit_query(&mut self, query: &ReceiptQuery, event: ReceiptAuditEvent, reason: PublicReasonCode)
        requires
            old(self).core_wf(),
        ensures
            final(self).core_wf(),
            final(self).active == old(self).active,
            final(self).sealed == old(self).sealed,
            final(self).retention == old(self).retention,
            final(self).persistence == old(self).persistence,
            final(self).calls == old(self).calls,
            final(self).spec_audit() == log_after_push(
                old(self).spec_audit(),
                AUDIT as nat,
                query_entry(*query, event, reason),
            ),
    {
        let receipt_id = match query.kind {
            ReceiptQueryKind::ByReceiptId(id) => Some(id),
            _ => None,
        };
        self.audit.push(
            ReceiptAuditEntry {
                receipt_id,
                coordinator_action_id: None,
                session_id: query.active_session,
                event,
                public_reason: reason,
                timestamp: 0,
            },
        );
    }

    fn find_pending(&self, q: &ReceiptQuery) -> (r: Option<usize>)
        ensures
            r is None <==> self.pending_index_below(*q, self.spec_active_len() as int) is None,
            r matches Some(i) ==> i < self.active@.len() && self.pending_index_below(
                *q,
                self.spec_active_len() as int,
            ) == Some(i as int),
    {
        let n = self.active.len();
        let mut j: usize = n;
        while j > 0 && !(self.active[j - 1].open.session_id == q.active_session && self.active[j
            - 1].open.requester == q.requester)
            invariant
                n == self.active@.len(),
                j <= n,
                self.pending_index_below(*q, n as int) == self.pending_index_below(*q, j as int),
            decreases j,
        {
            j = j - 1;
        }
        if j == 0 {
            None
        } else {
            Some(j - 1)
        }
    }

    /// Indices of the sealed receipts a query selects, newest first.
    fn select_sealed(&self, q: &ReceiptQuery) -> (idx: Vec<usize>)
        requires
            query_is_bounded(*q),
        ensures
            idx@.len() == query_selection(self.spec_sealed(), *q).len(),
            forall|k: int|
                0 <= k < idx@.len() ==> idx@[k] < self.sealed@.len() && self.sealed@[#[trigger] idx@[k] as int]
                    == query_selection(self.spec_sealed(), *q)[k],
    {
        let ghost s = self.sealed@;
        let max = q.maximum_results as usize;
        let mut idx: Vec<usize> = Vec::new();
        let mut j: usize = self.sealed.len();
        while j > 0 && idx.len() < max
            invariant
                s == self.sealed@,
                max == q.maximum_results,
                j <= s.len(),
                idx@.len() <= max,
                idx@.len() == newest_matches(s, *q, j as int).len(),
                forall|k: int|
                    0 <= k < idx@.len() ==> idx@[k] < s.len() && s[#[trigger] idx@[k] as int] == newest_matches(
                        s,
                        *q,
                        j as int,
                    )[k],
            decreases j,
        {
            j = j - 1;
            if receipt_matches_query(&self.sealed[j], q) {
                idx.push(j);
            }
        }
        proof {
            let m = newest_matches(s, *q, 0);
            lemma_newest_matches_prefix(s, *q, 0, j as int);
            if j > 0 {
                assert(idx@.len() == max);
                if m.len() <= max {
                    assert(m =~= newest_matches(s, *q, j as int));
                }
            }
        }
        idx
    }

    /// Answers a bounded receipt query from one requester in one session,
    /// in the locale's language; only that requester's receipts of that
    /// session are ever shown.
    #[verifier::spinoff_prover]
    #[verifier::rlimit(40)]
    pub fn query(&mut self, query: ReceiptQuery, locale: &str) -> (r: Result<ReceiptQueryResult, ReceiptError>)
        requires
            old(self).wf(),
        ensures
            final(self).wf(),
            Self::active_unchanged(*old(self), *final(self)),
            final(self).spec_sealed() == old(self).spec_sealed(),
            final(self).spec_retention() == old(self).spec_retention(),
            final(self).spec_persistence() == old(self).spec_persistence(),
            final(self).storage_infallible() == old(self).storage_infallible(),
            final(self).spec_storage_calls() == old(self).spec_storage_calls(),
            !query_is_bounded(query) ==> r == Err::<ReceiptQueryResult, ReceiptError>(ReceiptError::UnboundedQuery)
                && final(self).spec_audit() == log_after_push(
                old(self).spec_audit(),
                AUDIT as nat,
                (ReceiptAuditEntry {
                    receipt_id: None,
                    coordinator_action_id: None,
                    session_id: query.active_session,
                    event: ReceiptAuditEvent::QueryDenied,
                    public_reason: PublicReasonCode::InvalidInput,
                    timestamp: 0,
                }),
            ),
            query_is_bounded(query) ==> (r matches Ok(res) && old(self).query_answer(
                query,
                is_persian_locale(locale.spec_bytes()),
                res,
            ) && final(self).spec_audit() == old(self).query_audit(query)),
    {
        let query = match query.validate() {
            Ok(q) => q,
            Err(error) => {
                self.audit.push(
                    ReceiptAuditEntry {
                        receipt_id: None,
                        coordinator_action_id: None,
                        session_id: query.active_session,
                        event: ReceiptAuditEvent::QueryDenied,
                        public_reason: PublicReasonCode::InvalidInput,
                        timestamp: 0,
                    },
                );
                return Err(error);
            },
        };
        let persian = persian_locale(locale);
        if let ReceiptQueryKind::PendingCurrentAction = query.kind {
            let found = self.find_pending(&query);
            let result = match found {
                None => ReceiptQueryResult::NotFound,
                Some(i) => ReceiptQueryResult::Pending(pending_view(&self.active[i], persian)),
            };
            self.audit_query(&query, ReceiptAuditEvent::QueryAllowed, PublicReasonCode::NoReason);
            return Ok(result);
        }
        let idx = self.select_sealed(&query);
        let ghost sel = query_selection(self.spec_sealed(), query);
        let ghost audit0 = self.spec_audit();
        if idx.len() == 0 {
            self.audit_query(&query, ReceiptAuditEvent::QueryAllowed, PublicReasonCode::NoReason);
            proof {
                assert(verified_entries(sel).push(
                    query_entry(query, ReceiptAuditEvent::QueryAllowed, PublicReasonCode::NoReason),
                ).drop_last() =~= Seq::<ReceiptAuditEntry>::empty());
                assert(log_after_pushes(audit0, AUDIT as nat, Seq::<ReceiptAuditEntry>::empty()) == audit0);
            }
            return Ok(ReceiptQueryResult::NotFound);
        }
        let mut views: Vec<ActionReceiptView> = Vec::new();
        let mut k: usize = 0;
        proof {
            assert(verified_entries(sel).take(0) =~= Seq::<ReceiptAuditEntry>::empty());
            assert(log_after_pushes(audit0, AUDIT as nat, Seq::<ReceiptAuditEntry>::empty()) == audit0);
        }
        while k < idx.len()
            invariant
                self.core_wf(),
                self.active == old(self).active,
                self.sealed == old(self).sealed,
                self.retention == old(self).retention,
                self.persistence == old(self).persistence,
                self.calls == old(self).calls,
                sel == query_selection(self.spec_sealed(), query),
                idx@.len() == sel.len(),
                forall|t: int| 0 <= t < idx@.len() ==> idx@[t] < self.sealed@.len() && self.sealed@[#[trigger] idx@[t] as int] == sel[t],
                0 <= k <= idx@.len(),
                views@.len() == k,
                forall|t: int| 0 <= t < k ==> receipt_view_matches(#[trigger] views@[t], sel[t], persian),
                self.spec_audit() == log_after_pushes(audit0, AUDIT as nat, verified_entries(sel).take(k as int)),
            decreases idx@.len() - k,
        {
            let at = idx[k];
            let receipt = &self.sealed[at];
            proof {
                assert(sealed_wf(self.sealed@[at as int]));
            }
            let shown = present_verified(receipt, persian);
            if shown.is_none() {
                self.audit.push(
                    ReceiptAuditEntry {
                        receipt_id: Some(receipt.receipt_id),
                        coordinator_action_id: Some(receipt.coordinator_action_id),
                        session_id: receipt.session_id,
                        event: ReceiptAuditEvent::IntegrityFailure,
                        public_reason: PublicReasonCode::Unknown,
                        timestamp: receipt.terminal_timestamp,
                    },
                );
                return Ok(ReceiptQueryResult::ReceiptIntegrityFailure);
            }
            let view = match shown {
                Some(v) => v,
                None => {
                    return Ok(ReceiptQueryResult::ReceiptIntegrityFailure);
                },
            };
            views.push(view);
            let n = receipt.timeline.len();
            let reason = if n > 0 {
                receipt.timeline[n - 1].public_reason
            } else {
                PublicReasonCode::Unknown
            };
            let entry = ReceiptAuditEntry {
                receipt_id: Some(receipt.receipt_id),
                coordinator_action_id: Some(receipt.coordinator_action_id),
                session_id: receipt.session_id,
                event: ReceiptAuditEvent::IntegrityVerified,
                public_reason: reason,
                timestamp: receipt.terminal_timestamp,
            };
            proof {
                assert(entry == verified_entry(sel[k as int]));
                assert(verified_entries(sel).take(k as int + 1).drop_last() =~= verified_entries(sel).take(
                    k as int,
                ));
            }
            self.audit.push(entry);
            k = k + 1;
        }
        self.audit_query(&query, ReceiptAuditEvent::QueryAllowed, PublicReasonCode::NoReason);
        proof {
            let pushed = verified_entries(sel).push(
                query_entry(query, ReceiptAuditEvent::QueryAllowed, PublicReasonCode::NoReason),
            );
            assert(pushed.drop_last() =~= verified_entries(sel).take(k as int));
        }
        Ok(ReceiptQueryResult::Sealed(views))
    }

    /// Answers "what did you do?" or "did it open?" about the latest action
    /// of a requester in a session; readiness is what the outcome observer
    /// recorded, never what dispatch claimed.
    pub fn answer_conversation_query(
        &mut self,
        requester: RequestedBy,
        session_id: SessionId,
        question: ReceiptConversationQuestion,
        locale: &str,
    ) -> (r: Result<ReceiptConversationAnswer, ReceiptError>)
        requires
            old(self).wf(),
        ensures
            final(self).wf(),
            Self::active_unchanged(*old(self), *final(self)),
            final(self).spec_sealed() == old(self).spec_sealed(),
            final(self).spec_retention() == old(self).spec_retention(),
            final(self).spec_persistence() == old(self).spec_persistence(),
            final(self).storage_infallible() == old(self).storage_infallible(),
            final(self).spec_storage_calls() == old(self).spec_storage_calls(),
            final(self).spec_audit() == old(self).query_audit(latest_query(requester, session_id)),
            r matches Ok(a) && {
                let sel = query_selection(old(self).spec_sealed(), latest_query(requester, session_id));
                &&& sel.len() == 0 ==> a.view is None && a.readiness == ReceiptReadinessAnswer::Unknown
                &&& sel.len() > 0 ==> (a.view matches Some(v) && receipt_view_matches(
                    v,
                    sel[0],
                    is_persian_locale(locale.spec_bytes()),
                ) && a.readiness == readiness_answer(question, sel[0]))
            },
    {
        let q = ReceiptQuery {
            requester,
            active_session: session_id,
            maximum_results: 1,
            kind: ReceiptQueryKind::Latest,
        };
        let result = match self.query(q, locale) {
            Ok(res) => res,
            Err(e) => return Err(e),
        };
        match result {
            ReceiptQueryResult::Sealed(mut views) => {
                let view = views.pop();
                let readiness = match question {
                    ReceiptConversationQuestion::DidItOpen => match &view {
                        Some(v) => if v.readiness_observed {
                            ReceiptReadinessAnswer::Ready
                        } else {
                            ReceiptReadinessAnswer::NotReady
                        },
                        None => ReceiptReadinessAnswer::Unknown,
                    },
                    ReceiptConversationQuestion::WhatDidYouDo => ReceiptReadinessAnswer::Unknown,
                };
                Ok(ReceiptConversationAnswer { view, readiness })
            },
            ReceiptQueryResult::Pending(_) => Ok(
                ReceiptConversationAnswer { view: None, readiness: ReceiptReadinessAnswer::Pending },
            ),
            _ => Ok(ReceiptConversationAnswer { view: None, readiness: ReceiptReadinessAnswer::Unknown }),
        }
    }
}

impl<const ACTIVE: usize, const SEALED: usize, const AUDIT: usize> ActionReceiptLedger<
    VolatileReceiptPersistence,
    ACTIVE,
    SEALED,
    AUDIT,
> {
    /// A ledger that keeps its receipts in memory only.
    pub fn volatile(retention: ReceiptRetentionPolicy) -> (l: Self)
        ensures
            l.wf(),
            retention_ok(l.spec_sealed(), l.spec_retention()),
            l.spec_active_len() == 0,
            l.spec_sealed() == Seq::<ActionReceipt>::empty(),
            l.spec_retention() == retention,
            l.spec_audit() == Seq::<ReceiptAuditEntry>::empty(),
            l.storage_infallible(),
            l.spec_storage_calls() == Seq::<StorageCall>::empty(),
    {
        Self::new(VolatileReceiptPersistence, retention)
    }
}

/// Every sealed receipt of a well-formed ledger verifies its integrity
/// digest; its timeline is numbered 1, 2, ... without gaps, every event in
/// it came from a component allowed to report it, and its last event
/// carries the receipt's terminal status.
pub proof fn lemma_sealed_receipts_verify<P: ReceiptPersistence, const ACTIVE: usize, const SEALED: usize, const AUDIT: usize>(
    l: ActionReceiptLedger<P, ACTIVE, SEALED, AUDIT>,
)
    requires
        l.wf(),
    ensures
        forall|j: int| 0 <= j < l.spec_sealed().len() ==> (#[trigger] l.spec_sealed()[j]).spec_integrity_holds(),
        forall|j: int, k: int|
            0 <= j < l.spec_sealed().len() && 0 <= k < l.spec_sealed()[j].spec_timeline().len()
                ==> (#[trigger] l.spec_sealed()[j].spec_timeline()[k]).spec_sequence() == k + 1 && source_allows(
                l.spec_sealed()[j].spec_timeline()[k].spec_source(),
                l.spec_sealed()[j].spec_timeline()[k].spec_event_type(),
            ),
        forall|j: int|
            0 <= j < l.spec_sealed().len() ==> (#[trigger] l.spec_sealed()[j]).spec_timeline().len() > 0
                && l.spec_sealed()[j].spec_timeline().last().spec_terminal_status() == Some(
                l.spec_sealed()[j].spec_terminal_status(),
            ),
{
    assert forall|j: int| 0 <= j < l.spec_sealed().len() implies sealed_wf(#[trigger] l.spec_sealed()[j]) by {
        assert(l.sealed@[j] == l.spec_sealed()[j]);
    }
    assert forall|j: int, k: int|
        0 <= j < l.spec_sealed().len() && 0 <= k < l.spec_sealed()[j].spec_timeline().len()
            implies (#[trigger] l.spec_sealed()[j].spec_timeline()[k]).spec_sequence() == k + 1 && source_allows(
            l.spec_sealed()[j].spec_timeline()[k].spec_source(),
            l.spec_sealed()[j].spec_timeline()[k].spec_event_type(),
        ) by {
        assert(sealed_wf(l.spec_sealed()[j]));
    }
}

/// Every open receipt's timeline numbers its events 1, 2, ... without gaps,
/// holds at most its bound of events, and every event in it is bound to that
/// receipt's action, session and requester and came from a component allowed
/// to report it.
pub proof fn lemma_open_timelines_numbered<
    P: ReceiptPersistence,
    const ACTIVE: usize,
    const SEALED: usize,
    const AUDIT: usize,
>(l: ActionReceiptLedger<P, ACTIVE, SEALED, AUDIT>, i: int)
    requires
        l.wf(),
        0 <= i < l.spec_active_len(),
    ensures
        timeline_wf(
            l.spec_active_timeline(i),
            l.spec_active_id(i),
            l.spec_active_open(i).coordinator_action_id,
            l.spec_active_open(i).session_id,
            l.spec_active_open(i).requester,
        ),
        forall|k: int|
            0 <= k < l.spec_active_timeline(i).len() ==> #[trigger] l.spec_active_timeline(i)[k].spec_sequence()
                == k + 1,
{
    assert(builder_wf(l.active@[i]));
}

/// An event that `append` accepts (appended or sealed) is the next one of its
/// open receipt: bound to the receipt's action, session and requester, and
/// numbered one past the last event recorded (one on an empty timeline). It
/// seals the receipt exactly when it carries a terminal status.
pub proof fn lemma_accepted_event_is_next<
    P: ReceiptPersistence,
    const ACTIVE: usize,
    const SEALED: usize,
    const AUDIT: usize,
>(
    old: ActionReceiptLedger<P, ACTIVE, SEALED, AUDIT>,
    new: ActionReceiptLedger<P, ACTIVE, SEALED, AUDIT>,
    i: int,
    e: ActionReceiptLifecycleEvent,
    r: Result<AppendDisposition, ReceiptError>,
)
    requires
        old.wf(),
        0 <= i < old.spec_active_len(),
        old.spec_active_id(i) == e.spec_receipt_id(),
        ActionReceiptLedger::<P, ACTIVE, SEALED, AUDIT>::append_effect(old, new, i, e, r),
        r == Ok::<AppendDisposition, ReceiptError>(AppendDisposition::Appended) || r == Ok::<
            AppendDisposition,
            ReceiptError,
        >(AppendDisposition::Sealed),
    ensures
        e.spec_coordinator_action_id() == old.spec_active_open(i).coordinator_action_id,
        e.spec_session_id() == old.spec_active_open(i).session_id,
        e.spec_requester() == old.spec_active_open(i).requester,
        e.spec_sequence() == (if old.spec_active_timeline(i).len() == 0 {
            1
        } else {
            old.spec_active_timeline(i).last().spec_sequence() + 1
        }),
        (r == Ok::<AppendDisposition, ReceiptError>(AppendDisposition::Sealed)) <==> e.spec_terminal_status() is Some,
{
    lemma_open_timelines_numbered(old, i);
    let tl = old.spec_active_timeline(i);
    assert(append_check(old.spec_active_open(i), tl, e) is None);
    if tl.len() > 0 {
        assert(tl[tl.len() - 1].spec_sequence() == tl.len());
    }
}

/// When `append` seals a receipt under retention bounds of at least one, the
/// receipt leaves the open ones and stands as the newest sealed receipt, its
/// timeline ending in the sealing event, its status that event's, and its
/// integrity digest verifying.
pub proof fn lemma_sealed_event_is_kept<
    P: ReceiptPersistence,
    const ACTIVE: usize,
    const SEALED: usize,
    const AUDIT: usize,
>(
    old: ActionReceiptLedger<P, ACTIVE, SEALED, AUDIT>,
    new: ActionReceiptLedger<P, ACTIVE, SEALED, AUDIT>,
    i: int,
    e: ActionReceiptLifecycleEvent,
)
    requires
        old.wf(),
        0 <= i < old.spec_active_len(),
        old.spec_active_id(i) == e.spec_receipt_id(),
        old.spec_retention().max_sealed_per_domain >= 1,
        old.spec_retention().max_nonexecuted_per_domain >= 1,
        ActionReceiptLedger::<P, ACTIVE, SEALED, AUDIT>::append_effect(
            old,
            new,
            i,
            e,
            Ok::<AppendDisposition, ReceiptError>(AppendDisposition::Sealed),
        ),
    ensures
        new.spec_active_len() + 1 == old.spec_active_len(),
        new.spec_sealed().len() > 0,
        new.spec_sealed().last().spec_receipt_id() == e.spec_receipt_id(),
        new.spec_sealed().last().spec_timeline() == old.spec_active_timeline(i).push(e),
        Some(new.spec_sealed().last().spec_terminal_status()) == e.spec_terminal_status(),
        new.spec_sealed().last().spec_integrity_holds(),
{
    lemma_open_timelines_numbered(old, i);
    let r = Ok::<AppendDisposition, ReceiptError>(AppendDisposition::Sealed);
    assert(append_check(old.spec_active_open(i), old.spec_active_timeline(i), e) is None);
    let rc = choose|rc: ActionReceipt|
        {
            &&& sealed_wf(rc)
            &&& #[trigger] sealed_matches_builder(
                rc,
                old.spec_active_open(i),
                old.spec_active_timeline(i).push(e),
                e.spec_terminal_status().unwrap(),
            )
            &&& sealed_encoding(rc).len() > MAX_SEALED_RECEIPT_BYTES ==> {
                &&& r == Err::<AppendDisposition, ReceiptError>(ReceiptError::ReceiptTooLarge)
            }
            &&& sealed_encoding(rc).len() <= MAX_SEALED_RECEIPT_BYTES ==> {
                &&& ActionReceiptLedger::<P, ACTIVE, SEALED, AUDIT>::active_removed(old, new, i)
                &&& new.spec_sealed() == sealing_run(old.spec_sealed(), rc, old.spec_retention(), SEALED as nat).0
            }
        };
    lemma_sealing_keeps_new(old.spec_sealed(), rc, old.spec_retention(), SEALED as nat);
}

/// Receipt identifiers are unique in a well-formed ledger: among the open
/// receipts, among the sealed ones, and no receipt is both open and sealed.
pub proof fn lemma_receipt_ids_unique<P: ReceiptPersistence, const ACTIVE: usize, const SEALED: usize, const AUDIT: usize>(
    l: ActionReceiptLedger<P, ACTIVE, SEALED, AUDIT>,
    id: ActionReceiptId,
)
    requires
        l.wf(),
    ensures
        forall|i: int, k: int|
            0 <= i < l.spec_active_len() && 0 <= k < l.spec_active_len() && i != k ==> #[trigger] l.spec_active_id(i)
                != #[trigger] l.spec_active_id(k),
        forall|a: int, b: int|
            0 <= a < l.spec_sealed().len() && 0 <= b < l.spec_sealed().len() && a != b
                ==> (#[trigger] l.spec_sealed()[a]).spec_receipt_id() != (#[trigger] l.spec_sealed()[b]).spec_receipt_id(),
        !(l.spec_is_active(id) && l.spec_is_sealed(id)),
{
    assert forall|i: int, k: int|
        0 <= i < l.spec_active_len() && 0 <= k < l.spec_active_len() && i != k implies #[trigger] l.spec_active_id(i)
            != #[trigger] l.spec_active_id(k) by {
        assert(l.active@[i].open.receipt_id != l.active@[k].open.receipt_id);
    }
    if l.spec_is_active(id) && l.spec_is_sealed(id) {
        let i = choose|i: int| 0 <= i < l.spec_active_len() && l.spec_active_id(i) == id;
        let j = choose|j: int| 0 <= j < l.spec_sealed().len() && (#[trigger] l.spec_sealed()[j]).spec_receipt_id() == id;
        assert(l.active@[i].open.receipt_id != l.sealed@[j].spec_receipt_id());
    }
}

proof fn lemma_newest_matches_answer(s: Seq<ActionReceipt>, q: ReceiptQuery, j: int)
    requires
        0 <= j <= s.len(),
    ensures
        forall|k: int|
            0 <= k < newest_matches(s, q, j).len() ==> query_matches(#[trigger] newest_matches(s, q, j)[k], q)
                && s.contains(newest_matches(s, q, j)[k]),
    decreases s.len() - j,
{
    if j < s.len() {
        lemma_newest_matches_answer(s, q, j + 1);
        let rest = newest_matches(s, q, j + 1);
        assert forall|k: int|
            0 <= k < newest_matches(s, q, j).len() implies query_matches(#[trigger] newest_matches(s, q, j)[k], q)
                && s.contains(newest_matches(s, q, j)[k]) by {
            if k < rest.len() {
                assert(newest_matches(s, q, j)[k] == rest[k]);
            } else {
                assert(newest_matches(s, q, j)[k] == s[j]);
            }
        }
    }
}

/// A query only ever shows sealed receipts of the asking requester in the
/// asking session, each of the asked kind, and never more than its bound.
pub proof fn lemma_query_isolation(s: Seq<ActionReceipt>, q: ReceiptQuery)
    ensures
        query_selection(s, q).len() <= q.maximum_results,
        forall|k: int|
            0 <= k < query_selection(s, q).len() ==> {
                &&& (#[trigger] query_selection(s, q)[k]).spec_session_id() == q.active_session
                &&& query_selection(s, q)[k].spec_requester() == q.requester
                &&& query_matches(query_selection(s, q)[k], q)
                &&& s.contains(query_selection(s, q)[k])
            },
{
    lemma_newest_matches_answer(s, q, 0);
    let m = newest_matches(s, q, 0);
    assert forall|k: int| 0 <= k < query_selection(s, q).len() implies {
        &&& (#[trigger] query_selection(s, q)[k]).spec_session_id() == q.active_session
        &&& query_selection(s, q)[k].spec_requester() == q.requester
        &&& query_matches(query_selection(s, q)[k], q)
        &&& s.contains(query_selection(s, q)[k])
    } by {
        assert(query_selection(s, q)[k] == m[k]);
        assert(query_matches(m[k], q));
    }
}

proof fn lemma_ready_has_target_ready(tl: Seq<ActionReceiptLifecycleEvent>)
    requires
        summaries_of(tl).observed_outcome.outcome is Ready,
    ensures
        exists|k: int| 0 <= k < tl.len() && (#[trigger] tl[k]).spec_event_type() is TargetReady,
    decreases tl.len(),
{
    if tl.len() == 0 {
    } else {
        let e = tl.last();
        if e.spec_event_type() is TargetReady {
            assert(tl[tl.len() - 1].spec_event_type() is TargetReady);
        } else {
            lemma_ready_has_target_ready(tl.drop_last());
            let k = choose|k: int|
                0 <= k < tl.drop_last().len() && (#[trigger] tl.drop_last()[k]).spec_event_type() is TargetReady;
            assert(tl[k] == tl.drop_last()[k]);
        }
    }
}

/// A sealed receipt says its target became ready only when the outcome
/// observer reported it: readiness is never inferred from a dispatch.
pub proof fn lemma_ready_needs_observer(r: ActionReceipt)
    requires
        sealed_wf(r),
        r.spec_observed_outcome().outcome is Ready,
    ensures
        exists|k: int|
            0 <= k < r.spec_timeline().len() && (#[trigger] r.spec_timeline()[k]).spec_event_type() is TargetReady
                && r.spec_timeline()[k].spec_source() is OutcomeObserver,
{
    lemma_ready_has_target_ready(r.spec_timeline());
    let k = choose|k: int|
        0 <= k < r.spec_timeline().len() && (#[trigger] r.spec_timeline()[k]).spec_event_type() is TargetReady;
    assert(source_allows(r.spec_timeline()[k].spec_source(), r.spec_timeline()[k].spec_event_type()));
}
} // verus!
