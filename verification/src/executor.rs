use vstd::prelude::*;

use crate::action_intent::{ActionOperation, AuditId, IntentId, TargetKind};
use crate::confirmation::AuthorityTime;

verus! {

pub const DEFAULT_EXECUTION_AUDIT_CAPACITY: usize = 64;
pub const DEFAULT_REPLAY_CAPACITY: usize = 32;
pub const DEFAULT_MAX_RUNTIME_AGE_MS: u64 = 5_000;

#[derive(Debug, Clone, Copy, PartialEq, Eq, Hash, Structural)]
pub struct ExecutionId(pub u64);

#[derive(Debug, Clone, Copy, PartialEq, Eq, Structural)]
pub enum ExecutionResultCode {
    Succeeded,
    Rejected,
    UnsupportedOperation,
    InvalidEnvelope,
    TargetNotFound,
    TargetUnavailable,
    SessionInactive,
    PolicyChanged,
    RuntimeStale,
    ConfirmationExpired,
    ConfirmationInvalid,
    DispatchFailed,
    AlreadyConsumed,
    Unknown,
}

/// Immutable, public-safe outcome. Dispatch success means that the trusted
/// launcher accepted the request, not that the application became ready.
#[derive(Debug, Clone, PartialEq, Eq)]
pub struct ExecutionResult {
    intent_id: IntentId,
    execution_id: ExecutionId,
    operation: ActionOperation,
    code: ExecutionResultCode,
    dispatch_timestamp: Option<AuthorityTime>,
    completion_timestamp: Option<AuthorityTime>,
    audit_id: AuditId,
}

impl ExecutionResult {
    pub closed spec fn spec_intent_id(&self) -> IntentId {
        self.intent_id
    }

    pub closed spec fn spec_execution_id(&self) -> ExecutionId {
        self.execution_id
    }

    pub closed spec fn spec_operation(&self) -> ActionOperation {
        self.operation
    }

    pub closed spec fn spec_code(&self) -> ExecutionResultCode {
        self.code
    }

    pub closed spec fn spec_dispatch_timestamp(&self) -> Option<AuthorityTime> {
        self.dispatch_timestamp
    }

    pub closed spec fn spec_completion_timestamp(&self) -> Option<AuthorityTime> {
        self.completion_timestamp
    }

    pub closed spec fn spec_audit_id(&self) -> AuditId {
        self.audit_id
    }

    /// Records the outcome of one dispatch attempt.
    pub fn new(
        intent_id: IntentId,
        execution_id: ExecutionId,
        operation: ActionOperation,
        code: ExecutionResultCode,
        dispatch_timestamp: Option<AuthorityTime>,
        completion_timestamp: Option<AuthorityTime>,
        audit_id: AuditId,
    ) -> (r: Self)
        ensures
            r.spec_intent_id() == intent_id,
            r.spec_execution_id() == execution_id,
            r.spec_operation() == operation,
            r.spec_code() == code,
            r.spec_dispatch_timestamp() == dispatch_timestamp,
            r.spec_completion_timestamp() == completion_timestamp,
            r.spec_audit_id() == audit_id,
    {
        ExecutionResult {
            intent_id,
            execution_id,
            operation,
            code,
            dispatch_timestamp,
            completion_timestamp,
            audit_id,
        }
    }

    pub fn intent_id(&self) -> (r: IntentId)
        ensures
            r == self.spec_intent_id(),
    {
        self.intent_id
    }

    pub fn execution_id(&self) -> (r: ExecutionId)
        ensures
            r == self.spec_execution_id(),
    {
        self.execution_id
    }

    pub fn operation(&self) -> (r: ActionOperation)
        ensures
            r == self.spec_operation(),
    {
        self.operation
    }

    pub fn code(&self) -> (r: ExecutionResultCode)
        ensures
            r == self.spec_code(),
    {
        self.code
    }

    pub fn dispatch_timestamp(&self) -> (r: Option<AuthorityTime>)
        ensures
            r == self.spec_dispatch_timestamp(),
    {
        self.dispatch_timestamp
    }

    pub fn completion_timestamp(&self) -> (r: Option<AuthorityTime>)
        ensures
            r == self.spec_completion_timestamp(),
    {
        self.completion_timestamp
    }

    pub fn audit_id(&self) -> (r: AuditId)
        ensures
            r == self.spec_audit_id(),
    {
        self.audit_id
    }
}

#[derive(Debug, Clone, Copy, PartialEq, Eq, Structural)]
pub enum RegistryStatus {
    Registered,
    NotFound,
    Unavailable,
}

#[derive(Debug, Clone, Copy, PartialEq, Eq, Structural)]
pub enum DispatchStatus {
    Accepted,
    Failed,
}

#[derive(Debug, Clone, Copy, PartialEq, Eq, Structural)]
pub enum ExecutionAuditEvent {
    ReadinessAccepted,
    FinalValidationPassed,
    FinalValidationFailed(ExecutionResultCode),
    DispatchAttempted,
    DispatchAccepted,
    DispatchFailed,
    DuplicateRejected,
    ConfirmationConsumed,
    ResultProduced(ExecutionResultCode),
}

#[derive(Debug, Clone, Copy, PartialEq, Eq)]
pub struct ExecutionAuditEntry {
    pub execution_id: ExecutionId,
    pub intent_id: IntentId,
    pub operation: ActionOperation,
    pub target_kind: TargetKind,
    pub audit_id: AuditId,
    pub timestamp: AuthorityTime,
    pub event: ExecutionAuditEvent,
}


/// An opaque token that ties readiness evidence to one launch.
#[derive(Debug, Clone, Copy)]
pub struct LaunchCorrelationToken([u8; 32]);

impl LaunchCorrelationToken {
    pub closed spec fn value(self) -> [u8; 32] {
        self.0
    }

    /// A token with fixed bytes, for deterministic fixtures.
    pub fn new_for_test(bytes: [u8; 32]) -> (t: Self)
        ensures
            t.value() == bytes,
    {
        LaunchCorrelationToken(bytes)
    }

    /// Whether two tokens are the same.
    pub fn same_as(&self, other: &LaunchCorrelationToken) -> (r: bool)
        ensures
            r == (self.value() == other.value()),
    {
        let mut i: usize = 0;
        while i < 32
            invariant
                0 <= i <= 32,
                forall|j: int| 0 <= j < i ==> self.0[j] == other.0[j],
            decreases 32 - i,
        {
            if self.0[i] != other.0[i] {
                return false;
            }
            i = i + 1;
        }
        proof {
            broadcast use vstd::array::group_array_axioms;

            assert(self.0 =~= other.0);
        }
        true
    }
}

impl PartialEq for LaunchCorrelationToken {
    fn eq(&self, other: &Self) -> (r: bool) {
        self.same_as(other)
    }
}

impl Eq for LaunchCorrelationToken {
}

impl vstd::std_specs::cmp::PartialEqSpecImpl for LaunchCorrelationToken {
    open spec fn obeys_eq_spec() -> bool {
        true
    }

    open spec fn eq_spec(&self, other: &LaunchCorrelationToken) -> bool {
        self.value() == other.value()
    }
}

} // verus!
