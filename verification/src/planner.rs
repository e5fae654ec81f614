use vstd::prelude::*;

use crate::action_intent::ActionOperation;

verus! {

/// Identifies one conversation in which actions are requested.
#[derive(Debug, Clone, Copy, PartialEq, Eq, Hash, Structural)]
pub struct ConversationId(pub u64);

/// Identifies the user request that started an action.
#[derive(Debug, Clone, Copy, PartialEq, Eq, Hash, Structural)]
pub struct PlannerRequestId(pub u64);

/// Version of the planner that interpreted a request.
#[derive(Debug, Clone, Copy, PartialEq, Eq, Hash, Structural)]
pub struct PlannerVersion {
    pub major: u16,
    pub minor: u16,
}

impl PlannerVersion {
    pub fn new(major: u16, minor: u16) -> (v: Self)
        ensures
            v.major == major,
            v.minor == minor,
    {
        PlannerVersion { major, minor }
    }
}

/// The planner version that a flow is recorded under until the planner names one.
pub open spec fn spec_planner_v1() -> PlannerVersion {
    PlannerVersion { major: 1, minor: 0 }
}

pub fn planner_v1() -> (v: PlannerVersion)
    ensures
        v == spec_planner_v1(),
{
    PlannerVersion { major: 1, minor: 0 }
}

/// Identifies one clarification question put to the user.
#[derive(Debug, Clone, Copy, PartialEq, Eq, Hash, Structural)]
pub struct ClarificationId(pub u64);

/// Why the planner declined to propose an action.
#[derive(Debug, Clone, Copy, PartialEq, Eq, Structural)]
pub enum UnsupportedReason {
    UnknownApplication,
    UnknownSettingsPage,
    UnsupportedOperation,
    ClarificationExpired,
    ClarificationReplay,
    ClarificationTargetInvalid,
    ClarificationNotFound,
}

/// The planner's answer to one request, holding what the coordinator
/// decides on.
#[derive(Debug, Clone, Copy, PartialEq, Eq, Structural)]
pub enum PlannerResult {
    NoAction,
    InvalidInput,
    Unsupported(UnsupportedReason),
    Unknown,
    /// Several targets matched: the question, how many candidates it
    /// offers, until when, and the operation of the first candidate, if
    /// there is one.
    NeedsClarification {
        planner_version: PlannerVersion,
        clarification_id: ClarificationId,
        candidate_count: u8,
        expires_at: u64,
        first_operation: Option<ActionOperation>,
    },
    /// One exact target matched.
    Proposed { planner_version: PlannerVersion, operation: ActionOperation },
}

} // verus!
