use vstd::prelude::*;

use crate::action_intent::{AuditId, IntentId, SessionId, TargetKind};
use crate::policy::ConfirmationLevel;

verus! {

pub const MAX_CONFIRMATION_TEXT_LEN: usize = 160;
pub const DEFAULT_CONFIRMATION_CAPACITY: usize = 16;
pub const DEFAULT_CONFIRMATION_AUDIT_CAPACITY: usize = 64;

/// Identifies one confirmation challenge.
#[derive(Debug, Clone, Copy, PartialEq, Eq, Hash)]
pub struct ChallengeId([u8; 16]);

impl ChallengeId {
    pub closed spec fn value(self) -> [u8; 16] {
        self.0
    }

    pub fn new(bytes: [u8; 16]) -> (id: Self)
        ensures
            id.value() == bytes,
    {
        ChallengeId(bytes)
    }

    pub fn bytes(self) -> (b: [u8; 16])
        ensures
            b == self.value(),
    {
        self.0
    }

    /// Whether two challenge identifiers are the same.
    pub fn same_as(&self, other: &ChallengeId) -> (r: bool)
        ensures
            r == (*self == *other),
    {
        crate::action_intent::bytes16_eq(&self.0, &other.0)
    }
}

/// Identifies one exact, single-use confirmation grant.
#[derive(Debug, Clone, Copy, PartialEq, Eq, Hash)]
pub struct GrantId([u8; 16]);

impl GrantId {
    pub closed spec fn value(self) -> [u8; 16] {
        self.0
    }

    pub fn bytes(self) -> (b: [u8; 16])
        ensures
            b == self.value(),
    {
        self.0
    }
}

/// A nonce that strong and critical approvals must echo.
#[derive(Debug, Clone, Copy, PartialEq, Eq, Hash)]
pub struct ConfirmationNonce([u8; 16]);

impl ConfirmationNonce {
    pub closed spec fn value(self) -> [u8; 16] {
        self.0
    }

    pub fn new(bytes: [u8; 16]) -> (n: Self)
        ensures
            n.value() == bytes,
    {
        ConfirmationNonce(bytes)
    }

    pub fn bytes(self) -> (b: [u8; 16])
        ensures
            b == self.value(),
    {
        self.0
    }
}

/// A digest that binds a grant to the exact target it approves.
#[derive(Debug, Clone, Copy, PartialEq, Eq, Hash)]
pub struct BindingDigest([u8; 32]);

impl BindingDigest {
    pub closed spec fn value(self) -> [u8; 32] {
        self.0
    }

    pub fn bytes(self) -> (b: [u8; 32])
        ensures
            b == self.value(),
    {
        self.0
    }
}

/// Time as kept by the confirmation authority.
#[derive(Debug, Clone, Copy, PartialEq, Eq, PartialOrd, Ord, Structural)]
pub struct AuthorityTime(pub u64);

#[derive(Debug, Clone, Copy, PartialEq, Eq, Hash, Structural)]
pub enum ResponderIdentity {
    User(u32),
    TrustedUi(u32),
}

#[derive(Debug, Clone, Copy, PartialEq, Eq, Structural)]
pub enum SessionStatus {
    Active,
    Inactive,
    Unknown,
}

/// Trusted, current session authorization supplied to final revalidation.
#[derive(Debug, Clone, Copy, PartialEq, Eq, Structural)]
pub struct SessionAuthorization {
    session_id: SessionId,
    responder: ResponderIdentity,
    status: SessionStatus,
}

impl SessionAuthorization {
    pub closed spec fn spec_session_id(self) -> SessionId {
        self.session_id
    }

    pub closed spec fn spec_responder(self) -> ResponderIdentity {
        self.responder
    }

    pub closed spec fn spec_status(self) -> SessionStatus {
        self.status
    }

    pub fn new(session_id: SessionId, responder: ResponderIdentity, status: SessionStatus) -> (s:
        Self)
        ensures
            s.spec_session_id() == session_id,
            s.spec_responder() == responder,
            s.spec_status() == status,
    {
        SessionAuthorization { session_id, responder, status }
    }

    pub fn session_id(self) -> (r: SessionId)
        ensures
            r == self.spec_session_id(),
    {
        self.session_id
    }

    pub fn responder(self) -> (r: ResponderIdentity)
        ensures
            r == self.spec_responder(),
    {
        self.responder
    }

    pub fn status(self) -> (r: SessionStatus)
        ensures
            r == self.spec_status(),
    {
        self.status
    }
}

#[derive(Debug, Clone, Copy, PartialEq, Eq, Structural)]
pub enum ConfirmationChoice {
    Approve,
    Reject,
    Cancel,
}

#[derive(Debug, Clone, Copy, PartialEq, Eq, Structural)]
pub enum ConsequenceAcknowledgement {
    Acknowledged,
}

/// Closed proof taxonomy. There is no arbitrary string or boolean proof.
#[derive(Debug, Clone, Copy, PartialEq, Eq)]
pub enum ApprovalProof {
    SoftExplicit,
    Strong { nonce: ConfirmationNonce },
    Critical {
        nonce: ConfirmationNonce,
        exact_target: BindingDigest,
        consequence: ConsequenceAcknowledgement,
    },
}

#[derive(Debug, Clone, Copy, PartialEq, Eq)]
pub enum ConfirmationResponseType {
    Approved(ApprovalProof),
    Rejected,
    Cancelled,
    Expired,
    Invalid,
}

/// A typed response to a confirmation challenge.
#[derive(Debug, Clone, Copy, PartialEq, Eq)]
pub struct ConfirmationResponse {
    challenge_id: ChallengeId,
    session_id: SessionId,
    responder: ResponderIdentity,
    response_type: ConfirmationResponseType,
    submitted_at: AuthorityTime,
}

impl ConfirmationResponse {
    pub closed spec fn spec_challenge_id(self) -> ChallengeId {
        self.challenge_id
    }

    pub closed spec fn spec_session_id(self) -> SessionId {
        self.session_id
    }

    pub closed spec fn spec_responder(self) -> ResponderIdentity {
        self.responder
    }

    pub closed spec fn spec_response_type(self) -> ConfirmationResponseType {
        self.response_type
    }

    pub closed spec fn spec_submitted_at(self) -> AuthorityTime {
        self.submitted_at
    }

    pub fn new(
        challenge_id: ChallengeId,
        session_id: SessionId,
        responder: ResponderIdentity,
        response_type: ConfirmationResponseType,
        submitted_at: AuthorityTime,
    ) -> (r: Self)
        ensures
            r.spec_challenge_id() == challenge_id,
            r.spec_session_id() == session_id,
            r.spec_responder() == responder,
            r.spec_response_type() == response_type,
            r.spec_submitted_at() == submitted_at,
    {
        ConfirmationResponse { challenge_id, session_id, responder, response_type, submitted_at }
    }

    pub fn challenge_id(&self) -> (r: ChallengeId)
        ensures
            r == self.spec_challenge_id(),
    {
        self.challenge_id
    }

    pub fn session_id(&self) -> (r: SessionId)
        ensures
            r == self.spec_session_id(),
    {
        self.session_id
    }

    pub fn responder(&self) -> (r: ResponderIdentity)
        ensures
            r == self.spec_responder(),
    {
        self.responder
    }

    pub fn response_type(&self) -> (r: ConfirmationResponseType)
        ensures
            r == self.spec_response_type(),
    {
        self.response_type
    }

    pub fn submitted_at(&self) -> (r: AuthorityTime)
        ensures
            r == self.spec_submitted_at(),
    {
        self.submitted_at
    }
}

#[derive(Debug, Clone, Copy, PartialEq, Eq, PartialOrd, Ord, Structural)]
pub enum ConfirmationState {
    Created,
    Issued,
    Approved,
    Rejected,
    Cancelled,
    Expired,
    /// The exact grant has been reserved by a readiness envelope. Dispatch is
    /// still pending; executor replay protection performs final consumption.
    Ready,
    Consumed,
    Invalidated,
}

#[derive(Debug, Clone, Copy, PartialEq, Eq, Structural)]
pub enum FinalValidationResult {
    Valid,
}

#[derive(Debug, Clone, Copy, PartialEq, Eq, Structural)]
pub enum ReadinessDenialReason {
    IntentInvalid,
    IntentChanged,
    DecisionChanged,
    PolicyChanged,
    PolicyDenied,
    RuntimeStale,
    SessionInactive,
    WrongSession,
    WrongResponder,
    ChallengeExpired,
    GrantMissing,
    GrantChanged,
    GrantConsumed,
    ConfirmationLevelInsufficient,
    UnknownState,
}

#[derive(Debug, Clone, Copy, PartialEq, Eq, Structural)]
pub enum AuthorityError {
    Capacity,
    ChallengeNotFound,
    ChallengeNotRequired,
    ChallengeNotIssued,
    AlreadyFinal,
    Expired,
    WrongSession,
    WrongResponder,
    InvalidProof,
    Replay,
    Denied(ReadinessDenialReason),
}

#[derive(Debug, Clone, Copy, PartialEq, Eq)]
pub enum ConfirmationAuditEvent {
    ChallengeCreated {
        challenge_id: ChallengeId,
        intent_id: IntentId,
        level: ConfirmationLevel,
        target_kind: TargetKind,
    },
    ChallengeIssued { challenge_id: ChallengeId },
    ResponseAccepted { challenge_id: ChallengeId, state: ConfirmationState },
    ResponseRejected { challenge_id: ChallengeId },
    GrantCreated { challenge_id: ChallengeId, grant_id: GrantId },
    GrantInvalidated { challenge_id: ChallengeId, reason: ReadinessDenialReason },
    GrantReserved { challenge_id: ChallengeId, grant_id: GrantId },
    ReadinessProduced { intent_id: IntentId, audit_id: AuditId },
    ReadinessDenied { intent_id: IntentId, reason: ReadinessDenialReason },
}

} // verus!
