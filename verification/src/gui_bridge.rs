//! The GUI bridge: public presentation events for the graphical session,
//! session bindings that a GUI can carry but not forge, and correlation of
//! trusted readiness evidence with the launch it belongs to.
use vstd::prelude::*;
use vstd::utf8::{encode_scalar, encode_utf8, is_ascii_chars, is_ascii_chars_encode_utf8};
use vstd::string::StringSliceAdditionalSpecFns;

use crate::action_intent::{RequestedBy, SessionId, TypedIdentifier};
use crate::action_receipt::{push_requester, requester_bytes, ActionReceiptId, ActionReceiptTerminalStatus};
use crate::coordinator::CoordinatorActionId;
use crate::digest::{le64, push_bytes, push_u64, sha256, spec_sha256};
use crate::executor::{ExecutionId, LaunchCorrelationToken};
use crate::planner::{ConversationId, PlannerRequestId};

verus! {

pub const GUI_BRIDGE_PROTOCOL_VERSION: u16 = 1;

pub const MAX_GUI_BRIDGE_EVENTS: usize = 64;

pub const MAX_GUI_BRIDGE_DEDUP: usize = 128;

pub const MAX_GUI_PUBLIC_TEXT: usize = 256;

pub const MAX_GUI_LOCALIZED_KEY: usize = 64;

/// Longest locale tag a session binding carries, in bytes.
pub const MAX_GUI_LOCALE: usize = 16;

/// Domain separation for binding digests: `wiseowl.gui-session-binding.v1` and a zero byte.
pub const BINDING_DIGEST_DOMAIN: [u8; 31] = [
    119u8,
    105u8,
    115u8,
    101u8,
    111u8,
    119u8,
    108u8,
    46u8,
    103u8,
    117u8,
    105u8,
    45u8,
    115u8,
    101u8,
    115u8,
    115u8,
    105u8,
    111u8,
    110u8,
    45u8,
    98u8,
    105u8,
    110u8,
    100u8,
    105u8,
    110u8,
    103u8,
    46u8,
    118u8,
    49u8,
    0u8,
];

#[derive(Debug, Clone, Copy, PartialEq, Eq, Hash, Structural)]
pub struct GuiSessionBindingId(pub u64);

#[derive(Debug, Clone, Copy, PartialEq, Eq, Hash, Structural)]
pub struct GuiEventId(pub u64);

#[derive(Debug, Clone, Copy, PartialEq, Eq, Hash, Structural)]
pub struct GuiReadinessEvidenceId(pub u64);

/// Presentation-only coordinator state. It carries no policy, executor,
/// grant or launch-adapter data.
#[derive(Debug, Clone, Copy, PartialEq, Eq, Structural)]
pub enum CoordinatorPresentationKind {
    ConversationAccepted,
    NoAction,
    ClarificationRequired,
    ConfirmationRequired,
    PolicyEvaluating,
    PolicyDenied,
    ReadyForExecution,
    DispatchAccepted,
    AwaitingOutcome,
    OutcomeReady,
    OutcomeFailed,
    OutcomeTimedOut,
    Cancelled,
    Expired,
    SessionInvalidated,
    RegistryInvalidated,
}

impl CoordinatorPresentationKind {
    pub open spec fn spec_terminal(self) -> bool {
        self is NoAction || self is PolicyDenied || self is OutcomeReady || self is OutcomeFailed
            || self is OutcomeTimedOut || self is Cancelled || self is Expired || self is SessionInvalidated
            || self is RegistryInvalidated
    }

    /// Whether the conversation ends in this state.
    pub fn terminal(self) -> (r: bool)
        ensures
            r == self.spec_terminal(),
    {
        match self {
            CoordinatorPresentationKind::NoAction
            | CoordinatorPresentationKind::PolicyDenied
            | CoordinatorPresentationKind::OutcomeReady
            | CoordinatorPresentationKind::OutcomeFailed
            | CoordinatorPresentationKind::OutcomeTimedOut
            | CoordinatorPresentationKind::Cancelled
            | CoordinatorPresentationKind::Expired
            | CoordinatorPresentationKind::SessionInvalidated
            | CoordinatorPresentationKind::RegistryInvalidated => true,
            _ => false,
        }
    }
}

/// Public text for the GUI, with its localization key; both bounded.
#[derive(Debug, PartialEq, Eq)]
pub struct PublicPresentationPayload {
    localized_key: String,
    text: String,
}

impl Clone for PublicPresentationPayload {
    fn clone(&self) -> (r: Self)
        ensures
            r == *self,
    {
        PublicPresentationPayload { localized_key: self.localized_key.clone(), text: self.text.clone() }
    }
}

impl PublicPresentationPayload {
    pub closed spec fn spec_localized_key(&self) -> Seq<char> {
        self.localized_key@
    }

    pub closed spec fn spec_text(&self) -> Seq<char> {
        self.text@
    }

    /// A payload, when the key fits 64 bytes and the text 256.
    pub fn new(localized_key: &str, text: &str) -> (r: Option<Self>)
        ensures
            r is Some <==> localized_key.spec_bytes().len() <= MAX_GUI_LOCALIZED_KEY
                && text.spec_bytes().len() <= MAX_GUI_PUBLIC_TEXT,
            r matches Some(p) ==> p.spec_localized_key() == localized_key@ && p.spec_text() == text@,
    {
        if localized_key.as_bytes().len() > MAX_GUI_LOCALIZED_KEY || text.as_bytes().len()
            > MAX_GUI_PUBLIC_TEXT {
            return None;
        }
        Some(PublicPresentationPayload { localized_key: localized_key.to_owned(), text: text.to_owned() })
    }

    pub fn localized_key(&self) -> (s: &str)
        ensures
            s@ == self.spec_localized_key(),
    {
        self.localized_key.as_str()
    }

    pub fn text(&self) -> (s: &str)
        ensures
            s@ == self.spec_text(),
    {
        self.text.as_str()
    }
}

/// One presentation step of a conversation, for the GUI.
#[derive(Debug, PartialEq, Eq)]
pub struct CoordinatorPresentationUpdate {
    pub conversation_id: ConversationId,
    pub request_id: PlannerRequestId,
    pub action_id: Option<CoordinatorActionId>,
    pub session_id: SessionId,
    pub sequence: u64,
    pub kind: CoordinatorPresentationKind,
    pub payload: PublicPresentationPayload,
}

impl Clone for CoordinatorPresentationUpdate {
    fn clone(&self) -> (r: Self)
        ensures
            r == *self,
    {
        CoordinatorPresentationUpdate {
            conversation_id: self.conversation_id,
            request_id: self.request_id,
            action_id: self.action_id,
            session_id: self.session_id,
            sequence: self.sequence,
            kind: self.kind,
            payload: self.payload.clone(),
        }
    }
}

impl CoordinatorPresentationUpdate {
    pub fn terminal(&self) -> (r: bool)
        ensures
            r == self.kind.spec_terminal(),
    {
        self.kind.terminal()
    }
}

/// Issued only by `GuiSessionBindingAuthority`; its fields are private so a
/// GUI process can carry a binding but cannot manufacture or alter one.
#[derive(Debug, PartialEq, Eq)]
pub struct WiseOwlGuiSessionBinding {
    binding_id: GuiSessionBindingId,
    session_id: SessionId,
    requester: RequestedBy,
    locale: String,
    runtime_snapshot_generation: u64,
    application_registry_generation: u64,
    settings_registry_generation: u64,
    issued_at: u64,
    expires_at: u64,
    integrity_digest: [u8; 16],
}

impl Clone for WiseOwlGuiSessionBinding {
    fn clone(&self) -> (r: Self)
        ensures
            r == *self,
    {
        WiseOwlGuiSessionBinding {
            binding_id: self.binding_id,
            session_id: self.session_id,
            requester: self.requester,
            locale: self.locale.clone(),
            runtime_snapshot_generation: self.runtime_snapshot_generation,
            application_registry_generation: self.application_registry_generation,
            settings_registry_generation: self.settings_registry_generation,
            issued_at: self.issued_at,
            expires_at: self.expires_at,
            integrity_digest: self.integrity_digest,
        }
    }
}

impl WiseOwlGuiSessionBinding {
    pub closed spec fn spec_binding_id(&self) -> GuiSessionBindingId {
        self.binding_id
    }

    pub closed spec fn spec_session_id(&self) -> SessionId {
        self.session_id
    }

    pub closed spec fn spec_requester(&self) -> RequestedBy {
        self.requester
    }

    pub closed spec fn spec_locale(&self) -> Seq<char> {
        self.locale@
    }

    pub closed spec fn spec_runtime_snapshot_generation(&self) -> u64 {
        self.runtime_snapshot_generation
    }

    pub closed spec fn spec_application_registry_generation(&self) -> u64 {
        self.application_registry_generation
    }

    pub closed spec fn spec_settings_registry_generation(&self) -> u64 {
        self.settings_registry_generation
    }

    pub closed spec fn spec_issued_at(&self) -> u64 {
        self.issued_at
    }

    pub closed spec fn spec_expires_at(&self) -> u64 {
        self.expires_at
    }

    pub closed spec fn spec_integrity_digest(&self) -> [u8; 16] {
        self.integrity_digest
    }

    pub fn binding_id(&self) -> (r: GuiSessionBindingId)
        ensures
            r == self.spec_binding_id(),
    {
        self.binding_id
    }

    pub fn session_id(&self) -> (r: SessionId)
        ensures
            r == self.spec_session_id(),
    {
        self.session_id
    }

    pub fn requester(&self) -> (r: RequestedBy)
        ensures
            r == self.spec_requester(),
    {
        self.requester
    }

    pub fn locale(&self) -> (r: &str)
        ensures
            r@ == self.spec_locale(),
    {
        self.locale.as_str()
    }

    pub fn runtime_snapshot_generation(&self) -> (r: u64)
        ensures
            r == self.spec_runtime_snapshot_generation(),
    {
        self.runtime_snapshot_generation
    }

    pub fn application_registry_generation(&self) -> (r: u64)
        ensures
            r == self.spec_application_registry_generation(),
    {
        self.application_registry_generation
    }

    pub fn settings_registry_generation(&self) -> (r: u64)
        ensures
            r == self.spec_settings_registry_generation(),
    {
        self.settings_registry_generation
    }

    pub fn expires_at(&self) -> (r: u64)
        ensures
            r == self.spec_expires_at(),
    {
        self.expires_at
    }
}

/// An attestation of the active graphical session, made by the trusted
/// graphical-session authority.
#[derive(Debug, PartialEq, Eq)]
pub struct VerifiedGraphicalSession {
    attestation_id: u64,
    session_id: SessionId,
    requester: RequestedBy,
    locale: String,
    session_generation: u64,
    authority_generation: u64,
    issued_at: u64,
    expires_at: u64,
    runtime_snapshot_generation: u64,
    application_registry_generation: u64,
    settings_registry_generation: u64,
}

impl VerifiedGraphicalSession {
    pub closed spec fn spec_attestation_id(&self) -> u64 {
        self.attestation_id
    }

    pub closed spec fn spec_session_id(&self) -> SessionId {
        self.session_id
    }

    pub closed spec fn spec_requester(&self) -> RequestedBy {
        self.requester
    }

    pub closed spec fn spec_locale(&self) -> Seq<char> {
        self.locale@
    }

    pub closed spec fn spec_session_generation(&self) -> u64 {
        self.session_generation
    }

    pub closed spec fn spec_authority_generation(&self) -> u64 {
        self.authority_generation
    }

    pub closed spec fn spec_issued_at(&self) -> u64 {
        self.issued_at
    }

    pub closed spec fn spec_expires_at(&self) -> u64 {
        self.expires_at
    }

    pub closed spec fn spec_runtime_snapshot_generation(&self) -> u64 {
        self.runtime_snapshot_generation
    }

    pub closed spec fn spec_application_registry_generation(&self) -> u64 {
        self.application_registry_generation
    }

    pub closed spec fn spec_settings_registry_generation(&self) -> u64 {
        self.settings_registry_generation
    }

    /// Made only by the trusted graphical-session authority: an attestation
    /// that expires after it is issued, with a locale tag of at most 16 bytes.
    pub fn from_authority(
        attestation_id: u64,
        session_id: SessionId,
        requester: RequestedBy,
        locale: &str,
        runtime_snapshot_generation: u64,
        application_registry_generation: u64,
        settings_registry_generation: u64,
        session_generation: u64,
        authority_generation: u64,
        issued_at: u64,
        expires_at: u64,
    ) -> (r: Option<Self>)
        ensures
            r is Some <==> expires_at > issued_at && locale.spec_bytes().len() <= MAX_GUI_LOCALE,
            r matches Some(v) ==> {
                &&& v.spec_attestation_id() == attestation_id
                &&& v.spec_session_id() == session_id
                &&& v.spec_requester() == requester
                &&& v.spec_locale() == locale@
                &&& v.spec_runtime_snapshot_generation() == runtime_snapshot_generation
                &&& v.spec_application_registry_generation() == application_registry_generation
                &&& v.spec_settings_registry_generation() == settings_registry_generation
                &&& v.spec_session_generation() == session_generation
                &&& v.spec_authority_generation() == authority_generation
                &&& v.spec_issued_at() == issued_at
                &&& v.spec_expires_at() == expires_at
            },
    {
        if expires_at <= issued_at {
            return None;
        }
        if locale.as_bytes().len() > MAX_GUI_LOCALE {
            return None;
        }
        Some(
            VerifiedGraphicalSession {
                attestation_id,
                session_id,
                requester,
                locale: locale.to_owned(),
                session_generation,
                authority_generation,
                issued_at,
                expires_at,
                runtime_snapshot_generation,
                application_registry_generation,
                settings_registry_generation,
            },
        )
    }

    pub fn attestation_id(&self) -> (r: u64)
        ensures
            r == self.spec_attestation_id(),
    {
        self.attestation_id
    }

    pub fn session_id(&self) -> (r: SessionId)
        ensures
            r == self.spec_session_id(),
    {
        self.session_id
    }

    pub fn requester(&self) -> (r: RequestedBy)
        ensures
            r == self.spec_requester(),
    {
        self.requester
    }

    pub fn session_generation(&self) -> (r: u64)
        ensures
            r == self.spec_session_generation(),
    {
        self.session_generation
    }

    pub fn authority_generation(&self) -> (r: u64)
        ensures
            r == self.spec_authority_generation(),
    {
        self.authority_generation
    }

    pub fn expires_at(&self) -> (r: u64)
        ensures
            r == self.spec_expires_at(),
    {
        self.expires_at
    }
}

#[derive(Debug, Clone, Copy, PartialEq, Eq, Structural)]
pub enum GuiBindingError {
    Expired,
    InvalidIntegrity,
    WrongSession,
    WrongRequester,
    StaleRuntime,
    RegistryChanged,
}

/// The bytes a binding's digest covers: the domain, the authority's secret,
/// and every field of the binding but the digest.
pub open spec fn binding_preimage(secret: Seq<u8>, b: WiseOwlGuiSessionBinding) -> Seq<u8> {
    BINDING_DIGEST_DOMAIN@ + secret + le64(b.spec_binding_id().0) + le64(b.spec_session_id().0)
        + requester_bytes(b.spec_requester()) + encode_utf8(b.spec_locale()) + le64(
        b.spec_runtime_snapshot_generation(),
    ) + le64(b.spec_application_registry_generation()) + le64(b.spec_settings_registry_generation())
        + le64(b.spec_issued_at()) + le64(b.spec_expires_at())
}

/// A binding's digest: the first 16 bytes of the SHA-256 of its preimage.
pub open spec fn binding_digest(secret: Seq<u8>, b: WiseOwlGuiSessionBinding) -> Seq<u8> {
    spec_sha256(binding_preimage(secret, b)).take(16)
}

/// Why a binding is refused for a session at a time, in the order checked.
pub open spec fn binding_check(
    secret: Seq<u8>,
    b: WiseOwlGuiSessionBinding,
    session_id: SessionId,
    requester: RequestedBy,
    runtime_snapshot_generation: u64,
    application_registry_generation: u64,
    settings_registry_generation: u64,
    now: u64,
) -> Result<(), GuiBindingError> {
    if b.spec_integrity_digest()@ != binding_digest(secret, b) {
        Err(GuiBindingError::InvalidIntegrity)
    } else if now > b.spec_expires_at() {
        Err(GuiBindingError::Expired)
    } else if b.spec_session_id() != session_id {
        Err(GuiBindingError::WrongSession)
    } else if b.spec_requester() != requester {
        Err(GuiBindingError::WrongRequester)
    } else if b.spec_runtime_snapshot_generation() != runtime_snapshot_generation {
        Err(GuiBindingError::StaleRuntime)
    } else if b.spec_application_registry_generation() != application_registry_generation
        || b.spec_settings_registry_generation() != settings_registry_generation {
        Err(GuiBindingError::RegistryChanged)
    } else {
        Ok(())
    }
}

/// Issues and verifies session bindings under a secret only it holds.
pub struct GuiSessionBindingAuthority {
    secret: [u8; 32],
    next_id: u64,
}

impl GuiSessionBindingAuthority {
    pub closed spec fn spec_secret(&self) -> Seq<u8> {
        self.secret@
    }

    pub closed spec fn spec_next_id(&self) -> u64 {
        self.next_id
    }

    pub fn new(secret: [u8; 32]) -> (a: Self)
        ensures
            a.spec_secret() == secret@,
            a.spec_next_id() == 1,
    {
        GuiSessionBindingAuthority { secret, next_id: 1 }
    }

    /// Binds the attested session for a time window, under a fresh identifier.
    pub fn issue(&mut self, verified: VerifiedGraphicalSession, issued_at: u64, expires_at: u64) -> (r: Option<
        WiseOwlGuiSessionBinding,
    >)
        ensures
            final(self).spec_secret() == old(self).spec_secret(),
            expires_at <= issued_at ==> r is None && final(self).spec_next_id() == old(self).spec_next_id(),
            expires_at > issued_at ==> (r matches Some(b) && {
                &&& b.spec_binding_id() == GuiSessionBindingId(old(self).spec_next_id())
                &&& b.spec_session_id() == verified.spec_session_id()
                &&& b.spec_requester() == verified.spec_requester()
                &&& b.spec_locale() == verified.spec_locale()
                &&& b.spec_runtime_snapshot_generation() == verified.spec_runtime_snapshot_generation()
                &&& b.spec_application_registry_generation()
                    == verified.spec_application_registry_generation()
                &&& b.spec_settings_registry_generation() == verified.spec_settings_registry_generation()
                &&& b.spec_issued_at() == issued_at
                &&& b.spec_expires_at() == expires_at
                &&& b.spec_integrity_digest()@ == binding_digest(old(self).spec_secret(), b)
                &&& final(self).spec_next_id() == (if old(self).spec_next_id() == u64::MAX {
                    u64::MAX
                } else {
                    (old(self).spec_next_id() + 1) as u64
                })
            }),
    {
        if expires_at <= issued_at {
            return None;
        }
        let binding_id = GuiSessionBindingId(self.next_id);
        self.next_id = if self.next_id == u64::MAX {
            u64::MAX
        } else {
            self.next_id + 1
        };
        let mut binding = WiseOwlGuiSessionBinding {
            binding_id,
            session_id: verified.session_id,
            requester: verified.requester,
            locale: verified.locale,
            runtime_snapshot_generation: verified.runtime_snapshot_generation,
            application_registry_generation: verified.application_registry_generation,
            settings_registry_generation: verified.settings_registry_generation,
            issued_at,
            expires_at,
            integrity_digest: [0u8; 16],
        };
        let digest = self.digest(&binding);
        binding.integrity_digest = digest;
        Some(binding)
    }

    /// Checks a binding against the session, requester and generations a
    /// request arrives with, at time `now`.
    pub fn verify(
        &self,
        binding: &WiseOwlGuiSessionBinding,
        session_id: SessionId,
        requester: RequestedBy,
        runtime_snapshot_generation: u64,
        application_registry_generation: u64,
        settings_registry_generation: u64,
        now: u64,
    ) -> (r: Result<(), GuiBindingError>)
        ensures
            r == binding_check(
                self.spec_secret(),
                *binding,
                session_id,
                requester,
                runtime_snapshot_generation,
                application_registry_generation,
                settings_registry_generation,
                now,
            ),
    {
        let expected = self.digest(binding);
        let mut same = true;
        let mut i: usize = 0;
        while i < 16
            invariant
                0 <= i <= 16,
                same <==> forall|k: int| 0 <= k < i ==> binding.integrity_digest@[k] == expected@[k],
            decreases 16 - i,
        {
            if binding.integrity_digest[i] != expected[i] {
                same = false;
            }
            i = i + 1;
        }
        if !same {
            proof {
                let k = choose|k: int| 0 <= k < 16 && binding.integrity_digest@[k] != expected@[k];
                assert(binding.integrity_digest@[k] != expected@[k]);
            }
            return Err(GuiBindingError::InvalidIntegrity);
        }
        assert(binding.integrity_digest@ =~= expected@);
        if now > binding.expires_at {
            return Err(GuiBindingError::Expired);
        }
        if binding.session_id != session_id {
            return Err(GuiBindingError::WrongSession);
        }
        if binding.requester != requester {
            return Err(GuiBindingError::WrongRequester);
        }
        if binding.runtime_snapshot_generation != runtime_snapshot_generation {
            return Err(GuiBindingError::StaleRuntime);
        }
        if binding.application_registry_generation != application_registry_generation
            || binding.settings_registry_generation != settings_registry_generation {
            return Err(GuiBindingError::RegistryChanged);
        }
        Ok(())
    }

    fn digest(&self, binding: &WiseOwlGuiSessionBinding) -> (d: [u8; 16])
        ensures
            d@ == binding_digest(self.spec_secret(), *binding),
    {
        let mut bytes: Vec<u8> = Vec::new();
        push_bytes(&mut bytes, BINDING_DIGEST_DOMAIN.as_slice());
        push_bytes(&mut bytes, self.secret.as_slice());
        push_u64(&mut bytes, binding.binding_id.0);
        push_u64(&mut bytes, binding.session_id.0);
        push_requester(&mut bytes, binding.requester);
        push_bytes(&mut bytes, binding.locale.as_str().as_bytes());
        push_u64(&mut bytes, binding.runtime_snapshot_generation);
        push_u64(&mut bytes, binding.application_registry_generation);
        push_u64(&mut bytes, binding.settings_registry_generation);
        push_u64(&mut bytes, binding.issued_at);
        push_u64(&mut bytes, binding.expires_at);
        assert(bytes@ =~= binding_preimage(self.spec_secret(), *binding));
        let hash = sha256(bytes.as_slice());
        let mut digest = [0u8; 16];
        let mut i: usize = 0;
        while i < 16
            invariant
                0 <= i <= 16,
                hash@.len() == 32,
                forall|k: int| 0 <= k < i ==> digest@[k] == hash@[k],
            decreases 16 - i,
        {
            digest[i] = hash[i];
            i = i + 1;
        }
        assert(digest@ =~= hash@.take(16));
        digest
    }
}

/// A binding that the authority issued verifies for its own session,
/// requester and generations at any time up to its expiry.
pub proof fn lemma_issued_binding_verifies(secret: Seq<u8>, b: WiseOwlGuiSessionBinding, now: u64)
    requires
        b.spec_integrity_digest()@ == binding_digest(secret, b),
        now <= b.spec_expires_at(),
    ensures
        binding_check(
            secret,
            b,
            b.spec_session_id(),
            b.spec_requester(),
            b.spec_runtime_snapshot_generation(),
            b.spec_application_registry_generation(),
            b.spec_settings_registry_generation(),
            now,
        ) is Ok,
{
}

/// A sealed receipt as the GUI shows it: codes and localization keys only.
#[derive(Debug, PartialEq, Eq)]
pub struct ReceiptSealedView {
    pub receipt_id: ActionReceiptId,
    pub action_id: CoordinatorActionId,
    pub terminal_status: ActionReceiptTerminalStatus,
    pub operation_label_key: String,
    pub target_label_key: String,
    pub readiness_observed: bool,
}

impl Clone for ReceiptSealedView {
    fn clone(&self) -> (r: Self)
        ensures
            r == *self,
    {
        ReceiptSealedView {
            receipt_id: self.receipt_id,
            action_id: self.action_id,
            terminal_status: self.terminal_status,
            operation_label_key: self.operation_label_key.clone(),
            target_label_key: self.target_label_key.clone(),
            readiness_observed: self.readiness_observed,
        }
    }
}

#[derive(Debug, PartialEq, Eq)]
pub enum WiseOwlGuiEventPayload {
    Presentation(CoordinatorPresentationUpdate),
    ReceiptSealed(ReceiptSealedView),
}

impl Clone for WiseOwlGuiEventPayload {
    fn clone(&self) -> (r: Self)
        ensures
            r == *self,
    {
        match self {
            WiseOwlGuiEventPayload::Presentation(u) => WiseOwlGuiEventPayload::Presentation(u.clone()),
            WiseOwlGuiEventPayload::ReceiptSealed(v) => WiseOwlGuiEventPayload::ReceiptSealed(v.clone()),
        }
    }
}

/// One event delivered to the GUI of a session.
#[derive(Debug, PartialEq, Eq)]
pub struct WiseOwlGuiEvent {
    pub protocol_version: u16,
    pub event_id: GuiEventId,
    pub conversation_id: ConversationId,
    pub session_id: SessionId,
    pub sequence: u64,
    pub terminal: bool,
    pub payload: WiseOwlGuiEventPayload,
}

impl Clone for WiseOwlGuiEvent {
    fn clone(&self) -> (r: Self)
        ensures
            r == *self,
    {
        WiseOwlGuiEvent {
            protocol_version: self.protocol_version,
            event_id: self.event_id,
            conversation_id: self.conversation_id,
            session_id: self.session_id,
            sequence: self.sequence,
            terminal: self.terminal,
            payload: self.payload.clone(),
        }
    }
}

#[derive(Debug, Clone, Copy, PartialEq, Eq, Structural)]
pub enum GuiEventError {
    QueueFull,
    WrongSession,
    InvalidSequence,
    UnknownEvent,
}

/// The first event of `q` from index `from` on that is for `session` and
/// newer than `after`.
pub open spec fn first_deliverable(q: Seq<WiseOwlGuiEvent>, session: SessionId, after: Option<GuiEventId>, from: int) -> Option<int>
    decreases q.len() - from,
{
    if from < 0 || from >= q.len() {
        None
    } else if q[from].session_id == session && (match after {
        None => true,
        Some(id) => q[from].event_id.0 > id.0,
    }) {
        Some(from)
    } else {
        first_deliverable(q, session, after, from + 1)
    }
}

/// The first event of `q` from index `from` on with this identifier.
pub open spec fn first_with_id(q: Seq<WiseOwlGuiEvent>, id: GuiEventId, from: int) -> Option<int>
    decreases q.len() - from,
{
    if from < 0 || from >= q.len() {
        None
    } else if q[from].event_id == id {
        Some(from)
    } else {
        first_with_id(q, id, from + 1)
    }
}

/// `q` without the events with this identifier, in order.
pub open spec fn without_event(q: Seq<WiseOwlGuiEvent>, id: GuiEventId) -> Seq<WiseOwlGuiEvent>
    decreases q.len(),
{
    if q.len() == 0 {
        q
    } else if q.last().event_id == id {
        without_event(q.drop_last(), id)
    } else {
        without_event(q.drop_last(), id).push(q.last())
    }
}

proof fn lemma_first_deliverable_bounds(q: Seq<WiseOwlGuiEvent>, session: SessionId, after: Option<GuiEventId>, from: int)
    ensures
        first_deliverable(q, session, after, from) matches Some(i) ==> from <= i < q.len()
            && q[i].session_id == session,
    decreases q.len() - from,
{
    if 0 <= from < q.len() {
        lemma_first_deliverable_bounds(q, session, after, from + 1);
    }
}

proof fn lemma_first_with_id_bounds(q: Seq<WiseOwlGuiEvent>, id: GuiEventId, from: int)
    ensures
        first_with_id(q, id, from) matches Some(i) ==> from <= i < q.len() && q[i].event_id == id,
    decreases q.len() - from,
{
    if 0 <= from < q.len() {
        lemma_first_with_id_bounds(q, id, from + 1);
    }
}

/// Removing events keeps the others, in order.
proof fn lemma_without_event_subsequence(q: Seq<WiseOwlGuiEvent>, id: GuiEventId)
    ensures
        without_event(q, id).len() <= q.len(),
        forall|k: int| 0 <= k < without_event(q, id).len() ==> q.contains(#[trigger] without_event(q, id)[k])
            && without_event(q, id)[k].event_id != id,
        forall|a: int, b: int|
            0 <= a < b < without_event(q, id).len() ==> exists|x: int, y: int|
                0 <= x < y < q.len() && q[x] == #[trigger] without_event(q, id)[a] && q[y]
                    == #[trigger] without_event(q, id)[b],
    decreases q.len(),
{
    if q.len() > 0 {
        let p = q.drop_last();
        lemma_without_event_subsequence(p, id);
        let w = without_event(q, id);
        let wp = without_event(p, id);
        assert forall|k: int| 0 <= k < w.len() implies q.contains(#[trigger] w[k]) && w[k].event_id != id by {
            if k < wp.len() {
                assert(w[k] == wp[k]);
                assert(p.contains(wp[k]));
                let x = choose|x: int| 0 <= x < p.len() && p[x] == wp[k];
                assert(q[x] == p[x]);
            } else {
                assert(w[k] == q.last());
                assert(q[q.len() - 1] == q.last());
            }
        }
        assert forall|a: int, b: int| 0 <= a < b < w.len() implies exists|x: int, y: int|
            0 <= x < y < q.len() && q[x] == #[trigger] w[a] && q[y] == #[trigger] w[b] by {
            if b < wp.len() {
                assert(w[a] == wp[a]);
                assert(w[b] == wp[b]);
                let (x, y) = choose|x: int, y: int| 0 <= x < y < p.len() && p[x] == wp[a] && p[y] == wp[b];
                assert(q[x] == p[x] && q[y] == p[y]);
            } else {
                assert(w[a] == wp[a]);
                assert(w[b] == q.last());
                let x = choose|x: int| 0 <= x < p.len() && p[x] == wp[a];
                assert(q[x] == p[x]);
                assert(q[q.len() - 1] == q.last());
            }
        }
    }
}

/// A bounded per-session delivery queue. Events stay until acknowledged;
/// acknowledgement is bound to the session, and a terminal event published
/// twice is delivered once.
pub struct GuiEventBroker<const EVENTS: usize> {
    queue: Vec<WiseOwlGuiEvent>,
    next_event_id: u64,
    last_sequence: u64,
    last_terminal: Option<(ConversationId, SessionId, u64, GuiEventId)>,
}

impl<const EVENTS: usize> GuiEventBroker<EVENTS> {
    pub closed spec fn spec_queue(&self) -> Seq<WiseOwlGuiEvent> {
        self.queue@
    }

    pub closed spec fn spec_next_event_id(&self) -> u64 {
        self.next_event_id
    }

    pub closed spec fn spec_last_sequence(&self) -> u64 {
        self.last_sequence
    }

    pub closed spec fn spec_last_terminal(&self) -> Option<(ConversationId, SessionId, u64, GuiEventId)> {
        self.last_terminal
    }

    /// The queue is bounded, and its events are ordered by strictly growing
    /// sequence, none newer than the last accepted one.
    pub open spec fn wf(&self) -> bool {
        &&& self.spec_queue().len() <= EVENTS
        &&& forall|k: int| 0 <= k < self.spec_queue().len() ==> (#[trigger] self.spec_queue()[k]).sequence <= self.spec_last_sequence()
        &&& forall|a: int, b: int|
            0 <= a < b < self.spec_queue().len() ==> (#[trigger] self.spec_queue()[a]).sequence < (#[trigger] self.spec_queue()[b]).sequence
    }

    /// What publishing decides before anything is queued: the identifier of
    /// the same terminal event published before, a refusal, or `None` when
    /// the event is queued.
    pub open spec fn publish_answer(
        &self,
        conversation_id: ConversationId,
        session_id: SessionId,
        sequence: u64,
        terminal: bool,
    ) -> Option<Result<GuiEventId, GuiEventError>> {
        let repeat = match self.spec_last_terminal() {
            Some((c, s, q, id)) => if terminal && c == conversation_id && s == session_id && q == sequence {
                Some(id)
            } else {
                None
            },
            None => None,
        };
        match repeat {
            Some(id) => Some(Ok(id)),
            None => if sequence <= self.spec_last_sequence() {
                Some(Err(GuiEventError::InvalidSequence))
            } else if self.spec_queue().len() >= EVENTS {
                Some(Err(GuiEventError::QueueFull))
            } else {
                None
            },
        }
    }

    /// `new` is `old` after publishing: unchanged when `publish_answer`
    /// answers, and otherwise with the event queued under the next identifier.
    pub open spec fn published(
        old: Self,
        new: Self,
        conversation_id: ConversationId,
        session_id: SessionId,
        sequence: u64,
        terminal: bool,
        payload: WiseOwlGuiEventPayload,
        r: Result<GuiEventId, GuiEventError>,
    ) -> bool {
        match old.publish_answer(conversation_id, session_id, sequence, terminal) {
            Some(answer) => {
                &&& r == answer
                &&& new.spec_queue() == old.spec_queue()
                &&& new.spec_next_event_id() == old.spec_next_event_id()
                &&& new.spec_last_sequence() == old.spec_last_sequence()
                &&& new.spec_last_terminal() == old.spec_last_terminal()
            },
            None => {
                let id = GuiEventId(old.spec_next_event_id());
                &&& r == Ok::<GuiEventId, GuiEventError>(id)
                &&& new.spec_queue() == old.spec_queue().push(
                    WiseOwlGuiEvent {
                        protocol_version: GUI_BRIDGE_PROTOCOL_VERSION,
                        event_id: id,
                        conversation_id,
                        session_id,
                        sequence,
                        terminal,
                        payload,
                    },
                )
                &&& new.spec_next_event_id() == (if old.spec_next_event_id() == u64::MAX {
                    u64::MAX
                } else {
                    (old.spec_next_event_id() + 1) as u64
                })
                &&& new.spec_last_sequence() == sequence
                &&& new.spec_last_terminal() == (if terminal {
                    Some((conversation_id, session_id, sequence, id))
                } else {
                    old.spec_last_terminal()
                })
            },
        }
    }

    pub fn new() -> (b: Self)
        ensures
            b.wf(),
            b.spec_queue() == Seq::<WiseOwlGuiEvent>::empty(),
            b.spec_next_event_id() == 1,
            b.spec_last_sequence() == 0,
            b.spec_last_terminal() is None,
    {
        GuiEventBroker { queue: Vec::new(), next_event_id: 1, last_sequence: 0, last_terminal: None }
    }

    /// Publishes a coordinator presentation update.
    pub fn publish_presentation(&mut self, update: CoordinatorPresentationUpdate) -> (r: Result<
        GuiEventId,
        GuiEventError,
    >)
        requires
            old(self).wf(),
        ensures
            final(self).wf(),
            Self::published(
                *old(self),
                *final(self),
                update.conversation_id,
                update.session_id,
                update.sequence,
                update.kind.spec_terminal(),
                WiseOwlGuiEventPayload::Presentation(update),
                r,
            ),
    {
        let terminal = update.terminal();
        let conversation_id = update.conversation_id;
        let session_id = update.session_id;
        let sequence = update.sequence;
        if terminal {
            if let Some((c, s, q, event_id)) = self.last_terminal {
                if c == conversation_id && s == session_id && q == sequence {
                    return Ok(event_id);
                }
            }
        }
        if sequence <= self.last_sequence {
            return Err(GuiEventError::InvalidSequence);
        }
        self.publish(conversation_id, session_id, sequence, terminal, WiseOwlGuiEventPayload::Presentation(update))
    }

    /// Publishes a sealed receipt; it ends its conversation.
    pub fn publish_receipt(
        &mut self,
        conversation_id: ConversationId,
        session_id: SessionId,
        sequence: u64,
        receipt: ReceiptSealedView,
    ) -> (r: Result<GuiEventId, GuiEventError>)
        requires
            old(self).wf(),
        ensures
            final(self).wf(),
            Self::published(
                *old(self),
                *final(self),
                conversation_id,
                session_id,
                sequence,
                true,
                WiseOwlGuiEventPayload::ReceiptSealed(receipt),
                r,
            ),
    {
        self.publish(conversation_id, session_id, sequence, true, WiseOwlGuiEventPayload::ReceiptSealed(receipt))
    }

    fn publish(
        &mut self,
        conversation_id: ConversationId,
        session_id: SessionId,
        sequence: u64,
        terminal: bool,
        payload: WiseOwlGuiEventPayload,
    ) -> (r: Result<GuiEventId, GuiEventError>)
        requires
            old(self).wf(),
        ensures
            final(self).wf(),
            Self::published(*old(self), *final(self), conversation_id, session_id, sequence, terminal, payload, r),
    {
        if terminal {
            if let Some((c, s, q, event_id)) = self.last_terminal {
                if c == conversation_id && s == session_id && q == sequence {
                    return Ok(event_id);
                }
            }
        }
        if sequence <= self.last_sequence {
            return Err(GuiEventError::InvalidSequence);
        }
        if self.queue.len() >= EVENTS {
            return Err(GuiEventError::QueueFull);
        }
        let event_id = GuiEventId(self.next_event_id);
        self.next_event_id = if self.next_event_id == u64::MAX {
            u64::MAX
        } else {
            self.next_event_id + 1
        };
        self.last_sequence = sequence;
        if terminal {
            self.last_terminal = Some((conversation_id, session_id, sequence, event_id));
        }
        self.queue.push(
            WiseOwlGuiEvent {
                protocol_version: GUI_BRIDGE_PROTOCOL_VERSION,
                event_id,
                conversation_id,
                session_id,
                sequence,
                terminal,
                payload,
            },
        );
        proof {
            let q = self.queue@;
            assert forall|a: int, b: int| 0 <= a < b < q.len() implies (#[trigger] q[a]).sequence < (#[trigger] q[b]).sequence by {
                if b == q.len() - 1 {
                    assert(q[a] == old(self).queue@[a]);
                } else {
                    assert(q[a] == old(self).queue@[a]);
                    assert(q[b] == old(self).queue@[b]);
                }
            }
            assert forall|k: int| 0 <= k < q.len() implies (#[trigger] q[k]).sequence <= self.last_sequence by {
                if k < q.len() - 1 {
                    assert(q[k] == old(self).queue@[k]);
                }
            }
        }
        Ok(event_id)
    }

    /// The first event still queued for the session that is newer than `after`.
    pub fn next_for_session(&self, session_id: SessionId, after: Option<GuiEventId>) -> (r: Option<WiseOwlGuiEvent>)
        ensures
            match first_deliverable(self.spec_queue(), session_id, after, 0) {
                None => r is None,
                Some(i) => r == Some(self.spec_queue()[i]),
            },
            r matches Some(e) ==> e.session_id == session_id,
    {
        proof {
            lemma_first_deliverable_bounds(self.queue@, session_id, after, 0);
        }
        let mut i: usize = 0;
        while i < self.queue.len()
            invariant
                0 <= i <= self.queue@.len(),
                first_deliverable(self.queue@, session_id, after, 0) == first_deliverable(
                    self.queue@,
                    session_id,
                    after,
                    i as int,
                ),
            decreases self.queue@.len() - i,
        {
            let event = &self.queue[i];
            let newer = match after {
                None => true,
                Some(id) => event.event_id.0 > id.0,
            };
            if event.session_id == session_id && newer {
                return Some(event.clone());
            }
            i = i + 1;
        }
        None
    }

    /// Removes an acknowledged event; only the event's own session may
    /// acknowledge it.
    pub fn acknowledge(&mut self, session_id: SessionId, event_id: GuiEventId) -> (r: Result<(), GuiEventError>)
        requires
            old(self).wf(),
        ensures
            final(self).wf(),
            final(self).spec_next_event_id() == old(self).spec_next_event_id(),
            final(self).spec_last_sequence() == old(self).spec_last_sequence(),
            final(self).spec_last_terminal() == old(self).spec_last_terminal(),
            match first_with_id(old(self).spec_queue(), event_id, 0) {
                None => r == Err::<(), GuiEventError>(GuiEventError::UnknownEvent) && final(self).spec_queue()
                    == old(self).spec_queue(),
                Some(i) => if old(self).spec_queue()[i].session_id != session_id {
                    r == Err::<(), GuiEventError>(GuiEventError::WrongSession) && final(self).spec_queue()
                        == old(self).spec_queue()
                } else {
                    r == Ok::<(), GuiEventError>(()) && final(self).spec_queue() == without_event(
                        old(self).spec_queue(),
                        event_id,
                    )
                },
            },
    {
        proof {
            lemma_first_with_id_bounds(self.queue@, event_id, 0);
        }
        let mut i: usize = 0;
        while i < self.queue.len() && self.queue[i].event_id != event_id
            invariant
                0 <= i <= self.queue@.len(),
                first_with_id(self.queue@, event_id, 0) == first_with_id(self.queue@, event_id, i as int),
            decreases self.queue@.len() - i,
        {
            i = i + 1;
        }
        if i >= self.queue.len() {
            return Err(GuiEventError::UnknownEvent);
        }
        if self.queue[i].session_id != session_id {
            return Err(GuiEventError::WrongSession);
        }
        let ghost original = self.queue@;
        let mut kept: Vec<WiseOwlGuiEvent> = Vec::new();
        let mut k: usize = 0;
        while k < self.queue.len()
            invariant
                original == self.queue@,
                0 <= k <= original.len(),
                kept@ == without_event(original.take(k as int), event_id),
            decreases original.len() - k,
        {
            assert(original.take(k as int + 1).drop_last() =~= original.take(k as int));
            assert(original.take(k as int + 1).last() == original[k as int]);
            if self.queue[k].event_id != event_id {
                kept.push(self.queue[k].clone());
            }
            k = k + 1;
        }
        assert(original.take(original.len() as int) =~= original);
        self.queue = kept;
        proof {
            lemma_without_event_subsequence(original, event_id);
            let q = self.queue@;
            assert forall|t: int| 0 <= t < q.len() implies (#[trigger] q[t]).sequence <= self.last_sequence by {
                assert(original.contains(q[t]));
            }
            assert forall|a: int, b: int| 0 <= a < b < q.len() implies (#[trigger] q[a]).sequence < (#[trigger] q[b]).sequence by {
                let (x, y) = choose|x: int, y: int| 0 <= x < y < original.len() && original[x] == q[a] && original[y] == q[b];
            }
        }
        Ok(())
    }

    pub fn len(&self) -> (n: usize)
        ensures
            n == self.spec_queue().len(),
    {
        self.queue.len()
    }
}

impl<const EVENTS: usize> Default for GuiEventBroker<EVENTS> {
    fn default() -> (b: Self)
        ensures
            b.wf(),
            b.spec_queue() == Seq::<WiseOwlGuiEvent>::empty(),
            b.spec_next_event_id() == 1,
            b.spec_last_sequence() == 0,
            b.spec_last_terminal() is None,
    {
        Self::new()
    }
}

/// Publishing the terminal event of a conversation again is answered with
/// the identifier it got the first time, and queues nothing.
pub proof fn lemma_terminal_publish_idempotent<const EVENTS: usize>(
    old: GuiEventBroker<EVENTS>,
    new: GuiEventBroker<EVENTS>,
    conversation_id: ConversationId,
    session_id: SessionId,
    sequence: u64,
    payload: WiseOwlGuiEventPayload,
    r: Result<GuiEventId, GuiEventError>,
    again: WiseOwlGuiEventPayload,
)
    requires
        GuiEventBroker::published(old, new, conversation_id, session_id, sequence, true, payload, r),
        r is Ok,
    ensures
        new.publish_answer(conversation_id, session_id, sequence, true) == Some(
            r,
        ),
{
}

#[derive(Debug, Clone, Copy, PartialEq, Eq, Structural)]
pub enum TrustedReadinessSource {
    DisplayServer,
    ApplicationRegistry,
    ControlPanel,
    ProcessLifecycle,
}

#[derive(Debug, Clone, Copy, PartialEq, Eq, Structural)]
pub enum TrustedGuiReadinessKind {
    ApplicationRegistered,
    FirstWindowRegistered,
    ApplicationReady,
    SettingsPageActivated,
    SettingsPageReady,
    ProcessExitedEarly,
}

/// Readiness evidence tied to the launch it belongs to.
#[derive(Debug, Clone, PartialEq, Eq)]
pub struct CorrelatedGuiReadinessEvidence {
    pub evidence_id: GuiReadinessEvidenceId,
    pub source: TrustedReadinessSource,
    pub source_identity: TypedIdentifier,
    pub execution_id: ExecutionId,
    pub session_id: SessionId,
    pub target_id: TypedIdentifier,
    pub source_generation: u64,
    pub sequence: u64,
    pub timestamp: u64,
    pub kind: TrustedGuiReadinessKind,
    correlation_token: LaunchCorrelationToken,
}

impl CorrelatedGuiReadinessEvidence {
    pub closed spec fn spec_evidence_id(&self) -> GuiReadinessEvidenceId {
        self.evidence_id
    }

    pub closed spec fn spec_source(&self) -> TrustedReadinessSource {
        self.source
    }

    pub closed spec fn spec_source_identity(&self) -> TypedIdentifier {
        self.source_identity
    }

    pub closed spec fn spec_execution_id(&self) -> ExecutionId {
        self.execution_id
    }

    pub closed spec fn spec_session_id(&self) -> SessionId {
        self.session_id
    }

    pub closed spec fn spec_target_id(&self) -> TypedIdentifier {
        self.target_id
    }

    pub closed spec fn spec_source_generation(&self) -> u64 {
        self.source_generation
    }

    pub closed spec fn spec_sequence(&self) -> u64 {
        self.sequence
    }

    pub closed spec fn spec_timestamp(&self) -> u64 {
        self.timestamp
    }

    pub closed spec fn spec_kind(&self) -> TrustedGuiReadinessKind {
        self.kind
    }

    pub closed spec fn spec_correlation_token(&self) -> LaunchCorrelationToken {
        self.correlation_token
    }

    pub fn correlation_token(&self) -> (t: LaunchCorrelationToken)
        ensures
            t == self.spec_correlation_token(),
    {
        self.correlation_token
    }

    pub(crate) fn from_authenticated_lifecycle(
        evidence_id: GuiReadinessEvidenceId,
        source: TrustedReadinessSource,
        source_identity: TypedIdentifier,
        execution_id: ExecutionId,
        session_id: SessionId,
        target_id: TypedIdentifier,
        source_generation: u64,
        sequence: u64,
        timestamp: u64,
        kind: TrustedGuiReadinessKind,
        correlation_token: LaunchCorrelationToken,
    ) -> (e: Self)
        ensures
            e.spec_evidence_id() == evidence_id,
            e.spec_source() == source,
            e.spec_source_identity() == source_identity,
            e.spec_execution_id() == execution_id,
            e.spec_session_id() == session_id,
            e.spec_target_id() == target_id,
            e.spec_source_generation() == source_generation,
            e.spec_sequence() == sequence,
            e.spec_timestamp() == timestamp,
            e.spec_kind() == kind,
            e.spec_correlation_token() == correlation_token,
    {
        CorrelatedGuiReadinessEvidence {
            evidence_id,
            source,
            source_identity,
            execution_id,
            session_id,
            target_id,
            source_generation,
            sequence,
            timestamp,
            kind,
            correlation_token,
        }
    }
}

#[derive(Debug, Clone, Copy, PartialEq, Eq, Structural)]
pub enum ReadinessCorrelationError {
    UnknownExecution,
    WrongCorrelation,
    WrongSession,
    WrongTarget,
    WrongSource,
    InvalidSequence,
}

/// Which trusted source may report which readiness: settings pages only
/// through the control panel, applications through the display server,
/// the application registry, or the process lifecycle.
pub open spec fn readiness_source_allows(
    source: TrustedReadinessSource,
    settings: bool,
    kind: TrustedGuiReadinessKind,
) -> bool {
    if settings {
        source is ControlPanel && (kind is SettingsPageActivated || kind is SettingsPageReady
            || kind is ProcessExitedEarly)
    } else {
        match source {
            TrustedReadinessSource::DisplayServer => kind is FirstWindowRegistered || kind is ApplicationReady,
            TrustedReadinessSource::ApplicationRegistry => kind is ApplicationRegistered || kind is ApplicationReady,
            TrustedReadinessSource::ProcessLifecycle => kind is ProcessExitedEarly,
            TrustedReadinessSource::ControlPanel => false,
        }
    }
}

fn source_allows(source: TrustedReadinessSource, settings: bool, kind: TrustedGuiReadinessKind) -> (r: bool)
    ensures
        r == readiness_source_allows(source, settings, kind),
{
    if settings {
        match source {
            TrustedReadinessSource::ControlPanel => match kind {
                TrustedGuiReadinessKind::SettingsPageActivated
                | TrustedGuiReadinessKind::SettingsPageReady
                | TrustedGuiReadinessKind::ProcessExitedEarly => true,
                _ => false,
            },
            _ => false,
        }
    } else {
        match source {
            TrustedReadinessSource::DisplayServer => match kind {
                TrustedGuiReadinessKind::FirstWindowRegistered | TrustedGuiReadinessKind::ApplicationReady => true,
                _ => false,
            },
            TrustedReadinessSource::ApplicationRegistry => match kind {
                TrustedGuiReadinessKind::ApplicationRegistered | TrustedGuiReadinessKind::ApplicationReady => true,
                _ => false,
            },
            TrustedReadinessSource::ProcessLifecycle => match kind {
                TrustedGuiReadinessKind::ProcessExitedEarly => true,
                _ => false,
            },
            TrustedReadinessSource::ControlPanel => false,
        }
    }
}

struct RegisteredExecution {
    execution_id: ExecutionId,
    session_id: SessionId,
    target_id: TypedIdentifier,
    token: LaunchCorrelationToken,
    last_sequence: u64,
    settings: bool,
}

/// The daemon's table of launches that readiness evidence may be tied to.
pub struct TrustedReadinessCorrelation<const N: usize> {
    executions: Vec<RegisteredExecution>,
}

impl<const N: usize> TrustedReadinessCorrelation<N> {
    pub closed spec fn spec_len(&self) -> nat {
        self.executions@.len()
    }

    pub closed spec fn spec_execution_id(&self, i: int) -> ExecutionId {
        self.executions@[i].execution_id
    }

    pub closed spec fn spec_session_id(&self, i: int) -> SessionId {
        self.executions@[i].session_id
    }

    pub closed spec fn spec_target(&self, i: int) -> Seq<char> {
        self.executions@[i].target_id@
    }

    pub closed spec fn spec_token(&self, i: int) -> LaunchCorrelationToken {
        self.executions@[i].token
    }

    pub closed spec fn spec_last_sequence(&self, i: int) -> u64 {
        self.executions@[i].last_sequence
    }

    pub closed spec fn spec_settings(&self, i: int) -> bool {
        self.executions@[i].settings
    }

    /// The first registration of an execution, from index `from` on.
    pub open spec fn first_registration(&self, execution_id: ExecutionId, from: int) -> Option<int>
        decreases self.spec_len() - from,
    {
        if from < 0 || from >= self.spec_len() {
            None
        } else if self.spec_execution_id(from) == execution_id {
            Some(from)
        } else {
            self.first_registration(execution_id, from + 1)
        }
    }

    /// What ingesting decides: the registration the evidence is tied to, or
    /// the first reason it is refused.
    pub open spec fn ingest_check(
        &self,
        source: TrustedReadinessSource,
        execution_id: ExecutionId,
        correlation_token: LaunchCorrelationToken,
        session_id: SessionId,
        target: Seq<char>,
        sequence: u64,
        kind: TrustedGuiReadinessKind,
    ) -> Result<int, ReadinessCorrelationError> {
        match self.first_registration(execution_id, 0) {
            None => Err(ReadinessCorrelationError::UnknownExecution),
            Some(i) => if self.spec_token(i).value() != correlation_token.value() {
                Err(ReadinessCorrelationError::WrongCorrelation)
            } else if self.spec_session_id(i) != session_id {
                Err(ReadinessCorrelationError::WrongSession)
            } else if self.spec_target(i) != target {
                Err(ReadinessCorrelationError::WrongTarget)
            } else if sequence <= self.spec_last_sequence(i) {
                Err(ReadinessCorrelationError::InvalidSequence)
            } else if !readiness_source_allows(source, self.spec_settings(i), kind) {
                Err(ReadinessCorrelationError::WrongSource)
            } else {
                Ok(i)
            },
        }
    }

    /// `new` holds the registrations of `old`, with the `i`-th one's last
    /// sequence set to `sequence`.
    pub open spec fn advanced(old: Self, new: Self, i: int, sequence: u64) -> bool {
        &&& new.spec_len() == old.spec_len()
        &&& forall|k: int|
            0 <= k < old.spec_len() ==> new.spec_execution_id(k) == old.spec_execution_id(k)
                && new.spec_session_id(k) == old.spec_session_id(k) && new.spec_target(k) == old.spec_target(k)
                && new.spec_token(k) == old.spec_token(k) && new.spec_settings(k) == old.spec_settings(k)
                && new.spec_last_sequence(k) == (if k == i {
                sequence
            } else {
                old.spec_last_sequence(k)
            })
    }

    /// `new` holds exactly the registrations of `old`.
    pub open spec fn same_table(old: Self, new: Self) -> bool {
        &&& new.spec_len() == old.spec_len()
        &&& forall|k: int|
            0 <= k < old.spec_len() ==> new.spec_execution_id(k) == old.spec_execution_id(k)
                && new.spec_session_id(k) == old.spec_session_id(k) && new.spec_target(k) == old.spec_target(k)
                && new.spec_token(k) == old.spec_token(k) && new.spec_settings(k) == old.spec_settings(k)
                && new.spec_last_sequence(k) == old.spec_last_sequence(k)
    }

    /// Which trusted source may report which readiness, for evidence whose
    /// execution, token, session and target match its launch and whose
    /// sequence is newer: for an application, the display server its first
    /// window or its readiness, the application registry its registration or
    /// its readiness, the process lifecycle an early exit, and the control
    /// panel nothing; for a settings page, only the control panel, its
    /// activation, its readiness or an early exit. Anything else is refused
    /// as coming from the wrong source.
    pub proof fn lemma_ingest_source_table(
        &self,
        source: TrustedReadinessSource,
        execution_id: ExecutionId,
        correlation_token: LaunchCorrelationToken,
        session_id: SessionId,
        target: Seq<char>,
        sequence: u64,
        kind: TrustedGuiReadinessKind,
    )
        requires
            self.first_registration(execution_id, 0) matches Some(i) && {
                &&& self.spec_token(i).value() == correlation_token.value()
                &&& self.spec_session_id(i) == session_id
                &&& self.spec_target(i) == target
                &&& sequence > self.spec_last_sequence(i)
            },
        ensures
            ({
                let i = self.first_registration(execution_id, 0).unwrap();
                let checked = self.ingest_check(source, execution_id, correlation_token, session_id, target, sequence, kind);
                let accepted = checked == Ok::<int, ReadinessCorrelationError>(i);
                &&& accepted || checked == Err::<int, ReadinessCorrelationError>(ReadinessCorrelationError::WrongSource)
                &&& !self.spec_settings(i) ==> (accepted <==> {
                    ||| source == TrustedReadinessSource::DisplayServer && (kind
                        == TrustedGuiReadinessKind::FirstWindowRegistered || kind
                        == TrustedGuiReadinessKind::ApplicationReady)
                    ||| source == TrustedReadinessSource::ApplicationRegistry && (kind
                        == TrustedGuiReadinessKind::ApplicationRegistered || kind
                        == TrustedGuiReadinessKind::ApplicationReady)
                    ||| source == TrustedReadinessSource::ProcessLifecycle && kind
                        == TrustedGuiReadinessKind::ProcessExitedEarly
                })
                &&& self.spec_settings(i) ==> (accepted <==> {
                    &&& source == TrustedReadinessSource::ControlPanel
                    &&& (kind == TrustedGuiReadinessKind::SettingsPageActivated || kind
                        == TrustedGuiReadinessKind::SettingsPageReady || kind
                        == TrustedGuiReadinessKind::ProcessExitedEarly)
                })
            }),
    {
    }

    pub fn new() -> (c: Self)
        ensures
            c.spec_len() == 0,
    {
        TrustedReadinessCorrelation { executions: Vec::new() }
    }

    /// Registers a launch; refused when the table is full.
    pub fn register_execution(
        &mut self,
        execution_id: ExecutionId,
        session_id: SessionId,
        target_id: TypedIdentifier,
        token: LaunchCorrelationToken,
        settings: bool,
    ) -> (r: Result<(), ReadinessCorrelationError>)
        ensures
            old(self).spec_len() >= N ==> r == Err::<(), ReadinessCorrelationError>(
                ReadinessCorrelationError::UnknownExecution,
            ) && Self::same_table(*old(self), *final(self)),
            old(self).spec_len() < N ==> {
                &&& r is Ok
                &&& final(self).spec_len() == old(self).spec_len() + 1
                &&& forall|k: int|
                    0 <= k < old(self).spec_len() ==> final(self).spec_execution_id(k) == old(self).spec_execution_id(k)
                        && final(self).spec_session_id(k) == old(self).spec_session_id(k) && final(self).spec_target(k)
                        == old(self).spec_target(k) && final(self).spec_token(k) == old(self).spec_token(k)
                        && final(self).spec_settings(k) == old(self).spec_settings(k)
                        && final(self).spec_last_sequence(k) == old(self).spec_last_sequence(k)
                &&& final(self).spec_execution_id(old(self).spec_len() as int) == execution_id
                &&& final(self).spec_session_id(old(self).spec_len() as int) == session_id
                &&& final(self).spec_target(old(self).spec_len() as int) == target_id@
                &&& final(self).spec_token(old(self).spec_len() as int) == token
                &&& final(self).spec_last_sequence(old(self).spec_len() as int) == 0
                &&& final(self).spec_settings(old(self).spec_len() as int) == settings
            },
    {
        if self.executions.len() >= N {
            return Err(ReadinessCorrelationError::UnknownExecution);
        }
        self.executions.push(
            RegisteredExecution { execution_id, session_id, target_id, token, last_sequence: 0, settings },
        );
        Ok(())
    }

    /// Ties evidence to its registered launch: the execution, token, session
    /// and target must match exactly, the sequence must be newer than the
    /// last accepted one, and the source must be allowed for the target.
    pub fn ingest(
        &mut self,
        evidence_id: GuiReadinessEvidenceId,
        source: TrustedReadinessSource,
        source_identity: TypedIdentifier,
        execution_id: ExecutionId,
        correlation_token: LaunchCorrelationToken,
        session_id: SessionId,
        target_id: TypedIdentifier,
        source_generation: u64,
        sequence: u64,
        timestamp: u64,
        kind: TrustedGuiReadinessKind,
    ) -> (r: Result<CorrelatedGuiReadinessEvidence, ReadinessCorrelationError>)
        ensures
            match old(self).ingest_check(source, execution_id, correlation_token, session_id, target_id@, sequence, kind) {
                Err(e) => r == Err::<CorrelatedGuiReadinessEvidence, ReadinessCorrelationError>(e)
                    && Self::same_table(*old(self), *final(self)),
                Ok(i) => Self::advanced(*old(self), *final(self), i, sequence) && (r matches Ok(ev) && {
                    &&& ev.spec_evidence_id() == evidence_id
                    &&& ev.spec_source() == source
                    &&& ev.spec_source_identity() == source_identity
                    &&& ev.spec_execution_id() == execution_id
                    &&& ev.spec_session_id() == session_id
                    &&& ev.spec_target_id() == target_id
                    &&& ev.spec_source_generation() == source_generation
                    &&& ev.spec_sequence() == sequence
                    &&& ev.spec_timestamp() == timestamp
                    &&& ev.spec_kind() == kind
                    &&& ev.spec_correlation_token() == correlation_token
                }),
            },
    {
        let mut i: usize = 0;
        while i < self.executions.len() && self.executions[i].execution_id != execution_id
            invariant
                0 <= i <= self.executions@.len(),
                self.first_registration(execution_id, 0) == self.first_registration(execution_id, i as int),
            decreases self.executions@.len() - i,
        {
            i = i + 1;
        }
        if i >= self.executions.len() {
            return Err(ReadinessCorrelationError::UnknownExecution);
        }
        let record = &self.executions[i];
        if !record.token.same_as(&correlation_token) {
            return Err(ReadinessCorrelationError::WrongCorrelation);
        }
        if record.session_id != session_id {
            return Err(ReadinessCorrelationError::WrongSession);
        }
        if !record.target_id.same_as(&target_id) {
            return Err(ReadinessCorrelationError::WrongTarget);
        }
        if sequence <= record.last_sequence {
            return Err(ReadinessCorrelationError::InvalidSequence);
        }
        if !source_allows(source, record.settings, kind) {
            return Err(ReadinessCorrelationError::WrongSource);
        }
        let mut updated = self.executions.remove(i);
        updated.last_sequence = sequence;
        self.executions.insert(i, updated);
        proof {
            assert forall|k: int| 0 <= k < old(self).spec_len() implies self.executions@[k].execution_id
                == old(self).executions@[k].execution_id && self.executions@[k].session_id
                == old(self).executions@[k].session_id && self.executions@[k].target_id@
                == old(self).executions@[k].target_id@ && self.executions@[k].token == old(
                self,
            ).executions@[k].token && self.executions@[k].settings == old(self).executions@[k].settings
                && self.executions@[k].last_sequence == (if k == i as int {
                sequence
            } else {
                old(self).executions@[k].last_sequence
            }) by {
                if k != i as int {
                    assert(self.executions@[k] == old(self).executions@[k]);
                }
            }
        }
        Ok(
            CorrelatedGuiReadinessEvidence {
                evidence_id,
                source,
                source_identity,
                execution_id,
                session_id,
                target_id,
                source_generation,
                sequence,
                timestamp,
                kind,
                correlation_token,
            },
        )
    }
}

impl<const N: usize> Default for TrustedReadinessCorrelation<N> {
    fn default() -> (c: Self)
        ensures
            c.spec_len() == 0,
    {
        Self::new()
    }
}

/// The UTF-8 encoding of a text takes at most four bytes per character.
proof fn lemma_encode_utf8_len_bound(chars: Seq<char>)
    ensures
        encode_utf8(chars).len() <= 4 * chars.len(),
    decreases chars.len(),
{
    if chars.len() > 0 {
        assert(encode_scalar(chars[0] as u32).len() <= 4);
        lemma_encode_utf8_len_bound(chars.drop_first());
    }
}

/// The deterministic self-check of the bridge: binds a session, publishes,
/// delivers and acknowledges a presentation, refuses its replay, correlates
/// application and settings readiness (refusing the wrong source) and
/// publishes a sealed receipt. It passes on every run.
pub fn run_deterministic_bridge_gate() -> (passed: bool)
    ensures
        passed,
{
    let mut authority = GuiSessionBindingAuthority::new([0x47; 32]);
    proof {
        reveal_strlit("en");
        lemma_encode_utf8_len_bound("en"@);
    }
    let Some(verified) = VerifiedGraphicalSession::from_authority(
        1,
        SessionId(7),
        RequestedBy::User(9),
        "en",
        11,
        1,
        1,
        1,
        1,
        10,
        20,
    ) else {
        return false;
    };
    let Some(binding) = authority.issue(verified, 10, 20) else {
        return false;
    };
    if authority.verify(&binding, SessionId(7), RequestedBy::User(9), 11, 1, 1, 11).is_err() {
        return false;
    }
    proof {
        reveal_strlit("wiseowl.bridge.dispatch");
        reveal_strlit("Opening Calculator…");
        assert(is_ascii_chars("wiseowl.bridge.dispatch"@));
        is_ascii_chars_encode_utf8("wiseowl.bridge.dispatch"@);
        lemma_encode_utf8_len_bound("Opening Calculator…"@);
    }
    let payload = match PublicPresentationPayload::new("wiseowl.bridge.dispatch", "Opening Calculator…") {
        Some(value) => value,
        None => return false,
    };
    let update = CoordinatorPresentationUpdate {
        conversation_id: ConversationId(2),
        request_id: PlannerRequestId(3),
        action_id: Some(CoordinatorActionId(4)),
        session_id: SessionId(7),
        sequence: 1,
        kind: CoordinatorPresentationKind::DispatchAccepted,
        payload,
    };
    let mut broker = GuiEventBroker::<2>::new();
    let Ok(event_id) = broker.publish_presentation(update) else {
        return false;
    };
    proof {
        reveal_strlit("wiseowl.bridge.awaiting");
        reveal_strlit("Waiting for readiness…");
        assert(is_ascii_chars("wiseowl.bridge.awaiting"@));
        is_ascii_chars_encode_utf8("wiseowl.bridge.awaiting"@);
        lemma_encode_utf8_len_bound("Waiting for readiness…"@);
    }
    let Some(awaiting_payload) = PublicPresentationPayload::new("wiseowl.bridge.awaiting", "Waiting for readiness…") else {
        return false;
    };
    if broker.next_for_session(SessionId(7), None).is_none() {
        return false;
    }
    let ghost delivered = broker.spec_queue();
    if broker.acknowledge(SessionId(7), event_id).is_err() {
        return false;
    }
    assert(without_event(delivered.drop_last(), event_id).len() == 0);
    if broker.publish_presentation(
        CoordinatorPresentationUpdate {
            conversation_id: ConversationId(2),
            request_id: PlannerRequestId(3),
            action_id: Some(CoordinatorActionId(4)),
            session_id: SessionId(7),
            sequence: 1,
            kind: CoordinatorPresentationKind::AwaitingOutcome,
            payload: awaiting_payload,
        },
    ).is_ok() {
        return false;
    }
    let token = LaunchCorrelationToken::new_for_test([0x33; 32]);
    proof {
        reveal_strlit("calculator");
        reveal_strlit("display-server");
        assert(is_ascii_chars("calculator"@));
        assert(is_ascii_chars("display-server"@));
        is_ascii_chars_encode_utf8("calculator"@);
        is_ascii_chars_encode_utf8("display-server"@);
    }
    let calculator = match TypedIdentifier::new("calculator") {
        Ok(value) => value,
        Err(_) => return false,
    };
    let display = match TypedIdentifier::new("display-server") {
        Ok(value) => value,
        Err(_) => return false,
    };
    let mut correlation = TrustedReadinessCorrelation::<2>::new();
    if correlation.register_execution(ExecutionId(1), SessionId(7), calculator.clone(), token, false).is_err()
        || correlation.ingest(
        GuiReadinessEvidenceId(1),
        TrustedReadinessSource::DisplayServer,
        display,
        ExecutionId(1),
        token,
        SessionId(7),
        calculator,
        1,
        1,
        12,
        TrustedGuiReadinessKind::ApplicationReady,
    ).is_err() {
        return false;
    }
    let settings_token = LaunchCorrelationToken::new_for_test([0x44; 32]);
    proof {
        reveal_strlit("display");
        reveal_strlit("control-panel");
        assert(is_ascii_chars("display"@));
        assert(is_ascii_chars("control-panel"@));
        is_ascii_chars_encode_utf8("display"@);
        is_ascii_chars_encode_utf8("control-panel"@);
    }
    let settings = match TypedIdentifier::new("display") {
        Ok(value) => value,
        Err(_) => return false,
    };
    let control_panel = match TypedIdentifier::new("control-panel") {
        Ok(value) => value,
        Err(_) => return false,
    };
    if correlation.register_execution(ExecutionId(2), SessionId(7), settings.clone(), settings_token, true).is_err() {
        return false;
    }
    assert(correlation.first_registration(ExecutionId(2), 1) == Some(1int));
    assert(correlation.first_registration(ExecutionId(2), 0) == Some(1int));
    let wrong_source = correlation.ingest(
        GuiReadinessEvidenceId(2),
        TrustedReadinessSource::DisplayServer,
        control_panel.clone(),
        ExecutionId(2),
        settings_token,
        SessionId(7),
        settings.clone(),
        1,
        1,
        13,
        TrustedGuiReadinessKind::SettingsPageActivated,
    );
    if !matches!(wrong_source, Err(ReadinessCorrelationError::WrongSource)) {
        return false;
    }
    assert(correlation.first_registration(ExecutionId(2), 1) == Some(1int));
    assert(correlation.first_registration(ExecutionId(2), 0) == Some(1int));
    if correlation.ingest(
        GuiReadinessEvidenceId(3),
        TrustedReadinessSource::ControlPanel,
        control_panel,
        ExecutionId(2),
        settings_token,
        SessionId(7),
        settings,
        1,
        1,
        14,
        TrustedGuiReadinessKind::SettingsPageActivated,
    ).is_err() {
        return false;
    }
    let receipt = ReceiptSealedView {
        receipt_id: ActionReceiptId::new([0x55; 16]),
        action_id: CoordinatorActionId(4),
        terminal_status: ActionReceiptTerminalStatus::CompletedReady,
        operation_label_key: "operation.open_application".to_owned(),
        target_label_key: "target.calculator".to_owned(),
        readiness_observed: true,
    };
    if broker.publish_receipt(ConversationId(2), SessionId(7), 2, receipt).is_err() {
        return false;
    }
    true
}

} // verus!
