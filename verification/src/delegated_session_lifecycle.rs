//! Bounded delegated-session lifecycle contracts: trusted launch contexts and
//! the lifecycle events the display server and the control panel report
//! about them.
use vstd::prelude::*;

use crate::action_intent::{SessionId, TypedIdentifier};
use crate::executor::{ExecutionId, LaunchCorrelationToken};

verus! {

pub const MAX_LAUNCH_CONTEXTS: usize = 16;

pub const MAX_LIFECYCLE_EVENTS_PER_EXECUTION: usize = 8;

pub const MAX_DISPLAY_SOURCE_CONNECTIONS: usize = 1;

pub const MAX_CONTROL_PANEL_SOURCE_CONNECTIONS: usize = 1;

pub const MAX_SOURCE_SEQUENCE_RECORDS: usize = 2;

pub const MAX_EXPIRED_CONTEXT_TOMBSTONES: usize = 32;

pub const MAX_COMPONENT_REGISTRATION_RECORDS: usize = 2;

#[derive(Debug, Clone, Copy, PartialEq, Eq, Structural)]
pub enum LifecycleTargetKind {
    Application,
    SettingsPage,
}

#[derive(Debug, Clone, Copy, PartialEq, Eq, Structural)]
pub enum DisplayLifecycleEventKind {
    ApplicationInstanceRegistered,
    FirstTopLevelSurfaceRegistered,
    ApplicationReadinessSatisfied,
    ApplicationExitedBeforeReadiness,
}

#[derive(Debug, Clone, Copy, PartialEq, Eq, Structural)]
pub enum ControlPanelLifecycleEventKind {
    InstanceRegistered,
    CanonicalPageActivated,
    CanonicalPageReady,
    ExitedBeforePageReady,
}

#[derive(Debug, Clone, Copy, PartialEq, Eq, Structural)]
pub enum LifecycleIngressError {
    UnauthorizedSource,
    ContextNotFound,
    ContextExpired,
    ContextConsumed,
    WrongSourceGeneration,
    WrongSession,
    WrongTarget,
    WrongApplicationInstance,
    DuplicateOrOutOfOrder,
    ReadinessContractNotSatisfied,
    NavigationRequestIsNotActivation,
    CapacityExhausted,
}

/// Opaque context delivered by a trusted launcher registration attachment.
/// It exposes no raw identifier, fields, Debug, Clone or Copy surface.
pub struct TrustedLaunchContext {
    opaque_id: u64,
    integrity_tag: u64,
}

impl TrustedLaunchContext {
    pub closed spec fn spec_opaque_id(&self) -> u64 {
        self.opaque_id
    }

    pub closed spec fn spec_integrity_tag(&self) -> u64 {
        self.integrity_tag
    }
}

/// One launch the executor registered: where it runs, what it targets, and
/// how far its lifecycle has got.
pub struct LaunchContextRecord {
    pub opaque_id: u64,
    pub integrity_tag: u64,
    pub execution_id: ExecutionId,
    pub canonical_target: TypedIdentifier,
    pub target_kind: LifecycleTargetKind,
    pub graphical_session: SessionId,
    pub application_instance: u64,
    pub registry_generation: u64,
    pub launch_attempt: u16,
    pub source_generation: u64,
    pub correlation_token: LaunchCorrelationToken,
    pub event_count: u8,
    pub expires_at: u64,
    pub terminal: bool,
}

/// The services that report lifecycle events.
#[derive(Clone, Copy, PartialEq, Eq, Structural)]
pub enum SourceService {
    Display,
    ControlPanel,
}

/// An authenticated source connection.
#[derive(Clone, Copy, PartialEq, Eq, Structural)]
pub struct SourceCapability {
    pub source: SourceService,
    pub generation: u64,
    pub nonce: u64,
}

/// The last sequence accepted from a source in its generation.
#[derive(Clone, Copy, PartialEq, Eq, Structural)]
pub struct SourceSequenceRecord {
    pub source: SourceService,
    pub generation: u64,
    pub last_sequence: u64,
}

/// A lifecycle event that passed every check.
#[derive(Debug, Clone, PartialEq, Eq)]
pub struct AcceptedLifecycleEvent {
    pub execution_id: ExecutionId,
    pub session_id: SessionId,
    pub target: TypedIdentifier,
    pub sequence: u64,
    pub source_generation: u64,
    pub display_kind: Option<DisplayLifecycleEventKind>,
    pub control_panel_kind: Option<ControlPanelLifecycleEventKind>,
    timestamp: u64,
    correlation_token: LaunchCorrelationToken,
}

impl AcceptedLifecycleEvent {
    pub closed spec fn spec_execution_id(&self) -> ExecutionId {
        self.execution_id
    }

    pub closed spec fn spec_session_id(&self) -> SessionId {
        self.session_id
    }

    pub closed spec fn spec_target(&self) -> Seq<char> {
        self.target@
    }

    pub closed spec fn spec_sequence(&self) -> u64 {
        self.sequence
    }

    pub closed spec fn spec_source_generation(&self) -> u64 {
        self.source_generation
    }

    pub closed spec fn spec_display_kind(&self) -> Option<DisplayLifecycleEventKind> {
        self.display_kind
    }

    pub closed spec fn spec_control_panel_kind(&self) -> Option<ControlPanelLifecycleEventKind> {
        self.control_panel_kind
    }

    pub closed spec fn spec_timestamp(&self) -> u64 {
        self.timestamp
    }

    pub closed spec fn spec_correlation_token(&self) -> LaunchCorrelationToken {
        self.correlation_token
    }
}

/// Left rotation of a 64-bit word.
pub open spec fn rotl64(x: u64, n: u64) -> u64
    recommends
        0 < n < 64,
{
    (x << n) | (x >> (64 - n) as u64)
}

fn rotate_left64(x: u64, n: u64) -> (r: u64)
    requires
        0 < n < 64,
    ensures
        r == rotl64(x, n),
{
    (x << n) | (x >> (64 - n))
}

/// The integrity tag of a launch context: its identifier mixed with the
/// execution, the session and the source generation it is bound to.
pub open spec fn context_tag(opaque_id: u64, execution_id: ExecutionId, session: SessionId, source_generation: u64) -> u64 {
    opaque_id ^ rotl64(execution_id.0, 17) ^ rotl64(session.0, 31) ^ rotl64(source_generation, 47)
        ^ 0x574f_4c43_5458_5631u64
}

/// The first context from `from` on with this identifier and tag.
pub open spec fn find_context(ctxs: Seq<LaunchContextRecord>, opaque_id: u64, tag: u64, from: int) -> Option<int>
    decreases ctxs.len() - from,
{
    if from < 0 || from >= ctxs.len() {
        None
    } else if ctxs[from].opaque_id == opaque_id && ctxs[from].integrity_tag == tag {
        Some(from)
    } else {
        find_context(ctxs, opaque_id, tag, from + 1)
    }
}

/// The first sequence record from `from` on for this source.
pub open spec fn find_sequence(seqs: Seq<SourceSequenceRecord>, source: SourceService, from: int) -> Option<int>
    decreases seqs.len() - from,
{
    if from < 0 || from >= seqs.len() {
        None
    } else if seqs[from].source == source {
        Some(from)
    } else {
        find_sequence(seqs, source, from + 1)
    }
}

/// Whether an event ends its launch's lifecycle.
pub open spec fn lifecycle_terminal(
    display_kind: Option<DisplayLifecycleEventKind>,
    control_panel_kind: Option<ControlPanelLifecycleEventKind>,
) -> bool {
    (display_kind matches Some(k) && (k is ApplicationReadinessSatisfied || k is ApplicationExitedBeforeReadiness))
        || (control_panel_kind matches Some(k) && (k is CanonicalPageReady || k is ExitedBeforePageReady))
}

pub open spec fn sat_inc64(x: u64) -> u64 {
    if x == u64::MAX {
        x
    } else {
        (x + 1) as u64
    }
}

pub open spec fn sat_inc8(x: u8) -> u8 {
    if x == u8::MAX {
        x
    } else {
        (x + 1) as u8
    }
}

/// Braind's bounded lifecycle adapters. Source capabilities are installed
/// only after the kernel authenticated the service at its endpoint; there is
/// no plugin or source registration interface.
pub struct BraindTrustedLifecycleAdapters {
    contexts: Vec<LaunchContextRecord>,
    sequences: Vec<SourceSequenceRecord>,
    accepted: Vec<AcceptedLifecycleEvent>,
    tombstones: Vec<u64>,
    next_id: u64,
    display: Option<SourceCapability>,
    control_panel: Option<SourceCapability>,
}

impl BraindTrustedLifecycleAdapters {
    pub closed spec fn spec_contexts(&self) -> Seq<LaunchContextRecord> {
        self.contexts@
    }

    pub closed spec fn spec_sequences(&self) -> Seq<SourceSequenceRecord> {
        self.sequences@
    }

    pub closed spec fn spec_accepted(&self) -> Seq<AcceptedLifecycleEvent> {
        self.accepted@
    }

    pub closed spec fn spec_tombstones(&self) -> Seq<u64> {
        self.tombstones@
    }

    pub closed spec fn spec_next_id(&self) -> u64 {
        self.next_id
    }

    pub closed spec fn spec_display(&self) -> Option<SourceCapability> {
        self.display
    }

    pub closed spec fn spec_control_panel(&self) -> Option<SourceCapability> {
        self.control_panel
    }

    /// Every table stays within its bound.
    pub open spec fn wf(&self) -> bool {
        &&& self.spec_contexts().len() <= MAX_LAUNCH_CONTEXTS
        &&& self.spec_sequences().len() <= MAX_SOURCE_SEQUENCE_RECORDS
        &&& self.spec_accepted().len() <= MAX_LAUNCH_CONTEXTS
        &&& self.spec_tombstones().len() <= MAX_EXPIRED_CONTEXT_TOMBSTONES
    }

    /// The checks of an event against its launch context, in order:
    /// consumed contexts, the context itself, its expiry, session, target,
    /// instance and source generation, and the readiness contract. `Ok`
    /// holds the context's index.
    pub open spec fn context_check(
        &self,
        source: SourceService,
        opaque_id: u64,
        integrity_tag: u64,
        session_id: SessionId,
        target: Seq<char>,
        application_instance: u64,
        source_generation: u64,
        now: u64,
        readiness_contract_failed: bool,
    ) -> Result<int, LifecycleIngressError> {
        if self.spec_tombstones().contains(opaque_id) {
            Err(LifecycleIngressError::ContextConsumed)
        } else {
            match find_context(self.spec_contexts(), opaque_id, integrity_tag, 0) {
                None => Err(LifecycleIngressError::ContextNotFound),
                Some(i) => {
                    let r = self.spec_contexts()[i];
                    if now > r.expires_at {
                        Err(LifecycleIngressError::ContextExpired)
                    } else if r.terminal {
                        Err(LifecycleIngressError::ContextConsumed)
                    } else if r.graphical_session != session_id {
                        Err(LifecycleIngressError::WrongSession)
                    } else if r.canonical_target@ != target || (source is Display && !(r.target_kind is Application))
                        || (source is ControlPanel && !(r.target_kind is SettingsPage)) {
                        Err(LifecycleIngressError::WrongTarget)
                    } else if r.application_instance != application_instance {
                        Err(LifecycleIngressError::WrongApplicationInstance)
                    } else if r.source_generation != source_generation {
                        Err(LifecycleIngressError::WrongSourceGeneration)
                    } else if readiness_contract_failed {
                        Err(LifecycleIngressError::ReadinessContractNotSatisfied)
                    } else {
                        Ok(i)
                    }
                },
            }
        }
    }

    /// The checks of an event against its source's sequence and the
    /// capacities, once its context `i` passed.
    pub open spec fn sequence_check(&self, i: int, source: SourceService, source_generation: u64, sequence: u64) -> Result<
        int,
        LifecycleIngressError,
    > {
        let found = find_sequence(self.spec_sequences(), source, 0);
        let (generation, last) = match found {
            Some(k) => (self.spec_sequences()[k].generation, self.spec_sequences()[k].last_sequence),
            None => (source_generation, 0u64),
        };
        if found is None && self.spec_sequences().len() >= MAX_SOURCE_SEQUENCE_RECORDS {
            Err(LifecycleIngressError::CapacityExhausted)
        } else if generation != source_generation {
            Err(LifecycleIngressError::WrongSourceGeneration)
        } else if sequence <= last {
            Err(LifecycleIngressError::DuplicateOrOutOfOrder)
        } else if self.spec_contexts()[i].event_count >= MAX_LIFECYCLE_EVENTS_PER_EXECUTION
            || self.spec_accepted().len() >= MAX_LAUNCH_CONTEXTS {
            Err(LifecycleIngressError::CapacityExhausted)
        } else {
            Ok(i)
        }
    }

    /// The sequence records once a source has been seen: the first event of
    /// a source that passes its context checks records the source, even when
    /// it is refused afterwards.
    pub open spec fn sequences_seen(&self, source: SourceService, source_generation: u64) -> Seq<SourceSequenceRecord> {
        if find_sequence(self.spec_sequences(), source, 0) is None && self.spec_sequences().len()
            < MAX_SOURCE_SEQUENCE_RECORDS {
            self.spec_sequences().push(SourceSequenceRecord { source, generation: source_generation, last_sequence: 0 })
        } else {
            self.spec_sequences()
        }
    }

    /// `new` is `old` after a refused event: nothing changed but, once the
    /// context checks passed, the source's sequence record.
    pub open spec fn refused(old: Self, new: Self, sequences: Seq<SourceSequenceRecord>) -> bool {
        &&& new.spec_contexts() == old.spec_contexts()
        &&& new.spec_sequences() == sequences
        &&& new.spec_accepted() == old.spec_accepted()
        &&& new.spec_tombstones() == old.spec_tombstones()
        &&& new.spec_next_id() == old.spec_next_id()
        &&& new.spec_display() == old.spec_display()
        &&& new.spec_control_panel() == old.spec_control_panel()
    }

    /// `new` is `old` after an accepted event for context `i`.
    pub open spec fn accepted_into(
        old: Self,
        new: Self,
        i: int,
        source: SourceService,
        opaque_id: u64,
        session_id: SessionId,
        target: Seq<char>,
        source_generation: u64,
        sequence: u64,
        now: u64,
        display_kind: Option<DisplayLifecycleEventKind>,
        control_panel_kind: Option<ControlPanelLifecycleEventKind>,
    ) -> bool {
        let r = old.spec_contexts()[i];
        let seen = old.sequences_seen(source, source_generation);
        let k = find_sequence(seen, source, 0)->0;
        let terminal = lifecycle_terminal(display_kind, control_panel_kind);
        let a = new.spec_accepted().last();
        &&& new.spec_contexts().len() == old.spec_contexts().len()
        &&& forall|j: int| 0 <= j < old.spec_contexts().len() && j != i ==> new.spec_contexts()[j] == old.spec_contexts()[j]
        &&& new.spec_contexts()[i] == (LaunchContextRecord { event_count: sat_inc8(r.event_count), terminal, ..r })
        &&& new.spec_sequences() == seen.update(k, SourceSequenceRecord { last_sequence: sequence, ..seen[k] })
        &&& new.spec_accepted().len() == old.spec_accepted().len() + 1
        &&& new.spec_accepted().drop_last() == old.spec_accepted()
        &&& a.spec_execution_id() == r.execution_id
        &&& a.spec_session_id() == session_id
        &&& a.spec_target() == target
        &&& a.spec_sequence() == sequence
        &&& a.spec_source_generation() == source_generation
        &&& a.spec_display_kind() == display_kind
        &&& a.spec_control_panel_kind() == control_panel_kind
        &&& a.spec_timestamp() == now
        &&& a.spec_correlation_token() == r.correlation_token
        &&& new.spec_next_id() == old.spec_next_id()
        &&& new.spec_display() == old.spec_display()
        &&& new.spec_control_panel() == old.spec_control_panel()
        &&& new.spec_tombstones() == (if terminal {
            if old.spec_tombstones().len() >= MAX_EXPIRED_CONTEXT_TOMBSTONES {
                old.spec_tombstones().drop_first().push(opaque_id)
            } else {
                old.spec_tombstones().push(opaque_id)
            }
        } else {
            old.spec_tombstones()
        })
    }
}

proof fn lemma_find_context_bounds(ctxs: Seq<LaunchContextRecord>, opaque_id: u64, tag: u64, from: int)
    ensures
        find_context(ctxs, opaque_id, tag, from) matches Some(i) ==> from <= i < ctxs.len()
            && ctxs[i].opaque_id == opaque_id && ctxs[i].integrity_tag == tag,
    decreases ctxs.len() - from,
{
    if 0 <= from < ctxs.len() {
        lemma_find_context_bounds(ctxs, opaque_id, tag, from + 1);
    }
}

proof fn lemma_find_sequence_bounds(seqs: Seq<SourceSequenceRecord>, source: SourceService, from: int)
    ensures
        find_sequence(seqs, source, from) matches Some(k) ==> from <= k < seqs.len() && seqs[k].source == source,
    decreases seqs.len() - from,
{
    if 0 <= from < seqs.len() {
        lemma_find_sequence_bounds(seqs, source, from + 1);
    }
}

/// A source found nowhere in a table is found at the end once pushed.
proof fn lemma_find_sequence_push(seqs: Seq<SourceSequenceRecord>, rec: SourceSequenceRecord, from: int)
    requires
        0 <= from <= seqs.len(),
        find_sequence(seqs, rec.source, from) is None,
    ensures
        find_sequence(seqs.push(rec), rec.source, from) == Some(seqs.len() as int),
    decreases seqs.len() - from,
{
    if from < seqs.len() {
        assert(seqs.push(rec)[from] == seqs[from]);
        lemma_find_sequence_push(seqs, rec, from + 1);
    }
}

impl BraindTrustedLifecycleAdapters {
    /// What ingesting an event did: refused it with the first failed check,
    /// or accepted it into context `i`.
    pub open spec fn ingested(
        old: Self,
        new: Self,
        source: SourceService,
        opaque_id: u64,
        integrity_tag: u64,
        session_id: SessionId,
        target: Seq<char>,
        application_instance: u64,
        source_generation: u64,
        sequence: u64,
        now: u64,
        readiness_contract_failed: bool,
        display_kind: Option<DisplayLifecycleEventKind>,
        control_panel_kind: Option<ControlPanelLifecycleEventKind>,
        r: Result<(), LifecycleIngressError>,
    ) -> bool {
        match old.context_check(
            source,
            opaque_id,
            integrity_tag,
            session_id,
            target,
            application_instance,
            source_generation,
            now,
            readiness_contract_failed,
        ) {
            Err(e) => r == Err::<(), LifecycleIngressError>(e) && Self::refused(old, new, old.spec_sequences()),
            Ok(i) => match old.sequence_check(i, source, source_generation, sequence) {
                Err(e) => r == Err::<(), LifecycleIngressError>(e) && Self::refused(
                    old,
                    new,
                    old.sequences_seen(source, source_generation),
                ),
                Ok(_) => r is Ok && Self::accepted_into(
                    old,
                    new,
                    i,
                    source,
                    opaque_id,
                    session_id,
                    target,
                    source_generation,
                    sequence,
                    now,
                    display_kind,
                    control_panel_kind,
                ),
            },
        }
    }

    /// What a display event did: refused without an authenticated display
    /// source of its generation, and otherwise ingested; readiness counts
    /// only when the registry's readiness contract is met.
    pub open spec fn display_outcome(
        old: Self,
        new: Self,
        opaque_id: u64,
        integrity_tag: u64,
        session_id: SessionId,
        target: Seq<char>,
        application_instance: u64,
        source_generation: u64,
        sequence: u64,
        now: u64,
        registry_readiness_satisfied: bool,
        kind: DisplayLifecycleEventKind,
        r: Result<(), LifecycleIngressError>,
    ) -> bool {
        match old.spec_display() {
            None => r == Err::<(), LifecycleIngressError>(LifecycleIngressError::UnauthorizedSource) && Self::refused(
                old,
                new,
                old.spec_sequences(),
            ),
            Some(cap) => if !(cap.source is Display) || cap.nonce == 0 || cap.generation != source_generation {
                r == Err::<(), LifecycleIngressError>(LifecycleIngressError::WrongSourceGeneration) && Self::refused(
                    old,
                    new,
                    old.spec_sequences(),
                )
            } else {
                Self::ingested(
                    old,
                    new,
                    SourceService::Display,
                    opaque_id,
                    integrity_tag,
                    session_id,
                    target,
                    application_instance,
                    source_generation,
                    sequence,
                    now,
                    kind is ApplicationReadinessSatisfied && !registry_readiness_satisfied,
                    Some(kind),
                    None,
                    r,
                )
            },
        }
    }

    /// What a control panel event did: refused without an authenticated
    /// control panel of its generation, a page activation counts only when
    /// the control panel says the page is the active one, and otherwise it
    /// is ingested.
    pub open spec fn control_panel_outcome(
        old: Self,
        new: Self,
        opaque_id: u64,
        integrity_tag: u64,
        session_id: SessionId,
        exact_page: Seq<char>,
        control_panel_instance: u64,
        source_generation: u64,
        sequence: u64,
        now: u64,
        authoritative_active_page: bool,
        kind: ControlPanelLifecycleEventKind,
        r: Result<(), LifecycleIngressError>,
    ) -> bool {
        match old.spec_control_panel() {
            None => r == Err::<(), LifecycleIngressError>(LifecycleIngressError::UnauthorizedSource) && Self::refused(
                old,
                new,
                old.spec_sequences(),
            ),
            Some(cap) => if !(cap.source is ControlPanel) || cap.nonce == 0 || cap.generation != source_generation {
                r == Err::<(), LifecycleIngressError>(LifecycleIngressError::WrongSourceGeneration) && Self::refused(
                    old,
                    new,
                    old.spec_sequences(),
                )
            } else if kind is CanonicalPageActivated && !authoritative_active_page {
                r == Err::<(), LifecycleIngressError>(LifecycleIngressError::NavigationRequestIsNotActivation)
                    && Self::refused(old, new, old.spec_sequences())
            } else {
                Self::ingested(
                    old,
                    new,
                    SourceService::ControlPanel,
                    opaque_id,
                    integrity_tag,
                    session_id,
                    exact_page,
                    control_panel_instance,
                    source_generation,
                    sequence,
                    now,
                    false,
                    None,
                    Some(kind),
                    r,
                )
            },
        }
    }

    pub fn new() -> (a: Self)
        ensures
            a.wf(),
            a.spec_contexts().len() == 0,
            a.spec_sequences().len() == 0,
            a.spec_accepted().len() == 0,
            a.spec_tombstones().len() == 0,
            a.spec_next_id() == 1,
            a.spec_display() is None,
            a.spec_control_panel() is None,
    {
        BraindTrustedLifecycleAdapters {
            contexts: Vec::new(),
            sequences: Vec::new(),
            accepted: Vec::new(),
            tombstones: Vec::new(),
            next_id: 1,
            display: None,
            control_panel: None,
        }
    }

    /// Installs the context of a launch the executor started. Refused when
    /// the table is full, the instance, attempt or source generation is zero,
    /// or the context would expire before it starts.
    pub fn register_launch_context(
        &mut self,
        execution_id: ExecutionId,
        canonical_target: TypedIdentifier,
        target_kind: LifecycleTargetKind,
        graphical_session: SessionId,
        application_instance: u64,
        registry_generation: u64,
        launch_attempt: u16,
        source_generation: u64,
        correlation_token: LaunchCorrelationToken,
        now: u64,
        expires_at: u64,
    ) -> (r: Result<TrustedLaunchContext, LifecycleIngressError>)
        requires
            old(self).wf(),
        ensures
            final(self).wf(),
            (old(self).spec_contexts().len() >= MAX_LAUNCH_CONTEXTS || application_instance == 0 || launch_attempt == 0
                || source_generation == 0 || expires_at <= now) ==> r is Err && r == Err::<
                TrustedLaunchContext,
                LifecycleIngressError,
            >(LifecycleIngressError::CapacityExhausted) && Self::refused(*old(self), *final(self), old(self).spec_sequences()),
            !(old(self).spec_contexts().len() >= MAX_LAUNCH_CONTEXTS || application_instance == 0 || launch_attempt == 0
                || source_generation == 0 || expires_at <= now) ==> (r matches Ok(c) && {
                let id = old(self).spec_next_id();
                let tag = context_tag(id, execution_id, graphical_session, source_generation);
                &&& c.spec_opaque_id() == id
                &&& c.spec_integrity_tag() == tag
                &&& final(self).spec_next_id() == sat_inc64(id)
                &&& final(self).spec_contexts() == old(self).spec_contexts().push(
                    LaunchContextRecord {
                        opaque_id: id,
                        integrity_tag: tag,
                        execution_id,
                        canonical_target,
                        target_kind,
                        graphical_session,
                        application_instance,
                        registry_generation,
                        launch_attempt,
                        source_generation,
                        correlation_token,
                        event_count: 0,
                        expires_at,
                        terminal: false,
                    },
                )
                &&& final(self).spec_sequences() == old(self).spec_sequences()
                &&& final(self).spec_accepted() == old(self).spec_accepted()
                &&& final(self).spec_tombstones() == old(self).spec_tombstones()
                &&& final(self).spec_display() == old(self).spec_display()
                &&& final(self).spec_control_panel() == old(self).spec_control_panel()
            }),
    {
        if self.contexts.len() >= MAX_LAUNCH_CONTEXTS || application_instance == 0 || launch_attempt == 0
            || source_generation == 0 || expires_at <= now {
            return Err(LifecycleIngressError::CapacityExhausted);
        }
        let opaque_id = self.next_id;
        self.next_id = if self.next_id == u64::MAX {
            u64::MAX
        } else {
            self.next_id + 1
        };
        let integrity_tag = opaque_id ^ rotate_left64(execution_id.0, 17) ^ rotate_left64(graphical_session.0, 31)
            ^ rotate_left64(source_generation, 47) ^ 0x574f_4c43_5458_5631u64;
        self.contexts.push(
            LaunchContextRecord {
                opaque_id,
                integrity_tag,
                execution_id,
                canonical_target,
                target_kind,
                graphical_session,
                application_instance,
                registry_generation,
                launch_attempt,
                source_generation,
                correlation_token,
                event_count: 0,
                expires_at,
                terminal: false,
            },
        );
        Ok(TrustedLaunchContext { opaque_id, integrity_tag })
    }

    /// Installs the display server's capability for a source generation.
    pub fn authenticate_display(&mut self, generation: u64) -> (r: Result<(), LifecycleIngressError>)
        requires
            old(self).wf(),
        ensures
            final(self).wf(),
            generation == 0 ==> r == Err::<(), LifecycleIngressError>(LifecycleIngressError::CapacityExhausted)
                && Self::refused(*old(self), *final(self), old(self).spec_sequences()),
            generation != 0 ==> r is Ok && final(self).spec_display() == Some(
                SourceCapability { source: SourceService::Display, generation, nonce: generation ^ 0x4453_504c_4159u64 },
            ) && final(self).spec_contexts() == old(self).spec_contexts() && final(self).spec_sequences() == old(
                self,
            ).spec_sequences() && final(self).spec_accepted() == old(self).spec_accepted()
                && final(self).spec_tombstones() == old(self).spec_tombstones() && final(self).spec_next_id() == old(
                self,
            ).spec_next_id() && final(self).spec_control_panel() == old(self).spec_control_panel(),
    {
        if generation == 0 {
            return Err(LifecycleIngressError::CapacityExhausted);
        }
        self.display = Some(
            SourceCapability { source: SourceService::Display, generation, nonce: generation ^ 0x4453_504c_4159u64 },
        );
        Ok(())
    }

    /// Installs the control panel's capability for a source generation.
    pub fn authenticate_control_panel(&mut self, generation: u64) -> (r: Result<(), LifecycleIngressError>)
        requires
            old(self).wf(),
        ensures
            final(self).wf(),
            generation == 0 ==> r == Err::<(), LifecycleIngressError>(LifecycleIngressError::CapacityExhausted)
                && Self::refused(*old(self), *final(self), old(self).spec_sequences()),
            generation != 0 ==> r is Ok && final(self).spec_control_panel() == Some(
                SourceCapability {
                    source: SourceService::ControlPanel,
                    generation,
                    nonce: generation ^ 0x4350_414e_454cu64,
                },
            ) && final(self).spec_contexts() == old(self).spec_contexts() && final(self).spec_sequences() == old(
                self,
            ).spec_sequences() && final(self).spec_accepted() == old(self).spec_accepted()
                && final(self).spec_tombstones() == old(self).spec_tombstones() && final(self).spec_next_id() == old(
                self,
            ).spec_next_id() && final(self).spec_display() == old(self).spec_display(),
    {
        if generation == 0 {
            return Err(LifecycleIngressError::CapacityExhausted);
        }
        self.control_panel = Some(
            SourceCapability {
                source: SourceService::ControlPanel,
                generation,
                nonce: generation ^ 0x4350_414e_454cu64,
            },
        );
        Ok(())
    }

    fn find_context_index(&self, opaque_id: u64, integrity_tag: u64) -> (r: Option<usize>)
        ensures
            r is None <==> find_context(self.spec_contexts(), opaque_id, integrity_tag, 0) is None,
            r matches Some(i) ==> i < self.contexts@.len() && find_context(
                self.spec_contexts(),
                opaque_id,
                integrity_tag,
                0,
            ) == Some(i as int),
    {
        proof {
            lemma_find_context_bounds(self.contexts@, opaque_id, integrity_tag, 0);
        }
        let mut i: usize = 0;
        while i < self.contexts.len() && !(self.contexts[i].opaque_id == opaque_id && self.contexts[i].integrity_tag
            == integrity_tag)
            invariant
                0 <= i <= self.contexts@.len(),
                find_context(self.contexts@, opaque_id, integrity_tag, 0) == find_context(
                    self.contexts@,
                    opaque_id,
                    integrity_tag,
                    i as int,
                ),
            decreases self.contexts@.len() - i,
        {
            i = i + 1;
        }
        if i >= self.contexts.len() {
            None
        } else {
            Some(i)
        }
    }

    #[verifier::spinoff_prover]
    #[verifier::rlimit(60)]
    fn ingest(
        &mut self,
        source: SourceService,
        context: &TrustedLaunchContext,
        session_id: SessionId,
        target: &TypedIdentifier,
        application_instance: u64,
        source_generation: u64,
        sequence: u64,
        now: u64,
        readiness_contract_failed: bool,
        display_kind: Option<DisplayLifecycleEventKind>,
        control_panel_kind: Option<ControlPanelLifecycleEventKind>,
    ) -> (r: Result<(), LifecycleIngressError>)
        requires
            old(self).wf(),
        ensures
            final(self).wf(),
            Self::ingested(
                *old(self),
                *final(self),
                source,
                context.spec_opaque_id(),
                context.spec_integrity_tag(),
                session_id,
                target@,
                application_instance,
                source_generation,
                sequence,
                now,
                readiness_contract_failed,
                display_kind,
                control_panel_kind,
                r,
            ),
    {
        let mut t: usize = 0;
        while t < self.tombstones.len()
            invariant
                *self == *old(self),
                old(self).wf(),
                0 <= t <= self.tombstones@.len(),
                forall|j: int| 0 <= j < t ==> self.tombstones@[j] != context.opaque_id,
            decreases self.tombstones@.len() - t,
        {
            if self.tombstones[t] == context.opaque_id {
                assert(self.tombstones@.contains(context.opaque_id)) by {
                    assert(self.tombstones@[t as int] == context.opaque_id);
                }
                return Err(LifecycleIngressError::ContextConsumed);
            }
            t = t + 1;
        }
        let i = match self.find_context_index(context.opaque_id, context.integrity_tag) {
            Some(i) => i,
            None => return Err(LifecycleIngressError::ContextNotFound),
        };
        let r = &self.contexts[i];
        if now > r.expires_at {
            return Err(LifecycleIngressError::ContextExpired);
        }
        if r.terminal {
            return Err(LifecycleIngressError::ContextConsumed);
        }
        if r.graphical_session != session_id {
            return Err(LifecycleIngressError::WrongSession);
        }
        if !r.canonical_target.same_as(target) || (source == SourceService::Display && r.target_kind
            != LifecycleTargetKind::Application) || (source == SourceService::ControlPanel && r.target_kind
            != LifecycleTargetKind::SettingsPage) {
            return Err(LifecycleIngressError::WrongTarget);
        }
        if r.application_instance != application_instance {
            return Err(LifecycleIngressError::WrongApplicationInstance);
        }
        if r.source_generation != source_generation {
            return Err(LifecycleIngressError::WrongSourceGeneration);
        }
        if readiness_contract_failed {
            return Err(LifecycleIngressError::ReadinessContractNotSatisfied);
        }
        let ghost start = *self;
        proof {
            lemma_find_sequence_bounds(self.sequences@, source, 0);
        }
        let mut k: usize = 0;
        while k < self.sequences.len() && self.sequences[k].source != source
            invariant
                0 <= k <= self.sequences@.len(),
                find_sequence(self.sequences@, source, 0) == find_sequence(self.sequences@, source, k as int),
            decreases self.sequences@.len() - k,
        {
            k = k + 1;
        }
        if k >= self.sequences.len() {
            if self.sequences.len() >= MAX_SOURCE_SEQUENCE_RECORDS {
                return Err(LifecycleIngressError::CapacityExhausted);
            }
            let fresh = SourceSequenceRecord { source, generation: source_generation, last_sequence: 0 };
            proof {
                lemma_find_sequence_push(self.sequences@, fresh, 0);
            }
            self.sequences.push(fresh);
        }
        proof {
            assert(self.sequences@ == start.sequences_seen(source, source_generation));
            assert(find_sequence(self.sequences@, source, 0) == Some(k as int));
        }
        let rec = self.sequences[k];
        if rec.generation != source_generation {
            return Err(LifecycleIngressError::WrongSourceGeneration);
        }
        if sequence <= rec.last_sequence {
            return Err(LifecycleIngressError::DuplicateOrOutOfOrder);
        }
        if self.contexts[i].event_count as usize >= MAX_LIFECYCLE_EVENTS_PER_EXECUTION || self.accepted.len()
            >= MAX_LAUNCH_CONTEXTS {
            return Err(LifecycleIngressError::CapacityExhausted);
        }
        self.sequences.set(k, SourceSequenceRecord { last_sequence: sequence, ..rec });
        let mut record = self.contexts.remove(i);
        record.event_count = if record.event_count == u8::MAX {
            u8::MAX
        } else {
            record.event_count + 1
        };
        let terminal = match display_kind {
            Some(DisplayLifecycleEventKind::ApplicationReadinessSatisfied) => true,
            Some(DisplayLifecycleEventKind::ApplicationExitedBeforeReadiness) => true,
            _ => false,
        } || match control_panel_kind {
            Some(ControlPanelLifecycleEventKind::CanonicalPageReady) => true,
            Some(ControlPanelLifecycleEventKind::ExitedBeforePageReady) => true,
            _ => false,
        };
        record.terminal = terminal;
        let execution_id = record.execution_id;
        let correlation_token = record.correlation_token;
        self.contexts.insert(i, record);
        self.accepted.push(
            AcceptedLifecycleEvent {
                execution_id,
                session_id,
                target: target.clone(),
                sequence,
                source_generation,
                display_kind,
                control_panel_kind,
                timestamp: now,
                correlation_token,
            },
        );
        if terminal {
            if self.tombstones.len() >= MAX_EXPIRED_CONTEXT_TOMBSTONES {
                self.tombstones.remove(0);
            }
            self.tombstones.push(context.opaque_id);
        }
        proof {
            assert(self.accepted@.drop_last() =~= start.accepted@);
            assert forall|j: int| 0 <= j < start.contexts@.len() && j != i implies self.contexts@[j]
                == start.contexts@[j] by {}
            if terminal {
                if start.tombstones@.len() >= MAX_EXPIRED_CONTEXT_TOMBSTONES {
                    assert(self.tombstones@ =~= start.tombstones@.drop_first().push(context.opaque_id));
                }
            }
        }
        Ok(())
    }

    /// A display event for a registered launch.
    pub fn ingest_display(
        &mut self,
        context: &TrustedLaunchContext,
        session_id: SessionId,
        target: &TypedIdentifier,
        application_instance: u64,
        source_generation: u64,
        sequence: u64,
        now: u64,
        registry_readiness_satisfied: bool,
        kind: DisplayLifecycleEventKind,
    ) -> (r: Result<(), LifecycleIngressError>)
        requires
            old(self).wf(),
        ensures
            final(self).wf(),
            Self::display_outcome(
                *old(self),
                *final(self),
                context.spec_opaque_id(),
                context.spec_integrity_tag(),
                session_id,
                target@,
                application_instance,
                source_generation,
                sequence,
                now,
                registry_readiness_satisfied,
                kind,
                r,
            ),
    {
        let cap = match self.display {
            Some(cap) => cap,
            None => return Err(LifecycleIngressError::UnauthorizedSource),
        };
        if cap.source != SourceService::Display || cap.nonce == 0 || cap.generation != source_generation {
            return Err(LifecycleIngressError::WrongSourceGeneration);
        }
        let readiness_failed = match kind {
            DisplayLifecycleEventKind::ApplicationReadinessSatisfied => !registry_readiness_satisfied,
            _ => false,
        };
        self.ingest(
            SourceService::Display,
            context,
            session_id,
            target,
            application_instance,
            source_generation,
            sequence,
            now,
            readiness_failed,
            Some(kind),
            None,
        )
    }

    /// A control panel event for a registered settings launch.
    pub fn ingest_control_panel(
        &mut self,
        context: &TrustedLaunchContext,
        session_id: SessionId,
        exact_page: &TypedIdentifier,
        control_panel_instance: u64,
        source_generation: u64,
        sequence: u64,
        now: u64,
        authoritative_active_page: bool,
        kind: ControlPanelLifecycleEventKind,
    ) -> (r: Result<(), LifecycleIngressError>)
        requires
            old(self).wf(),
        ensures
            final(self).wf(),
            Self::control_panel_outcome(
                *old(self),
                *final(self),
                context.spec_opaque_id(),
                context.spec_integrity_tag(),
                session_id,
                exact_page@,
                control_panel_instance,
                source_generation,
                sequence,
                now,
                authoritative_active_page,
                kind,
                r,
            ),
    {
        let cap = match self.control_panel {
            Some(cap) => cap,
            None => return Err(LifecycleIngressError::UnauthorizedSource),
        };
        if cap.source != SourceService::ControlPanel || cap.nonce == 0 || cap.generation != source_generation {
            return Err(LifecycleIngressError::WrongSourceGeneration);
        }
        if let ControlPanelLifecycleEventKind::CanonicalPageActivated = kind {
            if !authoritative_active_page {
                return Err(LifecycleIngressError::NavigationRequestIsNotActivation);
            }
        }
        self.ingest(
            SourceService::ControlPanel,
            context,
            session_id,
            exact_page,
            control_panel_instance,
            source_generation,
            sequence,
            now,
            false,
            None,
            Some(kind),
        )
    }

    /// The display endpoint: the session, target and instance come from the
    /// registered context the opaque fields name, never from the wire.
    pub fn ingest_authenticated_display_wire(
        &mut self,
        source_generation: u64,
        opaque_id: u64,
        integrity_tag: u64,
        sequence: u64,
        now: u64,
        kind: DisplayLifecycleEventKind,
    ) -> (r: Result<(), LifecycleIngressError>)
        requires
            old(self).wf(),
        ensures
            final(self).wf(),
            match find_context(old(self).spec_contexts(), opaque_id, integrity_tag, 0) {
                None => r == Err::<(), LifecycleIngressError>(LifecycleIngressError::ContextNotFound) && Self::refused(
                    *old(self),
                    *final(self),
                    old(self).spec_sequences(),
                ),
                Some(j) => Self::display_outcome(
                    *old(self),
                    *final(self),
                    opaque_id,
                    integrity_tag,
                    old(self).spec_contexts()[j].graphical_session,
                    old(self).spec_contexts()[j].canonical_target@,
                    old(self).spec_contexts()[j].application_instance,
                    source_generation,
                    sequence,
                    now,
                    true,
                    kind,
                    r,
                ),
            },
    {
        let j = match self.find_context_index(opaque_id, integrity_tag) {
            Some(j) => j,
            None => return Err(LifecycleIngressError::ContextNotFound),
        };
        let session = self.contexts[j].graphical_session;
        let target = self.contexts[j].canonical_target.clone();
        let instance = self.contexts[j].application_instance;
        let context = TrustedLaunchContext { opaque_id, integrity_tag };
        self.ingest_display(&context, session, &target, instance, source_generation, sequence, now, true, kind)
    }

    /// The control panel endpoint: the session, page and instance come from
    /// the registered settings launch, never from a title or navigation payload.
    pub fn ingest_authenticated_control_panel_wire(
        &mut self,
        source_generation: u64,
        opaque_id: u64,
        integrity_tag: u64,
        sequence: u64,
        now: u64,
        kind: ControlPanelLifecycleEventKind,
    ) -> (r: Result<(), LifecycleIngressError>)
        requires
            old(self).wf(),
        ensures
            final(self).wf(),
            match find_context(old(self).spec_contexts(), opaque_id, integrity_tag, 0) {
                None => r == Err::<(), LifecycleIngressError>(LifecycleIngressError::ContextNotFound) && Self::refused(
                    *old(self),
                    *final(self),
                    old(self).spec_sequences(),
                ),
                Some(j) => Self::control_panel_outcome(
                    *old(self),
                    *final(self),
                    opaque_id,
                    integrity_tag,
                    old(self).spec_contexts()[j].graphical_session,
                    old(self).spec_contexts()[j].canonical_target@,
                    old(self).spec_contexts()[j].application_instance,
                    source_generation,
                    sequence,
                    now,
                    true,
                    kind,
                    r,
                ),
            },
    {
        let j = match self.find_context_index(opaque_id, integrity_tag) {
            Some(j) => j,
            None => return Err(LifecycleIngressError::ContextNotFound),
        };
        let session = self.contexts[j].graphical_session;
        let page = self.contexts[j].canonical_target.clone();
        let instance = self.contexts[j].application_instance;
        let context = TrustedLaunchContext { opaque_id, integrity_tag };
        self.ingest_control_panel(&context, session, &page, instance, source_generation, sequence, now, true, kind)
    }

    /// Takes the oldest accepted event, if any.
    pub fn next_accepted(&mut self) -> (r: Option<AcceptedLifecycleEvent>)
        requires
            old(self).wf(),
        ensures
            final(self).wf(),
            old(self).spec_accepted().len() == 0 ==> r is None && final(self).spec_accepted() == old(
                self,
            ).spec_accepted(),
            old(self).spec_accepted().len() > 0 ==> r == Some(old(self).spec_accepted()[0])
                && final(self).spec_accepted() == old(self).spec_accepted().drop_first(),
            final(self).spec_contexts() == old(self).spec_contexts(),
            final(self).spec_sequences() == old(self).spec_sequences(),
            final(self).spec_tombstones() == old(self).spec_tombstones(),
            final(self).spec_next_id() == old(self).spec_next_id(),
            final(self).spec_display() == old(self).spec_display(),
            final(self).spec_control_panel() == old(self).spec_control_panel(),
    {
        if self.accepted.len() == 0 {
            return None;
        }
        let e = self.accepted.remove(0);
        assert(self.accepted@ =~= old(self).accepted@.drop_first());
        Some(e)
    }
}

impl Default for BraindTrustedLifecycleAdapters {
    fn default() -> (a: Self)
        ensures
            a.wf(),
            a.spec_contexts().len() == 0,
            a.spec_next_id() == 1,
            a.spec_display() is None,
            a.spec_control_panel() is None,
    {
        Self::new()
    }
}

/// A launch whose lifecycle ended accepts no further event: once a context
/// is terminal, every event naming it is refused.
pub proof fn lemma_terminal_context_refuses(
    a: BraindTrustedLifecycleAdapters,
    source: SourceService,
    opaque_id: u64,
    integrity_tag: u64,
    session_id: SessionId,
    target: Seq<char>,
    application_instance: u64,
    source_generation: u64,
    now: u64,
    readiness_contract_failed: bool,
)
    requires
        find_context(a.spec_contexts(), opaque_id, integrity_tag, 0) matches Some(i) && a.spec_contexts()[i].terminal,
    ensures
        a.context_check(
            source,
            opaque_id,
            integrity_tag,
            session_id,
            target,
            application_instance,
            source_generation,
            now,
            readiness_contract_failed,
        ) is Err,
{
}

} // verus!
