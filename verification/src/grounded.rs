use vstd::prelude::*;

verus! {

/// Where a grounded fact came from.
#[derive(Debug, Clone, Copy, PartialEq, Eq, Structural)]
pub enum ContextSourceKind {
    Session,
    System,
    Kv,
    WiseOwlStatus,
    Index,
    Foundation,
    Runtime,
    Request,
}

impl ContextSourceKind {
    /// The mask bit of a source: bit `i - 1` for the `i`-th variant.
    pub open spec fn spec_bit(self) -> u8 {
        match self {
            ContextSourceKind::Session => 1u8,
            ContextSourceKind::System => 2u8,
            ContextSourceKind::Kv => 4u8,
            ContextSourceKind::WiseOwlStatus => 8u8,
            ContextSourceKind::Index => 16u8,
            ContextSourceKind::Foundation => 32u8,
            ContextSourceKind::Runtime => 64u8,
            ContextSourceKind::Request => 128u8,
        }
    }

    pub open spec fn spec_name(self) -> &'static str {
        match self {
            ContextSourceKind::Session => "session",
            ContextSourceKind::System => "system",
            ContextSourceKind::Kv => "kv",
            ContextSourceKind::WiseOwlStatus => "wiseowl-status",
            ContextSourceKind::Index => "index",
            ContextSourceKind::Foundation => "foundation",
            ContextSourceKind::Runtime => "runtime",
            ContextSourceKind::Request => "request",
        }
    }

    pub fn as_str(self) -> (s: &'static str)
        ensures
            s == self.spec_name(),
    {
        match self {
            ContextSourceKind::Session => "session",
            ContextSourceKind::System => "system",
            ContextSourceKind::Kv => "kv",
            ContextSourceKind::WiseOwlStatus => "wiseowl-status",
            ContextSourceKind::Index => "index",
            ContextSourceKind::Foundation => "foundation",
            ContextSourceKind::Runtime => "runtime",
            ContextSourceKind::Request => "request",
        }
    }

    pub fn bit(self) -> (b: u8)
        ensures
            b == self.spec_bit(),
    {
        match self {
            ContextSourceKind::Session => 1u8,
            ContextSourceKind::System => 2u8,
            ContextSourceKind::Kv => 4u8,
            ContextSourceKind::WiseOwlStatus => 8u8,
            ContextSourceKind::Index => 16u8,
            ContextSourceKind::Foundation => 32u8,
            ContextSourceKind::Runtime => 64u8,
            ContextSourceKind::Request => 128u8,
        }
    }
}

/// A set of context sources, held as a bit mask.
#[derive(Debug, Clone, Copy, PartialEq, Eq, Default, Structural)]
pub struct ContextSourceMask(pub u8);

impl ContextSourceMask {
    pub open spec fn spec_has(self, kind: ContextSourceKind) -> bool {
        (self.0 & kind.spec_bit()) != 0
    }

    pub fn empty() -> (m: Self)
        ensures
            m.0 == 0,
    {
        ContextSourceMask(0)
    }

    pub fn add(&mut self, kind: ContextSourceKind)
        ensures
            final(self).0 == old(self).0 | kind.spec_bit(),
    {
        self.0 = self.0 | kind.bit();
    }

    pub fn has(self, kind: ContextSourceKind) -> (r: bool)
        ensures
            r == self.spec_has(kind),
    {
        self.0 & kind.bit() != 0
    }
}

/// After a source is added, the mask holds it and every source it held before.
pub proof fn lemma_mask_add(mask: ContextSourceMask, added: ContextSourceKind, other: ContextSourceKind)
    ensures
        ContextSourceMask(mask.0 | added.spec_bit()).spec_has(added),
        mask.spec_has(other) ==> ContextSourceMask(mask.0 | added.spec_bit()).spec_has(other),
        !mask.spec_has(other) && other != added ==> !ContextSourceMask(
            mask.0 | added.spec_bit(),
        ).spec_has(other),
{
    let m = mask.0;
    let a = added.spec_bit();
    let o = other.spec_bit();
    assert(a != 0);
    assert(a != 0 ==> ((m | a) & a) != 0) by (bit_vector);
    assert(((m & o) != 0) ==> (((m | a) & o) != 0)) by (bit_vector);
    if other != added {
        assert(a & o == 0) by (bit_vector)
            requires
                a == 1u8 || a == 2u8 || a == 4u8 || a == 8u8 || a == 16u8 || a == 32u8 || a == 64u8
                    || a == 128u8,
                o == 1u8 || o == 2u8 || o == 4u8 || o == 8u8 || o == 16u8 || o == 32u8 || o == 64u8
                    || o == 128u8,
                a != o,
        ;
        assert((((m & o) == 0) && ((a & o) == 0)) ==> (((m | a) & o) == 0)) by (bit_vector);
    }
}

/// The kind of a grounded fact.
#[derive(Debug, Clone, Copy, PartialEq, Eq, Structural)]
pub enum FactKind {
    UserName,
    UserId,
    SessionId,
    FirstLogin,
    FirstAfterUpgrade,
    Locale,
    OsVersion,
    CpuCores,
    RamMib,
    DeviceClass,
    ModelName,
    ScreenDims,
    NetworkOnline,
    IndexReady,
    IndexedDocCount,
    IndexGeneration,
    VisitCount,
    GreetingStyle,
    ShowMachineSummary,
    ShowIndexStatus,
    MemoryDbAvailable,
    MemoryDbHealthy,
    MemoryDbGeneration,
    MemoryDbRecordCount,
    IndexAvailable,
    IndexedSourceCount,
    LastCompletedGeneration,
    SystemGeneration,
    AssistantName,
    AssistantCodename,
    SunlightIdentity,
    FoundationRole,
    FoundationCapabilities,
    FoundationSafety,
    FoundationSecurityModel,
    FoundationRuntimeInfo,
    FoundationMemoryModel,
    RuntimeBootMode,
    RuntimeDesktopMode,
    RuntimeInstallerMode,
    RuntimeRecoveryMode,
    RuntimeBuild,
    RuntimeArchitecture,
    RuntimeTimezone,
    RuntimeUptimeSecs,
    RuntimeHostname,
    RuntimeSessionState,
    RuntimeNetworkAvailable,
    RuntimeInterfaceCount,
    RuntimeDisplayScale,
    ServiceSunlightd,
    ServiceSessiond,
    ServiceNetworkd,
    ServiceResolved,
    ServiceTimezone,
    ServiceTimed,
    ServicePowerd,
    ServiceThermald,
    ServiceDisplay,
}

/// Freshness categories (lower rank wins on conflict).
#[derive(Debug, Clone, Copy, PartialEq, Eq, Structural)]
pub enum FactFreshness {
    RequestLocal,
    CurrentSession,
    CurrentBoot,
    Persisted,
    ServiceSnapshot,
}

impl FactFreshness {
    pub open spec fn spec_rank(self) -> u8 {
        match self {
            FactFreshness::RequestLocal => 0,
            FactFreshness::CurrentSession => 1,
            FactFreshness::CurrentBoot => 2,
            FactFreshness::Persisted => 3,
            FactFreshness::ServiceSnapshot => 4,
        }
    }

    pub fn rank(self) -> (r: u8)
        ensures
            r == self.spec_rank(),
    {
        match self {
            FactFreshness::RequestLocal => 0,
            FactFreshness::CurrentSession => 1,
            FactFreshness::CurrentBoot => 2,
            FactFreshness::Persisted => 3,
            FactFreshness::ServiceSnapshot => 4,
        }
    }
}

/// One fact that the brain may ground an answer in.
#[derive(Debug, Clone, PartialEq, Eq)]
pub struct GroundedFact {
    pub kind: FactKind,
    pub source: ContextSourceKind,
    pub freshness: FactFreshness,
    pub confidence: u8,
    pub value: String,
}

/// The identity of the caller on whose behalf context is gathered.
#[derive(Debug, Clone, Copy, PartialEq, Eq, Structural)]
pub struct AuthIdentity {
    pub caller_pid: u64,
    pub caller_uid: u64,
    pub session_id: u64,
}

impl AuthIdentity {
    pub fn empty() -> (a: Self)
        ensures
            a.caller_pid == 0,
            a.caller_uid == 0,
            a.session_id == 0,
    {
        AuthIdentity { caller_pid: 0, caller_uid: 0, session_id: 0 }
    }

    /// Kernel badge stamps a real PID; root uid 0 is a valid subject.
    pub fn is_authenticated(&self) -> (r: bool)
        ensures
            r == (self.caller_pid != 0),
    {
        self.caller_pid != 0
    }
}

/// The user a request is about: the user it names, or else its caller.
pub open spec fn spec_subject_uid(user_id: u64, caller_uid: u64) -> u64 {
    if user_id != 0 {
        user_id
    } else {
        caller_uid
    }
}

/// Whether a greeting request may be answered: the kernel stamped a real
/// caller, and a request that names both a user and a caller names the same.
pub open spec fn spec_greeting_authorized(caller_pid: u64, user_id: u64, caller_uid: u64) -> bool {
    caller_pid != 0 && !(user_id != 0 && caller_uid != 0 && user_id != caller_uid)
}

/// The identity a greeting request is answered for, or nothing when the
/// caller is refused.
pub fn greeting_identity(caller_pid: u64, user_id: u64, caller_uid: u64, session_id: u64) -> (r: Option<AuthIdentity>)
    ensures
        r == (if spec_greeting_authorized(caller_pid, user_id, caller_uid) {
            Some(
                AuthIdentity {
                    caller_pid,
                    caller_uid: spec_subject_uid(user_id, caller_uid),
                    session_id,
                },
            )
        } else {
            None
        }),
{
    if caller_pid == 0 {
        return None;
    }
    if user_id != 0 && caller_uid != 0 && user_id != caller_uid {
        return None;
    }
    let subject = if user_id != 0 {
        user_id
    } else {
        caller_uid
    };
    Some(AuthIdentity { caller_pid, caller_uid: subject, session_id })
}

/// Whether fact `a` wins over fact `b`: fresher first, then at least as confident.
pub open spec fn spec_prefers(a: GroundedFact, b: GroundedFact) -> bool {
    if a.freshness.spec_rank() != b.freshness.spec_rank() {
        a.freshness.spec_rank() < b.freshness.spec_rank()
    } else {
        a.confidence >= b.confidence
    }
}

/// Prefer current (lower rank) freshness, then higher confidence; ties go to `a`.
pub fn prefer_fact<'a>(a: &'a GroundedFact, b: &'a GroundedFact) -> (r: &'a GroundedFact)
    ensures
        spec_prefers(*a, *b) ==> r == a,
        !spec_prefers(*a, *b) ==> r == b,
{
    let fa = a.freshness.rank();
    let fb = b.freshness.rank();
    if fa != fb {
        if fa < fb {
            a
        } else {
            b
        }
    } else if a.confidence >= b.confidence {
        a
    } else {
        b
    }
}

/// The preferred fact is never less fresh than the other one, and among equally
/// fresh facts it is never less confident.
pub proof fn lemma_preferred_is_freshest(a: GroundedFact, b: GroundedFact)
    ensures
        spec_prefers(a, b) ==> a.freshness.spec_rank() <= b.freshness.spec_rank(),
        !spec_prefers(a, b) ==> b.freshness.spec_rank() <= a.freshness.spec_rank(),
        a.freshness == b.freshness && spec_prefers(a, b) ==> a.confidence >= b.confidence,
        a.freshness == b.freshness && !spec_prefers(a, b) ==> b.confidence > a.confidence,
{
}


/// A source of grounded facts about the caller and the machine.
pub trait BrainContextSource {
    /// The kind of source this is.
    spec fn spec_kind(&self) -> ContextSourceKind;

    /// Whether the source reports itself available.
    spec fn spec_available(&self) -> bool;

    /// Whether `facts` are the facts this source yields under `budget` for `identity`.
    spec fn spec_yields(
        &self,
        budget: crate::context::BrainBudget,
        identity: AuthIdentity,
        facts: Seq<GroundedFact>,
    ) -> bool;

    fn source_kind(&self) -> (k: ContextSourceKind)
        ensures
            k == self.spec_kind(),
    ;

    fn is_available(&self) -> (r: bool)
        ensures
            r == self.spec_available(),
    ;

    fn collect(&self, budget: &crate::context::BrainBudget, identity: &AuthIdentity) -> (facts: Vec<GroundedFact>)
        ensures
            self.spec_yields(*budget, *identity, facts@),
    ;
}

/// The facts one source yielded, and whether it degraded.
pub struct ContextSourceResult {
    pub facts: Vec<GroundedFact>,
    pub source: ContextSourceKind,
    pub degraded: bool,
}

} // verus!
