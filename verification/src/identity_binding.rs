use vstd::prelude::*;

verus! {

/// How the brain is bound to the persistent identity that MemoryDB reports.
#[derive(Clone, Copy, Debug, PartialEq, Eq, Structural)]
pub enum BrainIdentityMode {
    Disconnected,
    GenericDegraded,
    Personalized,
    SuspendedMismatch,
}

/// What the brain reads of one identity status report: whether it validated,
/// whether it was in the ready state, and the identity it names.
#[derive(Clone, Copy, Debug, PartialEq, Eq)]
pub struct ObservedIdentity {
    pub validated: bool,
    pub ready: bool,
    pub fingerprint: [u8; 8],
    pub continuity_generation: u64,
}

/// Runtime-only binding to MemoryDB's validated persistent identity.
#[derive(Clone, Copy, Debug, PartialEq, Eq)]
pub struct BrainIdentityBinding {
    pub mode: BrainIdentityMode,
    pub fingerprint: Option<[u8; 8]>,
    pub continuity_generation: Option<u64>,
}

fn bytes8_eq(a: &[u8; 8], b: &[u8; 8]) -> (r: bool)
    ensures
        r == (*a == *b),
{
    let mut i: usize = 0;
    while i < 8
        invariant
            0 <= i <= 8,
            forall|j: int| 0 <= j < i ==> a[j] == b[j],
        decreases 8 - i,
    {
        if a[i] != b[i] {
            return false;
        }
        i = i + 1;
    }
    proof {
        broadcast use vstd::array::group_array_axioms;

        assert(*a =~= *b);
    }
    true
}

/// The binding after a disconnect.
pub open spec fn spec_disconnected(b: BrainIdentityBinding) -> BrainIdentityBinding {
    if b.mode == BrainIdentityMode::SuspendedMismatch {
        b
    } else {
        BrainIdentityBinding {
            mode: BrainIdentityMode::Disconnected,
            continuity_generation: None,
            ..b
        }
    }
}

/// The binding after an identity status (or its absence) was observed.
pub open spec fn spec_observe(b: BrainIdentityBinding, status: Option<ObservedIdentity>) -> BrainIdentityBinding {
    if b.mode == BrainIdentityMode::SuspendedMismatch {
        b
    } else if !(status matches Some(s) && s.validated && s.ready) {
        BrainIdentityBinding {
            mode: BrainIdentityMode::GenericDegraded,
            continuity_generation: None,
            ..b
        }
    } else if b.fingerprint matches Some(old) && old != status->0.fingerprint {
        BrainIdentityBinding {
            mode: BrainIdentityMode::SuspendedMismatch,
            continuity_generation: None,
            ..b
        }
    } else {
        BrainIdentityBinding {
            mode: BrainIdentityMode::Personalized,
            fingerprint: Some(status->0.fingerprint),
            continuity_generation: Some(status->0.continuity_generation),
        }
    }
}

impl Default for BrainIdentityBinding {
    fn default() -> (b: Self)
        ensures
            b.mode == BrainIdentityMode::Disconnected,
            b.fingerprint is None,
            b.continuity_generation is None,
    {
        BrainIdentityBinding {
            mode: BrainIdentityMode::Disconnected,
            fingerprint: None,
            continuity_generation: None,
        }
    }
}

impl BrainIdentityBinding {

    /// Disconnect invalidates cached authority but retains the observed ID solely for mismatch detection.
    pub fn disconnected(&mut self)
        ensures
            *final(self) == spec_disconnected(*old(self)),
    {
        if self.mode == BrainIdentityMode::SuspendedMismatch {
            return;
        }
        self.mode = BrainIdentityMode::Disconnected;
        self.continuity_generation = None;
    }

    pub fn observe(&mut self, status: Option<ObservedIdentity>)
        ensures
            *final(self) == spec_observe(*old(self), status),
    {
        if self.mode == BrainIdentityMode::SuspendedMismatch {
            return;
        }
        let status = match status {
            Some(s) => {
                if s.validated && s.ready {
                    s
                } else {
                    self.mode = BrainIdentityMode::GenericDegraded;
                    self.continuity_generation = None;
                    return;
                }
            },
            None => {
                self.mode = BrainIdentityMode::GenericDegraded;
                self.continuity_generation = None;
                return;
            },
        };
        if let Some(old) = self.fingerprint {
            if !bytes8_eq(&old, &status.fingerprint) {
                self.mode = BrainIdentityMode::SuspendedMismatch;
                self.continuity_generation = None;
                return;
            }
        }
        self.fingerprint = Some(status.fingerprint);
        self.continuity_generation = Some(status.continuity_generation);
        self.mode = BrainIdentityMode::Personalized;
    }

    pub fn fingerprint(&self) -> (r: Option<[u8; 8]>)
        ensures
            r == self.fingerprint,
    {
        self.fingerprint
    }
}

/// A suspended binding stays suspended, whatever is observed or disconnected.
pub proof fn lemma_suspension_is_permanent(b: BrainIdentityBinding, status: Option<ObservedIdentity>)
    requires
        b.mode == BrainIdentityMode::SuspendedMismatch,
    ensures
        spec_observe(b, status) == b,
        spec_disconnected(b) == b,
{
}

/// Once observed, the bound identity never changes: the fingerprint after any
/// step is either unset or equal to the one held before.
pub proof fn lemma_fingerprint_is_stable(b: BrainIdentityBinding, status: Option<ObservedIdentity>)
    requires
        b.fingerprint is Some,
    ensures
        spec_observe(b, status).fingerprint == b.fingerprint,
        spec_disconnected(b).fingerprint == b.fingerprint,
{
}

/// Personalized mode always carries the observed identity and its generation.
pub proof fn lemma_personalized_is_bound(b: BrainIdentityBinding, status: Option<ObservedIdentity>)
    requires
        spec_observe(b, status).mode == BrainIdentityMode::Personalized,
        b.mode != BrainIdentityMode::Personalized,
    ensures
        status matches Some(s) && s.validated && s.ready && spec_observe(b, status).fingerprint
            == Some(s.fingerprint) && spec_observe(b, status).continuity_generation == Some(
            s.continuity_generation,
        ),
{
}

/// Reconnecting with the same identity after a disconnect personalizes again,
/// and reconnecting with a different one suspends the binding.
pub proof fn lemma_rebind_same_or_suspend(
    b: BrainIdentityBinding,
    first: ObservedIdentity,
    second: ObservedIdentity,
)
    requires
        b.mode != BrainIdentityMode::SuspendedMismatch,
        first.validated && first.ready,
        second.validated && second.ready,
        b.fingerprint is None || b.fingerprint == Some(first.fingerprint),
    ensures
        ({
            let after = spec_observe(spec_disconnected(spec_observe(b, Some(first))), Some(second));
            &&& second.fingerprint == first.fingerprint ==> after.mode
                == BrainIdentityMode::Personalized
            &&& second.fingerprint != first.fingerprint ==> after.mode
                == BrainIdentityMode::SuspendedMismatch
        }),
{
}

} // verus!
