use vstd::prelude::*;

use crate::error::BrainError;

verus! {

/// A capability that a caller of the brain may hold.
#[derive(Debug, Clone, Copy, PartialEq, Eq, Hash, Structural)]
pub enum BrainCapability {
    InvokeWiseOwlBrain,
    InvokeGreetingProvider,
    InspectOwnBrainContext,
    InspectAnyBrainContext,
    AdminBrain,
}

/// The mask bit that stands for `AdminBrain`, which implies every capability.
pub const ADMIN_BIT: u64 = 16;

impl BrainCapability {
    /// The single mask bit of a capability: bit `i` for the `i`-th variant.
    pub open spec fn spec_bit(self) -> u64 {
        match self {
            BrainCapability::InvokeWiseOwlBrain => 1u64,
            BrainCapability::InvokeGreetingProvider => 2u64,
            BrainCapability::InspectOwnBrainContext => 4u64,
            BrainCapability::InspectAnyBrainContext => 8u64,
            BrainCapability::AdminBrain => 16u64,
        }
    }

    pub open spec fn spec_name(self) -> &'static str {
        match self {
            BrainCapability::InvokeWiseOwlBrain => "invoke-wiseowl-brain",
            BrainCapability::InvokeGreetingProvider => "invoke-greeting-provider",
            BrainCapability::InspectOwnBrainContext => "inspect-own-brain-context",
            BrainCapability::InspectAnyBrainContext => "inspect-any-brain-context",
            BrainCapability::AdminBrain => "admin-brain",
        }
    }

    pub fn bit(self) -> (b: u64)
        ensures
            b == self.spec_bit(),
    {
        match self {
            BrainCapability::InvokeWiseOwlBrain => 1u64,
            BrainCapability::InvokeGreetingProvider => 2u64,
            BrainCapability::InspectOwnBrainContext => 4u64,
            BrainCapability::InspectAnyBrainContext => 8u64,
            BrainCapability::AdminBrain => 16u64,
        }
    }

    pub fn as_str(self) -> (s: &'static str)
        ensures
            s == self.spec_name(),
    {
        match self {
            BrainCapability::InvokeWiseOwlBrain => "invoke-wiseowl-brain",
            BrainCapability::InvokeGreetingProvider => "invoke-greeting-provider",
            BrainCapability::InspectOwnBrainContext => "inspect-own-brain-context",
            BrainCapability::InspectAnyBrainContext => "inspect-any-brain-context",
            BrainCapability::AdminBrain => "admin-brain",
        }
    }
}

/// A set of capabilities, held as a bit mask.
#[derive(Debug, Clone, Copy, PartialEq, Eq, Default, Structural)]
pub struct BrainCapabilitySet {
    mask: u64,
}

/// Whether a mask grants a capability: the admin bit grants all of them.
pub open spec fn mask_has(mask: u64, cap: BrainCapability) -> bool {
    (mask & ADMIN_BIT) != 0 || (mask & cap.spec_bit()) != 0
}

impl BrainCapabilitySet {
    pub closed spec fn spec_mask(self) -> u64 {
        self.mask
    }

    pub open spec fn spec_has(self, cap: BrainCapability) -> bool {
        mask_has(self.spec_mask(), cap)
    }

    pub fn empty() -> (s: Self)
        ensures
            s.spec_mask() == 0,
    {
        BrainCapabilitySet { mask: 0 }
    }

    pub fn from_mask(mask: u64) -> (s: Self)
        ensures
            s.spec_mask() == mask,
    {
        BrainCapabilitySet { mask }
    }

    pub fn mask(self) -> (m: u64)
        ensures
            m == self.spec_mask(),
    {
        self.mask
    }

    pub fn grant(self, cap: BrainCapability) -> (s: Self)
        ensures
            s.spec_mask() == self.spec_mask() | cap.spec_bit(),
    {
        BrainCapabilitySet { mask: self.mask | cap.bit() }
    }

    pub fn has(self, cap: BrainCapability) -> (r: bool)
        ensures
            r == self.spec_has(cap),
    {
        if self.mask & BrainCapability::AdminBrain.bit() != 0 {
            return true;
        }
        self.mask & cap.bit() != 0
    }

    pub fn require(self, cap: BrainCapability) -> (r: Result<(), BrainError>)
        ensures
            r is Ok <==> self.spec_has(cap),
            !self.spec_has(cap) ==> r == Err::<(), BrainError>(
                BrainError::PermissionDenied(cap.spec_name()),
            ),
    {
        if self.has(cap) {
            Ok(())
        } else {
            Err(BrainError::PermissionDenied(cap.as_str()))
        }
    }

    /// Default client: can invoke the brain, request greetings and inspect its own context.
    pub fn default_client() -> (s: Self)
        ensures
            s.spec_mask() == 7,
    {
        let s = Self::empty().grant(BrainCapability::InvokeWiseOwlBrain).grant(
            BrainCapability::InvokeGreetingProvider,
        ).grant(BrainCapability::InspectOwnBrainContext);
        assert((0u64 | 1u64 | 2u64 | 4u64) == 7u64) by (bit_vector);
        s
    }

    /// Diagnostic operator: a default client that may also inspect any context.
    pub fn diagnostic() -> (s: Self)
        ensures
            s.spec_mask() == 15,
    {
        let s = Self::default_client().grant(BrainCapability::InspectAnyBrainContext);
        assert((7u64 | 8u64) == 15u64) by (bit_vector);
        s
    }

    pub fn admin() -> (s: Self)
        ensures
            s.spec_mask() == u64::MAX,
    {
        Self::from_mask(u64::MAX)
    }
}

/// A granted capability is held afterwards.
pub proof fn lemma_grant_then_has(set: BrainCapabilitySet, cap: BrainCapability)
    ensures
        mask_has(set.spec_mask() | cap.spec_bit(), cap),
{
    let m = set.spec_mask();
    let b = cap.spec_bit();
    assert(b != 0);
    assert(b != 0 ==> ((m | b) & b) != 0) by (bit_vector);
}

/// Granting a capability never takes another away.
pub proof fn lemma_grant_keeps(set: BrainCapabilitySet, granted: BrainCapability, other: BrainCapability)
    requires
        set.spec_has(other),
    ensures
        mask_has(set.spec_mask() | granted.spec_bit(), other),
{
    let m = set.spec_mask();
    let b1 = granted.spec_bit();
    let b2 = other.spec_bit();
    assert(((m & b2) != 0) ==> (((m | b1) & b2) != 0)) by (bit_vector);
    assert(((m & 16u64) != 0) ==> (((m | b1) & 16u64) != 0)) by (bit_vector);
}

/// A mask with the admin bit set holds every capability.
pub proof fn lemma_admin_holds_all(set: BrainCapabilitySet, cap: BrainCapability)
    requires
        (set.spec_mask() & ADMIN_BIT) != 0,
    ensures
        set.spec_has(cap),
{
}

/// Without the admin bit, a mask holds exactly the capabilities whose bit it has.
pub proof fn lemma_has_without_admin(mask: u64, cap: BrainCapability)
    requires
        (mask & ADMIN_BIT) == 0,
    ensures
        mask_has(mask, cap) <==> (mask & cap.spec_bit()) != 0,
{
}

/// The default client may invoke, greet and inspect its own context, and nothing more.
pub proof fn lemma_default_client_holds(cap: BrainCapability)
    ensures
        mask_has(7, cap) <==> (cap == BrainCapability::InvokeWiseOwlBrain
            || cap == BrainCapability::InvokeGreetingProvider
            || cap == BrainCapability::InspectOwnBrainContext),
{
    assert((7u64 & 16u64) == 0) by (bit_vector);
    assert((7u64 & 1u64) != 0) by (bit_vector);
    assert((7u64 & 2u64) != 0) by (bit_vector);
    assert((7u64 & 4u64) != 0) by (bit_vector);
    assert((7u64 & 8u64) == 0) by (bit_vector);
}

/// The diagnostic operator additionally inspects any context, but is no admin.
pub proof fn lemma_diagnostic_holds(cap: BrainCapability)
    ensures
        mask_has(15, cap) <==> cap != BrainCapability::AdminBrain,
{
    assert((15u64 & 16u64) == 0) by (bit_vector);
    assert((15u64 & 1u64) != 0) by (bit_vector);
    assert((15u64 & 2u64) != 0) by (bit_vector);
    assert((15u64 & 4u64) != 0) by (bit_vector);
    assert((15u64 & 8u64) != 0) by (bit_vector);
}

/// The admin set holds every capability.
pub proof fn lemma_admin_set_holds(cap: BrainCapability)
    ensures
        mask_has(u64::MAX, cap),
{
    assert((0xffff_ffff_ffff_ffffu64 & 16u64) != 0) by (bit_vector);
}

/// A capability set is determined by its mask: two sets with one mask are the
/// same set, so `from_mask` of a set's mask gives back that set.
pub proof fn lemma_mask_determines_set(a: BrainCapabilitySet, b: BrainCapabilitySet)
    requires
        a.spec_mask() == b.spec_mask(),
    ensures
        a == b,
{
}

/// Granting is idempotent and order-independent: granting a capability twice
/// leaves the mask of granting it once, and two grants commute.
pub proof fn lemma_grant_idempotent_commutes(mask: u64, c: BrainCapability, d: BrainCapability)
    ensures
        (mask | c.spec_bit()) | c.spec_bit() == mask | c.spec_bit(),
        (mask | c.spec_bit()) | d.spec_bit() == (mask | d.spec_bit()) | c.spec_bit(),
{
    let b1 = c.spec_bit();
    let b2 = d.spec_bit();
    assert((mask | b1) | b1 == mask | b1) by (bit_vector);
    assert((mask | b1) | b2 == (mask | b2) | b1) by (bit_vector);
}

} // verus!
