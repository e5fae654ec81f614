use vstd::prelude::*;

verus! {

/// Identifies one observation of an action's outcome.
#[derive(Debug, Clone, Copy, PartialEq, Eq, Hash, Structural)]
pub struct ObservationId(pub u64);

} // verus!
