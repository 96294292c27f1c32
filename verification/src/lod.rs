//! Level-of-detail tiers.

use vstd::prelude::*;

verus! {

/// A level-of-detail tier. Tier 0 is the finest; detail coarsens as the tier grows.
#[derive(Clone, Copy, Debug, PartialEq, Eq, Structural)]
pub struct T(pub u32);

} // verus!
