//! Identifiers of entities, among them the terrain chunks held in graphics memory.

use vstd::prelude::*;

verus! {

/// An opaque, unique entity identifier.
#[derive(Clone, Copy, Debug, PartialEq, Eq, Structural, Hash)]
pub struct T(pub u32);

} // verus!
