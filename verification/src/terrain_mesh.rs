//! The shape of meshed terrain: detail tiers and the triangles of a chunk.

use vstd::prelude::*;
use crate::geometry::{Point3, Vector3};

verus! {

/// One triangle of a mesh: a value per corner.
#[derive(Debug, PartialEq, Eq)]
pub struct Triangle<T> {
    pub v1: T,
    pub v2: T,
    pub v3: T,
}

impl<T: Copy> Clone for Triangle<T> {
    fn clone(&self) -> (copy: Self)
        ensures
            copy == *self,
    {
        *self
    }
}

impl<T: Copy> Copy for Triangle<T> {

}

/// The triangle of positions whose words are all zero, as a mathematical value.
pub open spec fn spec_zero_positions() -> Triangle<Point3> {
    Triangle { v1: Point3::zero(), v2: Point3::zero(), v3: Point3::zero() }
}

/// The triangle of positions whose words are all zero.
#[verifier::when_used_as_spec(spec_zero_positions)]
pub fn zero_positions() -> (triangle: Triangle<Point3>)
    ensures
        triangle == spec_zero_positions(),
{
    Triangle { v1: Point3::zero(), v2: Point3::zero(), v3: Point3::zero() }
}

/// The triangle of normals whose words are all zero, as a mathematical value.
pub open spec fn spec_zero_normals() -> Triangle<Vector3> {
    Triangle { v1: Vector3::zero(), v2: Vector3::zero(), v3: Vector3::zero() }
}

/// The triangle of normals whose words are all zero.
#[verifier::when_used_as_spec(spec_zero_normals)]
pub fn zero_normals() -> (triangle: Triangle<Vector3>)
    ensures
        triangle == spec_zero_normals(),
{
    Triangle { v1: Vector3::zero(), v2: Vector3::zero(), v3: Vector3::zero() }
}

/// The number of level-of-detail tiers, the one beyond every threshold included.
pub const LOD_COUNT: usize = 5;

/// Samples taken along each edge of a chunk, by tier.
pub const EDGE_SAMPLES: [u16; 5] = [8, 4, 2, 2, 1];

/// Polygons in one chunk meshed at `tier`: four per squared edge sample.
pub open spec fn polygons_per_chunk(tier: nat) -> nat {
    4 * (EDGE_SAMPLES[tier as int] as nat) * (EDGE_SAMPLES[tier as int] as nat)
}

/// The per-chunk polygon counts of the five tiers, written out.
pub proof fn polygons_per_chunk_values()
    ensures
        polygons_per_chunk(0) == 256,
        polygons_per_chunk(1) == 64,
        polygons_per_chunk(2) == 16,
        polygons_per_chunk(3) == 16,
        polygons_per_chunk(4) == 4,
{
    assert(EDGE_SAMPLES[0] == 8 && EDGE_SAMPLES[1] == 4 && EDGE_SAMPLES[2] == 2);
    assert(EDGE_SAMPLES[3] == 2 && EDGE_SAMPLES[4] == 1);
}

} // verus!
