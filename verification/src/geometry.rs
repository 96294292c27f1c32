//! Points and directions as they lie in graphics memory.
//!
//! A coordinate is held as the bit pattern of a 32-bit IEEE-754 number, so
//! the value whose words are all zero is the one whose coordinates are all
//! positive zero.

use vstd::prelude::*;

verus! {

/// A position in space, one 32-bit word per coordinate.
#[derive(Clone, Copy, Debug, PartialEq, Eq, Structural)]
pub struct Point3 {
    pub x: u32,
    pub y: u32,
    pub z: u32,
}

/// A direction in space, one 32-bit word per coordinate.
#[derive(Clone, Copy, Debug, PartialEq, Eq, Structural)]
pub struct Vector3 {
    pub x: u32,
    pub y: u32,
    pub z: u32,
}

impl Point3 {
    /// The point whose words are all zero, as a mathematical value.
    pub open spec fn spec_zero() -> Point3 {
        Point3 { x: 0, y: 0, z: 0 }
    }

    /// The point whose words are all zero.
    #[verifier::when_used_as_spec(spec_zero)]
    pub fn zero() -> (point: Point3)
        ensures
            point == Point3::spec_zero(),
    {
        Point3 { x: 0, y: 0, z: 0 }
    }
}

impl Vector3 {
    /// The direction whose words are all zero, as a mathematical value.
    pub open spec fn spec_zero() -> Vector3 {
        Vector3 { x: 0, y: 0, z: 0 }
    }

    /// The direction whose words are all zero.
    #[verifier::when_used_as_spec(spec_zero)]
    pub fn zero() -> (direction: Vector3)
        ensures
            direction == Vector3::spec_zero(),
    {
        Vector3 { x: 0, y: 0, z: 0 }
    }
}

} // verus!
