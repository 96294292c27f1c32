//! Terrain residency for a bounded graphics-memory budget: a level-of-detail
//! selector, a solver that turns a polygon budget into a view radius, and a
//! fixed-capacity pool of terrain chunks with dense id-to-slot bookkeeping.

pub mod entity_id;
pub mod geometry;
pub mod lod;
pub mod protocol;
pub mod terrain_mesh;
pub mod client;
pub mod view;
pub mod xorshift;
