//! Terrain geometry resident in graphics memory: a fixed-capacity pool of
//! equally sized chunks with dense id-to-slot bookkeeping.
//!
//! Every chunk takes one slot of `VRAM_CHUNK_LENGTH` triangles in each of
//! three parallel buffers. Slots are filled from the front and freed by
//! moving the last chunk into the gap, so the occupied slots are always
//! `0 .. length`.

use std::collections::HashMap;
use vstd::prelude::*;
use crate::entity_id;
use crate::geometry::{Point3, Vector3};
use crate::terrain_mesh::{zero_normals, zero_positions, Triangle};

verus! {

broadcast use vstd::std_specs::hash::group_hash_axioms;

/// Vertices that a draw fetches for each triangle.
pub const VERTICES_PER_TRIANGLE: usize = 3;

/// Graphics memory set aside for terrain, in bytes.
pub const BYTE_BUDGET: usize = 64_000_000;

/// Graphics memory that one polygon takes, in bytes.
pub const POLYGON_COST: usize = 100;

/// Polygons that fit in the budget.
pub const POLYGON_BUDGET: usize = BYTE_BUDGET / POLYGON_COST;

/// Triangles in one chunk. Geometry is kept in chunks rather than triangle
/// by triangle, which makes unloading fast.
pub const VRAM_CHUNK_LENGTH: usize = 1024;

/// Chunks that fit in the budget.
pub const CHUNK_BUDGET: usize = POLYGON_BUDGET / VRAM_CHUNK_LENGTH;

/// The material id that fills the unused tail of a chunk.
pub const ZERO_MATERIAL: i32 = 0;

/// `items` filled up with `zero` to the length of one chunk.
pub open spec fn padded<A>(items: Seq<A>, zero: A) -> Seq<A>
    recommends
        items.len() <= VRAM_CHUNK_LENGTH,
{
    items + Seq::new((VRAM_CHUNK_LENGTH - items.len()) as nat, |i: int| zero)
}

/// `slots` with slot `index` freed: the last entry moves into it and the
/// sequence gets one shorter.
pub open spec fn swap_removed<A>(slots: Seq<A>, index: int) -> Seq<A>
    recommends
        0 <= index < slots.len(),
{
    slots.update(index, slots.last()).drop_last()
}

/// The pool as a mathematical value.
#[verifier::ext_equal]
pub struct Pool {
    /// The number of slots, fixed when the pool is made.
    pub capacity: nat,
    /// The slot of each resident chunk.
    pub id_to_index: Map<entity_id::T, nat>,
    /// The chunk in each occupied slot.
    pub index_to_id: Seq<entity_id::T>,
    /// Per slot, the corner positions of the chunk's triangles.
    pub vertex_positions: Seq<Seq<Triangle<Point3>>>,
    /// Per slot, the corner normals of the chunk's triangles.
    pub normals: Seq<Seq<Triangle<Vector3>>>,
    /// Per slot, the material id of each of the chunk's triangles.
    pub materials: Seq<Seq<i32>>,
}

impl Pool {
    /// A pool of `capacity` free slots.
    pub open spec fn empty(capacity: nat) -> Pool {
        Pool {
            capacity,
            id_to_index: Map::empty(),
            index_to_id: Seq::empty(),
            vertex_positions: Seq::empty(),
            normals: Seq::empty(),
            materials: Seq::empty(),
        }
    }

    /// The number of occupied slots.
    pub open spec fn len(self) -> nat {
        self.index_to_id.len()
    }

    /// Whether chunk `id` is resident.
    pub open spec fn contains(self, id: entity_id::T) -> bool {
        self.id_to_index.contains_key(id)
    }

    /// The slot of chunk `id`, if it is resident.
    pub open spec fn lookup(self, id: entity_id::T) -> Option<nat> {
        if self.contains(id) {
            Some(self.id_to_index[id])
        } else {
            None
        }
    }

    /// The two maps are inverse to each other over exactly the occupied
    /// slots.
    pub open spec fn bijective(self) -> bool {
        &&& forall|id: entity_id::T| #[trigger]
            self.id_to_index.contains_key(id) ==> self.id_to_index[id] < self.len()
                && self.index_to_id[self.id_to_index[id] as int] == id
        &&& forall|i: int|
            0 <= i < self.len() ==> self.id_to_index.contains_key(#[trigger] self.index_to_id[i])
                && self.id_to_index[self.index_to_id[i]] == i
    }

    /// The three buffers hold one full chunk for each occupied slot.
    pub open spec fn uniform(self) -> bool {
        &&& self.vertex_positions.len() == self.len()
        &&& self.normals.len() == self.len()
        &&& self.materials.len() == self.len()
        &&& forall|i: int|
            0 <= i < self.len() ==> (#[trigger] self.vertex_positions[i]).len()
                == VRAM_CHUNK_LENGTH
        &&& forall|i: int|
            0 <= i < self.len() ==> (#[trigger] self.normals[i]).len() == VRAM_CHUNK_LENGTH
        &&& forall|i: int|
            0 <= i < self.len() ==> (#[trigger] self.materials[i]).len() == VRAM_CHUNK_LENGTH
    }

    /// What holds of a pool at all times.
    pub open spec fn valid(self) -> bool {
        &&& self.len() <= self.capacity
        &&& self.bijective()
        &&& self.uniform()
    }

    /// The pool after chunk `id` has taken the first free slot, its geometry
    /// padded to a full chunk.
    pub open spec fn push(
        self,
        id: entity_id::T,
        vertices: Seq<Triangle<Point3>>,
        normals: Seq<Triangle<Vector3>>,
        materials: Seq<i32>,
    ) -> Pool
        recommends
            !self.contains(id),
            self.len() < self.capacity,
            vertices.len() <= VRAM_CHUNK_LENGTH,
            normals.len() == vertices.len(),
            materials.len() == vertices.len(),
    {
        Pool {
            capacity: self.capacity,
            id_to_index: self.id_to_index.insert(id, self.len()),
            index_to_id: self.index_to_id.push(id),
            vertex_positions: self.vertex_positions.push(padded(vertices, zero_positions())),
            normals: self.normals.push(padded(normals, zero_normals())),
            materials: self.materials.push(padded(materials, ZERO_MATERIAL)),
        }
    }

    /// The chunk in the last occupied slot.
    pub open spec fn last_id(self) -> entity_id::T
        recommends
            self.len() > 0,
    {
        self.index_to_id.last()
    }

    /// The pool after chunk `id` has left: the chunk in the last slot takes
    /// its place, unless `id` was that chunk.
    pub open spec fn swap_remove(self, id: entity_id::T) -> Pool
        recommends
            self.contains(id),
    {
        let index = self.id_to_index[id];
        Pool {
            capacity: self.capacity,
            id_to_index: if id == self.last_id() {
                self.id_to_index.remove(id)
            } else {
                self.id_to_index.remove(id).insert(self.last_id(), index)
            },
            index_to_id: swap_removed(self.index_to_id, index as int),
            vertex_positions: swap_removed(self.vertex_positions, index as int),
            normals: swap_removed(self.normals, index as int),
            materials: swap_removed(self.materials, index as int),
        }
    }

    /// The chunk that removing `id` moves, with its new slot; none where
    /// `id` sits in the last slot.
    pub open spec fn moved_by_swap_remove(self, id: entity_id::T) -> Option<(entity_id::T, nat)>
        recommends
            self.contains(id),
    {
        if id == self.last_id() {
            None
        } else {
            Some((self.last_id(), self.id_to_index[id]))
        }
    }
}

/// The tail that padding adds is all zero, and what was there stays.
pub proof fn padded_tail_is_zero<A>(items: Seq<A>, zero: A)
    requires
        items.len() <= VRAM_CHUNK_LENGTH,
    ensures
        padded(items, zero).len() == VRAM_CHUNK_LENGTH,
        forall|i: int| 0 <= i < items.len() ==> padded(items, zero)[i] == items[i],
        forall|i: int| items.len() <= i < VRAM_CHUNK_LENGTH ==> padded(items, zero)[i] == zero,
{
}

/// Storing a chunk keeps the pool valid and takes one slot.
pub proof fn push_keeps_valid(
    pool: Pool,
    id: entity_id::T,
    vertices: Seq<Triangle<Point3>>,
    normals: Seq<Triangle<Vector3>>,
    materials: Seq<i32>,
)
    requires
        pool.valid(),
        !pool.contains(id),
        pool.len() < pool.capacity,
        vertices.len() <= VRAM_CHUNK_LENGTH,
        normals.len() == vertices.len(),
        materials.len() == vertices.len(),
    ensures
        pool.push(id, vertices, normals, materials).valid(),
        pool.push(id, vertices, normals, materials).len() == pool.len() + 1,
        pool.push(id, vertices, normals, materials).capacity == pool.capacity,
        pool.push(id, vertices, normals, materials).lookup(id) == Some(pool.len()),
{
    let after = pool.push(id, vertices, normals, materials);
    padded_tail_is_zero(vertices, zero_positions());
    padded_tail_is_zero(normals, zero_normals());
    padded_tail_is_zero(materials, ZERO_MATERIAL);
    assert forall|other: entity_id::T| #[trigger] after.id_to_index.contains_key(other) implies
        after.id_to_index[other] < after.len() && after.index_to_id[after.id_to_index[other] as int]
        == other by {
        if other != id {
            assert(pool.id_to_index.contains_key(other));
        }
    }
    assert forall|i: int| 0 <= i < after.len() implies after.id_to_index.contains_key(
        #[trigger] after.index_to_id[i],
    ) && after.id_to_index[after.index_to_id[i]] == i by {
        if i < pool.len() {
            assert(pool.id_to_index.contains_key(pool.index_to_id[i]));
        }
    }
}

/// Removing a chunk keeps the pool valid and frees one slot.
pub proof fn swap_remove_keeps_valid(pool: Pool, id: entity_id::T)
    requires
        pool.valid(),
        pool.contains(id),
    ensures
        pool.swap_remove(id).valid(),
        pool.swap_remove(id).len() == pool.len() - 1,
        pool.swap_remove(id).capacity == pool.capacity,
        !pool.swap_remove(id).contains(id),
{
    let after = pool.swap_remove(id);
    let index = pool.id_to_index[id] as int;
    let last = pool.len() - 1;
    assert(pool.id_to_index.contains_key(pool.index_to_id[last]));
    assert forall|other: entity_id::T| #[trigger] after.id_to_index.contains_key(other) implies
        after.id_to_index[other] < after.len() && after.index_to_id[after.id_to_index[other] as int]
        == other by {
        assert(pool.id_to_index.contains_key(other));
    }
    assert forall|i: int| 0 <= i < after.len() implies after.id_to_index.contains_key(
        #[trigger] after.index_to_id[i],
    ) && after.id_to_index[after.index_to_id[i]] == i by {
        assert(pool.id_to_index.contains_key(pool.index_to_id[i]));
    }
}

/// After chunk `removed` has left, every other chunk is where it was,
/// except the one from the last slot, which is where `removed` was.
pub proof fn swap_remove_lookup(pool: Pool, removed: entity_id::T, other: entity_id::T)
    requires
        pool.valid(),
        pool.contains(removed),
        other != removed,
    ensures
        pool.swap_remove(removed).len() == pool.len() - 1,
        pool.swap_remove(removed).lookup(removed) is None,
        pool.swap_remove(removed).lookup(other) == (if pool.contains(other) && pool.lookup(other)
            == Some((pool.len() - 1) as nat) {
            pool.lookup(removed)
        } else {
            pool.lookup(other)
        }),
{
    let last = pool.len() - 1;
    assert(pool.id_to_index.contains_key(pool.index_to_id[last]));
    if pool.contains(other) {
        assert(pool.index_to_id[pool.id_to_index[other] as int] == other);
    }
}

/// Storing a chunk and removing it at once gives back the pool as it was.
pub proof fn push_then_swap_remove(
    pool: Pool,
    id: entity_id::T,
    vertices: Seq<Triangle<Point3>>,
    normals: Seq<Triangle<Vector3>>,
    materials: Seq<i32>,
)
    requires
        pool.valid(),
        !pool.contains(id),
    ensures
        pool.push(id, vertices, normals, materials).swap_remove(id) == pool,
{
    let stored = pool.push(id, vertices, normals, materials);
    let after = stored.swap_remove(id);
    assert(after.id_to_index =~= pool.id_to_index);
    assert(after.index_to_id =~= pool.index_to_id);
    assert(after.vertex_positions =~= pool.vertex_positions);
    assert(after.normals =~= pool.normals);
    assert(after.materials =~= pool.materials);
}

/// Why a chunk was not stored.
#[derive(Clone, Copy, Debug, PartialEq, Eq, Structural)]
pub enum PushError {
    /// The chunk has more triangles than a slot holds.
    Oversized,
    /// Every slot is taken.
    Full,
}

/// One draw over the whole pool: `count` vertices from `first` on, fetched
/// from the buffers by vertex index.
#[derive(Clone, Copy, Debug, PartialEq, Eq, Structural)]
pub struct DrawCall {
    /// The index of the first vertex.
    pub first: i32,
    /// The number of vertices.
    pub count: i32,
}

/// The pool of terrain chunks resident in graphics memory.
pub struct T {
    id_to_index: HashMap<u32, usize>,
    index_to_id: Vec<entity_id::T>,
    length: usize,
    capacity: usize,
    // Per-triangle buffers
    vertex_positions: Vec<Vec<Triangle<Point3>>>,
    normals: Vec<Vec<Triangle<Vector3>>>,
    materials: Vec<Vec<i32>>,
}

impl View for T {
    type V = Pool;

    closed spec fn view(&self) -> Pool {
        Pool {
            capacity: self.capacity as nat,
            id_to_index: Map::new(
                |id: entity_id::T| self.id_to_index@.contains_key(id.0),
                |id: entity_id::T| self.id_to_index@[id.0] as nat,
            ),
            index_to_id: self.index_to_id@,
            vertex_positions: self.vertex_positions@.map_values(
                |chunk: Vec<Triangle<Point3>>| chunk@,
            ),
            normals: self.normals@.map_values(|chunk: Vec<Triangle<Vector3>>| chunk@),
            materials: self.materials@.map_values(|chunk: Vec<i32>| chunk@),
        }
    }
}

/// Fills `items` up with `zero` to the length of one chunk.
fn pad<A: Copy>(items: &mut Vec<A>, zero: A)
    requires
        old(items).len() <= VRAM_CHUNK_LENGTH,
    ensures
        final(items)@ == padded(old(items)@, zero),
{
    let ghost given = items@;
    while items.len() < VRAM_CHUNK_LENGTH
        invariant
            given.len() <= items.len() <= VRAM_CHUNK_LENGTH,
            items@ == given + Seq::new((items.len() - given.len()) as nat, |i: int| zero),
        decreases VRAM_CHUNK_LENGTH - items.len(),
    {
        items.push(zero);
    }
}

/// An empty pool with room for `CHUNK_BUDGET` chunks.
pub fn new() -> (buffers: T)
    ensures
        buffers.wf(),
        buffers@ == Pool::empty(CHUNK_BUDGET as nat),
{
    let buffers = T {
        id_to_index: HashMap::new(),
        index_to_id: Vec::new(),
        length: 0,
        capacity: CHUNK_BUDGET,
        vertex_positions: Vec::with_capacity(CHUNK_BUDGET),
        normals: Vec::with_capacity(CHUNK_BUDGET),
        materials: Vec::with_capacity(CHUNK_BUDGET),
    };
    assert(buffers@ =~= Pool::empty(CHUNK_BUDGET as nat));
    buffers
}

impl T {
    /// The slot counter agrees with the list of occupied slots.
    pub closed spec fn counted(&self) -> bool {
        self.length == self.index_to_id.len()
    }

    /// The pool is in order: its state is valid and no larger than the
    /// budget allows.
    pub open spec fn wf(&self) -> bool {
        &&& self.counted()
        &&& self@.valid()
        &&& self@.capacity <= CHUNK_BUDGET
    }

    /// The number of resident chunks.
    pub fn len(&self) -> (length: usize)
        requires
            self.wf(),
        ensures
            length == self@.len(),
    {
        self.length
    }

    /// The number of slots.
    pub fn capacity(&self) -> (capacity: usize)
        ensures
            capacity == self@.capacity,
    {
        self.capacity
    }

    /// Looks up the slot of a chunk, as the index that shaders see.
    pub fn lookup_opengl_index(&self, id: entity_id::T) -> (index: Option<u32>)
        requires
            self.wf(),
        ensures
            match index {
                Some(slot) => self@.lookup(id) == Some(slot as nat),
                None => self@.lookup(id) is None,
            },
    {
        match self.id_to_index.get(&id.0) {
            Some(slot) => Some(*slot as u32),
            None => None,
        }
    }

    /// The chunk in slot `index`, if the slot is occupied.
    pub fn id_at(&self, index: usize) -> (id: Option<entity_id::T>)
        requires
            self.wf(),
        ensures
            id == (if index < self@.len() {
                Some(self@.index_to_id[index as int])
            } else {
                None
            }),
    {
        if index < self.index_to_id.len() {
            Some(self.index_to_id[index])
        } else {
            None
        }
    }

    /// The corner positions stored in slot `index`, if the slot is occupied.
    pub fn vertex_positions_at(&self, index: usize) -> (chunk: Option<&Vec<Triangle<Point3>>>)
        requires
            self.wf(),
        ensures
            match chunk {
                Some(stored) => index < self@.len() && stored@ == self@.vertex_positions[index as int],
                None => index >= self@.len(),
            },
    {
        if index < self.vertex_positions.len() {
            Some(&self.vertex_positions[index])
        } else {
            None
        }
    }

    /// The corner normals stored in slot `index`, if the slot is occupied.
    pub fn normals_at(&self, index: usize) -> (chunk: Option<&Vec<Triangle<Vector3>>>)
        requires
            self.wf(),
        ensures
            match chunk {
                Some(stored) => index < self@.len() && stored@ == self@.normals[index as int],
                None => index >= self@.len(),
            },
    {
        if index < self.normals.len() {
            Some(&self.normals[index])
        } else {
            None
        }
    }

    /// The material ids stored in slot `index`, if the slot is occupied.
    pub fn materials_at(&self, index: usize) -> (chunk: Option<&Vec<i32>>)
        requires
            self.wf(),
        ensures
            match chunk {
                Some(stored) => index < self@.len() && stored@ == self@.materials[index as int],
                None => index >= self@.len(),
            },
    {
        if index < self.materials.len() {
            Some(&self.materials[index])
        } else {
            None
        }
    }

    /// Stores the geometry of chunk `chunk_id` in the first free slot.
    ///
    /// A chunk with fewer triangles than a slot holds is padded with zero
    /// triangles and the zero material. One with more is turned away, as is
    /// any chunk when every slot is taken; the pool is then left as it was.
    pub fn push(
        &mut self,
        vertices: Vec<Triangle<Point3>>,
        normals: Vec<Triangle<Vector3>>,
        chunk_id: entity_id::T,
        materials: Vec<i32>,
    ) -> (result: Result<(), PushError>)
        requires
            old(self).wf(),
            normals.len() == vertices.len(),
            materials.len() == vertices.len(),
            !old(self)@.contains(chunk_id),
        ensures
            final(self).wf(),
            match result {
                Ok(()) => {
                    &&& vertices.len() <= VRAM_CHUNK_LENGTH
                    &&& old(self)@.len() < old(self)@.capacity
                    &&& final(self)@ == old(self)@.push(chunk_id, vertices@, normals@, materials@)
                },
                Err(PushError::Oversized) => {
                    &&& vertices.len() > VRAM_CHUNK_LENGTH
                    &&& final(self)@ == old(self)@
                },
                Err(PushError::Full) => {
                    &&& vertices.len() <= VRAM_CHUNK_LENGTH
                    &&& old(self)@.len() == old(self)@.capacity
                    &&& final(self)@ == old(self)@
                },
            },
    {
        let len = vertices.len();
        if len > VRAM_CHUNK_LENGTH {
            return Err(PushError::Oversized);
        }
        if self.length >= self.capacity {
            return Err(PushError::Full);
        }
        let ghost given = (vertices@, normals@, materials@);
        let mut vertices = vertices;
        let mut normals = normals;
        let mut materials = materials;
        pad(&mut vertices, zero_positions());
        pad(&mut normals, zero_normals());
        pad(&mut materials, ZERO_MATERIAL);

        // The length of each vector is now VRAM_CHUNK_LENGTH.
        proof {
            push_keeps_valid(old(self)@, chunk_id, given.0, given.1, given.2);
        }
        self.vertex_positions.push(vertices);
        self.normals.push(normals);

        self.id_to_index.insert(chunk_id.0, self.index_to_id.len());
        self.index_to_id.push(chunk_id);

        self.materials.push(materials);

        self.length += 1;
        proof {
            let after = old(self)@.push(chunk_id, given.0, given.1, given.2);
            assert(self@.id_to_index =~= after.id_to_index);
            assert(self@.vertex_positions =~= after.vertex_positions);
            assert(self@.normals =~= after.normals);
            assert(self@.materials =~= after.materials);
        }
        Ok(())
    }

    // Note: `id` must be present in the buffers.
    /// Removes chunk `id`, moving the chunk of the last slot into its place.
    /// Returns the moved chunk and its new slot, if any chunk moved.
    pub fn swap_remove(&mut self, id: entity_id::T) -> (moved: Option<(entity_id::T, usize)>)
        requires
            old(self).wf(),
            old(self)@.contains(id),
        ensures
            final(self).wf(),
            final(self)@ == old(self)@.swap_remove(id),
            match moved {
                Some((moved_id, slot)) => old(self)@.moved_by_swap_remove(id) == Some(
                    (moved_id, slot as nat),
                ),
                None => old(self)@.moved_by_swap_remove(id) is None,
            },
    {
        proof {
            swap_remove_keeps_valid(self@, id);
            assert(self@.id_to_index.contains_key(id));
        }
        let idx = *self.id_to_index.get(&id.0).unwrap();
        let swapped_id = self.index_to_id[self.index_to_id.len() - 1];
        self.index_to_id.swap_remove(idx);
        self.id_to_index.remove(&id.0);

        let r = if id == swapped_id {
            None
        } else {
            self.id_to_index.insert(swapped_id.0, idx);
            Some((swapped_id, idx))
        };

        self.length -= 1;

        self.vertex_positions.swap_remove(idx);
        self.normals.swap_remove(idx);
        self.materials.swap_remove(idx);

        proof {
            let after = old(self)@.swap_remove(id);
            assert(self@.id_to_index =~= after.id_to_index);
            assert(self@.vertex_positions =~= after.vertex_positions);
            assert(self@.normals =~= after.normals);
            assert(self@.materials =~= after.materials);
        }
        r
    }

    /// The draw that covers every resident chunk: three vertices for each
    /// triangle of each occupied slot.
    pub fn draw(&self) -> (call: DrawCall)
        requires
            self.wf(),
        ensures
            call.first == 0,
            call.count == self@.len() * VRAM_CHUNK_LENGTH * VERTICES_PER_TRIANGLE,
    {
        DrawCall { first: 0, count: (self.length * VRAM_CHUNK_LENGTH * VERTICES_PER_TRIANGLE) as i32 }
    }
}

} // verus!
