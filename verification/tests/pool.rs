use terrain_streaming::entity_id;
use terrain_streaming::geometry::{Point3, Vector3};
use terrain_streaming::terrain_mesh::{zero_normals, zero_positions, Triangle};
use terrain_streaming::view::terrain_buffers;
use terrain_streaming::view::terrain_buffers::{
    DrawCall, PushError, BYTE_BUDGET, CHUNK_BUDGET, POLYGON_BUDGET, POLYGON_COST,
    VERTICES_PER_TRIANGLE, VRAM_CHUNK_LENGTH, ZERO_MATERIAL,
};

fn position(seed: u32) -> Triangle<Point3> {
    Triangle {
        v1: Point3 { x: seed, y: seed + 1, z: seed + 2 },
        v2: Point3 { x: seed + 3, y: seed + 4, z: seed + 5 },
        v3: Point3 { x: seed + 6, y: seed + 7, z: seed + 8 },
    }
}

fn normal(seed: u32) -> Triangle<Vector3> {
    Triangle {
        v1: Vector3 { x: seed, y: 0, z: 1 },
        v2: Vector3 { x: 0, y: seed, z: 2 },
        v3: Vector3 { x: 3, y: 0, z: seed },
    }
}

fn chunk(seed: u32, len: usize) -> (Vec<Triangle<Point3>>, Vec<Triangle<Vector3>>, Vec<i32>) {
    let mut positions = Vec::new();
    let mut normals = Vec::new();
    let mut materials = Vec::new();
    for i in 0..len {
        positions.push(position(seed + i as u32));
        normals.push(normal(seed + i as u32));
        materials.push(seed as i32 + i as i32 + 1);
    }
    (positions, normals, materials)
}

fn push_chunk(
    pool: &mut terrain_buffers::T,
    id: u32,
    seed: u32,
    len: usize,
) -> Result<(), PushError> {
    let (positions, normals, materials) = chunk(seed, len);
    pool.push(positions, normals, entity_id::T(id), materials)
}

#[test]
fn budget_constants() {
    assert_eq!(BYTE_BUDGET, 64_000_000);
    assert_eq!(POLYGON_COST, 100);
    assert_eq!(POLYGON_BUDGET, 640_000);
    assert_eq!(VRAM_CHUNK_LENGTH, 1024);
    assert_eq!(CHUNK_BUDGET, 625);
}

#[test]
fn new_pool_is_empty() {
    let pool = terrain_buffers::new();
    assert_eq!(pool.len(), 0);
    assert_eq!(pool.capacity(), CHUNK_BUDGET);
    assert_eq!(pool.lookup_opengl_index(entity_id::T(7)), None);
    assert_eq!(pool.id_at(0), None);
    assert!(pool.vertex_positions_at(0).is_none());
    assert!(pool.normals_at(0).is_none());
    assert!(pool.materials_at(0).is_none());
    assert_eq!(pool.draw(), DrawCall { first: 0, count: 0 });
}

#[test]
fn push_fills_slots_in_order() {
    let mut pool = terrain_buffers::new();
    assert_eq!(push_chunk(&mut pool, 10, 100, 3), Ok(()));
    assert_eq!(push_chunk(&mut pool, 20, 200, 5), Ok(()));
    assert_eq!(push_chunk(&mut pool, 30, 300, 1024), Ok(()));
    assert_eq!(pool.len(), 3);
    assert_eq!(pool.lookup_opengl_index(entity_id::T(10)), Some(0));
    assert_eq!(pool.lookup_opengl_index(entity_id::T(20)), Some(1));
    assert_eq!(pool.lookup_opengl_index(entity_id::T(30)), Some(2));
    assert_eq!(pool.lookup_opengl_index(entity_id::T(40)), None);
    assert_eq!(pool.id_at(0), Some(entity_id::T(10)));
    assert_eq!(pool.id_at(1), Some(entity_id::T(20)));
    assert_eq!(pool.id_at(2), Some(entity_id::T(30)));
    assert_eq!(pool.id_at(3), None);
}

#[test]
fn short_chunk_is_padded_with_zeros() {
    let mut pool = terrain_buffers::new();
    assert_eq!(push_chunk(&mut pool, 1, 50, 3), Ok(()));
    let positions = pool.vertex_positions_at(0).unwrap();
    let normals = pool.normals_at(0).unwrap();
    let materials = pool.materials_at(0).unwrap();
    assert_eq!(positions.len(), VRAM_CHUNK_LENGTH);
    assert_eq!(normals.len(), VRAM_CHUNK_LENGTH);
    assert_eq!(materials.len(), VRAM_CHUNK_LENGTH);
    for i in 0..3 {
        assert_eq!(positions[i], position(50 + i as u32));
        assert_eq!(normals[i], normal(50 + i as u32));
        assert_eq!(materials[i], 51 + i as i32);
    }
    for i in 3..VRAM_CHUNK_LENGTH {
        assert_eq!(positions[i], zero_positions());
        assert_eq!(normals[i], zero_normals());
        assert_eq!(materials[i], ZERO_MATERIAL);
    }
    assert_eq!(ZERO_MATERIAL, 0);
    assert_eq!(zero_positions().v2, Point3 { x: 0, y: 0, z: 0 });
    assert_eq!(zero_normals().v3, Vector3 { x: 0, y: 0, z: 0 });
}

#[test]
fn empty_chunk_is_all_padding() {
    let mut pool = terrain_buffers::new();
    assert_eq!(push_chunk(&mut pool, 1, 0, 0), Ok(()));
    assert_eq!(pool.len(), 1);
    let materials = pool.materials_at(0).unwrap();
    assert_eq!(materials.len(), VRAM_CHUNK_LENGTH);
    assert!(materials.iter().all(|m| *m == 0));
    assert!(pool.vertex_positions_at(0).unwrap().iter().all(|t| *t == zero_positions()));
}

#[test]
fn full_chunk_is_stored_as_given() {
    let mut pool = terrain_buffers::new();
    let (positions, normals, materials) = chunk(9, VRAM_CHUNK_LENGTH);
    assert_eq!(push_chunk(&mut pool, 1, 9, VRAM_CHUNK_LENGTH), Ok(()));
    assert_eq!(pool.vertex_positions_at(0).unwrap(), &positions);
    assert_eq!(pool.normals_at(0).unwrap(), &normals);
    assert_eq!(pool.materials_at(0).unwrap(), &materials);
}

#[test]
fn oversized_chunk_is_turned_away() {
    let mut pool = terrain_buffers::new();
    assert_eq!(push_chunk(&mut pool, 1, 0, 2), Ok(()));
    assert_eq!(push_chunk(&mut pool, 2, 0, VRAM_CHUNK_LENGTH + 1), Err(PushError::Oversized));
    assert_eq!(pool.len(), 1);
    assert_eq!(pool.lookup_opengl_index(entity_id::T(2)), None);
    assert_eq!(pool.lookup_opengl_index(entity_id::T(1)), Some(0));
    assert_eq!(pool.id_at(1), None);
}

#[test]
fn full_pool_turns_chunks_away() {
    let mut pool = terrain_buffers::new();
    for id in 0..CHUNK_BUDGET {
        assert_eq!(push_chunk(&mut pool, id as u32, id as u32, 1), Ok(()));
        assert!(pool.len() <= pool.capacity());
    }
    assert_eq!(pool.len(), CHUNK_BUDGET);
    assert_eq!(push_chunk(&mut pool, 9999, 1, 1), Err(PushError::Full));
    assert_eq!(pool.len(), CHUNK_BUDGET);
    assert_eq!(pool.lookup_opengl_index(entity_id::T(9999)), None);
    // An oversized chunk is turned away for its size, full or not.
    assert_eq!(push_chunk(&mut pool, 9999, 1, 2000), Err(PushError::Oversized));
    // Room comes back when a chunk leaves.
    assert_eq!(pool.swap_remove(entity_id::T(0)), Some((entity_id::T(624), 0)));
    assert_eq!(push_chunk(&mut pool, 9999, 1, 1), Ok(()));
    assert_eq!(pool.lookup_opengl_index(entity_id::T(9999)), Some(624));
    assert_eq!(pool.draw().count, 625 * 1024 * 3);
}

#[test]
fn swap_remove_moves_the_last_chunk() {
    let a = entity_id::T(1);
    let b = entity_id::T(2);
    let c = entity_id::T(3);
    let mut pool = terrain_buffers::new();
    assert_eq!(push_chunk(&mut pool, 1, 100, 4), Ok(()));
    assert_eq!(push_chunk(&mut pool, 2, 200, 5), Ok(()));
    assert_eq!(push_chunk(&mut pool, 3, 300, 6), Ok(()));
    assert_eq!(pool.lookup_opengl_index(a), Some(0));
    assert_eq!(pool.lookup_opengl_index(b), Some(1));
    assert_eq!(pool.lookup_opengl_index(c), Some(2));

    assert_eq!(pool.swap_remove(a), Some((c, 0)));

    assert_eq!(pool.len(), 2);
    assert_eq!(pool.lookup_opengl_index(a), None);
    assert_eq!(pool.lookup_opengl_index(b), Some(1));
    assert_eq!(pool.lookup_opengl_index(c), Some(0));
    assert_eq!(pool.id_at(0), Some(c));
    assert_eq!(pool.id_at(1), Some(b));
    assert_eq!(pool.id_at(2), None);
    // The geometry moved with the chunk.
    assert_eq!(pool.vertex_positions_at(0).unwrap()[0], position(300));
    assert_eq!(pool.normals_at(0).unwrap()[5], normal(305));
    assert_eq!(pool.materials_at(0).unwrap()[5], 306);
    assert_eq!(pool.materials_at(0).unwrap()[6], 0);
    assert_eq!(pool.vertex_positions_at(1).unwrap()[4], position(204));
    assert_eq!(pool.materials_at(1).unwrap()[0], 201);
    assert!(pool.vertex_positions_at(2).is_none());
}

#[test]
fn swap_remove_of_the_last_chunk_moves_nothing() {
    let mut pool = terrain_buffers::new();
    assert_eq!(push_chunk(&mut pool, 1, 100, 4), Ok(()));
    assert_eq!(push_chunk(&mut pool, 2, 200, 5), Ok(()));
    assert_eq!(pool.swap_remove(entity_id::T(2)), None);
    assert_eq!(pool.len(), 1);
    assert_eq!(pool.lookup_opengl_index(entity_id::T(1)), Some(0));
    assert_eq!(pool.lookup_opengl_index(entity_id::T(2)), None);
    assert_eq!(pool.swap_remove(entity_id::T(1)), None);
    assert_eq!(pool.len(), 0);
    assert_eq!(pool.lookup_opengl_index(entity_id::T(1)), None);
}

#[test]
fn push_then_swap_remove_restores_the_pool() {
    let mut pool = terrain_buffers::new();
    for id in 0..5 {
        assert_eq!(push_chunk(&mut pool, id, 10 * id, 7), Ok(()));
    }
    assert_eq!(push_chunk(&mut pool, 77, 770, 9), Ok(()));
    assert_eq!(pool.len(), 6);
    assert_eq!(pool.swap_remove(entity_id::T(77)), None);
    assert_eq!(pool.len(), 5);
    for id in 0..5 {
        assert_eq!(pool.lookup_opengl_index(entity_id::T(id)), Some(id));
        assert_eq!(pool.id_at(id as usize), Some(entity_id::T(id)));
        assert_eq!(pool.vertex_positions_at(id as usize).unwrap()[6], position(10 * id + 6));
    }
    assert_eq!(pool.lookup_opengl_index(entity_id::T(77)), None);
}

#[test]
fn maps_stay_inverse_through_pushes_and_removals() {
    let mut pool = terrain_buffers::new();
    let mut resident: Vec<u32> = Vec::new();
    let mut next: u32 = 0;
    for step in 0..400u32 {
        if step % 3 == 2 && !resident.is_empty() {
            let id = resident.remove(((step * 7) as usize) % resident.len());
            let slot = pool.lookup_opengl_index(entity_id::T(id)).unwrap() as usize;
            let last = pool.id_at(pool.len() - 1).unwrap();
            let moved = pool.swap_remove(entity_id::T(id));
            if last == entity_id::T(id) {
                assert_eq!(moved, None);
            } else {
                assert_eq!(moved, Some((last, slot)));
            }
        } else {
            assert_eq!(push_chunk(&mut pool, next, next, (step % 5) as usize), Ok(()));
            resident.push(next);
            next += 1;
        }
        assert_eq!(pool.len(), resident.len());
        assert!(pool.len() <= pool.capacity());
        for slot in 0..pool.len() {
            let id = pool.id_at(slot).unwrap();
            assert_eq!(pool.lookup_opengl_index(id), Some(slot as u32));
            assert_eq!(pool.materials_at(slot).unwrap().len(), VRAM_CHUNK_LENGTH);
        }
        for id in resident.iter() {
            let slot = pool.lookup_opengl_index(entity_id::T(*id)).unwrap();
            assert_eq!(pool.id_at(slot as usize), Some(entity_id::T(*id)));
        }
    }
}

#[test]
fn draw_covers_every_resident_triangle() {
    let mut pool = terrain_buffers::new();
    assert_eq!(VERTICES_PER_TRIANGLE, 3);
    assert_eq!(push_chunk(&mut pool, 1, 0, 10), Ok(()));
    assert_eq!(pool.draw(), DrawCall { first: 0, count: 3072 });
    assert_eq!(push_chunk(&mut pool, 2, 0, 1024), Ok(()));
    assert_eq!(pool.draw(), DrawCall { first: 0, count: 6144 });
    pool.swap_remove(entity_id::T(1));
    assert_eq!(pool.draw(), DrawCall { first: 0, count: 3072 });
}
