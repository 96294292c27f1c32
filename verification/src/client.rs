//! Client streaming state and the budget model behind its load distance.

use vstd::prelude::*;
use crate::entity_id;
use crate::geometry::Point3;
use crate::lod;
use crate::protocol;
use crate::terrain_mesh::{polygons_per_chunk, polygons_per_chunk_values, EDGE_SAMPLES};
use crate::view::terrain_buffers;
use crate::view::terrain_buffers::{Pool, CHUNK_BUDGET, POLYGON_BUDGET};
use crate::xorshift;
use crate::xorshift::{advanced, state_words};

verus! {

/// The distances at which the level of detail switches, in chunk units.
pub const LOD_THRESHOLDS: [i32; 4] = [2, 16, 32, 48];

/// The load distance is never more than this, whatever the budget pays for:
/// it keeps main memory in bounds.
pub const MAX_LOAD_DISTANCE: i32 = 80;

/// The seed that every session's generator starts from.
pub const RNG_SEED: [u32; 4] = [1, 2, 3, 4];

/// The tier that a chunk at `distance` is drawn at: the first threshold that
/// `distance` does not exceed, or the last tier beyond all of them.
pub open spec fn lod_tier(distance: int) -> nat {
    if distance <= LOD_THRESHOLDS[0] {
        0
    } else if distance <= LOD_THRESHOLDS[1] {
        1
    } else if distance <= LOD_THRESHOLDS[2] {
        2
    } else if distance <= LOD_THRESHOLDS[3] {
        3
    } else {
        4
    }
}

/// Chunks in the square of odd side `2 * radius + 1` centred on the viewer;
/// none before the first square.
pub open spec fn square_chunks(radius: int) -> int {
    if radius < 0 {
        0
    } else {
        (2 * radius + 1) * (2 * radius + 1)
    }
}

/// Chunks in shell `i`: the area between two successive odd squares.
pub open spec fn shell_chunks(i: nat) -> int {
    square_chunks(i as int) - square_chunks(i - 1)
}

/// Polygons needed to draw shell `i` at the tier of its distance.
pub open spec fn shell_polygons(i: nat) -> int {
    shell_chunks(i) * polygons_per_chunk(lod_tier(i as int))
}

/// Polygons needed to draw every shell closer than `radius`.
pub open spec fn polygons_within(radius: nat) -> int
    decreases radius,
{
    if radius == 0 {
        0
    } else {
        polygons_within((radius - 1) as nat) + shell_polygons((radius - 1) as nat)
    }
}

/// `radius` is the number of shells that `budget` pays for: they fit, and
/// one more shell does not.
pub open spec fn is_load_radius(budget: int, radius: nat) -> bool {
    polygons_within(radius) <= budget < polygons_within(radius + 1)
}

/// The number of shells that `budget` pays for.
pub open spec fn load_radius(budget: int) -> nat {
    choose|radius: nat| is_load_radius(budget, radius)
}

/// Converts a table index to a tier number through `num`'s checked cast:
/// `FromPrimitive::from_usize` for `u32` gives the same number when it fits
/// in 32 bits and nothing otherwise.
#[verifier::external_body]
fn tier_number(index: usize) -> (number: Option<u32>)
    ensures
        number == (if index <= u32::MAX { Some(index as u32) } else { None }),
{
    num::traits::FromPrimitive::from_usize(index)
}

/// The level of detail at which a chunk `distance` chunks away is drawn.
pub fn lod_index(distance: i32) -> (tier: lod::T)
    requires
        distance >= 0,
    ensures
        tier.0 == lod_tier(distance as int),
{
    let mut lod: usize = 0;
    while lod < LOD_THRESHOLDS.len() && LOD_THRESHOLDS[lod] < distance
        invariant
            lod <= 4,
            forall|k: int| 0 <= k < lod ==> LOD_THRESHOLDS[k] < distance,
        decreases 4 - lod,
    {
        lod += 1;
    }
    lod::T(tier_number(lod).unwrap())
}

/// A farther chunk is never drawn at a finer tier.
pub proof fn lod_tier_monotonic(near: int, far: int)
    requires
        0 <= near <= far,
    ensures
        lod_tier(near) <= lod_tier(far),
{
}

/// Every shell holds at least one chunk, and every chunk at least four polygons.
pub proof fn shell_polygons_bounds(i: nat)
    ensures
        shell_chunks(i) == (if i == 0 { 1 } else { 8 * (i as int) }),
        shell_polygons(i) >= 4 * shell_chunks(i),
        shell_polygons(i) >= 4,
{
    polygons_per_chunk_values();
    assert(shell_chunks(i) == (if i == 0 { 1 } else { 8 * (i as int) })) by (nonlinear_arith)
        requires
            shell_chunks(i) == square_chunks(i as int) - square_chunks(i - 1),
            square_chunks(i as int) == (2 * i + 1) * (2 * i + 1),
            square_chunks(i - 1) == (if i == 0 { 0int } else { (2 * i - 1) * (2 * i - 1) }),
    ;
    let per_chunk = polygons_per_chunk(lod_tier(i as int));
    assert(per_chunk >= 4);
    assert(shell_chunks(i) * per_chunk >= 4 * shell_chunks(i)) by (nonlinear_arith)
        requires
            per_chunk >= 4,
            shell_chunks(i) >= 1,
    ;
}

/// The polygons within a radius cover at least four per chunk of its square.
pub proof fn polygons_within_lower_bound(radius: nat)
    ensures
        polygons_within(radius) >= 4 * square_chunks(radius - 1),
    decreases radius,
{
    if radius > 0 {
        polygons_within_lower_bound((radius - 1) as nat);
        shell_polygons_bounds((radius - 1) as nat);
    }
}

/// A wider radius costs strictly more polygons.
pub proof fn polygons_within_increasing(smaller: nat, larger: nat)
    requires
        smaller < larger,
    ensures
        polygons_within(smaller) < polygons_within(larger),
    decreases larger,
{
    shell_polygons_bounds((larger - 1) as nat);
    if smaller < larger - 1 {
        polygons_within_increasing(smaller, (larger - 1) as nat);
    }
}

/// Walks outward from `from` to the radius that `budget` pays for.
proof fn find_load_radius(budget: int, from: nat) -> (radius: nat)
    requires
        polygons_within(from) <= budget,
    ensures
        is_load_radius(budget, radius),
    decreases budget - polygons_within(from),
{
    shell_polygons_bounds(from);
    if budget < polygons_within(from + 1) {
        from
    } else {
        find_load_radius(budget, from + 1)
    }
}

/// Every budget that is not negative pays for exactly one radius.
pub proof fn load_radius_unique(budget: int, radius: nat)
    requires
        budget >= 0,
    ensures
        is_load_radius(budget, load_radius(budget)),
        is_load_radius(budget, radius) ==> radius == load_radius(budget),
{
    let witness = find_load_radius(budget, 0);
    let chosen = load_radius(budget);
    assert(is_load_radius(budget, witness) ==> is_load_radius(budget, chosen));
    if is_load_radius(budget, radius) {
        if radius < chosen {
            if radius + 1 < chosen {
                polygons_within_increasing(radius + 1, chosen);
            }
        } else if chosen < radius {
            if chosen + 1 < radius {
                polygons_within_increasing(chosen + 1, radius);
            }
        }
    }
}

/// A larger budget never pays for a smaller radius.
pub proof fn load_radius_monotonic(smaller: int, larger: int)
    requires
        0 <= smaller <= larger,
    ensures
        load_radius(smaller) <= load_radius(larger),
{
    load_radius_unique(smaller, 0);
    load_radius_unique(larger, 0);
    let low = load_radius(smaller);
    let high = load_radius(larger);
    if high < low {
        if high + 1 < low {
            polygons_within_increasing(high + 1, low);
        }
    }
}

/// Doubling a budget never shrinks the radius it pays for.
pub proof fn load_radius_doubling(budget: int)
    requires
        budget >= 0,
    ensures
        load_radius(budget) <= load_radius(2 * budget),
{
    load_radius_monotonic(budget, 2 * budget);
}

/// An empty budget pays for no shell at all.
pub proof fn load_radius_of_nothing()
    ensures
        load_radius(0) == 0,
{
    shell_polygons_bounds(0);
    assert(polygons_within(1) == polygons_within(0) + shell_polygons(0));
    load_radius_unique(0, 0);
}

/// The polygons within a radius, band by band: what the bands before cost in
/// full, and the band of the last shell by the area taken from it.
pub open spec fn polygons_within_by_band(radius: nat) -> int {
    let area = square_chunks(radius - 1);
    if radius <= 3 {
        256 * area
    } else if radius <= 17 {
        6400 + 64 * (area - 25)
    } else if radius <= 33 {
        74496 + 16 * (area - 1089)
    } else if radius <= 49 {
        124672 + 16 * (area - 4225)
    } else {
        207616 + 4 * (area - 9409)
    }
}

/// The area of the square that each band ends with.
proof fn band_areas()
    ensures
        square_chunks(2) == 25,
        square_chunks(16) == 1089,
        square_chunks(32) == 4225,
        square_chunks(48) == 9409,
{
    assert(square_chunks(2) == 25 && square_chunks(16) == 1089) by (nonlinear_arith)
        requires
            square_chunks(2) == (2 * 2 + 1) * (2 * 2 + 1),
            square_chunks(16) == (2 * 16 + 1) * (2 * 16 + 1),
    ;
    assert(square_chunks(32) == 4225 && square_chunks(48) == 9409) by (nonlinear_arith)
        requires
            square_chunks(32) == (2 * 32 + 1) * (2 * 32 + 1),
            square_chunks(48) == (2 * 48 + 1) * (2 * 48 + 1),
    ;
}

/// Summing shell by shell and reckoning band by band give the same.
pub proof fn polygons_within_closed_form(radius: nat)
    ensures
        polygons_within(radius) == polygons_within_by_band(radius),
    decreases radius,
{
    if radius > 0 {
        let last = (radius - 1) as nat;
        polygons_within_closed_form(last);
        polygons_per_chunk_values();
        shell_polygons_bounds(last);
        band_areas();
        let chunks = shell_chunks(last);
        let per_chunk = polygons_per_chunk(lod_tier(last as int)) as int;
        assert(polygons_within(radius) == polygons_within(last) + chunks * per_chunk);
        assert(square_chunks(radius - 1) == square_chunks(last - 1) + chunks);
        if last <= 2 {
            assert(chunks * per_chunk == 256 * chunks) by (nonlinear_arith)
                requires
                    per_chunk == 256,
            ;
        } else if last <= 16 {
            assert(chunks * per_chunk == 64 * chunks) by (nonlinear_arith)
                requires
                    per_chunk == 64,
            ;
        } else if last <= 48 {
            assert(chunks * per_chunk == 16 * chunks) by (nonlinear_arith)
                requires
                    per_chunk == 16,
            ;
        } else {
            assert(chunks * per_chunk == 4 * chunks) by (nonlinear_arith)
                requires
                    per_chunk == 4,
            ;
        }
    }
}

/// The budget of `POLYGON_BUDGET` polygons pays for 171 shells, more than
/// the cap lets through.
pub proof fn polygon_budget_exceeds_cap()
    ensures
        load_radius(POLYGON_BUDGET as int) == 171,
        capped_load_radius(POLYGON_BUDGET as int) == MAX_LOAD_DISTANCE,
{
    polygons_within_closed_form(171);
    polygons_within_closed_form(172);
    assert(square_chunks(170) == 116281 && square_chunks(171) == 117649) by (nonlinear_arith)
        requires
            square_chunks(170) == (2 * 170 + 1) * (2 * 170 + 1),
            square_chunks(171) == (2 * 171 + 1) * (2 * 171 + 1),
    ;
    load_radius_unique(POLYGON_BUDGET as int, 171);
}

/// The state of the outward walk: `radius` shells are paid for, `budget` is
/// what is left, and `prev_square` is the area those shells cover.
spec fn walk_state(polygon_budget: i32, budget: i32, radius: i32, prev_square: i32) -> bool {
    &&& 0 <= radius
    &&& 0 <= budget <= polygon_budget
    &&& budget == polygon_budget - polygons_within(radius as nat)
    &&& prev_square == square_chunks(radius - 1)
}

/// While the walk is within budget the radius stays small enough for 32-bit
/// arithmetic on the next shell.
proof fn walk_state_bounds(polygon_budget: i32, budget: i32, radius: i32, prev_square: i32)
    requires
        walk_state(polygon_budget, budget, radius, prev_square),
    ensures
        radius <= 11586,
        0 <= prev_square <= 0x2000_0000,
        square_chunks(radius as int) <= 536_987_929,
        shell_chunks(radius as nat) == square_chunks(radius as int) - prev_square,
        shell_chunks(radius as nat) == (if radius == 0 { 1 } else { 8 * radius }),
        polygons_within(radius as nat + 1) == polygons_within(radius as nat) + shell_polygons(
            radius as nat,
        ),
{
    polygons_within_lower_bound(radius as nat);
    shell_polygons_bounds(radius as nat);
    let side = 2 * radius - 1;
    assert(radius <= 11586) by (nonlinear_arith)
        requires
            radius >= 1 ==> 4 * (side * side) <= 0x7fff_ffff,
            side == 2 * radius - 1,
    ;
    assert(square_chunks(radius as int) <= 536_987_929) by (nonlinear_arith)
        requires
            0 <= radius <= 11586,
            square_chunks(radius as int) == (2 * radius + 1) * (2 * radius + 1),
    ;
}

/// The maximum view radius, in chunks, whose terrain fits in `polygon_budget`.
///
/// Shells are taken outward from the viewer, each at the tier of its
/// distance, for as long as the polygons of the next one still fit.
pub fn load_distance(polygon_budget: i32) -> (radius: i32)
    requires
        polygon_budget >= 0,
    ensures
        radius >= 0,
        radius == load_radius(polygon_budget as int),
        is_load_radius(polygon_budget as int, radius as nat),
{
    let mut budget: i32 = polygon_budget;
    let mut radius: i32 = 0;
    let mut prev_square: i32 = 0;
    let mut band: usize = 0;
    while band < LOD_THRESHOLDS.len()
        invariant
            band <= 4,
            walk_state(polygon_budget, budget, radius, prev_square),
            radius == (if band == 0 { 0 } else { LOD_THRESHOLDS[band - 1] + 1 }),
        ensures
            band == 4,
            walk_state(polygon_budget, budget, radius, prev_square),
            radius == 49,
        decreases 4 - band,
    {
        let threshold: i32 = LOD_THRESHOLDS[band];
        let quality: i32 = EDGE_SAMPLES[band] as i32;
        proof {
            polygons_per_chunk_values();
            assert(quality == 8 || quality == 4 || quality == 2);
        }
        let polygons_per_chunk: i32 = quality * quality * 4;
        while radius <= threshold
            invariant
                band < 4,
                threshold == LOD_THRESHOLDS[band as int],
                polygons_per_chunk == crate::terrain_mesh::polygons_per_chunk(band as nat),
                walk_state(polygon_budget, budget, radius, prev_square),
                (if band == 0 { 0 } else { LOD_THRESHOLDS[band - 1] + 1 }) <= radius <= threshold + 1,
            decreases threshold + 1 - radius,
        {
            proof {
                walk_state_bounds(polygon_budget, budget, radius, prev_square);
                polygons_per_chunk_values();
                assert(lod_tier(radius as int) == band);
            }
            let width: i32 = 2 * radius + 1;
            let square: i32 = width * width;
            assert(0 < (square - prev_square) * polygons_per_chunk <= 384 * 256) by (nonlinear_arith)
                requires
                    0 < square - prev_square <= 384,
                    16 <= polygons_per_chunk <= 256,
            ;
            let polygons_in_layer: i32 = (square - prev_square) * polygons_per_chunk;
            if polygons_in_layer > budget {
                proof {
                    load_radius_unique(polygon_budget as int, radius as nat);
                }
                return radius;
            }
            budget -= polygons_in_layer;
            radius += 1;
            prev_square = square;
        }
        band += 1;
    }

    // Beyond the last threshold every shell is drawn at the coarsest tier.
    let quality: i32 = EDGE_SAMPLES[LOD_THRESHOLDS.len()] as i32;
    let polygons_per_chunk: i32 = quality * quality * 4;
    loop
        invariant
            polygons_per_chunk == 4,
            radius >= 49,
            walk_state(polygon_budget, budget, radius, prev_square),
        decreases budget,
    {
        proof {
            walk_state_bounds(polygon_budget, budget, radius, prev_square);
            polygons_per_chunk_values();
            assert(lod_tier(radius as int) == 4);
        }
        let width: i32 = 2 * radius + 1;
        let square: i32 = width * width;
        let polygons_in_layer: i32 = (square - prev_square) * polygons_per_chunk;
        if polygons_in_layer > budget {
            proof {
                load_radius_unique(polygon_budget as int, radius as nat);
            }
            return radius;
        }
        budget -= polygons_in_layer;
        radius += 1;
        prev_square = square;
    }
}

/// The load distance of a client with `budget` polygons: what the budget
/// pays for, but no more than `MAX_LOAD_DISTANCE`.
pub open spec fn capped_load_radius(budget: int) -> int {
    if load_radius(budget) > MAX_LOAD_DISTANCE {
        MAX_LOAD_DISTANCE as int
    } else {
        load_radius(budget) as int
    }
}

/// The state that a session's generator starts in: that of a generator
/// seeded with `RNG_SEED` after four draws.
pub open spec fn session_rng_words() -> Seq<u32> {
    advanced(advanced(advanced(advanced(RNG_SEED@))))
}

/// Seeding a generator with the four words it gave last leaves it in the
/// state it is in already.
pub proof fn reseeding_from_own_words(words: Seq<u32>)
    requires
        words.len() == 4,
    ensures
        advanced(advanced(advanced(advanced(words)))) == seq![
            xorshift::next_word(words),
            xorshift::next_word(advanced(words)),
            xorshift::next_word(advanced(advanced(words))),
            xorshift::next_word(advanced(advanced(advanced(words)))),
        ],
{
    assert(advanced(advanced(advanced(advanced(words)))) =~= seq![
        xorshift::next_word(words),
        xorshift::next_word(advanced(words)),
        xorshift::next_word(advanced(advanced(words))),
        xorshift::next_word(advanced(advanced(advanced(words)))),
    ]);
}

/// The main client state.
pub struct T {
    pub id: protocol::ClientId,
    pub player_id: entity_id::T,
    /// Where the player stands.
    pub player_position: Point3,
    /// Where the player stood when the last footstep sounded.
    pub last_footstep: Point3,
    /// Where terrain is to be loaded around next, if that has been asked for.
    pub load_position: Option<Point3>,
    /// The distances at which the level of detail switches.
    pub lod_thresholds: [i32; 4],
    /// How far out terrain is kept resident, in chunks.
    pub max_load_distance: i32,
    /// The terrain resident in graphics memory.
    pub terrain_buffers: terrain_buffers::T,
    /// The number of terrain requests that are outstanding.
    pub pending_terrain_requests: u32,
    /// The session's source of pseudo-random numbers.
    pub rng: rand::XorShiftRng,
}

/// The state of a client that has just joined as `client_id`, with its
/// player `player_id` standing at `position`.
///
/// Nothing is resident and nothing has been asked for. The load distance is
/// what the polygon budget pays for, capped. The generator is seeded with
/// `RNG_SEED` and then once more with its own first four words.
pub fn new(client_id: protocol::ClientId, player_id: entity_id::T, position: Point3) -> (client: T)
    ensures
        client.id == client_id,
        client.player_id == player_id,
        client.player_position == position,
        client.last_footstep == position,
        client.load_position is None,
        client.lod_thresholds@ == LOD_THRESHOLDS@,
        client.max_load_distance == capped_load_radius(POLYGON_BUDGET as int),
        client.max_load_distance == MAX_LOAD_DISTANCE,
        client.terrain_buffers.wf(),
        client.terrain_buffers@ == Pool::empty(CHUNK_BUDGET as nat),
        client.pending_terrain_requests == 0,
        state_words(client.rng) == session_rng_words(),
{
    let mut rng = xorshift::from_seed(RNG_SEED);
    let s1 = xorshift::next_u32(&mut rng);
    let s2 = xorshift::next_u32(&mut rng);
    let s3 = xorshift::next_u32(&mut rng);
    let s4 = xorshift::next_u32(&mut rng);
    let seed = [s1, s2, s3, s4];
    proof {
        reseeding_from_own_words(RNG_SEED@);
        assert(seed@ =~= session_rng_words());
        assert(s1 != 0) by (bit_vector)
            requires
                s1 == 4u32 ^ (4u32 >> 19) ^ ((1u32 ^ (1u32 << 11)) ^ ((1u32 ^ (1u32 << 11)) >> 8)),
        ;
        assert(seed@[0] != 0);
    }
    xorshift::reseed(&mut rng, seed);

    let mut load_distance = load_distance(POLYGON_BUDGET as i32);
    proof {
        polygon_budget_exceeds_cap();
    }

    if load_distance > MAX_LOAD_DISTANCE {
        load_distance = MAX_LOAD_DISTANCE;
    }

    T {
        id: client_id,
        player_id: player_id,
        player_position: position,
        last_footstep: position,
        load_position: None,
        lod_thresholds: LOD_THRESHOLDS,
        max_load_distance: load_distance,
        terrain_buffers: terrain_buffers::new(),
        pending_terrain_requests: 0,
        rng: rng,
    }
}

} // verus!
