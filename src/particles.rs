//! Random particles in a spherical shell, drawn from a seeded generator.
use vstd::prelude::*;

use crate::rng::{lemma_zero_seed_as_seed_one, nth_draw, state_after, Lcg};

verus! {

/// `r` is the buffer of `count` particles made from `seed` through
/// `to_point`: point `i` is what `to_point` returns on the draws `3i`, `3i+1`
/// and `3i+2` of the generator (theta, phi and radius driver, in that order).
pub open spec fn is_particle_buffer<T, F: Fn(u32, u32, u32) -> (T, T, T)>(
    to_point: F,
    count: nat,
    seed: u32,
    r: Seq<T>,
) -> bool {
    &&& r.len() == 3 * count
    &&& forall|i: int|
        0 <= i < count ==> #[trigger] to_point.ensures(
            (nth_draw(seed, (3 * i) as nat), nth_draw(seed, (3 * i + 1) as nat), nth_draw(seed, (3 * i + 2) as nat)),
            (r[3 * i], r[3 * i + 1], r[3 * i + 2]),
        )
}

/// `to_point` has at most one result for each triple of draws.
pub open spec fn is_functional_point_map<T, F: Fn(u32, u32, u32) -> (T, T, T)>(to_point: F) -> bool {
    forall|a: u32, b: u32, c: u32, p: (T, T, T), q: (T, T, T)|
        #[trigger] to_point.ensures((a, b, c), p) && #[trigger] to_point.ensures((a, b, c), q) ==> p == q
}

/// Particle generation is reproducible: with a point map that has one result
/// per input, two buffers made from the same count and seed are identical.
pub proof fn lemma_particles_deterministic<T, F: Fn(u32, u32, u32) -> (T, T, T)>(
    to_point: F,
    count: nat,
    seed: u32,
    r1: Seq<T>,
    r2: Seq<T>,
)
    requires
        is_functional_point_map(to_point),
        is_particle_buffer(to_point, count, seed, r1),
        is_particle_buffer(to_point, count, seed, r2),
    ensures
        r1 == r2,
{
    assert forall|j: int| 0 <= j < r1.len() implies r1[j] == r2[j] by {
        let i = j / 3;
        assert(0 <= i < count);
        assert(to_point.ensures(
            (nth_draw(seed, (3 * i) as nat), nth_draw(seed, (3 * i + 1) as nat), nth_draw(seed, (3 * i + 2) as nat)),
            (r1[3 * i], r1[3 * i + 1], r1[3 * i + 2]),
        ));
        assert(to_point.ensures(
            (nth_draw(seed, (3 * i) as nat), nth_draw(seed, (3 * i + 1) as nat), nth_draw(seed, (3 * i + 2) as nat)),
            (r2[3 * i], r2[3 * i + 1], r2[3 * i + 2]),
        ));
    }
    assert(r1 =~= r2);
}

/// A zero seed makes exactly the particles that the seed one makes.
pub proof fn lemma_particles_zero_seed<T, F: Fn(u32, u32, u32) -> (T, T, T)>(
    to_point: F,
    count: nat,
    r: Seq<T>,
)
    ensures
        is_particle_buffer(to_point, count, 0, r) == is_particle_buffer(to_point, count, 1, r),
{
    assert forall|k: nat| nth_draw(0, k) == nth_draw(1, k) by {
        lemma_zero_seed_as_seed_one(k);
    }
}

/// Generates `count` particles from `seed`. Each point consumes three draws
/// of one generator, each a value below 2^31, and `to_point` turns them into
/// the point's coordinates.
pub fn init_particles_with<T, F: Fn(u32, u32, u32) -> (T, T, T)>(
    count: u32,
    seed: u32,
    to_point: F,
) -> (r: Vec<T>)
    requires
        forall|a: u32, b: u32, c: u32|
            a < 0x8000_0000 && b < 0x8000_0000 && c < 0x8000_0000 ==> #[trigger] to_point.requires((a, b, c)),
    ensures
        is_particle_buffer(to_point, count as nat, seed, r@),
{
    let mut rng = Lcg::new(seed);
    let mut out: Vec<T> = Vec::new();
    let mut i: u32 = 0;
    while i < count
        invariant
            i <= count,
            rng.state == state_after(seed, (3 * i) as nat),
            forall|a: u32, b: u32, c: u32|
                a < 0x8000_0000 && b < 0x8000_0000 && c < 0x8000_0000 ==> #[trigger] to_point.requires((a, b, c)),
            is_particle_buffer(to_point, i as nat, seed, out@),
        decreases count - i,
    {
        let ghost k = (3 * i) as nat;
        let u = rng.next_bits();
        assert(state_after(seed, k + 1) == rng.state);
        let v = rng.next_bits();
        assert(state_after(seed, k + 2) == rng.state);
        let w = rng.next_bits();
        assert(state_after(seed, k + 3) == rng.state);
        assert(u == nth_draw(seed, k) && v == nth_draw(seed, k + 1) && w == nth_draw(seed, k + 2));
        let (x, y, z) = to_point(u, v, w);
        let ghost prev = out@;
        out.push(x);
        out.push(y);
        out.push(z);
        proof {
            assert forall|j: int| 0 <= j < i + 1 implies #[trigger] to_point.ensures(
                (nth_draw(seed, (3 * j) as nat), nth_draw(seed, (3 * j + 1) as nat), nth_draw(seed, (3 * j + 2) as nat)),
                (out@[3 * j], out@[3 * j + 1], out@[3 * j + 2]),
            ) by {
                if j < i {
                    assert(out@[3 * j] == prev[3 * j]);
                    assert(out@[3 * j + 1] == prev[3 * j + 1]);
                    assert(out@[3 * j + 2] == prev[3 * j + 2]);
                }
            }
        }
        i = i + 1;
    }
    out
}

} // verus!
