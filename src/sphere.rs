//! Points spread over a sphere by a Fibonacci lattice.
use vstd::prelude::*;

verus! {

/// `r` holds `count` points, point `i` being what `point_at` returns on the
/// index `i` and the point count.
pub open spec fn is_lattice_buffer<T, F: Fn(u32, u32) -> (T, T, T)>(point_at: F, count: u32, r: Seq<T>) -> bool {
    &&& r.len() == 3 * count
    &&& forall|i: u32|
        i < count ==> #[trigger] point_at.ensures(
            (i, count),
            (r[3 * i], r[3 * i + 1], r[3 * i + 2]),
        )
}

/// Generates the `count` points of a Fibonacci lattice, in index order.
/// `point_at(i, count)` places point `i`; it is never called when `count` is
/// zero, so that case gives an empty buffer.
pub fn fibonacci_sphere_with<T, F: Fn(u32, u32) -> (T, T, T)>(count: u32, point_at: F) -> (r: Vec<T>)
    requires
        forall|i: u32| i < count ==> #[trigger] point_at.requires((i, count)),
    ensures
        is_lattice_buffer(point_at, count, r@),
        count == 0 ==> r@.len() == 0,
{
    let mut out: Vec<T> = Vec::new();
    let mut i: u32 = 0;
    while i < count
        invariant
            i <= count,
            forall|j: u32| j < count ==> #[trigger] point_at.requires((j, count)),
            out@.len() == 3 * i,
            forall|j: u32|
                j < i ==> #[trigger] point_at.ensures(
                    (j, count),
                    (out@[3 * j], out@[3 * j + 1], out@[3 * j + 2]),
                ),
        decreases count - i,
    {
        let (x, y, z) = point_at(i, count);
        let ghost prev = out@;
        out.push(x);
        out.push(y);
        out.push(z);
        proof {
            assert forall|j: u32| j < i + 1 implies #[trigger] point_at.ensures(
                (j, count),
                (out@[3 * j], out@[3 * j + 1], out@[3 * j + 2]),
            ) by {
                if j < i {
                    assert(point_at.ensures((j, count), (prev[3 * j], prev[3 * j + 1], prev[3 * j + 2])));
                    assert(out@[3 * j] == prev[3 * j]);
                    assert(out@[3 * j + 1] == prev[3 * j + 1]);
                    assert(out@[3 * j + 2] == prev[3 * j + 2]);
                }
            }
        }
        i = i + 1;
    }
    out
}

} // verus!
