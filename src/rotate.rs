//! Rigid rotation of a coordinate buffer about the vertical (y) axis.
use vstd::prelude::*;

verus! {

/// `r` is `p` with every whole point rotated by `rotate_xz`: for point `i`,
/// `(x, z)` becomes what `rotate_xz` returns on them and `y` is kept; the one
/// or two values after the last whole point are kept as well.
pub open spec fn is_rotation_of<T, F: Fn(T, T) -> (T, T)>(rotate_xz: F, p: Seq<T>, r: Seq<T>) -> bool {
    &&& r.len() == p.len()
    &&& forall|i: int|
        0 <= i < p.len() / 3 ==> {
            &&& #[trigger] rotate_xz.ensures((p[3 * i], p[3 * i + 2]), (r[3 * i], r[3 * i + 2]))
            &&& r[3 * i + 1] == p[3 * i + 1]
        }
    &&& forall|j: int| 3 * (p.len() / 3) <= j < p.len() ==> #[trigger] r[j] == p[j]
}

/// Rotating by `first` and then by `second` gives what one rotation by
/// `both` gives, when `both` maps each `(x, z)` to what `second` makes of
/// `first`'s result and each of the three has one result per input.
pub proof fn lemma_rotations_compose<T, F: Fn(T, T) -> (T, T), G: Fn(T, T) -> (T, T), H: Fn(T, T) -> (T, T)>(
    first: F,
    second: G,
    both: H,
    p: Seq<T>,
    q: Seq<T>,
    r: Seq<T>,
    s: Seq<T>,
)
    requires
        forall|x: T, z: T, a: (T, T), b: (T, T), c: (T, T)|
            #[trigger] first.ensures((x, z), a) && #[trigger] second.ensures(a, b) && #[trigger] both.ensures(
                (x, z),
                c,
            ) ==> b == c,
        is_rotation_of(first, p, q),
        is_rotation_of(second, q, r),
        is_rotation_of(both, p, s),
    ensures
        r == s,
{
    assert forall|j: int| 0 <= j < p.len() implies r[j] == s[j] by {
        let i = j / 3;
        if i < p.len() / 3 {
            assert(first.ensures((p[3 * i], p[3 * i + 2]), (q[3 * i], q[3 * i + 2])));
            assert(second.ensures((q[3 * i], q[3 * i + 2]), (r[3 * i], r[3 * i + 2])));
            assert(both.ensures((p[3 * i], p[3 * i + 2]), (s[3 * i], s[3 * i + 2])));
        } else {
            assert(q[j] == p[j]);
        }
    }
    assert(r =~= s);
}

/// A rotation that leaves every `(x, z)` as it is leaves the buffer as it is.
pub proof fn lemma_identity_rotation<T, F: Fn(T, T) -> (T, T)>(rotate_xz: F, p: Seq<T>, r: Seq<T>)
    requires
        forall|x: T, z: T, a: (T, T)| #[trigger] rotate_xz.ensures((x, z), a) ==> a == (x, z),
        is_rotation_of(rotate_xz, p, r),
    ensures
        r == p,
{
    assert forall|j: int| 0 <= j < p.len() implies r[j] == p[j] by {
        let i = j / 3;
        if i < p.len() / 3 {
            assert(rotate_xz.ensures((p[3 * i], p[3 * i + 2]), (r[3 * i], r[3 * i + 2])));
        }
    }
    assert(r =~= p);
}

/// Rotates every point of `positions` about the y axis, reusing the buffer.
/// `rotate_xz` maps a point's `(x, z)` to its rotated `(x, z)`.
pub fn step_rotate_y_with<T: Copy, F: Fn(T, T) -> (T, T)>(positions: Vec<T>, rotate_xz: F) -> (r: Vec<T>)
    requires
        forall|x: T, z: T| #[trigger] rotate_xz.requires((x, z)),
    ensures
        is_rotation_of(rotate_xz, positions@, r@),
{
    let mut out = positions;
    let len: usize = out.len();
    let n: usize = len / 3;
    let mut i: usize = 0;
    while i < n
        invariant
            n == positions@.len() / 3,
            i <= n,
            out@.len() == positions@.len(),
            len == positions@.len(),
            forall|x: T, z: T| #[trigger] rotate_xz.requires((x, z)),
            forall|k: int|
                0 <= k < i ==> {
                    &&& #[trigger] rotate_xz.ensures(
                        (positions@[3 * k], positions@[3 * k + 2]),
                        (out@[3 * k], out@[3 * k + 2]),
                    )
                    &&& out@[3 * k + 1] == positions@[3 * k + 1]
                },
            forall|j: int| 3 * i <= j < out@.len() ==> #[trigger] out@[j] == positions@[j],
        decreases n - i,
    {
        assert(3 * i + 2 < len) by (nonlinear_arith)
            requires
                i < n,
                n == positions@.len() / 3,
                out@.len() == positions@.len(),
                len == positions@.len(),
        ;
        let idx: usize = i * 3;
        let x = out[idx];
        let z = out[idx + 2];
        let (xr, zr) = rotate_xz(x, z);
        let ghost prev = out@;
        out.set(idx, xr);
        out.set(idx + 2, zr);
        proof {
            assert(out@[3 * i + 1] == prev[3 * i + 1]);
            assert forall|k: int| 0 <= k < i + 1 implies #[trigger] rotate_xz.ensures(
                (positions@[3 * k], positions@[3 * k + 2]),
                (out@[3 * k], out@[3 * k + 2]),
            ) && out@[3 * k + 1] == positions@[3 * k + 1] by {
                if k < i {
                    assert(rotate_xz.ensures(
                        (positions@[3 * k], positions@[3 * k + 2]),
                        (prev[3 * k], prev[3 * k + 2]),
                    ));
                    assert(out@[3 * k] == prev[3 * k]);
                    assert(out@[3 * k + 1] == prev[3 * k + 1]);
                    assert(out@[3 * k + 2] == prev[3 * k + 2]);
                }
            }
        }
        i = i + 1;
    }
    out
}

} // verus!
