use vstd::prelude::*;

verus! {

/// The corners of triangle `t` of a triangulated index list: the three
/// vertex indices that start at position `3 * t`.
pub open spec fn corners(indices: Seq<u32>, t: int) -> (usize, usize, usize) {
    (indices[3 * t] as usize, indices[3 * t + 1] as usize, indices[3 * t + 2] as usize)
}

/// Groups a triangulated mesh's index list into vertex-index triples, one per
/// triangle; a trailing incomplete group is left out.
pub fn triangle_indices(indices: &Vec<u32>) -> (r: Vec<(usize, usize, usize)>)
    ensures
        r@.len() == indices@.len() / 3,
        forall|t: int| 0 <= t < r@.len() ==> #[trigger] r@[t] == corners(indices@, t),
{
    let n = indices.len();
    let count = n / 3;
    let mut r: Vec<(usize, usize, usize)> = Vec::new();
    let mut t: usize = 0;
    while t < count
        invariant
            n == indices@.len(),
            count == n / 3,
            t <= count,
            r@.len() == t,
            forall|u: int| 0 <= u < t ==> #[trigger] r@[u] == corners(indices@, u),
        decreases count - t,
    {
        assert(3 * t + 2 < n) by (nonlinear_arith)
            requires
                t < count,
                count == n / 3,
        ;
        let a = indices[3 * t] as usize;
        let b = indices[3 * t + 1] as usize;
        let c = indices[3 * t + 2] as usize;
        r.push((a, b, c));
        t = t + 1;
    }
    r
}

} // verus!
