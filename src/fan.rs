//! Cutting a convex polygon into triangles that share its first corner.
use vstd::prelude::*;

verus! {

/// The triangles of the fan over `points`: the first point, and each pair
/// of points next to each other after it. Fewer than three points give none.
pub fn polygon_to_triangle_points<P: Copy>(points: &Vec<P>) -> (r: Vec<[P; 3]>)
    ensures
        r@.len() == if points@.len() < 3 {
            0
        } else {
            points@.len() - 2
        },
        forall|i: int|
            0 <= i < r@.len() ==> (#[trigger] r@[i])[0] == points@[0] && r@[i][1] == points@[i
                + 1] && r@[i][2] == points@[i + 2],
{
    let mut r: Vec<[P; 3]> = Vec::new();
    if points.len() < 3 {
        return r;
    }
    let first = points[0];
    let mut i: usize = 2;
    while i < points.len()
        invariant
            2 <= i <= points@.len(),
            first == points@[0],
            r@.len() == i - 2,
            forall|k: int|
                0 <= k < r@.len() ==> (#[trigger] r@[k])[0] == points@[0] && r@[k][1]
                    == points@[k + 1] && r@[k][2] == points@[k + 2],
        decreases points@.len() - i,
    {
        r.push([first, points[i - 1], points[i]]);
        i = i + 1;
    }
    r
}

} // verus!
