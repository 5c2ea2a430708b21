//! How many triangle corners of a triangle list fall on each vertex: the divisor
//! that turns summed per-triangle tangents into their mean.

use vstd::prelude::*;
use crate::error::MeshError;

verus! {

/// Number of entries of `s` equal to `v`.
pub open spec fn occurrences(s: Seq<u16>, v: int) -> nat
    decreases s.len(),
{
    if s.len() == 0 {
        0
    } else {
        occurrences(s.drop_last(), v) + if s.last() as int == v {
            1nat
        } else {
            0nat
        }
    }
}

/// Every entry of `s` names one of `n` vertices.
pub open spec fn indices_in_range(s: Seq<u16>, n: int) -> bool {
    forall|k: int| 0 <= k < s.len() ==> (#[trigger] s[k] as int) < n
}

/// The error that a triangle list is refused with.
pub open spec fn triangle_list_error(s: Seq<u16>) -> MeshError {
    if s.len() % 3 != 0 {
        MeshError::IndexCountNotTriple
    } else {
        MeshError::IndexOutOfRange
    }
}

proof fn lemma_occurrences_bounded(s: Seq<u16>, v: int)
    ensures
        occurrences(s, v) <= s.len(),
    decreases s.len(),
{
    if s.len() > 0 {
        lemma_occurrences_bounded(s.drop_last(), v);
    }
}

/// Whether every entry of `indices` is below `n`.
fn all_below(indices: &Vec<u16>, n: usize) -> (r: bool)
    ensures
        r == indices_in_range(indices@, n as int),
{
    let mut k: usize = 0;
    while k < indices.len()
        invariant
            0 <= k <= indices@.len(),
            forall|m: int| 0 <= m < k ==> (#[trigger] indices@[m] as int) < n,
        decreases indices@.len() - k,
    {
        if indices[k] as usize >= n {
            return false;
        }
        k = k + 1;
    }
    true
}

/// For each of `n_vertices` vertices, the number of entries of the triangle list
/// `indices` that name it: the number of triangles around it when no triangle
/// names a vertex twice.
pub fn triangle_counts(indices: &Vec<u16>, n_vertices: usize) -> (r: Result<Vec<usize>, MeshError>)
    ensures
        r is Ok <==> indices@.len() % 3 == 0 && indices_in_range(indices@, n_vertices as int),
        r matches Ok(counts) ==> counts@.len() == n_vertices && forall|v: int|
            0 <= v < n_vertices ==> #[trigger] counts@[v] as int == occurrences(indices@, v),
        r matches Err(e) ==> e == triangle_list_error(indices@),
{
    if indices.len() % 3 != 0 {
        return Err(MeshError::IndexCountNotTriple);
    }
    if !all_below(indices, n_vertices) {
        return Err(MeshError::IndexOutOfRange);
    }
    let mut counts: Vec<usize> = Vec::new();
    let mut v: usize = 0;
    while v < n_vertices
        invariant
            0 <= v <= n_vertices,
            counts@.len() == v,
            forall|w: int| 0 <= w < v ==> #[trigger] counts@[w] == 0,
        decreases n_vertices - v,
    {
        counts.push(0);
        v = v + 1;
    }
    let mut k: usize = 0;
    while k < indices.len()
        invariant
            0 <= k <= indices@.len(),
            counts@.len() == n_vertices,
            indices_in_range(indices@, n_vertices as int),
            forall|w: int|
                0 <= w < n_vertices ==> #[trigger] counts@[w] as int == occurrences(
                    indices@.take(k as int),
                    w,
                ),
        decreases indices@.len() - k,
    {
        let i: usize = indices[k] as usize;
        assert(indices@.take(k + 1).drop_last() =~= indices@.take(k as int));
        proof {
            lemma_occurrences_bounded(indices@.take(k as int), i as int);
        }
        let c: usize = counts[i];
        counts.set(i, c + 1);
        k = k + 1;
    }
    assert(indices@.take(indices@.len() as int) =~= indices@);
    Ok(counts)
}

} // verus!
