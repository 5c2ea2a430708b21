//! Tube (or cone) topology: `n + 1` cross-sections of four vertices each
//! (outer-top, outer-bottom, inner-bottom, inner-top), the last repeating the first
//! angle, joined by four ring surfaces per segment.

use vstd::prelude::*;
use vstd::arithmetic::div_mod::lemma_fundamental_div_mod_converse;
use crate::error::MeshError;
use crate::grid::{as_ints, lemma_as_ints_injective, MAX_VERTICES};

verus! {

/// Number of vertices of a tube with `n` angular segments.
pub open spec fn cylinder_vertex_count(n: int) -> int {
    4 * (n + 1)
}

/// The quad `a b c d` as the two triangles `a b c` and `c d a`.
pub open spec fn quad_triangles(a: int, b: int, c: int, d: int) -> Seq<int> {
    seq![a, b, c, c, d, a]
}

/// Triangle indices of segment `i`: top annulus, bottom annulus, outer wall,
/// inner wall, between cross-section `i` (base `4 i`) and cross-section `i + 1`.
pub open spec fn segment_triangles(i: int) -> Seq<int> {
    let o = 4 * i;
    quad_triangles(o, o + 4, o + 7, o + 3) + quad_triangles(o + 1, o + 2, o + 6, o + 5)
        + quad_triangles(o, o + 1, o + 5, o + 4) + quad_triangles(o + 2, o + 3, o + 7, o + 6)
}

/// Wireframe indices of segment `i`: the outline of its top and bottom annulus
/// pieces and the two vertical edges of cross-section `i`.
pub open spec fn segment_edges(i: int) -> Seq<int> {
    let o = 4 * i;
    seq![o, o + 3, o + 3, o + 7, o + 4, o]
        + seq![o + 1, o + 2, o + 2, o + 6, o + 5, o + 1]
        + seq![o, o + 1, o + 3, o + 2]
}

/// Triangle list of the first `n` segments.
pub open spec fn cylinder_triangles(n: int) -> Seq<int> {
    Seq::new((24 * n) as nat, |m: int| segment_triangles(m / 24)[m % 24])
}

/// Wireframe line list of the first `n` segments.
pub open spec fn cylinder_edges(n: int) -> Seq<int> {
    Seq::new((16 * n) as nat, |m: int| segment_edges(m / 16)[m % 16])
}

/// A tube of `n` segments can be generated.
pub open spec fn cylinder_fits(n: int) -> bool {
    n > 0 && cylinder_vertex_count(n) <= MAX_VERTICES
}

proof fn lemma_segment_position(i: int, width: int, m: int)
    requires
        i >= 0,
        width > 0,
        width * i <= m < width * i + width,
    ensures
        m / width == i,
        m % width == m - width * i,
{
    assert(width * i == i * width) by (nonlinear_arith);
    lemma_fundamental_div_mod_converse(m, width, i, m - width * i);
}

proof fn lemma_cylinder_step(i: int)
    requires
        i >= 0,
    ensures
        cylinder_triangles(i + 1) == cylinder_triangles(i) + segment_triangles(i),
        cylinder_edges(i + 1) == cylinder_edges(i) + segment_edges(i),
{
    let t = cylinder_triangles(i) + segment_triangles(i);
    assert forall|m: int| 24 * i <= m < 24 * i + 24 implies cylinder_triangles(i + 1)[m] == t[m] by {
        lemma_segment_position(i, 24, m);
    }
    assert(cylinder_triangles(i + 1) =~= t);
    let e = cylinder_edges(i) + segment_edges(i);
    assert forall|m: int| 16 * i <= m < 16 * i + 16 implies cylinder_edges(i + 1)[m] == e[m] by {
        lemma_segment_position(i, 16, m);
    }
    assert(cylinder_edges(i + 1) =~= e);
}

/// Appends the two triangles of quad `a b c d`.
fn push_quad(v: &mut Vec<u16>, a: u16, b: u16, c: u16, d: u16)
    ensures
        as_ints(final(v)@) == as_ints(old(v)@) + quad_triangles(a as int, b as int, c as int, d as int),
{
    v.push(a);
    v.push(b);
    v.push(c);
    v.push(c);
    v.push(d);
    v.push(a);
    assert(as_ints(v@) =~= as_ints(old(v)@) + quad_triangles(a as int, b as int, c as int, d as int));
}

/// Triangle-list and wireframe indices of a tube with `n` angular segments.
pub fn cylinder_indices(n: u16) -> (r: Result<(Vec<u16>, Vec<u16>), MeshError>)
    ensures
        r is Ok <==> cylinder_fits(n as int),
        r matches Ok((tri, wire)) ==> as_ints(tri@) == cylinder_triangles(n as int) && as_ints(
            wire@,
        ) == cylinder_edges(n as int),
        r matches Err(e) ==> e == (if n == 0 {
            MeshError::ZeroSegments
        } else {
            MeshError::TooManyVertices
        }),
{
    if n == 0 {
        return Err(MeshError::ZeroSegments);
    }
    if 4 * (n as usize + 1) > MAX_VERTICES {
        return Err(MeshError::TooManyVertices);
    }
    let mut tri: Vec<u16> = Vec::new();
    let mut wire: Vec<u16> = Vec::new();
    let mut i: u16 = 0;
    while i < n
        invariant
            0 <= i <= n,
            cylinder_fits(n as int),
            as_ints(tri@) == cylinder_triangles(i as int),
            as_ints(wire@) == cylinder_edges(i as int),
        decreases n - i,
    {
        let o: u16 = 4 * i;
        proof {
            lemma_cylinder_step(i as int);
        }
        push_quad(&mut tri, o, o + 4, o + 7, o + 3);
        push_quad(&mut tri, o + 1, o + 2, o + 6, o + 5);
        push_quad(&mut tri, o, o + 1, o + 5, o + 4);
        push_quad(&mut tri, o + 2, o + 3, o + 7, o + 6);
        let ghost w0 = wire@;
        wire.push(o);
        wire.push(o + 3);
        wire.push(o + 3);
        wire.push(o + 7);
        wire.push(o + 4);
        wire.push(o);
        wire.push(o + 1);
        wire.push(o + 2);
        wire.push(o + 2);
        wire.push(o + 6);
        wire.push(o + 5);
        wire.push(o + 1);
        wire.push(o);
        wire.push(o + 1);
        wire.push(o + 3);
        wire.push(o + 2);
        assert(as_ints(tri@) =~= cylinder_triangles(i + 1));
        assert(as_ints(wire@) =~= as_ints(w0) + segment_edges(i as int));
        i = i + 1;
    }
    Ok((tri, wire))
}

/// Every index of a tube's triangle list and wireframe names one of its vertices,
/// the triangle list holds whole triangles and the wireframe whole segments.
pub proof fn lemma_cylinder_indices_in_range(n: int)
    requires
        n >= 0,
    ensures
        cylinder_triangles(n).len() == 3 * (8 * n),
        cylinder_edges(n).len() == 2 * (8 * n),
        forall|m: int|
            0 <= m < cylinder_triangles(n).len() ==> 0 <= #[trigger] cylinder_triangles(n)[m]
                < cylinder_vertex_count(n),
        forall|m: int|
            0 <= m < cylinder_edges(n).len() ==> 0 <= #[trigger] cylinder_edges(n)[m]
                < cylinder_vertex_count(n),
{
    assert forall|m: int| 0 <= m < cylinder_triangles(n).len() implies 0
        <= #[trigger] cylinder_triangles(n)[m] < cylinder_vertex_count(n) by {
        let i = m / 24;
        assert(0 <= i < n);
        assert(0 <= m % 24 < 24);
    }
    assert forall|m: int| 0 <= m < cylinder_edges(n).len() implies 0
        <= #[trigger] cylinder_edges(n)[m] < cylinder_vertex_count(n) by {
        let i = m / 16;
        assert(0 <= i < n);
        assert(0 <= m % 16 < 16);
    }
}

/// Generating the same tube twice gives identical index lists: any two results
/// that meet the contract of `cylinder_indices` for the same segment count are equal.
pub proof fn lemma_cylinder_regenerates(
    n: u16,
    first: (Seq<u16>, Seq<u16>),
    second: (Seq<u16>, Seq<u16>),
)
    requires
        as_ints(first.0) == cylinder_triangles(n as int),
        as_ints(first.1) == cylinder_edges(n as int),
        as_ints(second.0) == cylinder_triangles(n as int),
        as_ints(second.1) == cylinder_edges(n as int),
    ensures
        first == second,
{
    lemma_as_ints_injective(first.0, second.0);
    lemma_as_ints_injective(first.1, second.1);
}

} // verus!
