//! The cube's fixed vertex table: 24 vertices, four per face, so that each face
//! carries its own flat normal and its own texture coordinates.
//!
//! Face `f` (in order +x, -x, +y, -y, +z, -z) has an outward normal `n`, a
//! `right` and an `up` direction with `right x up == n`. Its corner `c` (0 to 3)
//! has column `a = c % 2` and row `b = c / 2` and lies at
//! `n + (2a - 1) right + (1 - 2b) up` on the cube with corners at (+-1, +-1, +-1);
//! scaling by half the side gives the real positions. Vertex `4 f + c` is that
//! corner of that face.

use vstd::prelude::*;
use vstd::arithmetic::div_mod::lemma_fundamental_div_mod_converse;
use crate::grid::as_ints;

verus! {

/// A vector of small integers.
#[derive(Debug, Clone, Copy, PartialEq, Eq, Structural)]
pub struct IVec3 {
    pub x: i8,
    pub y: i8,
    pub z: i8,
}

impl View for IVec3 {
    type V = (int, int, int);

    open spec fn view(&self) -> (int, int, int) {
        (self.x as int, self.y as int, self.z as int)
    }
}

/// Texture coordinates as integer numerators over a denominator that the
/// function producing them names.
#[derive(Debug, Clone, Copy, PartialEq, Eq, Structural)]
pub struct UvNum {
    pub u: u8,
    pub v: u8,
}

impl View for UvNum {
    type V = (int, int);

    open spec fn view(&self) -> (int, int) {
        (self.u as int, self.v as int)
    }
}

/// Everything the cube table holds for one vertex.
#[derive(Debug, Clone, Copy, PartialEq, Eq, Structural)]
pub struct CubeVertex {
    /// Corner of the cube with corners at (+-1, +-1, +-1).
    pub corner: IVec3,
    /// Outward unit normal of the vertex's face.
    pub normal: IVec3,
    /// Debug color, each channel 0 or 1.
    pub color: IVec3,
    /// Texture coordinates covering the whole texture, in units of 1.
    pub uv: UvNum,
    /// Texture coordinates in a 3 by 2 atlas, in sixths.
    pub atlas_uv: UvNum,
}

pub open spec fn add3(p: (int, int, int), q: (int, int, int)) -> (int, int, int) {
    (p.0 + q.0, p.1 + q.1, p.2 + q.2)
}

pub open spec fn sub3(p: (int, int, int), q: (int, int, int)) -> (int, int, int) {
    (p.0 - q.0, p.1 - q.1, p.2 - q.2)
}

pub open spec fn neg3(p: (int, int, int)) -> (int, int, int) {
    (-p.0, -p.1, -p.2)
}

pub open spec fn scale3(s: int, p: (int, int, int)) -> (int, int, int) {
    (s * p.0, s * p.1, s * p.2)
}

pub open spec fn dot3(p: (int, int, int), q: (int, int, int)) -> int {
    p.0 * q.0 + p.1 * q.1 + p.2 * q.2
}

pub open spec fn cross3(p: (int, int, int), q: (int, int, int)) -> (int, int, int) {
    (p.1 * q.2 - p.2 * q.1, p.2 * q.0 - p.0 * q.2, p.0 * q.1 - p.1 * q.0)
}

/// Outward normal of face `f`: +x, -x, +y, -y, +z, -z.
pub open spec fn face_normal(f: int) -> (int, int, int) {
    if f == 0 {
        (1, 0, 0)
    } else if f == 1 {
        (-1, 0, 0)
    } else if f == 2 {
        (0, 1, 0)
    } else if f == 3 {
        (0, -1, 0)
    } else if f == 4 {
        (0, 0, 1)
    } else {
        (0, 0, -1)
    }
}

/// Direction in which the texture's `u` grows on face `f`.
pub open spec fn face_right(f: int) -> (int, int, int) {
    if f == 0 {
        (0, 0, -1)
    } else if f == 1 {
        (0, 0, 1)
    } else if f == 5 {
        (-1, 0, 0)
    } else {
        (1, 0, 0)
    }
}

/// Direction in which the texture's `v` grows on face `f`.
pub open spec fn face_up(f: int) -> (int, int, int) {
    if f == 2 {
        (0, 0, -1)
    } else if f == 3 {
        (0, 0, 1)
    } else {
        (0, 1, 0)
    }
}

/// Lower-left corner of face `f`'s region in the texture atlas, in sixths.
pub open spec fn face_atlas_origin(f: int) -> (int, int) {
    if f == 0 {
        (2, 3)
    } else if f == 1 {
        (0, 0)
    } else if f == 2 {
        (2, 0)
    } else if f == 3 {
        (4, 0)
    } else if f == 4 {
        (0, 3)
    } else {
        (4, 3)
    }
}

/// Corner of face `f` in column `a` and row `b`, on the cube with corners at
/// (+-1, +-1, +-1).
pub open spec fn face_corner(f: int, a: int, b: int) -> (int, int, int) {
    let across = if a == 0 {
        neg3(face_right(f))
    } else {
        face_right(f)
    };
    let down = if b == 0 {
        face_up(f)
    } else {
        neg3(face_up(f))
    };
    add3(add3(face_normal(f), across), down)
}

/// Position of vertex `k` on the cube with corners at (+-1, +-1, +-1).
pub open spec fn cube_corner(k: int) -> (int, int, int) {
    face_corner(k / 4, k % 4 % 2, k % 4 / 2)
}

/// Normal of vertex `k`: that of its face.
pub open spec fn cube_normal(k: int) -> (int, int, int) {
    face_normal(k / 4)
}

pub open spec fn positive(x: int) -> int {
    if x > 0 {
        1
    } else {
        0
    }
}

/// Color of vertex `k`: full in each channel whose coordinate is positive.
pub open spec fn cube_color(k: int) -> (int, int, int) {
    let p = cube_corner(k);
    (positive(p.0), positive(p.1), positive(p.2))
}

/// Texture coordinates of vertex `k`: each face shows the whole texture.
pub open spec fn cube_uv(k: int) -> (int, int) {
    (k % 4 % 2, 1 - k % 4 / 2)
}

/// Atlas coordinates of vertex `k`, in sixths: each face shows a third of the
/// width and half of the height.
pub open spec fn cube_atlas_uv(k: int) -> (int, int) {
    let o = face_atlas_origin(k / 4);
    (o.0 + 2 * (k % 4 % 2), o.1 + 3 * (1 - k % 4 / 2))
}

/// Vertex `v` is entry `k` of the cube table.
pub open spec fn is_cube_vertex(v: CubeVertex, k: int) -> bool {
    &&& v.corner@ == cube_corner(k)
    &&& v.normal@ == cube_normal(k)
    &&& v.color@ == cube_color(k)
    &&& v.uv@ == cube_uv(k)
    &&& v.atlas_uv@ == cube_atlas_uv(k)
}

/// Corner of a face at position `t` of its six triangle-list entries `0 2 1 2 3 1`.
pub open spec fn face_triangle_corner(t: int) -> int {
    if t == 0 {
        0
    } else if t == 1 || t == 3 {
        2
    } else if t == 4 {
        3
    } else {
        1
    }
}

/// Triangle list: corners `0 2 1` and `2 3 1` of each face.
pub open spec fn cube_triangles() -> Seq<int> {
    Seq::new(36, |m: int| 4 * (m / 6) + face_triangle_corner(m % 6))
}

/// Debug line list: the outlines of the top face (vertices 8 to 11) and of the
/// bottom face (12 to 15), and the four vertical edges between them.
pub open spec fn cube_edges() -> Seq<int> {
    seq![8, 9, 9, 11, 11, 10, 10, 8]
        + seq![14, 15, 15, 13, 13, 12, 12, 14]
        + seq![11, 13, 9, 15, 8, 14, 10, 12]
}

fn vec3(x: i8, y: i8, z: i8) -> (r: IVec3)
    ensures
        r@ == (x as int, y as int, z as int),
{
    IVec3 { x, y, z }
}

/// Normal, right and up directions of face `f`, and its atlas origin.
fn face_frame(f: u8) -> (r: (IVec3, IVec3, IVec3, UvNum))
    requires
        f < 6,
    ensures
        r.0@ == face_normal(f as int),
        r.1@ == face_right(f as int),
        r.2@ == face_up(f as int),
        r.3@ == face_atlas_origin(f as int),
{
    if f == 0 {
        (vec3(1, 0, 0), vec3(0, 0, -1), vec3(0, 1, 0), UvNum { u: 2, v: 3 })
    } else if f == 1 {
        (vec3(-1, 0, 0), vec3(0, 0, 1), vec3(0, 1, 0), UvNum { u: 0, v: 0 })
    } else if f == 2 {
        (vec3(0, 1, 0), vec3(1, 0, 0), vec3(0, 0, -1), UvNum { u: 2, v: 0 })
    } else if f == 3 {
        (vec3(0, -1, 0), vec3(1, 0, 0), vec3(0, 0, 1), UvNum { u: 4, v: 0 })
    } else if f == 4 {
        (vec3(0, 0, 1), vec3(1, 0, 0), vec3(0, 1, 0), UvNum { u: 0, v: 3 })
    } else {
        (vec3(0, 0, -1), vec3(-1, 0, 0), vec3(0, 1, 0), UvNum { u: 4, v: 3 })
    }
}

fn positive_channel(x: i8) -> (r: i8)
    ensures
        r as int == positive(x as int),
{
    if x > 0 {
        1
    } else {
        0
    }
}

/// The 24 entries of the cube table, in vertex order.
pub fn cube_vertices() -> (r: Vec<CubeVertex>)
    ensures
        r@.len() == 24,
        forall|k: int| 0 <= k < 24 ==> is_cube_vertex(#[trigger] r@[k], k),
{
    let mut r: Vec<CubeVertex> = Vec::new();
    let mut f: u8 = 0;
    while f < 6
        invariant
            0 <= f <= 6,
            r@.len() == 4 * f,
            forall|k: int| 0 <= k < r@.len() ==> is_cube_vertex(#[trigger] r@[k], k),
        decreases 6 - f,
    {
        let (n, right, up, origin) = face_frame(f);
        let mut c: u8 = 0;
        while c < 4
            invariant
                0 <= f < 6,
                0 <= c <= 4,
                r@.len() == 4 * f + c,
                n@ == face_normal(f as int),
                right@ == face_right(f as int),
                up@ == face_up(f as int),
                origin@ == face_atlas_origin(f as int),
                forall|k: int| 0 <= k < r@.len() ==> is_cube_vertex(#[trigger] r@[k], k),
            decreases 4 - c,
        {
            let a: u8 = c % 2;
            let b: u8 = c / 2;
            // corner = n + (2a - 1) right + (1 - 2b) up
            let corner = if a == 0 {
                if b == 0 {
                    vec3(n.x - right.x + up.x, n.y - right.y + up.y, n.z - right.z + up.z)
                } else {
                    vec3(n.x - right.x - up.x, n.y - right.y - up.y, n.z - right.z - up.z)
                }
            } else {
                if b == 0 {
                    vec3(n.x + right.x + up.x, n.y + right.y + up.y, n.z + right.z + up.z)
                } else {
                    vec3(n.x + right.x - up.x, n.y + right.y - up.y, n.z + right.z - up.z)
                }
            };
            let color = vec3(
                positive_channel(corner.x),
                positive_channel(corner.y),
                positive_channel(corner.z),
            );
            let v = CubeVertex {
                corner,
                normal: n,
                color,
                uv: UvNum { u: a, v: 1 - b },
                atlas_uv: UvNum { u: origin.u + 2 * a, v: origin.v + 3 * (1 - b) },
            };
            proof {
                let k = 4 * f + c;
                lemma_fundamental_div_mod_converse(k as int, 4, f as int, c as int);
            }
            r.push(v);
            c = c + 1;
        }
        f = f + 1;
    }
    r
}

/// Triangle-list and debug line-list indices of the cube table.
pub fn cube_indices() -> (r: (Vec<u16>, Vec<u16>))
    ensures
        as_ints(r.0@) == cube_triangles(),
        as_ints(r.1@) == cube_edges(),
{
    let mut tri: Vec<u16> = Vec::new();
    let mut f: u16 = 0;
    while f < 6
        invariant
            0 <= f <= 6,
            as_ints(tri@) == cube_triangles().take(6 * f),
        decreases 6 - f,
    {
        let o: u16 = 4 * f;
        let ghost t0 = as_ints(tri@);
        tri.push(o);
        tri.push(o + 2);
        tri.push(o + 1);
        tri.push(o + 2);
        tri.push(o + 3);
        tri.push(o + 1);
        assert forall|m: int| 6 * f <= m < 6 * f + 6 implies #[trigger] cube_triangles()[m] == 4 * f
            + face_triangle_corner(m - 6 * f) by {
            lemma_fundamental_div_mod_converse(m, 6, f as int, m - 6 * f);
        }
        let ghost o4 = 4 * f;
        let ghost cell = seq![o4, o4 + 2, o4 + 1, o4 + 2, o4 + 3, o4 + 1];
        assert(as_ints(tri@) =~= t0 + cell);
        assert(cube_triangles().take(6 * f + 6) =~= cube_triangles().take(6 * f) + cell);
        f = f + 1;
    }
    assert(cube_triangles().take(36) =~= cube_triangles());
    let mut wire: Vec<u16> = Vec::new();
    wire.push(8);
    wire.push(9);
    wire.push(9);
    wire.push(11);
    wire.push(11);
    wire.push(10);
    wire.push(10);
    wire.push(8);
    wire.push(14);
    wire.push(15);
    wire.push(15);
    wire.push(13);
    wire.push(13);
    wire.push(12);
    wire.push(12);
    wire.push(14);
    wire.push(11);
    wire.push(13);
    wire.push(9);
    wire.push(15);
    wire.push(8);
    wire.push(14);
    wire.push(10);
    wire.push(12);
    assert(as_ints(wire@) =~= cube_edges());
    (tri, wire)
}

/// `p` is a unit vector along one of the coordinate axes.
pub open spec fn is_axis_unit(p: (int, int, int)) -> bool {
    ||| p.1 == 0 && p.2 == 0 && (p.0 == 1 || p.0 == -1)
    ||| p.0 == 0 && p.2 == 0 && (p.1 == 1 || p.1 == -1)
    ||| p.0 == 0 && p.1 == 0 && (p.2 == 1 || p.2 == -1)
}

/// Every coordinate of `p` is 1 or -1.
pub open spec fn is_sign_vector(p: (int, int, int)) -> bool {
    &&& (p.0 == 1 || p.0 == -1)
    &&& (p.1 == 1 || p.1 == -1)
    &&& (p.2 == 1 || p.2 == -1)
}

/// Corner `(a, b)` of face `f` has coordinates +-1 and lies on the face's plane.
pub open spec fn corner_on_face(f: int, a: int, b: int) -> bool {
    is_sign_vector(face_corner(f, a, b)) && dot3(face_corner(f, a, b), face_normal(f)) == 1
}

/// The four corners of face `f` lie on it.
pub open spec fn corners_on_face(f: int) -> bool {
    &&& corner_on_face(f, 0, 0)
    &&& corner_on_face(f, 1, 0)
    &&& corner_on_face(f, 0, 1)
    &&& corner_on_face(f, 1, 1)
}

/// The two triangles of face `f`, corners `0 2 1` and `2 3 1`, wind
/// counter-clockwise around its normal.
pub open spec fn face_winds_out(f: int) -> bool {
    &&& cross3(sub3(face_corner(f, 0, 1), face_corner(f, 0, 0)), sub3(face_corner(f, 1, 0), face_corner(f, 0, 0)))
        == scale3(4, face_normal(f))
    &&& cross3(sub3(face_corner(f, 1, 1), face_corner(f, 0, 1)), sub3(face_corner(f, 1, 0), face_corner(f, 0, 1)))
        == scale3(4, face_normal(f))
}

proof fn lemma_faces_sound(f: int)
    requires
        0 <= f < 6,
    ensures
        corners_on_face(f),
        face_winds_out(f),
{
    if f == 0 {
        assert(corners_on_face(0)) by {}
        assert(face_winds_out(0)) by {}
    } else if f == 1 {
        assert(corners_on_face(1)) by {}
        assert(face_winds_out(1)) by {}
    } else if f == 2 {
        assert(corners_on_face(2)) by {}
        assert(face_winds_out(2)) by {}
    } else if f == 3 {
        assert(corners_on_face(3)) by {}
        assert(face_winds_out(3)) by {}
    } else if f == 4 {
        assert(corners_on_face(4)) by {}
        assert(face_winds_out(4)) by {}
    } else {
        assert(corners_on_face(5)) by {}
        assert(face_winds_out(5)) by {}
    }
}

proof fn lemma_face_normal(f: int, g: int)
    requires
        0 <= f < 6,
        0 <= g < 6,
    ensures
        is_axis_unit(face_normal(f)),
        face_normal(f) == face_normal(g) <==> f == g,
{
}

/// The cube table's geometry: every coordinate of every corner is +-1 (so every
/// position coordinate has absolute value half the side); each corner lies on the
/// plane of its own face; every normal is an axis-aligned unit vector; and two
/// vertices have the same normal exactly when they belong to the same face, so
/// six distinct normals appear, four vertices each.
pub proof fn lemma_cube_geometry()
    ensures
        forall|k: int| 0 <= k < 24 ==> is_sign_vector(#[trigger] cube_corner(k)),
        forall|k: int| 0 <= k < 24 ==> dot3(#[trigger] cube_corner(k), cube_normal(k)) == 1,
        forall|k: int| 0 <= k < 24 ==> is_axis_unit(#[trigger] cube_normal(k)),
        forall|k1: int, k2: int|
            0 <= k1 < 24 && 0 <= k2 < 24 ==> (#[trigger] cube_normal(k1) == #[trigger] cube_normal(k2)
                <==> k1 / 4 == k2 / 4),
{
    assert forall|k: int| 0 <= k < 24 implies is_sign_vector(#[trigger] cube_corner(k)) && dot3(
        cube_corner(k),
        cube_normal(k),
    ) == 1 by {
        lemma_faces_sound(k / 4);
        assert(corner_on_face(k / 4, k % 4 % 2, k % 4 / 2));
    }
    assert forall|k: int| 0 <= k < 24 implies is_axis_unit(#[trigger] cube_normal(k)) by {
        lemma_face_normal(k / 4, 0);
    }
    assert forall|k1: int, k2: int| 0 <= k1 < 24 && 0 <= k2 < 24 implies (#[trigger] cube_normal(k1)
        == #[trigger] cube_normal(k2) <==> k1 / 4 == k2 / 4) by {
        lemma_face_normal(k1 / 4, k2 / 4);
    }
}

/// Each triangle of the cube's list lies on one face and winds counter-clockwise
/// seen from outside: the cross product of its two edges from its first corner is
/// four times the outward normal of that face.
pub proof fn lemma_cube_winding(t: int)
    requires
        0 <= t < 12,
    ensures
        ({
            let i0 = cube_triangles()[3 * t];
            let i1 = cube_triangles()[3 * t + 1];
            let i2 = cube_triangles()[3 * t + 2];
            &&& cube_normal(i1) == cube_normal(i0)
            &&& cube_normal(i2) == cube_normal(i0)
            &&& cross3(sub3(cube_corner(i1), cube_corner(i0)), sub3(cube_corner(i2), cube_corner(i0)))
                == scale3(4, cube_normal(i0))
        }),
{
    let f = t / 2;
    if t % 2 == 0 {
        assert(cube_triangles()[3 * t] == 4 * f);
        assert(cube_triangles()[3 * t + 1] == 4 * f + 2);
        assert(cube_triangles()[3 * t + 2] == 4 * f + 1);
    } else {
        assert(cube_triangles()[3 * t] == 4 * f + 2);
        assert(cube_triangles()[3 * t + 1] == 4 * f + 3);
        assert(cube_triangles()[3 * t + 2] == 4 * f + 1);
    }
    lemma_faces_sound(f);
}

/// Every index of the cube's triangle list and debug line list names one of its
/// 24 vertices, in whole triangles and whole segments.
pub proof fn lemma_cube_indices_in_range()
    ensures
        cube_triangles().len() == 3 * 12,
        cube_edges().len() == 2 * 12,
        forall|m: int| 0 <= m < 36 ==> 0 <= #[trigger] cube_triangles()[m] < 24,
        forall|m: int| 0 <= m < 24 ==> 0 <= #[trigger] cube_edges()[m] < 24,
{
    assert forall|m: int| 0 <= m < 36 implies 0 <= #[trigger] cube_triangles()[m] < 24 by {
        let s = seq![0int, 2, 1, 2, 3, 1];
        assert(0 <= s[m % 6] <= 3);
    }
}

/// The cube table is fixed: any two tables that meet the contract of
/// `cube_vertices` are equal.
pub proof fn lemma_cube_regenerates(first: Seq<CubeVertex>, second: Seq<CubeVertex>)
    requires
        first.len() == 24,
        second.len() == 24,
        forall|k: int| 0 <= k < 24 ==> is_cube_vertex(#[trigger] first[k], k),
        forall|k: int| 0 <= k < 24 ==> is_cube_vertex(#[trigger] second[k], k),
    ensures
        first == second,
{
    assert forall|k: int| 0 <= k < 24 implies first[k] == second[k] by {
        assert(is_cube_vertex(first[k], k) && is_cube_vertex(second[k], k));
    }
    assert(first =~= second);
}

} // verus!
