//! Quad-grid topology shared by the sphere and the torus: `(rows + 1) * (cols + 1)`
//! vertices in row-major order, each quad cell split into two triangles.

use vstd::prelude::*;
use vstd::arithmetic::div_mod::lemma_fundamental_div_mod_converse;
use crate::error::MeshError;

verus! {

/// Number of vertices that 16-bit indices can address.
pub const MAX_VERTICES: usize = 65536;

/// The values of a `u16` sequence, as integers.
pub open spec fn as_ints(s: Seq<u16>) -> Seq<int> {
    s.map_values(|x: u16| x as int)
}

/// Number of vertices of a grid of `rows` by `cols` quad cells.
pub open spec fn grid_vertex_count(rows: int, cols: int) -> int {
    (rows + 1) * (cols + 1)
}

/// Index of the vertex in row `i`, column `j` of a grid with `cols` cells per row.
pub open spec fn grid_vertex(cols: int, i: int, j: int) -> int {
    j + i * (cols + 1)
}

/// Triangle-list indices of cell `(i, j)`: corners `(i,j) (i,j+1) (i+1,j+1) (i+1,j)`
/// as the triangles `0 1 2` and `2 3 0`.
pub open spec fn cell_triangles(cols: int, i: int, j: int) -> Seq<int> {
    let a = grid_vertex(cols, i, j);
    let b = grid_vertex(cols, i, j + 1);
    let c = grid_vertex(cols, i + 1, j + 1);
    let d = grid_vertex(cols, i + 1, j);
    seq![a, b, c, c, d, a]
}

/// Line-list indices of cell `(i, j)`: its edge along the row and its edge down
/// the column, both from corner `(i, j)`.
pub open spec fn cell_edges(cols: int, i: int, j: int) -> Seq<int> {
    let a = grid_vertex(cols, i, j);
    let b = grid_vertex(cols, i, j + 1);
    let d = grid_vertex(cols, i + 1, j);
    seq![a, b, a, d]
}

/// Triangle indices of the first `count` cells in row-major order.
pub open spec fn triangle_run(cols: int, count: int) -> Seq<int> {
    Seq::new((6 * count) as nat, |n: int| cell_triangles(cols, n / 6 / cols, n / 6 % cols)[n % 6])
}

/// Wireframe indices of the first `count` cells in row-major order.
pub open spec fn edge_run(cols: int, count: int) -> Seq<int> {
    Seq::new((4 * count) as nat, |n: int| cell_edges(cols, n / 4 / cols, n / 4 % cols)[n % 4])
}

/// Triangle list of the whole grid.
pub open spec fn grid_triangles(rows: int, cols: int) -> Seq<int> {
    triangle_run(cols, rows * cols)
}

/// Wireframe line list of the whole grid.
pub open spec fn grid_edges(rows: int, cols: int) -> Seq<int> {
    edge_run(cols, rows * cols)
}

/// A grid can be generated: at least one cell each way, and every vertex addressable.
pub open spec fn grid_fits(rows: int, cols: int) -> bool {
    rows > 0 && cols > 0 && grid_vertex_count(rows, cols) <= MAX_VERTICES
}

/// The error that a grid of these dimensions is refused with.
pub open spec fn grid_error(rows: int, cols: int) -> MeshError {
    if rows == 0 || cols == 0 {
        MeshError::ZeroSegments
    } else {
        MeshError::TooManyVertices
    }
}

/// Position `n` of a run of `width`-wide groups, one per cell, falls in group
/// `i * cols + j` at offset `n - width * (i * cols + j)`.
proof fn lemma_run_position(cols: int, i: int, j: int, width: int, n: int)
    requires
        cols > 0,
        i >= 0,
        0 <= j < cols,
        width > 0,
        width * (i * cols + j) <= n < width * (i * cols + j) + width,
    ensures
        n / width == i * cols + j,
        n % width == n - width * (i * cols + j),
        n / width / cols == i,
        n / width % cols == j,
{
    let k = i * cols + j;
    assert(width * k == k * width) by (nonlinear_arith);
    lemma_fundamental_div_mod_converse(n, width, k, n - width * k);
    lemma_fundamental_div_mod_converse(k, cols, i, j);
}

proof fn lemma_triangle_run_step(cols: int, i: int, j: int)
    requires
        cols > 0,
        i >= 0,
        0 <= j < cols,
    ensures
        triangle_run(cols, i * cols + j + 1) == triangle_run(cols, i * cols + j) + cell_triangles(
            cols,
            i,
            j,
        ),
{
    let k = i * cols + j;
    let lhs = triangle_run(cols, k + 1);
    let rhs = triangle_run(cols, k) + cell_triangles(cols, i, j);
    assert forall|n: int| 6 * k <= n < 6 * k + 6 implies lhs[n] == rhs[n] by {
        lemma_run_position(cols, i, j, 6, n);
    }
    assert(lhs =~= rhs);
}

proof fn lemma_edge_run_step(cols: int, i: int, j: int)
    requires
        cols > 0,
        i >= 0,
        0 <= j < cols,
    ensures
        edge_run(cols, i * cols + j + 1) == edge_run(cols, i * cols + j) + cell_edges(cols, i, j),
{
    let k = i * cols + j;
    let lhs = edge_run(cols, k + 1);
    let rhs = edge_run(cols, k) + cell_edges(cols, i, j);
    assert forall|n: int| 4 * k <= n < 4 * k + 4 implies lhs[n] == rhs[n] by {
        lemma_run_position(cols, i, j, 4, n);
    }
    assert(lhs =~= rhs);
}

proof fn lemma_cell_in_range(rows: int, cols: int, i: int, j: int)
    requires
        0 <= i < rows,
        0 <= j < cols,
    ensures
        forall|t: int| 0 <= t < 6 ==> 0 <= #[trigger] cell_triangles(cols, i, j)[t] < grid_vertex_count(rows, cols),
        forall|t: int| 0 <= t < 4 ==> 0 <= #[trigger] cell_edges(cols, i, j)[t] < grid_vertex_count(rows, cols),
{
    assert(0 <= j + i * (cols + 1)) by (nonlinear_arith)
        requires
            0 <= i,
            0 <= j,
            0 <= cols,
    ;
    assert(j + i * (cols + 1) <= j + (i + 1) * (cols + 1)) by (nonlinear_arith)
        requires
            0 <= cols,
    ;
    assert(j + 1 + (i + 1) * (cols + 1) < (rows + 1) * (cols + 1)) by (nonlinear_arith)
        requires
            0 <= i < rows,
            0 <= j < cols,
    ;
}

/// Cell number `k` of a grid lies in row `k / cols` and column `k % cols`, both in range.
proof fn lemma_cell_of(k: int, rows: int, cols: int)
    requires
        rows >= 0,
        cols >= 0,
        0 <= k < rows * cols,
    ensures
        0 <= k / cols < rows,
        0 <= k % cols < cols,
{
    assert(cols > 0) by (nonlinear_arith)
        requires
            rows >= 0,
            cols >= 0,
            0 <= k < rows * cols,
    ;
    vstd::arithmetic::div_mod::lemma_fundamental_div_mod(k, cols);
    let q = k / cols;
    let r = k % cols;
    assert(0 <= q < rows) by (nonlinear_arith)
        requires
            k == cols * q + r,
            0 <= r < cols,
            0 <= k < rows * cols,
    ;
}

/// Every index of a grid's triangle list and wireframe names one of its vertices,
/// the triangle list holds whole triangles and the wireframe whole segments.
pub proof fn lemma_grid_indices_in_range(rows: int, cols: int)
    requires
        rows >= 0,
        cols >= 0,
    ensures
        grid_triangles(rows, cols).len() == 3 * (2 * rows * cols),
        grid_edges(rows, cols).len() == 2 * (2 * rows * cols),
        forall|n: int|
            0 <= n < grid_triangles(rows, cols).len() ==> 0 <= #[trigger] grid_triangles(rows, cols)[n]
                < grid_vertex_count(rows, cols),
        forall|n: int|
            0 <= n < grid_edges(rows, cols).len() ==> 0 <= #[trigger] grid_edges(rows, cols)[n]
                < grid_vertex_count(rows, cols),
{
    assert(rows * cols >= 0) by (nonlinear_arith)
        requires
            rows >= 0,
            cols >= 0,
    ;
    assert(6 * (rows * cols) == 3 * (2 * rows * cols) && 4 * (rows * cols) == 2 * (2 * rows
        * cols)) by (nonlinear_arith);
    assert forall|n: int| 0 <= n < grid_triangles(rows, cols).len() implies 0
        <= #[trigger] grid_triangles(rows, cols)[n] < grid_vertex_count(rows, cols) by {
        let k = n / 6;
        assert(0 <= k < rows * cols);
        let i = k / cols;
        let j = k % cols;
        lemma_cell_of(k, rows, cols);
        lemma_cell_in_range(rows, cols, i, j);
    }
    assert forall|n: int| 0 <= n < grid_edges(rows, cols).len() implies 0
        <= #[trigger] grid_edges(rows, cols)[n] < grid_vertex_count(rows, cols) by {
        let k = n / 4;
        assert(0 <= k < rows * cols);
        let i = k / cols;
        let j = k % cols;
        lemma_cell_of(k, rows, cols);
        lemma_cell_in_range(rows, cols, i, j);
    }
}

/// Triangle-list and wireframe indices of a grid of `rows` by `cols` quad cells.
///
/// Every cell `(i, j)` contributes, in row-major order, the six indices of its two
/// triangles and the four indices of its two leading edges.
pub fn grid_indices(rows: u16, cols: u16) -> (r: Result<(Vec<u16>, Vec<u16>), MeshError>)
    ensures
        r is Ok <==> grid_fits(rows as int, cols as int),
        r matches Ok((tri, wire)) ==> as_ints(tri@) == grid_triangles(rows as int, cols as int)
            && as_ints(wire@) == grid_edges(rows as int, cols as int),
        r matches Err(e) ==> e == grid_error(rows as int, cols as int),
{
    if rows == 0 || cols == 0 {
        return Err(MeshError::ZeroSegments);
    }
    let r1: u64 = rows as u64 + 1;
    let c1: u64 = cols as u64 + 1;
    assert(r1 * c1 <= 65536 * 65536) by (nonlinear_arith)
        requires
            r1 <= 65536,
            c1 <= 65536,
    ;
    if r1 * c1 > MAX_VERTICES as u64 {
        return Err(MeshError::TooManyVertices);
    }
    let ghost nr = rows as int;
    let ghost nc = cols as int;
    assert(nc + 1 <= 32768) by (nonlinear_arith)
        requires
            (nr + 1) * (nc + 1) <= 65536,
            nr >= 1,
    ;
    let per_row: u16 = cols + 1;
    let mut tri: Vec<u16> = Vec::new();
    let mut wire: Vec<u16> = Vec::new();
    let mut i: u16 = 0;
    while i < rows
        invariant
            0 <= i <= rows,
            grid_fits(nr, nc),
            nr == rows,
            nc == cols,
            per_row == cols + 1,
            as_ints(tri@) == triangle_run(nc, i * nc),
            as_ints(wire@) == edge_run(nc, i * nc),
        decreases rows - i,
    {
        let mut j: u16 = 0;
        while j < cols
            invariant
                0 <= i < rows,
                0 <= j <= cols,
                grid_fits(nr, nc),
                nr == rows,
                nc == cols,
                per_row == cols + 1,
                as_ints(tri@) == triangle_run(nc, i * nc + j),
                as_ints(wire@) == edge_run(nc, i * nc + j),
            decreases cols - j,
        {
            let ghost gi = i as int;
            let ghost gj = j as int;
            assert(gj + 1 + (gi + 1) * (nc + 1) < (nr + 1) * (nc + 1)) by (nonlinear_arith)
                requires
                    0 <= gi < nr,
                    0 <= gj < nc,
            ;
            assert(gj + 1 + gi * (nc + 1) <= gj + 1 + (gi + 1) * (nc + 1)) by (nonlinear_arith)
                requires
                    0 <= gi,
                    0 <= nc,
            ;
            let a: u16 = j + i * per_row;
            let b: u16 = j + 1 + i * per_row;
            let c: u16 = j + 1 + (i + 1) * per_row;
            let d: u16 = j + (i + 1) * per_row;
            proof {
                lemma_triangle_run_step(nc, gi, gj);
                lemma_edge_run_step(nc, gi, gj);
            }
            let ghost tri0 = tri@;
            let ghost wire0 = wire@;
            tri.push(a);
            tri.push(b);
            tri.push(c);
            tri.push(c);
            tri.push(d);
            tri.push(a);
            wire.push(a);
            wire.push(b);
            wire.push(a);
            wire.push(d);
            assert(as_ints(tri@) =~= as_ints(tri0) + cell_triangles(nc, gi, gj));
            assert(as_ints(wire@) =~= as_ints(wire0) + cell_edges(nc, gi, gj));
            j = j + 1;
        }
        assert(i * nc + nc == (i + 1) * nc) by (nonlinear_arith);
        i = i + 1;
    }
    Ok((tri, wire))
}

/// The grid coordinates `(i, j)` of every vertex, in vertex order: vertex
/// `grid_vertex(cols, i, j)` sits in row `i` and column `j`, for `0 <= i <= rows`
/// and `0 <= j <= cols`.
pub fn grid_vertices(rows: u16, cols: u16) -> (r: Result<Vec<(u16, u16)>, MeshError>)
    ensures
        r is Ok <==> grid_fits(rows as int, cols as int),
        r matches Ok(vs) ==> vs@.len() == grid_vertex_count(rows as int, cols as int) && forall|
            i: int,
            j: int,
        |
            0 <= i <= rows && 0 <= j <= cols ==> #[trigger] vs@[grid_vertex(cols as int, i, j)] == (
                i as u16,
                j as u16,
            ),
        r matches Err(e) ==> e == grid_error(rows as int, cols as int),
{
    if rows == 0 || cols == 0 {
        return Err(MeshError::ZeroSegments);
    }
    let r1: u64 = rows as u64 + 1;
    let c1: u64 = cols as u64 + 1;
    assert(r1 * c1 <= 65536 * 65536) by (nonlinear_arith)
        requires
            r1 <= 65536,
            c1 <= 65536,
    ;
    if r1 * c1 > MAX_VERTICES as u64 {
        return Err(MeshError::TooManyVertices);
    }
    let ghost w = cols as int + 1;
    let mut vs: Vec<(u16, u16)> = Vec::new();
    let mut i: u32 = 0;
    while i <= rows as u32
        invariant
            0 <= i <= rows + 1,
            w == cols + 1,
            vs@.len() == i * w,
            forall|m: int| 0 <= m < vs@.len() ==> #[trigger] vs@[m] == ((m / w) as u16, (m % w) as u16),
        decreases rows + 1 - i,
    {
        let mut j: u32 = 0;
        while j <= cols as u32
            invariant
                0 <= i <= rows,
                0 <= j <= cols + 1,
                w == cols + 1,
                vs@.len() == i * w + j,
                forall|m: int| 0 <= m < vs@.len() ==> #[trigger] vs@[m] == ((m / w) as u16, (m % w) as u16),
            decreases cols + 1 - j,
        {
            proof {
                lemma_fundamental_div_mod_converse(i * w + j, w, i as int, j as int);
            }
            vs.push((i as u16, j as u16));
            j = j + 1;
        }
        assert(i * w + w == (i + 1) * w) by (nonlinear_arith);
        i = i + 1;
    }
    assert forall|a: int, b: int| 0 <= a <= rows && 0 <= b <= cols implies #[trigger] vs@[grid_vertex(
        cols as int,
        a,
        b,
    )] == (a as u16, b as u16) by {
        lemma_fundamental_div_mod_converse(b + a * w, w, a, b);
        assert(b + a * w < (rows + 1) * w) by (nonlinear_arith)
            requires
                0 <= a <= rows,
                0 <= b < w,
        ;
    }
    Ok(vs)
}

/// Index lists are told apart by their values: two lists with the same values
/// as integers are the same list.
pub proof fn lemma_as_ints_injective(a: Seq<u16>, b: Seq<u16>)
    requires
        as_ints(a) == as_ints(b),
    ensures
        a == b,
{
    assert(a.len() == as_ints(a).len() && b.len() == as_ints(b).len());
    assert forall|k: int| 0 <= k < a.len() implies a[k] == b[k] by {
        assert(as_ints(a)[k] == a[k] as int && as_ints(b)[k] == b[k] as int);
    }
    assert(a =~= b);
}

/// Generating the same grid twice gives identical index lists: any two results
/// that meet the contract of `grid_indices` for the same dimensions are equal.
pub proof fn lemma_grid_regenerates(
    rows: u16,
    cols: u16,
    first: (Seq<u16>, Seq<u16>),
    second: (Seq<u16>, Seq<u16>),
)
    requires
        as_ints(first.0) == grid_triangles(rows as int, cols as int),
        as_ints(first.1) == grid_edges(rows as int, cols as int),
        as_ints(second.0) == grid_triangles(rows as int, cols as int),
        as_ints(second.1) == grid_edges(rows as int, cols as int),
    ensures
        first == second,
{
    lemma_as_ints_injective(first.0, second.0);
    lemma_as_ints_injective(first.1, second.1);
}

} // verus!
