use vertex_data::{
    cube_indices, cube_vertices, cylinder_indices, grid_indices, grid_vertices, triangle_counts,
    CubeVertex, IVec3, MeshError, UvNum,
};

fn v3(x: i8, y: i8, z: i8) -> IVec3 {
    IVec3 { x, y, z }
}

#[test]
fn grid_single_cell() {
    let (tri, wire) = grid_indices(1, 1).unwrap();
    assert_eq!(tri, vec![0, 1, 3, 3, 2, 0]);
    assert_eq!(wire, vec![0, 1, 0, 2]);
}

#[test]
fn grid_cells_in_row_major_order() {
    let (tri, wire) = grid_indices(2, 3).unwrap();
    assert_eq!(tri.len(), 6 * 2 * 3);
    assert_eq!(wire.len(), 4 * 2 * 3);
    // cell (1, 2): corners 6, 7, 11, 10
    let k = 1 * 3 + 2;
    assert_eq!(&tri[6 * k..6 * k + 6], &[6, 7, 11, 11, 10, 6]);
    assert_eq!(&wire[4 * k..4 * k + 4], &[6, 7, 6, 10]);
}

#[test]
fn grid_indices_stay_in_range() {
    for (rows, cols) in [(1u16, 1u16), (4, 8), (16, 32), (7, 3)] {
        let count = (rows as usize + 1) * (cols as usize + 1);
        let (tri, wire) = grid_indices(rows, cols).unwrap();
        assert_eq!(tri.len() % 3, 0);
        assert_eq!(wire.len() % 2, 0);
        assert!(tri.iter().all(|&i| (i as usize) < count));
        assert!(wire.iter().all(|&i| (i as usize) < count));
    }
}

#[test]
fn grid_refuses_zero_segments() {
    assert_eq!(grid_indices(0, 5), Err(MeshError::ZeroSegments));
    assert_eq!(grid_indices(5, 0), Err(MeshError::ZeroSegments));
    assert_eq!(grid_vertices(0, 0), Err(MeshError::ZeroSegments));
}

#[test]
fn grid_largest_sizes() {
    // 256 * 256 vertices is the most 16-bit indices can address
    let (tri, _) = grid_indices(255, 255).unwrap();
    assert_eq!(tri.iter().copied().max(), Some(65535));
    assert!(grid_indices(1, 32767).is_ok());
    assert_eq!(grid_indices(256, 255), Err(MeshError::TooManyVertices));
    assert_eq!(grid_indices(1, 32768), Err(MeshError::TooManyVertices));
    assert_eq!(grid_indices(65535, 65535), Err(MeshError::TooManyVertices));
    assert_eq!(grid_vertices(256, 255), Err(MeshError::TooManyVertices));
}

#[test]
fn grid_vertex_order() {
    let vs = grid_vertices(2, 3).unwrap();
    assert_eq!(vs.len(), 12);
    assert_eq!(vs[0], (0, 0));
    assert_eq!(vs[3], (0, 3));
    assert_eq!(vs[4], (1, 0));
    assert_eq!(vs[6], (1, 2));
    assert_eq!(vs[11], (2, 3));
}

#[test]
fn grid_regenerates_identically() {
    assert_eq!(grid_indices(12, 24), grid_indices(12, 24));
    assert_eq!(grid_vertices(12, 24), grid_vertices(12, 24));
}

#[test]
fn cylinder_single_segment() {
    let (tri, wire) = cylinder_indices(1).unwrap();
    assert_eq!(
        tri,
        vec![
            0, 4, 7, 7, 3, 0, 1, 2, 6, 6, 5, 1, 0, 1, 5, 5, 4, 0, 2, 3, 7, 7, 6, 2
        ]
    );
    assert_eq!(wire, vec![0, 3, 3, 7, 4, 0, 1, 2, 2, 6, 5, 1, 0, 1, 3, 2]);
}

#[test]
fn cylinder_segments_shift_by_four() {
    let (tri, wire) = cylinder_indices(3).unwrap();
    assert_eq!(tri.len(), 72);
    assert_eq!(wire.len(), 48);
    for s in 0..3usize {
        for t in 0..24 {
            assert_eq!(tri[24 * s + t], tri[t] + 4 * s as u16);
        }
        for t in 0..16 {
            assert_eq!(wire[16 * s + t], wire[t] + 4 * s as u16);
        }
    }
    assert!(tri.iter().all(|&i| i < 16));
    assert!(wire.iter().all(|&i| i < 16));
}

#[test]
fn cylinder_limits() {
    assert_eq!(cylinder_indices(0), Err(MeshError::ZeroSegments));
    let (tri, _) = cylinder_indices(16383).unwrap();
    assert_eq!(tri.len(), 24 * 16383);
    assert_eq!(tri.iter().copied().max(), Some(65535));
    assert_eq!(cylinder_indices(16384), Err(MeshError::TooManyVertices));
    assert_eq!(cylinder_indices(36), cylinder_indices(36));
}

fn original_cube_positions() -> Vec<[i8; 3]> {
    vec![
        [1, 1, 1], [1, 1, -1], [1, -1, 1], [1, -1, -1],
        [-1, 1, -1], [-1, 1, 1], [-1, -1, -1], [-1, -1, 1],
        [-1, 1, -1], [1, 1, -1], [-1, 1, 1], [1, 1, 1],
        [-1, -1, 1], [1, -1, 1], [-1, -1, -1], [1, -1, -1],
        [-1, 1, 1], [1, 1, 1], [-1, -1, 1], [1, -1, 1],
        [1, 1, -1], [-1, 1, -1], [1, -1, -1], [-1, -1, -1],
    ]
}

#[test]
fn cube_table_positions_colors_normals() {
    let table = cube_vertices();
    assert_eq!(table.len(), 24);
    let colors: Vec<[i8; 3]> = vec![
        [1, 1, 1], [1, 1, 0], [1, 0, 1], [1, 0, 0],
        [0, 1, 0], [0, 1, 1], [0, 0, 0], [0, 0, 1],
        [0, 1, 0], [1, 1, 0], [0, 1, 1], [1, 1, 1],
        [0, 0, 1], [1, 0, 1], [0, 0, 0], [1, 0, 0],
        [0, 1, 1], [1, 1, 1], [0, 0, 1], [1, 0, 1],
        [1, 1, 0], [0, 1, 0], [1, 0, 0], [0, 0, 0],
    ];
    let face_normals = [
        v3(1, 0, 0), v3(-1, 0, 0), v3(0, 1, 0), v3(0, -1, 0), v3(0, 0, 1), v3(0, 0, -1),
    ];
    let positions = original_cube_positions();
    for k in 0..24 {
        let p = positions[k];
        let c = colors[k];
        assert_eq!(table[k].corner, v3(p[0], p[1], p[2]), "corner {}", k);
        assert_eq!(table[k].color, v3(c[0], c[1], c[2]), "color {}", k);
        assert_eq!(table[k].normal, face_normals[k / 4], "normal {}", k);
    }
}

#[test]
fn cube_table_texture_coordinates() {
    let table = cube_vertices();
    let whole = [(0u8, 1u8), (1, 1), (0, 0), (1, 0)];
    // atlas layout in sixths: right, left, top, bottom, front, back
    let atlas: Vec<(u8, u8)> = vec![
        (2, 6), (4, 6), (2, 3), (4, 3),
        (0, 3), (2, 3), (0, 0), (2, 0),
        (2, 3), (4, 3), (2, 0), (4, 0),
        (4, 3), (6, 3), (4, 0), (6, 0),
        (0, 6), (2, 6), (0, 3), (2, 3),
        (4, 6), (6, 6), (4, 3), (6, 3),
    ];
    for k in 0..24 {
        let (u, v) = whole[k % 4];
        assert_eq!(table[k].uv, UvNum { u, v }, "uv {}", k);
        let (u, v) = atlas[k];
        assert_eq!(table[k].atlas_uv, UvNum { u, v }, "atlas {}", k);
    }
}

#[test]
fn cube_geometry_is_axis_aligned() {
    let table = cube_vertices();
    for vertex in &table {
        let c = vertex.corner;
        assert!([c.x, c.y, c.z].iter().all(|x| *x == 1 || *x == -1));
        let n = vertex.normal;
        assert_eq!(n.x.abs() + n.y.abs() + n.z.abs(), 1);
        // the corner lies on its face's plane
        assert_eq!(c.x * n.x + c.y * n.y + c.z * n.z, 1);
    }
    let mut distinct: Vec<IVec3> = Vec::new();
    for vertex in &table {
        if !distinct.contains(&vertex.normal) {
            distinct.push(vertex.normal);
        }
    }
    assert_eq!(distinct.len(), 6);
    for n in &distinct {
        assert_eq!(table.iter().filter(|v| v.normal == *n).count(), 4);
    }
}

#[test]
fn cube_index_lists() {
    let (tri, wire) = cube_indices();
    assert_eq!(
        tri,
        vec![
            0, 2, 1, 2, 3, 1, 4, 6, 5, 6, 7, 5, 8, 10, 9, 10, 11, 9, 12, 14, 13, 14, 15, 13, 16,
            18, 17, 18, 19, 17, 20, 22, 21, 22, 23, 21,
        ]
    );
    assert_eq!(
        wire,
        vec![
            8, 9, 9, 11, 11, 10, 10, 8, 14, 15, 15, 13, 13, 12, 12, 14, 11, 13, 9, 15, 8, 14, 10,
            12,
        ]
    );
}

#[test]
fn cube_triangles_wind_outward() {
    let table = cube_vertices();
    let (tri, _) = cube_indices();
    for t in tri.chunks(3) {
        let p = |i: u16| {
            let c = table[i as usize].corner;
            [c.x as i32, c.y as i32, c.z as i32]
        };
        let (p0, p1, p2) = (p(t[0]), p(t[1]), p(t[2]));
        let d1 = [p1[0] - p0[0], p1[1] - p0[1], p1[2] - p0[2]];
        let d2 = [p2[0] - p0[0], p2[1] - p0[1], p2[2] - p0[2]];
        let cross = [
            d1[1] * d2[2] - d1[2] * d2[1],
            d1[2] * d2[0] - d1[0] * d2[2],
            d1[0] * d2[1] - d1[1] * d2[0],
        ];
        let n = table[t[0] as usize].normal;
        assert_eq!(cross, [4 * n.x as i32, 4 * n.y as i32, 4 * n.z as i32]);
    }
}

#[test]
fn cube_regenerates_identically() {
    let first: Vec<CubeVertex> = cube_vertices();
    assert_eq!(first, cube_vertices());
    assert_eq!(cube_indices(), cube_indices());
}

#[test]
fn counts_on_cube_face() {
    let indices = vec![0u16, 2, 1, 2, 3, 1];
    assert_eq!(triangle_counts(&indices, 4), Ok(vec![1, 2, 2, 1]));
}

#[test]
fn counts_on_whole_cube() {
    let (tri, _) = cube_indices();
    let counts = triangle_counts(&tri, 24).unwrap();
    let per_face = [1usize, 2, 2, 1];
    for k in 0..24 {
        assert_eq!(counts[k], per_face[k % 4]);
    }
    assert_eq!(counts.iter().sum::<usize>(), 36);
}

#[test]
fn counts_fan_of_triangles() {
    // vertex 0 shared by five triangles of a fan, an unused vertex at the end
    let mut indices: Vec<u16> = Vec::new();
    for t in 0..5u16 {
        indices.extend([0, t + 1, t + 2]);
    }
    let counts = triangle_counts(&indices, 8).unwrap();
    assert_eq!(counts, vec![5, 1, 2, 2, 2, 2, 1, 0]);
}

#[test]
fn counts_refuse_bad_lists() {
    assert_eq!(triangle_counts(&vec![0, 1, 2, 0], 3), Err(MeshError::IndexCountNotTriple));
    assert_eq!(triangle_counts(&vec![0, 1, 3], 3), Err(MeshError::IndexOutOfRange));
    assert_eq!(triangle_counts(&vec![0, 1], 0), Err(MeshError::IndexCountNotTriple));
    assert_eq!(triangle_counts(&vec![], 2), Ok(vec![0, 0]));
}
