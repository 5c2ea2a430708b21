//! Procedural mesh topology for parametric solids (cube, sphere, cylinder, torus)
//! and the integer side of tangent-space construction.
//!
//! Positions, normals and texture coordinates are computed by callers in floating
//! point; this library fixes everything that is integer: how many vertices a
//! solid has and in which order, which vertices each triangle and wireframe
//! segment joins, the cube's vertex table, and how many triangle corners fall on
//! each vertex.

pub mod adjacency;
pub mod cube;
pub mod cylinder;
pub mod error;
pub mod grid;

pub use adjacency::triangle_counts;
pub use cube::{cube_indices, cube_vertices, CubeVertex, IVec3, UvNum};
pub use cylinder::cylinder_indices;
pub use error::MeshError;
pub use grid::{grid_indices, grid_vertices, MAX_VERTICES};
