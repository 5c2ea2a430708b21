use vstd::prelude::*;

verus! {

/// Why a mesh could not be generated or post-processed.
#[derive(Debug, Clone, Copy, PartialEq, Eq, Structural)]
pub enum MeshError {
    /// A segment count was zero.
    ZeroSegments,
    /// The mesh would have more vertices than 16-bit indices can address.
    TooManyVertices,
    /// A triangle list whose length is not a multiple of three.
    IndexCountNotTriple,
    /// An index that names no vertex.
    IndexOutOfRange,
}

} // verus!
