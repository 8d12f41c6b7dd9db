//! A vertex-stream processing library: a small algebra of polygon shapes
//! together with lazy, composable transforms (vertex mapping, triangulation,
//! edge decomposition, vertex deduplication) that turn a sequence of shapes
//! into the flat vertex and index buffers a rendering pipeline consumes.

pub mod cone;
pub mod dodecahedron;
pub mod generator;
pub mod indexer;
pub mod lines;
pub mod mapping;
pub mod octahedron;
pub mod poly;
pub mod stream;
pub mod tetrahedron;
pub mod triangulate;

pub use crate::cone::{Cone, VertexSection};
pub use crate::dodecahedron::Dodecahedron;
pub use crate::generator::{IndexedPolygon, SharedVertex};
pub use crate::indexer::{Indexer, LruIndexer};
pub use crate::lines::{EmitLines, Lines, LinesIterator};
pub use crate::mapping::{MapToVertices, MapToVerticesIter, MapVertex};
pub use crate::octahedron::Octahedron;
pub use crate::poly::{EmitVertices, Line, NGon, Polygon, Quad, Triangle, VertexIterator};
pub use crate::stream::{QueueStream, ShapeStream, Stream, VertexStreamIterator, Vertices};
pub use crate::tetrahedron::Tetrahedron;
pub use crate::triangulate::{EmitTriangles, Triangulate, TriangulateIterator};

use vstd::prelude::*;

verus! {

/// The spec-level model of a polygon: its variant together with its corners.
///
/// `Triangle`, `Quad` and `Line` are plain structs, so they serve as their own
/// models; an `NGon` stores its corners in a heap container, so its model is
/// the corner sequence.
pub enum PolygonView<T> {
    /// model of a wrapped triangle
    Tri(Triangle<T>),
    /// model of a wrapped quad
    Quad(Quad<T>),
    /// model of a wrapped arbitrary-length polygon
    Gon(Seq<T>),
}

} // verus!
