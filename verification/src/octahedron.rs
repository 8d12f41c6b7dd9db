//! The face topology of a platonic octahedron: six vertices, eight
//! triangular faces. The geometric positions of the vertices are computed
//! by the caller from the shared-vertex indices this generator streams.

use crate::generator::{
    face_in_bounds, lemma_identity_pool_lookup, pool_lookup, IndexedPolygon, SharedVertex,
};
use crate::mapping::MapVertex;
use crate::stream::{ShapeStream, Stream};
use crate::{Polygon, PolygonView, Triangle};
use vstd::prelude::*;

verus! {

/// the number of vertices of an octahedron
pub open spec fn octahedron_vertex_count() -> int {
    6
}

/// the face of the octahedron at position `j`
pub open spec fn octahedron_face(j: int) -> Triangle<usize> {
    if j == 0 {
        Triangle { x: 3usize, y: 0usize, z: 4usize }
    } else if j == 1 {
        Triangle { x: 2usize, y: 3usize, z: 4usize }
    } else if j == 2 {
        Triangle { x: 1usize, y: 2usize, z: 4usize }
    } else if j == 3 {
        Triangle { x: 0usize, y: 1usize, z: 4usize }
    } else if j == 4 {
        Triangle { x: 3usize, y: 2usize, z: 5usize }
    } else if j == 5 {
        Triangle { x: 0usize, y: 3usize, z: 5usize }
    } else if j == 6 {
        Triangle { x: 2usize, y: 1usize, z: 5usize }
    } else {
        Triangle { x: 1usize, y: 0usize, z: 5usize }
    }
}

/// the eight faces of the octahedron, in emission order
pub open spec fn octahedron_faces() -> Seq<PolygonView<usize>> {
    Seq::new(8, |j: int| PolygonView::Tri(octahedron_face(j)))
}

/// a platonic octahedron solid
pub struct Octahedron {
    i: usize,
}

impl Octahedron {
    /// Create an octahedron. Its streamed faces are exactly its indexed
    /// faces: the streaming and the indexed view describe the same mesh.
    pub fn new() -> (r: Self)
        ensures
            r.remaining() == octahedron_faces(),
            r.remaining() == r.indexed_faces(),
    {
        Octahedron { i: 0 }
    }

    /// the exact number of faces still to be streamed
    pub fn size_hint(&self) -> (r: (usize, Option<usize>))
        ensures
            r.0 == self.remaining().len(),
            r.1 == Some(r.0),
    {
        let n = if self.i <= 8 {
            8 - self.i
        } else {
            0
        };
        (n, Some(n))
    }

    fn face(&self, j: usize) -> (r: Polygon<usize>)
        requires
            j < 8,
        ensures
            r@ == octahedron_faces()[j as int],
    {
        let t = if j == 0 {
            Triangle::new(3, 0, 4)
        } else if j == 1 {
            Triangle::new(2, 3, 4)
        } else if j == 2 {
            Triangle::new(1, 2, 4)
        } else if j == 3 {
            Triangle::new(0, 1, 4)
        } else if j == 4 {
            Triangle::new(3, 2, 5)
        } else if j == 5 {
            Triangle::new(0, 3, 5)
        } else if j == 6 {
            Triangle::new(2, 1, 5)
        } else {
            Triangle::new(1, 0, 5)
        };
        Polygon::PolyTri(t)
    }
}

impl Stream for Octahedron {
    type Item = Polygon<usize>;

    type Model = PolygonView<usize>;

    open spec fn model_of(v: Polygon<usize>) -> PolygonView<usize> {
        v@
    }

    closed spec fn remaining(&self) -> Seq<PolygonView<usize>> {
        if self.i <= 8 {
            octahedron_faces().skip(self.i as int)
        } else {
            Seq::empty()
        }
    }

    fn next(&mut self) -> (r: Option<Polygon<usize>>) {
        if self.i >= 8 {
            return None;
        }
        let p = self.face(self.i);
        self.i = self.i + 1;
        assert(self.remaining() =~= old(self).remaining().drop_first());
        Some(p)
    }
}

impl ShapeStream for Octahedron {
    proof fn model_is_view(v: Polygon<usize>) {
    }
}

impl SharedVertex<usize> for Octahedron {
    open spec fn shared_pool(&self) -> Seq<usize> {
        Seq::new(octahedron_vertex_count() as nat, |i: int| i as usize)
    }

    fn shared_vertex(&self, idx: usize) -> (v: usize) {
        idx
    }

    fn shared_vertex_count(&self) -> (n: usize) {
        6
    }
}

impl IndexedPolygon<Polygon<usize>> for Octahedron {
    open spec fn indexed_faces(&self) -> Seq<PolygonView<usize>> {
        octahedron_faces()
    }

    fn indexed_polygon(&self, idx: usize) -> (p: Polygon<usize>) {
        self.face(idx)
    }

    fn indexed_polygon_count(&self) -> (n: usize) {
        8
    }
}

/// Every face of the octahedron references only vertices of its
/// shared-vertex pool.
pub proof fn lemma_octahedron_faces_in_bounds()
    ensures
        forall|j: int|
            0 <= j < octahedron_faces().len() ==> face_in_bounds(
                #[trigger] octahedron_faces()[j],
                octahedron_vertex_count(),
            ),
{
}

/// Streaming equivalence: vertex-mapping the indexed face at any
/// position through the shared-vertex pool lookup yields exactly the
/// face a fresh octahedron streams at that position.
pub proof fn lemma_octahedron_streaming_equivalence(t: Octahedron, j: int)
    requires
        0 <= j < t.indexed_faces().len(),
    ensures
        <Polygon<usize> as MapVertex<usize, usize>>::map_model(
            t.indexed_faces()[j],
            pool_lookup(t.shared_pool()),
        ) == octahedron_faces()[j],
{
    lemma_octahedron_faces_in_bounds();
    lemma_identity_pool_lookup(t.indexed_faces()[j], t.shared_pool());
}

} // verus!
