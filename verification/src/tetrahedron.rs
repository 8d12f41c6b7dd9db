//! The face topology of a platonic tetrahedron: four vertices, four
//! triangular faces. The geometric positions of the vertices are computed
//! by the caller from the shared-vertex indices this generator streams.

use crate::generator::{
    face_in_bounds, lemma_identity_pool_lookup, pool_lookup, IndexedPolygon, SharedVertex,
};
use crate::mapping::MapVertex;
use crate::stream::{ShapeStream, Stream};
use crate::{Polygon, PolygonView, Triangle};
use vstd::prelude::*;

verus! {

/// the number of vertices of a tetrahedron
pub open spec fn tetrahedron_vertex_count() -> int {
    4
}

/// the face of the tetrahedron at position `j`
pub open spec fn tetrahedron_face(j: int) -> Triangle<usize> {
    if j == 0 {
        Triangle { x: 0usize, y: 2usize, z: 1usize }
    } else if j == 1 {
        Triangle { x: 2usize, y: 3usize, z: 1usize }
    } else if j == 2 {
        Triangle { x: 0usize, y: 1usize, z: 3usize }
    } else {
        Triangle { x: 0usize, y: 3usize, z: 2usize }
    }
}

/// the four faces of the tetrahedron, in emission order
pub open spec fn tetrahedron_faces() -> Seq<PolygonView<usize>> {
    Seq::new(4, |j: int| PolygonView::Tri(tetrahedron_face(j)))
}

/// a platonic tetrahedron solid
pub struct Tetrahedron {
    i: usize,
}

impl Tetrahedron {
    /// Create a tetrahedron. Its streamed faces are exactly its indexed
    /// faces: the streaming and the indexed view describe the same mesh.
    pub fn new() -> (r: Self)
        ensures
            r.remaining() == tetrahedron_faces(),
            r.remaining() == r.indexed_faces(),
    {
        Tetrahedron { i: 0 }
    }

    /// the exact number of faces still to be streamed
    pub fn size_hint(&self) -> (r: (usize, Option<usize>))
        ensures
            r.0 == self.remaining().len(),
            r.1 == Some(r.0),
    {
        let n = if self.i <= 4 {
            4 - self.i
        } else {
            0
        };
        (n, Some(n))
    }

    fn face(&self, j: usize) -> (r: Polygon<usize>)
        requires
            j < 4,
        ensures
            r@ == tetrahedron_faces()[j as int],
    {
        let t = if j == 0 {
            Triangle::new(0, 2, 1)
        } else if j == 1 {
            Triangle::new(2, 3, 1)
        } else if j == 2 {
            Triangle::new(0, 1, 3)
        } else {
            Triangle::new(0, 3, 2)
        };
        Polygon::PolyTri(t)
    }
}

impl Stream for Tetrahedron {
    type Item = Polygon<usize>;

    type Model = PolygonView<usize>;

    open spec fn model_of(v: Polygon<usize>) -> PolygonView<usize> {
        v@
    }

    closed spec fn remaining(&self) -> Seq<PolygonView<usize>> {
        if self.i <= 4 {
            tetrahedron_faces().skip(self.i as int)
        } else {
            Seq::empty()
        }
    }

    fn next(&mut self) -> (r: Option<Polygon<usize>>) {
        if self.i >= 4 {
            return None;
        }
        let p = self.face(self.i);
        self.i = self.i + 1;
        assert(self.remaining() =~= old(self).remaining().drop_first());
        Some(p)
    }
}

impl ShapeStream for Tetrahedron {
    proof fn model_is_view(v: Polygon<usize>) {
    }
}

impl SharedVertex<usize> for Tetrahedron {
    open spec fn shared_pool(&self) -> Seq<usize> {
        Seq::new(tetrahedron_vertex_count() as nat, |i: int| i as usize)
    }

    fn shared_vertex(&self, idx: usize) -> (v: usize) {
        idx
    }

    fn shared_vertex_count(&self) -> (n: usize) {
        4
    }
}

impl IndexedPolygon<Polygon<usize>> for Tetrahedron {
    open spec fn indexed_faces(&self) -> Seq<PolygonView<usize>> {
        tetrahedron_faces()
    }

    fn indexed_polygon(&self, idx: usize) -> (p: Polygon<usize>) {
        self.face(idx)
    }

    fn indexed_polygon_count(&self) -> (n: usize) {
        4
    }
}

/// Every face of the tetrahedron references only vertices of its
/// shared-vertex pool.
pub proof fn lemma_tetrahedron_faces_in_bounds()
    ensures
        forall|j: int|
            0 <= j < tetrahedron_faces().len() ==> face_in_bounds(
                #[trigger] tetrahedron_faces()[j],
                tetrahedron_vertex_count(),
            ),
{
}

/// Streaming equivalence: vertex-mapping the indexed face at any
/// position through the shared-vertex pool lookup yields exactly the
/// face a fresh tetrahedron streams at that position.
pub proof fn lemma_tetrahedron_streaming_equivalence(t: Tetrahedron, j: int)
    requires
        0 <= j < t.indexed_faces().len(),
    ensures
        <Polygon<usize> as MapVertex<usize, usize>>::map_model(
            t.indexed_faces()[j],
            pool_lookup(t.shared_pool()),
        ) == tetrahedron_faces()[j],
{
    lemma_tetrahedron_faces_in_bounds();
    lemma_identity_pool_lookup(t.indexed_faces()[j], t.shared_pool());
}

} // verus!
