//! The face topology of a platonic dodecahedron: twenty vertices, twelve
//! pentagonal faces. The geometric positions of the vertices are computed
//! by the caller from the shared-vertex indices this generator streams.

use crate::generator::{
    face_in_bounds, lemma_identity_pool_lookup, pool_lookup, IndexedPolygon, SharedVertex,
};
use crate::mapping::MapVertex;
use crate::stream::{ShapeStream, Stream};
use crate::{NGon, Polygon, PolygonView};
use vstd::prelude::*;

verus! {

/// the number of vertices of a dodecahedron
pub open spec fn dodecahedron_vertex_count() -> int {
    20
}

/// the corner indices of the pentagonal face at position `j`
pub open spec fn dodecahedron_face(j: int) -> Seq<usize> {
    if j == 0 {
        seq![0usize, 1usize, 2usize, 3usize, 4usize]
    } else if j == 1 {
        seq![1usize, 0usize, 6usize, 12usize, 7usize]
    } else if j == 2 {
        seq![2usize, 1usize, 7usize, 13usize, 8usize]
    } else if j == 3 {
        seq![3usize, 2usize, 8usize, 14usize, 9usize]
    } else if j == 4 {
        seq![4usize, 3usize, 9usize, 10usize, 5usize]
    } else if j == 5 {
        seq![0usize, 4usize, 5usize, 11usize, 6usize]
    } else if j == 6 {
        seq![17usize, 18usize, 12usize, 6usize, 11usize]
    } else if j == 7 {
        seq![18usize, 19usize, 13usize, 7usize, 12usize]
    } else if j == 8 {
        seq![19usize, 15usize, 14usize, 8usize, 13usize]
    } else if j == 9 {
        seq![15usize, 16usize, 10usize, 9usize, 14usize]
    } else if j == 10 {
        seq![16usize, 17usize, 11usize, 5usize, 10usize]
    } else {
        seq![15usize, 19usize, 18usize, 17usize, 16usize]
    }
}

/// the twelve faces of the dodecahedron, in emission order
pub open spec fn dodecahedron_faces() -> Seq<PolygonView<usize>> {
    Seq::new(12, |j: int| PolygonView::Gon(dodecahedron_face(j)))
}

/// Platonic dodecahedron, made of pentagons
pub struct Dodecahedron {
    i: usize,
}

impl Dodecahedron {
    /// Create a dodecahedron. Its streamed faces are exactly its indexed
    /// faces: the streaming and the indexed view describe the same mesh.
    pub fn new() -> (r: Self)
        ensures
            r.remaining() == dodecahedron_faces(),
            r.remaining() == r.indexed_faces(),
    {
        Dodecahedron { i: 0 }
    }

    /// the exact number of faces still to be streamed
    pub fn size_hint(&self) -> (r: (usize, Option<usize>))
        ensures
            r.0 == self.remaining().len(),
            r.1 == Some(r.0),
    {
        let n = if self.i <= 12 {
            12 - self.i
        } else {
            0
        };
        (n, Some(n))
    }

    fn face_corners(j: usize) -> (r: (usize, usize, usize, usize, usize))
        requires
            j < 12,
        ensures
            ({
                let (a, b, c, d, e) = r;
                seq![a, b, c, d, e] == dodecahedron_face(j as int)
            }),
    {
        let r = if j == 0 {
            (0, 1, 2, 3, 4)
        } else if j == 1 {
            (1, 0, 6, 12, 7)
        } else if j == 2 {
            (2, 1, 7, 13, 8)
        } else if j == 3 {
            (3, 2, 8, 14, 9)
        } else if j == 4 {
            (4, 3, 9, 10, 5)
        } else if j == 5 {
            (0, 4, 5, 11, 6)
        } else if j == 6 {
            (17, 18, 12, 6, 11)
        } else if j == 7 {
            (18, 19, 13, 7, 12)
        } else if j == 8 {
            (19, 15, 14, 8, 13)
        } else if j == 9 {
            (15, 16, 10, 9, 14)
        } else if j == 10 {
            (16, 17, 11, 5, 10)
        } else {
            (15, 19, 18, 17, 16)
        };
        proof {
            let (a, b, c, d, e) = r;
            assert(seq![a, b, c, d, e] =~= dodecahedron_face(j as int));
        }
        r
    }

    fn face(&self, j: usize) -> (r: Polygon<usize>)
        requires
            j < 12,
        ensures
            r@ == dodecahedron_faces()[j as int],
    {
        let (a, b, c, d, e) = Self::face_corners(j);
        let mut result = NGon::new();
        result.add_vertex(a);
        result.add_vertex(b);
        result.add_vertex(c);
        result.add_vertex(d);
        result.add_vertex(e);
        assert(result@ =~= seq![a, b, c, d, e]);
        Polygon::PolyNGon(result)
    }
}

impl Stream for Dodecahedron {
    type Item = Polygon<usize>;

    type Model = PolygonView<usize>;

    open spec fn model_of(v: Polygon<usize>) -> PolygonView<usize> {
        v@
    }

    closed spec fn remaining(&self) -> Seq<PolygonView<usize>> {
        if self.i <= 12 {
            dodecahedron_faces().skip(self.i as int)
        } else {
            Seq::empty()
        }
    }

    fn next(&mut self) -> (r: Option<Polygon<usize>>) {
        if self.i >= 12 {
            return None;
        }
        let p = self.face(self.i);
        self.i = self.i + 1;
        assert(self.remaining() =~= old(self).remaining().drop_first());
        Some(p)
    }
}

impl ShapeStream for Dodecahedron {
    proof fn model_is_view(v: Polygon<usize>) {
    }
}

impl SharedVertex<usize> for Dodecahedron {
    open spec fn shared_pool(&self) -> Seq<usize> {
        Seq::new(dodecahedron_vertex_count() as nat, |i: int| i as usize)
    }

    fn shared_vertex(&self, idx: usize) -> (v: usize) {
        idx
    }

    fn shared_vertex_count(&self) -> (n: usize) {
        20
    }
}

impl IndexedPolygon<Polygon<usize>> for Dodecahedron {
    open spec fn indexed_faces(&self) -> Seq<PolygonView<usize>> {
        dodecahedron_faces()
    }

    fn indexed_polygon(&self, idx: usize) -> (p: Polygon<usize>) {
        self.face(idx)
    }

    fn indexed_polygon_count(&self) -> (n: usize) {
        12
    }
}

/// Every face of the dodecahedron references only vertices of its
/// shared-vertex pool.
pub proof fn lemma_dodecahedron_faces_in_bounds()
    ensures
        forall|j: int|
            0 <= j < dodecahedron_faces().len() ==> face_in_bounds(
                #[trigger] dodecahedron_faces()[j],
                dodecahedron_vertex_count(),
            ),
{
    assert forall|j: int| 0 <= j < dodecahedron_faces().len() implies face_in_bounds(
        #[trigger] dodecahedron_faces()[j],
        dodecahedron_vertex_count(),
    ) by {
        let s = dodecahedron_face(j);
        assert forall|i: int| 0 <= i < s.len() implies (#[trigger] s[i]) < 20 by {
            assert(s.len() == 5);
        }
    }
}

/// Streaming equivalence: vertex-mapping the indexed face at any
/// position through the shared-vertex pool lookup yields exactly the
/// face a fresh dodecahedron streams at that position.
pub proof fn lemma_dodecahedron_streaming_equivalence(t: Dodecahedron, j: int)
    requires
        0 <= j < t.indexed_faces().len(),
    ensures
        <Polygon<usize> as MapVertex<usize, usize>>::map_model(
            t.indexed_faces()[j],
            pool_lookup(t.shared_pool()),
        ) == dodecahedron_faces()[j],
{
    lemma_dodecahedron_faces_in_bounds();
    lemma_identity_pool_lookup(t.indexed_faces()[j], t.shared_pool());
}

} // verus!
