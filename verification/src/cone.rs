//! The face topology of a cone with a subdivided radius: a ring of tip
//! triangles and a fan of bottom-cap triangles, over a shared-vertex pool
//! laid out in four sections. The geometric positions of the vertices are
//! computed by the caller from the sections this module describes.

use crate::generator::{
    face_in_bounds, lemma_identity_pool_lookup, pool_lookup, IndexedPolygon, SharedVertex,
};
use crate::mapping::MapVertex;
use crate::stream::{ShapeStream, Stream};
use crate::{Polygon, PolygonView, Triangle};
use vstd::prelude::*;

verus! {

/// One position in the cone's shared-vertex pool, by meaning: a vertex at
/// the tip (one per subdivision, for its own normal), one on the radius
/// seen from the side, one on the radius seen from below, or the center
/// of the bottom cap.
#[derive(Clone, Copy, PartialEq, Eq, Structural, Debug)]
pub enum VertexSection {
    /// the tip vertex belonging to one subdivision
    Tip(usize),
    /// a vertex on the radius, with the sideways normal
    TopRadius(usize),
    /// a vertex on the radius, with the downward normal
    BottomRadius(usize),
    /// the center of the bottom cap
    BottomCenter,
}

/// the largest subdivision count whose shared-vertex pool size still fits
pub open spec fn cone_max_subdivisions() -> int {
    (usize::MAX - 1) / 3
}

/// the size of the shared-vertex pool of a cone with `n` subdivisions:
/// one tip vertex, one top-radius vertex and one bottom-radius vertex per
/// subdivision, and the single bottom-center vertex
pub open spec fn cone_vertex_count(n: int) -> int {
    3 * n + 1
}

/// a section is valid for a cone with `n` subdivisions
pub open spec fn cone_section_valid(n: int, sec: VertexSection) -> bool {
    match sec {
        VertexSection::Tip(i) => i < n,
        VertexSection::TopRadius(i) => i < n,
        VertexSection::BottomRadius(i) => i < n,
        VertexSection::BottomCenter => true,
    }
}

/// where a section's vertex sits in the shared-vertex pool
pub open spec fn cone_section_index(n: int, sec: VertexSection) -> int {
    match sec {
        VertexSection::Tip(i) => i as int,
        VertexSection::TopRadius(i) => i + n,
        VertexSection::BottomRadius(i) => i + 2 * n,
        VertexSection::BottomCenter => 3 * n,
    }
}

/// the section whose vertex sits at pool position `idx`
pub open spec fn cone_section_of(n: int, idx: int) -> VertexSection {
    if idx < n {
        VertexSection::Tip(idx as usize)
    } else if idx < 2 * n {
        VertexSection::TopRadius((idx - n) as usize)
    } else if idx < 3 * n {
        VertexSection::BottomRadius((idx - 2 * n) as usize)
    } else {
        VertexSection::BottomCenter
    }
}

/// The pool layout is a bijection: every valid section is found again at
/// the position it was assigned, and every pool position names exactly
/// one section.
pub proof fn lemma_cone_section_index_inverse(n: int, sec: VertexSection, idx: int)
    requires
        2 <= n <= cone_max_subdivisions(),
    ensures
        cone_section_valid(n, sec) ==> cone_section_of(n, cone_section_index(n, sec)) == sec,
        0 <= idx <= 3 * n ==> cone_section_index(n, cone_section_of(n, idx)) == idx,
{
}

/// the face at position `j`: first one triangle per subdivision around
/// the tip, then one per subdivision fanning the bottom cap
pub open spec fn cone_face(n: int, j: int) -> Triangle<usize> {
    if j < n {
        let nxt = if j != n - 1 {
            j + 1
        } else {
            0
        };
        Triangle { x: j as usize, y: (j + n) as usize, z: (nxt + n) as usize }
    } else {
        let j2 = j - n;
        let nxt = if j2 != n - 1 {
            j2 + 1
        } else {
            0
        };
        Triangle { x: (3 * n) as usize, y: (nxt + 2 * n) as usize, z: (j2 + 2 * n) as usize }
    }
}

/// the 2n faces of a cone with `n` subdivisions, in emission order
pub open spec fn cone_faces(n: int) -> Seq<PolygonView<usize>> {
    Seq::new((2 * n) as nat, |j: int| PolygonView::Tri(cone_face(n, j)))
}

/// The cone's face topology. The bottom is a circle of `sub_u`
/// subdivisions around the bottom center; every subdivision contributes
/// one triangle reaching the tip and one closing the bottom cap.
pub struct Cone {
    u: usize,
    sub_u: usize,
}

impl Cone {
    /// the subdivision count sits in the range the pool layout supports
    pub closed spec fn well_formed(&self) -> bool {
        2 <= self.sub_u <= cone_max_subdivisions() && self.u <= 2 * self.sub_u
    }

    /// the number of subdivisions around the radius
    pub closed spec fn subdivisions(&self) -> int {
        self.sub_u as int
    }

    /// Creates a new `Cone`. `u` is the number of subdivisions around the
    /// radius; it must be at least 2, and small enough for the vertex
    /// pool to be addressable. The streamed faces are exactly the indexed
    /// faces: the streaming and the indexed view describe the same mesh.
    pub fn new(u: usize) -> (r: Self)
        requires
            2 <= u <= cone_max_subdivisions(),
        ensures
            r.well_formed(),
            r.subdivisions() == u,
            r.remaining() == cone_faces(u as int),
            r.remaining() == r.indexed_faces(),
    {
        Cone { u: 0, sub_u: u }
    }

    /// where the vertex of `sec` sits in the shared-vertex pool
    pub fn index(&self, sec: VertexSection) -> (r: usize)
        requires
            self.well_formed(),
            cone_section_valid(self.subdivisions(), sec),
        ensures
            r == cone_section_index(self.subdivisions(), sec),
    {
        match sec {
            VertexSection::Tip(i) => i,
            VertexSection::TopRadius(i) => i + self.sub_u,
            VertexSection::BottomRadius(i) => i + self.sub_u * 2,
            VertexSection::BottomCenter => self.sub_u * 3,
        }
    }

    /// the section whose vertex sits at pool position `idx`
    pub fn rev_index(&self, idx: usize) -> (r: VertexSection)
        requires
            self.well_formed(),
            idx <= 3 * self.subdivisions(),
        ensures
            r == cone_section_of(self.subdivisions(), idx as int),
    {
        if idx < self.sub_u {
            VertexSection::Tip(idx)
        } else if idx < self.sub_u * 2 {
            VertexSection::TopRadius(idx - self.sub_u)
        } else if idx < self.sub_u * 3 {
            VertexSection::BottomRadius(idx - self.sub_u * 2)
        } else {
            VertexSection::BottomCenter
        }
    }

    /// the exact number of faces still to be streamed
    pub fn size_hint(&self) -> (r: (usize, Option<usize>))
        ensures
            r.0 == self.remaining().len(),
            r.1 == Some(r.0),
    {
        let n = if self.sub_u >= 2 && self.sub_u <= (usize::MAX - 1) / 3 && self.u <= 2
            * self.sub_u {
            2 * self.sub_u - self.u
        } else {
            0
        };
        (n, Some(n))
    }

    fn face(&self, j: usize) -> (r: Polygon<usize>)
        requires
            2 <= self.subdivisions() <= cone_max_subdivisions(),
            j < 2 * self.subdivisions(),
        ensures
            r@ == cone_faces(self.subdivisions())[j as int],
    {
        let n = self.sub_u;
        if j < n {
            let nxt = if j != n - 1 {
                j + 1
            } else {
                0
            };
            Polygon::PolyTri(Triangle::new(j, j + n, nxt + n))
        } else {
            let j2 = j - n;
            let nxt = if j2 != n - 1 {
                j2 + 1
            } else {
                0
            };
            Polygon::PolyTri(Triangle::new(3 * n, nxt + 2 * n, j2 + 2 * n))
        }
    }
}

impl Stream for Cone {
    type Item = Polygon<usize>;

    type Model = PolygonView<usize>;

    open spec fn model_of(v: Polygon<usize>) -> PolygonView<usize> {
        v@
    }

    closed spec fn remaining(&self) -> Seq<PolygonView<usize>> {
        if self.well_formed() {
            cone_faces(self.sub_u as int).skip(self.u as int)
        } else {
            Seq::empty()
        }
    }

    fn next(&mut self) -> (r: Option<Polygon<usize>>) {
        if self.sub_u < 2 || self.sub_u > (usize::MAX - 1) / 3 {
            return None;
        }
        if self.u >= 2 * self.sub_u {
            return None;
        }
        let p = self.face(self.u);
        self.u = self.u + 1;
        assert(self.remaining() =~= old(self).remaining().drop_first());
        Some(p)
    }
}

impl ShapeStream for Cone {
    proof fn model_is_view(v: Polygon<usize>) {
    }
}

impl SharedVertex<usize> for Cone {
    open spec fn shared_pool(&self) -> Seq<usize> {
        if 2 <= self.subdivisions() <= cone_max_subdivisions() {
            Seq::new(cone_vertex_count(self.subdivisions()) as nat, |i: int| i as usize)
        } else {
            Seq::empty()
        }
    }

    fn shared_vertex(&self, idx: usize) -> (v: usize) {
        idx
    }

    fn shared_vertex_count(&self) -> (n: usize) {
        if self.sub_u >= 2 && self.sub_u <= (usize::MAX - 1) / 3 {
            3 * self.sub_u + 1
        } else {
            0
        }
    }
}

impl IndexedPolygon<Polygon<usize>> for Cone {
    open spec fn indexed_faces(&self) -> Seq<PolygonView<usize>> {
        if 2 <= self.subdivisions() <= cone_max_subdivisions() {
            cone_faces(self.subdivisions())
        } else {
            Seq::empty()
        }
    }

    fn indexed_polygon(&self, idx: usize) -> (p: Polygon<usize>) {
        self.face(idx)
    }

    fn indexed_polygon_count(&self) -> (n: usize) {
        if self.sub_u >= 2 && self.sub_u <= (usize::MAX - 1) / 3 {
            2 * self.sub_u
        } else {
            0
        }
    }
}

/// Every face of a cone references only vertices of its shared-vertex
/// pool.
pub proof fn lemma_cone_faces_in_bounds(n: int)
    requires
        2 <= n <= cone_max_subdivisions(),
    ensures
        forall|j: int|
            0 <= j < cone_faces(n).len() ==> face_in_bounds(
                #[trigger] cone_faces(n)[j],
                cone_vertex_count(n),
            ),
{
}

/// Streaming equivalence: vertex-mapping the indexed face at any
/// position through the shared-vertex pool lookup yields exactly the
/// face a fresh cone with the same subdivision count streams at that
/// position.
pub proof fn lemma_cone_streaming_equivalence(t: Cone, j: int)
    requires
        0 <= j < t.indexed_faces().len(),
    ensures
        <Polygon<usize> as MapVertex<usize, usize>>::map_model(
            t.indexed_faces()[j],
            pool_lookup(t.shared_pool()),
        ) == cone_faces(t.subdivisions())[j],
{
    lemma_cone_faces_in_bounds(t.subdivisions());
    lemma_identity_pool_lookup(t.indexed_faces()[j], t.shared_pool());
}

} // verus!
