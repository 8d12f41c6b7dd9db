//! The dual contract that procedural mesh generators satisfy: a streaming
//! view (a finite sequence of shapes, pulled one at a time) and an indexed
//! view (a fixed shared-vertex pool plus a face list of indices into it).
//! The two views must describe the same mesh.

use crate::mapping::MapVertex;
use crate::{Polygon, PolygonView};
use vstd::prelude::*;

verus! {

/// The `SharedVertex` capability: a generator exposes a fixed, dense pool
/// of vertices that its indexed faces reference by position.
pub trait SharedVertex<V>: Sized {
    /// the fixed pool of shared vertices this generator exposes
    spec fn shared_pool(&self) -> Seq<V>;

    /// look one shared vertex up by its index
    fn shared_vertex(&self, idx: usize) -> (v: V)
        requires
            idx < self.shared_pool().len(),
        ensures
            v == self.shared_pool()[idx as int],
    ;

    /// the number of shared vertices in the pool
    fn shared_vertex_count(&self) -> (n: usize)
        ensures
            n == self.shared_pool().len(),
    ;
}

/// The `IndexedPolygon` capability: a generator exposes a fixed list of
/// faces, each a shape of indices into the shared-vertex pool.
pub trait IndexedPolygon<P: View>: Sized {
    /// the fixed list of faces over the shared-vertex pool
    spec fn indexed_faces(&self) -> Seq<P::V>;

    /// look one face up by its index
    fn indexed_polygon(&self, idx: usize) -> (p: P)
        requires
            idx < self.indexed_faces().len(),
        ensures
            p@ == self.indexed_faces()[idx as int],
    ;

    /// the number of faces
    fn indexed_polygon_count(&self) -> (n: usize)
        ensures
            n == self.indexed_faces().len(),
    ;
}

/// every corner index of the face model `m` lies below `n`, the size of
/// the shared-vertex pool it references
pub open spec fn face_in_bounds(m: PolygonView<usize>, n: int) -> bool {
    match m {
        PolygonView::Tri(t) => t.x < n && t.y < n && t.z < n,
        PolygonView::Quad(q) => q.x < n && q.y < n && q.z < n && q.w < n,
        PolygonView::Gon(s) => forall|i: int| 0 <= i < s.len() ==> (#[trigger] s[i]) < n,
    }
}

/// the function that looks corner indices up in a shared-vertex pool
pub open spec fn pool_lookup(pool: Seq<usize>) -> spec_fn(usize) -> usize {
    |i: usize| pool[i as int]
}

/// Looking every corner of an in-bounds face up in the dense index pool
/// hands the face back unchanged. For the generators of this library,
/// whose shared-vertex pool is the dense index pool, this is the
/// streaming-equivalence contract: vertex-mapping an indexed face by the
/// pool lookup yields exactly the shape the generator streams at the same
/// position.
pub proof fn lemma_identity_pool_lookup(m: PolygonView<usize>, pool: Seq<usize>)
    requires
        face_in_bounds(m, pool.len() as int),
        forall|i: int| 0 <= i < pool.len() ==> #[trigger] pool[i] == i,
    ensures
        <Polygon<usize> as MapVertex<usize, usize>>::map_model(m, pool_lookup(pool)) == m,
{
    let g = pool_lookup(pool);
    match m {
        PolygonView::Tri(t) => {
            assert(g(t.x) == t.x && g(t.y) == t.y && g(t.z) == t.z);
        },
        PolygonView::Quad(q) => {
            assert(g(q.x) == q.x && g(q.y) == q.y && g(q.z) == q.z && g(q.w) == q.w);
        },
        PolygonView::Gon(s) => {
            assert forall|k: int| 0 <= k < s.len() implies #[trigger] s.map_values(g)[k]
                == s[k] by {
                assert(g(s[k]) == s[k]);
            }
            assert(s.map_values(g) =~= s);
        },
    }
}

} // verus!
