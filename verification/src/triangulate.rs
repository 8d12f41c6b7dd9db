//! Triangulation: converting any polygon down to triangles, one shape at a
//! time, and the lazy adapter that triangulates a whole stream.

use crate::stream::{ShapeStream, Stream};
use crate::{NGon, Polygon, PolygonView, Quad, Triangle};
use std::collections::VecDeque;
use vstd::prelude::*;

verus! {

/// provides a way to convert a polygon down to triangles
pub trait EmitTriangles: View + Sized {
    /// The content of each point in the face
    type Vertex;

    /// the triangles a shape with model `m` decomposes into, in order
    spec fn triangle_seq(m: Self::V) -> Seq<Triangle<Self::Vertex>>;

    /// Convert a polygon to zero or more triangles; each triangle is
    /// appended to the back of the supplied queue.
    fn emit_triangles(&self, out: &mut VecDeque<Triangle<Self::Vertex>>)
        ensures
            final(out)@ == old(out)@ + Self::triangle_seq(self@),
    ;
}

impl<T: Copy> EmitTriangles for Quad<T> {
    type Vertex = T;

    /// A quad splits along the fixed diagonal from its first to its third
    /// corner: (x, y, z) then (z, w, x). The diagonal is not validated for
    /// convexity or planarity.
    open spec fn triangle_seq(m: Quad<T>) -> Seq<Triangle<T>> {
        seq![
            Triangle { x: m.x, y: m.y, z: m.z },
            Triangle { x: m.z, y: m.w, z: m.x },
        ]
    }

    fn emit_triangles(&self, out: &mut VecDeque<Triangle<T>>) {
        out.push_back(Triangle::new(self.x, self.y, self.z));
        out.push_back(Triangle::new(self.z, self.w, self.x));
        assert(out@ =~= old(out)@ + Self::triangle_seq(self@));
    }
}

impl<T: Copy> EmitTriangles for Triangle<T> {
    type Vertex = T;

    /// a triangle is already a triangle: it passes through unchanged
    open spec fn triangle_seq(m: Triangle<T>) -> Seq<Triangle<T>> {
        seq![m]
    }

    fn emit_triangles(&self, out: &mut VecDeque<Triangle<T>>) {
        out.push_back(Triangle::new(self.x, self.y, self.z));
        assert(out@ =~= old(out)@ + Self::triangle_seq(self@));
    }
}

impl<T: Copy> EmitTriangles for NGon<T> {
    type Vertex = T;

    /// Fan triangulation from the first corner: an n-gon with corners
    /// v0..v(n-1) yields (v0, v(i), v(i+1)) for i in 1..n-1, exactly n-2
    /// triangles. A polygon with fewer than three corners yields nothing.
    /// Convexity and consistent winding are the caller's responsibility.
    open spec fn triangle_seq(m: Seq<T>) -> Seq<Triangle<T>> {
        if m.len() < 3 {
            Seq::empty()
        } else {
            Seq::new((m.len() - 2) as nat, |i: int| Triangle { x: m[0], y: m[i + 1], z: m[i + 2] })
        }
    }

    fn emit_triangles(&self, out: &mut VecDeque<Triangle<T>>) {
        let n = self.verts.len();
        if n >= 3 {
            let mut i: usize = 1;
            while i + 1 < n
                invariant
                    1 <= i <= n - 1,
                    3 <= n == self.verts@.len(),
                    out@ == old(out)@ + Self::triangle_seq(self@).subrange(0, i - 1),
                decreases n - i,
            {
                let a: T = self.verts[0];
                let b: T = self.verts[i];
                let c: T = self.verts[i + 1];
                out.push_back(Triangle::new(a, b, c));
                assert(out@ =~= old(out)@ + Self::triangle_seq(self@).subrange(0, i as int));
                i += 1;
            }
            assert(Self::triangle_seq(self@).subrange(0, n - 2) =~= Self::triangle_seq(self@));
        } else {
            assert(out@ =~= old(out)@ + Self::triangle_seq(self@));
        }
    }
}

impl<T: Copy> EmitTriangles for Polygon<T> {
    type Vertex = T;

    /// triangulation, generic over polygon kinds
    open spec fn triangle_seq(m: PolygonView<T>) -> Seq<Triangle<T>> {
        match m {
            PolygonView::Tri(t) => <Triangle<T> as EmitTriangles>::triangle_seq(t),
            PolygonView::Quad(q) => <Quad<T> as EmitTriangles>::triangle_seq(q),
            PolygonView::Gon(s) => <NGon<T> as EmitTriangles>::triangle_seq(s),
        }
    }

    fn emit_triangles(&self, out: &mut VecDeque<Triangle<T>>) {
        match self {
            Polygon::PolyTri(t) => t.emit_triangles(out),
            Polygon::PolyQuad(q) => q.emit_triangles(out),
            Polygon::PolyNGon(n) => n.emit_triangles(out),
        }
    }
}

/// the triangles that the shapes with models `s` decompose into, in order
pub open spec fn flat_triangle_seq<P: EmitTriangles<Vertex = V>, V>(s: Seq<P::V>) -> Seq<
    Triangle<V>,
>
    decreases s.len(),
{
    if s.len() == 0 {
        Seq::empty()
    } else {
        P::triangle_seq(s[0]) + flat_triangle_seq::<P, V>(s.drop_first())
    }
}

/// `Triangulate` is an easy way to convert any polygon stream to a stream
/// of triangles. This is useful since quads and other geometry are not
/// supported by modern graphics pipelines.
pub trait Triangulate<V>: Sized where
    Self: ShapeStream,
    Self::Item: EmitTriangles<Vertex = V>,
 {
    /// convert a stream of polygons to a stream of triangles
    fn triangulate(self) -> (r: TriangulateIterator<Self, V>)
        ensures
            r.remaining() == flat_triangle_seq::<Self::Item, V>(self.remaining()),
    ;
}

impl<V, P: EmitTriangles<Vertex = V>, T: ShapeStream<Item = P>> Triangulate<V> for T {
    fn triangulate(self) -> (r: TriangulateIterator<T, V>) {
        let r = TriangulateIterator { source: self, buffer: VecDeque::new() };
        assert(r.remaining() =~= flat_triangle_seq::<P, V>(self.remaining()));
        r
    }
}

/// A stream that turns a stream of polygons into a stream of triangles,
/// buffering the triangles of one shape and draining them one pull at a
/// time.
pub struct TriangulateIterator<SRC, V> {
    source: SRC,
    buffer: VecDeque<Triangle<V>>,
}

impl<V, P, SRC> Stream for TriangulateIterator<SRC, V> where
    P: EmitTriangles<Vertex = V>,
    SRC: ShapeStream<Item = P>,
{
    type Item = Triangle<V>;

    type Model = Triangle<V>;

    open spec fn model_of(v: Triangle<V>) -> Triangle<V> {
        v
    }

    closed spec fn remaining(&self) -> Seq<Triangle<V>> {
        self.buffer@ + flat_triangle_seq::<P, V>(self.source.remaining())
    }

    fn next(&mut self) -> (r: Option<Triangle<V>>) {
        loop
            invariant
                self.remaining() == old(self).remaining(),
            decreases self.source.remaining().len(),
        {
            let popped = self.buffer.pop_front();
            match popped {
                Some(v) => {
                    assert(self.remaining() =~= old(self).remaining().drop_first());
                    return Some(v);
                },
                None => {},
            }

            let pulled = self.source.next();
            match pulled {
                Some(p) => {
                    proof {
                        SRC::model_is_view(p);
                    }
                    p.emit_triangles(&mut self.buffer);
                    assert(self.remaining() =~= old(self).remaining());
                },
                None => {
                    assert(self.remaining() =~= old(self).remaining());
                    return None;
                },
            }
        }
    }
}

impl<V, P, SRC> ShapeStream for TriangulateIterator<SRC, V> where
    P: EmitTriangles<Vertex = V>,
    SRC: ShapeStream<Item = P>,
{
    proof fn model_is_view(v: Triangle<V>) {
    }
}

/// Triangulating a quad always yields exactly two triangles.
pub proof fn lemma_quad_triangle_count<T: Copy>(m: Quad<T>)
    ensures
        <Quad<T> as EmitTriangles>::triangle_seq(m).len() == 2,
{
}

/// Fan-triangulating an n-gon of n >= 3 corners yields exactly n - 2
/// triangles; one with fewer than three corners yields none.
pub proof fn lemma_ngon_triangle_count<T: Copy>(m: Seq<T>)
    ensures
        m.len() >= 3 ==> <NGon<T> as EmitTriangles>::triangle_seq(m).len() == m.len() - 2,
        m.len() < 3 ==> <NGon<T> as EmitTriangles>::triangle_seq(m).len() == 0,
{
}

} // verus!
