//! Edge decomposition: converting a polygon into its boundary edges, and
//! the lazy adapter that edge-decomposes a whole stream.

use crate::stream::{ShapeStream, Stream};
use crate::{Line, NGon, Polygon, PolygonView, Quad, Triangle};
use std::collections::VecDeque;
use vstd::prelude::*;

verus! {

/// Convert a polygon into its boundary edges
pub trait EmitLines: View + Sized {
    /// The vertex type that defines the corners of the polygon
    type Vertex;

    /// the edges a shape with model `m` decomposes into, in order
    spec fn line_seq(m: Self::V) -> Seq<Line<Self::Vertex>>;

    /// Convert a polygon into lines; each line is appended to the back of
    /// the supplied queue. This allows for a variable number of lines.
    fn emit_lines(self, out: &mut VecDeque<Line<Self::Vertex>>)
        ensures
            final(out)@ == old(out)@ + Self::line_seq(self@),
    ;
}

impl<T: Copy> EmitLines for Triangle<T> {
    type Vertex = T;

    /// three edges closing the cycle: x-y, y-z, z-x
    open spec fn line_seq(m: Triangle<T>) -> Seq<Line<T>> {
        seq![
            Line { x: m.x, y: m.y },
            Line { x: m.y, y: m.z },
            Line { x: m.z, y: m.x },
        ]
    }

    fn emit_lines(self, out: &mut VecDeque<Line<T>>) {
        out.push_back(Line::new(self.x, self.y));
        out.push_back(Line::new(self.y, self.z));
        out.push_back(Line::new(self.z, self.x));
        assert(out@ =~= old(out)@ + Self::line_seq(self@));
    }
}

impl<T: Copy> EmitLines for Quad<T> {
    type Vertex = T;

    /// four edges closing the cycle: x-y, y-z, z-w, w-x
    open spec fn line_seq(m: Quad<T>) -> Seq<Line<T>> {
        seq![
            Line { x: m.x, y: m.y },
            Line { x: m.y, y: m.z },
            Line { x: m.z, y: m.w },
            Line { x: m.w, y: m.x },
        ]
    }

    fn emit_lines(self, out: &mut VecDeque<Line<T>>) {
        out.push_back(Line::new(self.x, self.y));
        out.push_back(Line::new(self.y, self.z));
        out.push_back(Line::new(self.z, self.w));
        out.push_back(Line::new(self.w, self.x));
        assert(out@ =~= old(out)@ + Self::line_seq(self@));
    }
}

impl<T: Copy> EmitLines for NGon<T> {
    type Vertex = T;

    /// An open chain of n - 1 consecutive edges: v0-v1, v1-v2, ...,
    /// v(n-2)-v(n-1). Unlike `Triangle` and `Quad`, the chain does not
    /// close the loop back to the first corner.
    open spec fn line_seq(m: Seq<T>) -> Seq<Line<T>> {
        if m.len() < 2 {
            Seq::empty()
        } else {
            Seq::new((m.len() - 1) as nat, |i: int| Line { x: m[i], y: m[i + 1] })
        }
    }

    fn emit_lines(self, out: &mut VecDeque<Line<T>>) {
        let n = self.verts.len();
        if n >= 2 {
            let mut i: usize = 0;
            while i + 1 < n
                invariant
                    0 <= i <= n - 1,
                    2 <= n == self.verts@.len(),
                    out@ == old(out)@ + Self::line_seq(self@).subrange(0, i as int),
                decreases n - i,
            {
                let a: T = self.verts[i];
                let b: T = self.verts[i + 1];
                out.push_back(Line::new(a, b));
                assert(out@ =~= old(out)@ + Self::line_seq(self@).subrange(0, i + 1));
                i += 1;
            }
            assert(Self::line_seq(self@).subrange(0, n - 1) =~= Self::line_seq(self@));
        } else {
            assert(out@ =~= old(out)@ + Self::line_seq(self@));
        }
    }
}

impl<T: Copy> EmitLines for Polygon<T> {
    type Vertex = T;

    /// edge decomposition, generic over polygon kinds
    open spec fn line_seq(m: PolygonView<T>) -> Seq<Line<T>> {
        match m {
            PolygonView::Tri(t) => <Triangle<T> as EmitLines>::line_seq(t),
            PolygonView::Quad(q) => <Quad<T> as EmitLines>::line_seq(q),
            PolygonView::Gon(s) => <NGon<T> as EmitLines>::line_seq(s),
        }
    }

    fn emit_lines(self, out: &mut VecDeque<Line<T>>) {
        match self {
            Polygon::PolyTri(t) => t.emit_lines(out),
            Polygon::PolyQuad(q) => q.emit_lines(out),
            Polygon::PolyNGon(n) => n.emit_lines(out),
        }
    }
}

/// the edges that the shapes with models `s` decompose into, in order
pub open spec fn flat_line_seq<P: EmitLines<Vertex = V>, V>(s: Seq<P::V>) -> Seq<Line<V>>
    decreases s.len(),
{
    if s.len() == 0 {
        Seq::empty()
    } else {
        P::line_seq(s[0]) + flat_line_seq::<P, V>(s.drop_first())
    }
}

/// Creates a `LinesIterator` from another stream
pub trait Lines<V>: Sized where Self: ShapeStream, Self::Item: EmitLines<Vertex = V> {
    /// Convert the stream into a stream of edges
    fn lines(self) -> (r: LinesIterator<Self, V>)
        ensures
            r.remaining() == flat_line_seq::<Self::Item, V>(self.remaining()),
    ;
}

impl<V, P: EmitLines<Vertex = V>, T: ShapeStream<Item = P>> Lines<V> for T {
    fn lines(self) -> (r: LinesIterator<T, V>) {
        let r = LinesIterator { source: self, buffer: VecDeque::new() };
        assert(r.remaining() =~= flat_line_seq::<P, V>(self.remaining()));
        r
    }
}

/// A stream that turns a stream of polygons into a stream of edges,
/// buffering the edges of one shape and draining them one pull at a time.
pub struct LinesIterator<SRC, V> {
    source: SRC,
    buffer: VecDeque<Line<V>>,
}

impl<V, P, SRC> Stream for LinesIterator<SRC, V> where
    P: EmitLines<Vertex = V>,
    SRC: ShapeStream<Item = P>,
{
    type Item = Line<V>;

    type Model = Line<V>;

    open spec fn model_of(v: Line<V>) -> Line<V> {
        v
    }

    closed spec fn remaining(&self) -> Seq<Line<V>> {
        self.buffer@ + flat_line_seq::<P, V>(self.source.remaining())
    }

    fn next(&mut self) -> (r: Option<Line<V>>) {
        loop
            invariant
                self.remaining() == old(self).remaining(),
            decreases self.source.remaining().len(),
        {
            let popped = self.buffer.pop_front();
            match popped {
                Some(v) => {
                    assert(self.remaining() =~= old(self).remaining().drop_first());
                    return Some(v);
                },
                None => {},
            }

            let pulled = self.source.next();
            match pulled {
                Some(p) => {
                    proof {
                        SRC::model_is_view(p);
                    }
                    p.emit_lines(&mut self.buffer);
                    assert(self.remaining() =~= old(self).remaining());
                },
                None => {
                    assert(self.remaining() =~= old(self).remaining());
                    return None;
                },
            }
        }
    }
}

impl<V, P, SRC> ShapeStream for LinesIterator<SRC, V> where
    P: EmitLines<Vertex = V>,
    SRC: ShapeStream<Item = P>,
{
    proof fn model_is_view(v: Line<V>) {
    }
}

/// Edge-decomposing a triangle yields three edges that form a closed
/// cycle: each edge starts where the previous one ended, and the last edge
/// returns to the first corner.
pub proof fn lemma_triangle_edge_cycle<T: Copy>(m: Triangle<T>)
    ensures
        <Triangle<T> as EmitLines>::line_seq(m).len() == 3,
        forall|k: int|
            0 <= k < 3 ==> (#[trigger] <Triangle<T> as EmitLines>::line_seq(m)[k]).y
                == <Triangle<T> as EmitLines>::line_seq(m)[(k + 1) % 3].x,
{
}

/// Edge-decomposing a quad yields four edges that form a closed cycle.
pub proof fn lemma_quad_edge_cycle<T: Copy>(m: Quad<T>)
    ensures
        <Quad<T> as EmitLines>::line_seq(m).len() == 4,
        forall|k: int|
            0 <= k < 4 ==> (#[trigger] <Quad<T> as EmitLines>::line_seq(m)[k]).y
                == <Quad<T> as EmitLines>::line_seq(m)[(k + 1) % 4].x,
{
}

/// Edge-decomposing an n-gon of n >= 2 corners yields exactly n - 1 edges
/// forming an open chain: edge i runs from corner i to corner i + 1, and no
/// edge returns from the last corner to the first.
pub proof fn lemma_ngon_edge_chain<T: Copy>(m: Seq<T>)
    ensures
        m.len() >= 2 ==> <NGon<T> as EmitLines>::line_seq(m).len() == m.len() - 1,
        m.len() < 2 ==> <NGon<T> as EmitLines>::line_seq(m).len() == 0,
        forall|k: int|
            0 <= k < m.len() - 1 ==> (#[trigger] <NGon<T> as EmitLines>::line_seq(m)[k]) == (Line {
                x: m[k],
                y: m[k + 1],
            }),
{
}

} // verus!
