//! The polygon shape algebra: `Line`, `Triangle`, `Quad`, `NGon` and the
//! closed sum type `Polygon`, together with the vertex-emission protocol.

use crate::stream::Stream;
use crate::PolygonView;
use std::collections::VecDeque;
use vstd::prelude::*;

verus! {

/// Represents a line
#[derive(Clone, Debug, PartialEq, Eq, Hash)]
pub struct Line<T> {
    /// the first point
    pub x: T,
    /// The second point
    pub y: T,
}

impl<T> Line<T> {
    /// Create a new line using point x and y
    pub fn new(x: T, y: T) -> (r: Self)
        ensures
            r == (Line { x, y }),
    {
        Line { x, y }
    }
}

impl<T> View for Line<T> {
    type V = Line<T>;

    open spec fn view(&self) -> Line<T> {
        *self
    }
}

/// A polygon with 4 points. Maps to `GL_QUADS`
#[derive(Clone, Debug, PartialEq, Eq)]
pub struct Quad<T> {
    /// the first point of a quad
    pub x: T,
    /// the second point of a quad
    pub y: T,
    /// the third point of a quad
    pub z: T,
    /// the fourth point of a quad
    pub w: T,
}

impl<T> Quad<T> {
    /// create a new `Quad` with supplied vertices
    pub fn new(v0: T, v1: T, v2: T, v3: T) -> (r: Self)
        ensures
            r == (Quad { x: v0, y: v1, z: v2, w: v3 }),
    {
        Quad { x: v0, y: v1, z: v2, w: v3 }
    }
}

impl<T> View for Quad<T> {
    type V = Quad<T>;

    open spec fn view(&self) -> Quad<T> {
        *self
    }
}

/// A polygon with 3 points. Maps to `GL_TRIANGLE`
#[derive(Clone, Debug, PartialEq, Eq)]
pub struct Triangle<T> {
    /// the first point of a triangle
    pub x: T,
    /// the second point of a triangle
    pub y: T,
    /// the third point of a triangle
    pub z: T,
}

impl<T> Triangle<T> {
    /// create a new `Triangle` with supplied vertices
    pub fn new(v0: T, v1: T, v2: T) -> (r: Self)
        ensures
            r == (Triangle { x: v0, y: v1, z: v2 }),
    {
        Triangle { x: v0, y: v1, z: v2 }
    }
}

impl<T> View for Triangle<T> {
    type V = Triangle<T>;

    open spec fn view(&self) -> Triangle<T> {
        *self
    }
}

/// An arbitrary-length polygon
#[derive(Clone, Debug, PartialEq, Eq)]
pub struct NGon<T> {
    /// the list of vertices of the polygon
    pub verts: VecDeque<T>,
}

impl<T> NGon<T> {
    /// create a new, empty `NGon` polygon
    pub fn new() -> (r: Self)
        ensures
            r@ == Seq::<T>::empty(),
    {
        NGon { verts: VecDeque::new() }
    }

    /// add a vertex to the NGon
    pub fn add_vertex(&mut self, vert: T)
        ensures
            final(self)@ == old(self)@.push(vert),
    {
        self.verts.push_back(vert);
    }
}

impl<T> View for NGon<T> {
    type V = Seq<T>;

    open spec fn view(&self) -> Seq<T> {
        self.verts@
    }
}

/// This is All-the-types container. This exists since some generators
/// produce both `Triangles` and `Quads`, and also to make it possible
/// to be type-generic over the kinds of primitives which generators return
#[derive(Debug, Clone, PartialEq)]
pub enum Polygon<T> {
    /// A wrapped triangle
    PolyTri(Triangle<T>),
    /// A wrapped quad
    PolyQuad(Quad<T>),
    /// A wrapped arbitrary-length polygon
    PolyNGon(NGon<T>),
}

impl<T> View for Polygon<T> {
    type V = PolygonView<T>;

    open spec fn view(&self) -> PolygonView<T> {
        match *self {
            Polygon::PolyTri(t) => PolygonView::Tri(t),
            Polygon::PolyQuad(q) => PolygonView::Quad(q),
            Polygon::PolyNGon(n) => PolygonView::Gon(n.verts@),
        }
    }
}

/// The core mechanism of the `Vertices` trait: a protocol for unwrapping
/// a polygon, extracting all of the vertices that it bound together.
pub trait EmitVertices<T>: View + Sized {
    /// the corners a shape with model `m` emits, in emission order
    spec fn vertex_seq(m: Self::V) -> Seq<T>;

    /// Consume a polygon; each vertex is appended, in the fixed corner
    /// order of the shape, to the back of the supplied queue.
    fn emit_vertices(self, out: &mut VecDeque<T>)
        ensures
            final(out)@ == old(out)@ + Self::vertex_seq(self@),
    ;
}

impl<T> EmitVertices<T> for Line<T> {
    open spec fn vertex_seq(m: Line<T>) -> Seq<T> {
        seq![m.x, m.y]
    }

    fn emit_vertices(self, out: &mut VecDeque<T>) {
        let Line { x, y } = self;
        out.push_back(x);
        out.push_back(y);
        assert(out@ =~= old(out)@ + Self::vertex_seq(self@));
    }
}

impl<T> EmitVertices<T> for Triangle<T> {
    open spec fn vertex_seq(m: Triangle<T>) -> Seq<T> {
        seq![m.x, m.y, m.z]
    }

    fn emit_vertices(self, out: &mut VecDeque<T>) {
        let Triangle { x, y, z } = self;
        out.push_back(x);
        out.push_back(y);
        out.push_back(z);
        assert(out@ =~= old(out)@ + Self::vertex_seq(self@));
    }
}

impl<T> EmitVertices<T> for Quad<T> {
    open spec fn vertex_seq(m: Quad<T>) -> Seq<T> {
        seq![m.x, m.y, m.z, m.w]
    }

    fn emit_vertices(self, out: &mut VecDeque<T>) {
        let Quad { x, y, z, w } = self;
        out.push_back(x);
        out.push_back(y);
        out.push_back(z);
        out.push_back(w);
        assert(out@ =~= old(out)@ + Self::vertex_seq(self@));
    }
}

impl<T> EmitVertices<T> for NGon<T> {
    open spec fn vertex_seq(m: Seq<T>) -> Seq<T> {
        m
    }

    fn emit_vertices(self, out: &mut VecDeque<T>) {
        let NGon { mut verts } = self;
        out.append(&mut verts);
    }
}

impl<T> EmitVertices<T> for Polygon<T> {
    open spec fn vertex_seq(m: PolygonView<T>) -> Seq<T> {
        match m {
            PolygonView::Tri(t) => <Triangle<T> as EmitVertices<T>>::vertex_seq(t),
            PolygonView::Quad(q) => <Quad<T> as EmitVertices<T>>::vertex_seq(q),
            PolygonView::Gon(s) => <NGon<T> as EmitVertices<T>>::vertex_seq(s),
        }
    }

    fn emit_vertices(self, out: &mut VecDeque<T>) {
        match self {
            Polygon::PolyTri(p) => p.emit_vertices(out),
            Polygon::PolyQuad(p) => p.emit_vertices(out),
            Polygon::PolyNGon(p) => p.emit_vertices(out),
        }
    }
}

/// A stream over the vertices that have been extracted from one polygon
pub struct VertexIterator<V> {
    buffer: VecDeque<V>,
}

impl<T> Polygon<T> {
    /// extract vertices from the polygon directly, without requiring
    /// a stream of polygons to transform into a stream of vertices
    pub fn as_vertices(self) -> (r: VertexIterator<T>)
        ensures
            r.remaining() == <Polygon<T> as EmitVertices<T>>::vertex_seq(self@),
    {
        let mut buffer = VecDeque::new();
        self.emit_vertices(&mut buffer);
        VertexIterator { buffer }
    }
}

impl<V> Stream for VertexIterator<V> {
    type Item = V;

    type Model = V;

    open spec fn model_of(v: V) -> V {
        v
    }

    closed spec fn remaining(&self) -> Seq<V> {
        self.buffer@
    }

    fn next(&mut self) -> (r: Option<V>) {
        self.buffer.pop_front()
    }
}

} // verus!
