//! Per-vertex mapping: a shape-preserving transform that applies a
//! caller-supplied function to every corner of a shape, and the lazy
//! adapter that maps a whole stream shape by shape.

use crate::stream::{ShapeStream, Stream};
use crate::{Line, NGon, Polygon, PolygonView, Quad, Triangle};
use std::collections::VecDeque;
use vstd::prelude::*;

verus! {

/// `f` can be called on every vertex value.
pub open spec fn fn_total<T, U, F: Fn(T) -> U>(f: F) -> bool {
    forall|t: T| call_requires(f, (t,))
}

/// Every value `f` can return is the one `g` describes: `g` is a
/// deterministic spec-level account of `f`.
pub open spec fn fn_agrees<T, U, F: Fn(T) -> U>(f: F, g: spec_fn(T) -> U) -> bool {
    forall|t: T, u: U| call_ensures(f, (t,), u) ==> u == g(t)
}

/// equivalent of `map` but per-vertex
///
/// Mapping preserves the shape's variant and corner count, keeps the
/// corners in order, and replaces each corner with the image of the
/// supplied function: the arity-preservation contract every transform
/// downstream relies on for winding and indexing consistency.
pub trait MapVertex<T, U>: View + Sized {
    /// The shape of the output: the same variant as the input, with
    /// transformed corner payload.
    type Output: View;

    /// the corners of an input shape model, in order
    spec fn in_corners(m: Self::V) -> Seq<T>;

    /// the corners of an output shape model, in order
    spec fn out_corners(m: <Self::Output as View>::V) -> Seq<U>;

    /// the input and output models are the same variant of shape
    spec fn same_variant(m: Self::V, r: <Self::Output as View>::V) -> bool;

    /// the model of the shape `m` maps to under a corner transform `g`
    spec fn map_model(m: Self::V, g: spec_fn(T) -> U) -> <Self::Output as View>::V;

    /// A shape of the same variant whose corners are the images under `g`
    /// of the input's corners is exactly the mapped model.
    proof fn lemma_map_model(m: Self::V, r: <Self::Output as View>::V, g: spec_fn(T) -> U)
        requires
            Self::out_corners(r).len() == Self::in_corners(m).len(),
            forall|i: int|
                0 <= i < Self::in_corners(m).len() ==> #[trigger] Self::out_corners(r)[i] == g(
                    Self::in_corners(m)[i],
                ),
            Self::same_variant(m, r),
        ensures
            r == Self::map_model(m, g),
    ;

    /// map a function to each vertex in a polygon, creating a new polygon
    fn map_vertex<F: Fn(T) -> U>(self, f: F) -> (r: Self::Output)
        requires
            forall|i: int|
                0 <= i < Self::in_corners(self@).len() ==> call_requires(
                    f,
                    (Self::in_corners(self@)[i],),
                ),
        ensures
            Self::out_corners(r@).len() == Self::in_corners(self@).len(),
            forall|i: int|
                0 <= i < Self::in_corners(self@).len() ==> call_ensures(
                    f,
                    (Self::in_corners(self@)[i],),
                    #[trigger] Self::out_corners(r@)[i],
                ),
            Self::same_variant(self@, r@),
    ;
}

impl<T, U> MapVertex<T, U> for Line<T> {
    type Output = Line<U>;

    open spec fn in_corners(m: Line<T>) -> Seq<T> {
        seq![m.x, m.y]
    }

    open spec fn out_corners(m: Line<U>) -> Seq<U> {
        seq![m.x, m.y]
    }

    open spec fn same_variant(m: Line<T>, r: Line<U>) -> bool {
        true
    }

    open spec fn map_model(m: Line<T>, g: spec_fn(T) -> U) -> Line<U> {
        Line { x: g(m.x), y: g(m.y) }
    }

    proof fn lemma_map_model(m: Line<T>, r: Line<U>, g: spec_fn(T) -> U) {
        let ic = <Line<T> as MapVertex<T, U>>::in_corners(m);
        assert(r.x == g(m.x) && r.y == g(m.y)) by {
            assert(<Line<T> as MapVertex<T, U>>::out_corners(r)[0] == g(ic[0]));
            assert(<Line<T> as MapVertex<T, U>>::out_corners(r)[1] == g(ic[1]));
        }
    }

    fn map_vertex<F: Fn(T) -> U>(self, f: F) -> (r: Line<U>) {
        let ghost ic = <Line<T> as MapVertex<T, U>>::in_corners(self@);
        let Line { x, y } = self;
        assert(ic[0] == x && ic[1] == y);
        let r = Line { x: f(x), y: f(y) };
        proof {
            let oc = <Line<T> as MapVertex<T, U>>::out_corners(r@);
            assert(oc[0] == r.x && oc[1] == r.y);
        }
        r
    }
}

impl<T, U> MapVertex<T, U> for Triangle<T> {
    type Output = Triangle<U>;

    open spec fn in_corners(m: Triangle<T>) -> Seq<T> {
        seq![m.x, m.y, m.z]
    }

    open spec fn out_corners(m: Triangle<U>) -> Seq<U> {
        seq![m.x, m.y, m.z]
    }

    open spec fn same_variant(m: Triangle<T>, r: Triangle<U>) -> bool {
        true
    }

    open spec fn map_model(m: Triangle<T>, g: spec_fn(T) -> U) -> Triangle<U> {
        Triangle { x: g(m.x), y: g(m.y), z: g(m.z) }
    }

    proof fn lemma_map_model(m: Triangle<T>, r: Triangle<U>, g: spec_fn(T) -> U) {
        let ic = <Triangle<T> as MapVertex<T, U>>::in_corners(m);
        assert(r.x == g(m.x) && r.y == g(m.y) && r.z == g(m.z)) by {
            assert(<Triangle<T> as MapVertex<T, U>>::out_corners(r)[0] == g(ic[0]));
            assert(<Triangle<T> as MapVertex<T, U>>::out_corners(r)[1] == g(ic[1]));
            assert(<Triangle<T> as MapVertex<T, U>>::out_corners(r)[2] == g(ic[2]));
        }
    }

    fn map_vertex<F: Fn(T) -> U>(self, f: F) -> (r: Triangle<U>) {
        let ghost ic = <Triangle<T> as MapVertex<T, U>>::in_corners(self@);
        let Triangle { x, y, z } = self;
        assert(ic[0] == x && ic[1] == y && ic[2] == z);
        let r = Triangle { x: f(x), y: f(y), z: f(z) };
        proof {
            let oc = <Triangle<T> as MapVertex<T, U>>::out_corners(r@);
            assert(oc[0] == r.x && oc[1] == r.y && oc[2] == r.z);
        }
        r
    }
}

impl<T, U> MapVertex<T, U> for Quad<T> {
    type Output = Quad<U>;

    open spec fn in_corners(m: Quad<T>) -> Seq<T> {
        seq![m.x, m.y, m.z, m.w]
    }

    open spec fn out_corners(m: Quad<U>) -> Seq<U> {
        seq![m.x, m.y, m.z, m.w]
    }

    open spec fn same_variant(m: Quad<T>, r: Quad<U>) -> bool {
        true
    }

    open spec fn map_model(m: Quad<T>, g: spec_fn(T) -> U) -> Quad<U> {
        Quad { x: g(m.x), y: g(m.y), z: g(m.z), w: g(m.w) }
    }

    proof fn lemma_map_model(m: Quad<T>, r: Quad<U>, g: spec_fn(T) -> U) {
        let ic = <Quad<T> as MapVertex<T, U>>::in_corners(m);
        assert(r.x == g(m.x) && r.y == g(m.y) && r.z == g(m.z) && r.w == g(m.w)) by {
            assert(<Quad<T> as MapVertex<T, U>>::out_corners(r)[0] == g(ic[0]));
            assert(<Quad<T> as MapVertex<T, U>>::out_corners(r)[1] == g(ic[1]));
            assert(<Quad<T> as MapVertex<T, U>>::out_corners(r)[2] == g(ic[2]));
            assert(<Quad<T> as MapVertex<T, U>>::out_corners(r)[3] == g(ic[3]));
        }
    }

    fn map_vertex<F: Fn(T) -> U>(self, f: F) -> (r: Quad<U>) {
        let ghost ic = <Quad<T> as MapVertex<T, U>>::in_corners(self@);
        let Quad { x, y, z, w } = self;
        assert(ic[0] == x && ic[1] == y && ic[2] == z && ic[3] == w);
        let r = Quad { x: f(x), y: f(y), z: f(z), w: f(w) };
        proof {
            let oc = <Quad<T> as MapVertex<T, U>>::out_corners(r@);
            assert(oc[0] == r.x && oc[1] == r.y && oc[2] == r.z && oc[3] == r.w);
        }
        r
    }
}

impl<T, U> MapVertex<T, U> for NGon<T> {
    type Output = NGon<U>;

    open spec fn in_corners(m: Seq<T>) -> Seq<T> {
        m
    }

    open spec fn out_corners(m: Seq<U>) -> Seq<U> {
        m
    }

    open spec fn same_variant(m: Seq<T>, r: Seq<U>) -> bool {
        true
    }

    open spec fn map_model(m: Seq<T>, g: spec_fn(T) -> U) -> Seq<U> {
        m.map_values(g)
    }

    proof fn lemma_map_model(m: Seq<T>, r: Seq<U>, g: spec_fn(T) -> U) {
        assert(r =~= m.map_values(g));
    }

    fn map_vertex<F: Fn(T) -> U>(self, f: F) -> (r: NGon<U>) {
        let ghost orig = <NGon<T> as MapVertex<T, U>>::in_corners(self@);
        let NGon { mut verts } = self;
        assert(verts@ == orig);
        let mut result = NGon::new();
        while verts.len() > 0
            invariant
                forall|i: int| 0 <= i < orig.len() ==> call_requires(f, (#[trigger] orig[i],)),
                result@.len() + verts@.len() == orig.len(),
                verts@ == orig.subrange(result@.len() as int, orig.len() as int),
                forall|i: int|
                    0 <= i < result@.len() ==> call_ensures(f, (orig[i],), #[trigger] result@[i]),
            decreases verts@.len(),
        {
            let v = verts.pop_front().unwrap();
            assert(v == orig[result@.len() as int]);
            result.add_vertex(f(v));
            assert(verts@ =~= orig.subrange(result@.len() as int, orig.len() as int));
        }
        proof {
            let oc = <NGon<T> as MapVertex<T, U>>::out_corners(result@);
            assert(oc == result@);
        }
        result
    }
}

impl<T, U> MapVertex<T, U> for Polygon<T> {
    type Output = Polygon<U>;

    open spec fn in_corners(m: PolygonView<T>) -> Seq<T> {
        match m {
            PolygonView::Tri(t) => seq![t.x, t.y, t.z],
            PolygonView::Quad(q) => seq![q.x, q.y, q.z, q.w],
            PolygonView::Gon(s) => s,
        }
    }

    open spec fn out_corners(m: PolygonView<U>) -> Seq<U> {
        match m {
            PolygonView::Tri(t) => seq![t.x, t.y, t.z],
            PolygonView::Quad(q) => seq![q.x, q.y, q.z, q.w],
            PolygonView::Gon(s) => s,
        }
    }

    open spec fn same_variant(m: PolygonView<T>, r: PolygonView<U>) -> bool {
        match (m, r) {
            (PolygonView::Tri(_), PolygonView::Tri(_)) => true,
            (PolygonView::Quad(_), PolygonView::Quad(_)) => true,
            (PolygonView::Gon(_), PolygonView::Gon(_)) => true,
            _ => false,
        }
    }

    open spec fn map_model(m: PolygonView<T>, g: spec_fn(T) -> U) -> PolygonView<U> {
        match m {
            PolygonView::Tri(t) => PolygonView::Tri(
                <Triangle<T> as MapVertex<T, U>>::map_model(t, g),
            ),
            PolygonView::Quad(q) => PolygonView::Quad(
                <Quad<T> as MapVertex<T, U>>::map_model(q, g),
            ),
            PolygonView::Gon(s) => PolygonView::Gon(<NGon<T> as MapVertex<T, U>>::map_model(s, g)),
        }
    }

    proof fn lemma_map_model(m: PolygonView<T>, r: PolygonView<U>, g: spec_fn(T) -> U) {
        match (m, r) {
            (PolygonView::Tri(t), PolygonView::Tri(rt)) => {
                <Triangle<T> as MapVertex<T, U>>::lemma_map_model(t, rt, g);
            },
            (PolygonView::Quad(q), PolygonView::Quad(rq)) => {
                <Quad<T> as MapVertex<T, U>>::lemma_map_model(q, rq, g);
            },
            (PolygonView::Gon(s), PolygonView::Gon(rs)) => {
                <NGon<T> as MapVertex<T, U>>::lemma_map_model(s, rs, g);
            },
            _ => {},
        }
    }

    fn map_vertex<F: Fn(T) -> U>(self, f: F) -> (r: Polygon<U>) {
        let ghost m = self@;
        match self {
            Polygon::PolyTri(t) => {
                assert(<Triangle<T> as MapVertex<T, U>>::in_corners(t@) =~= <Polygon<
                    T,
                > as MapVertex<T, U>>::in_corners(m));
                let rt = t.map_vertex(f);
                let r = Polygon::PolyTri(rt);
                assert(<Triangle<T> as MapVertex<T, U>>::out_corners(rt@) =~= <Polygon<
                    T,
                > as MapVertex<T, U>>::out_corners(r@));
                r
            },
            Polygon::PolyQuad(q) => {
                assert(<Quad<T> as MapVertex<T, U>>::in_corners(q@) =~= <Polygon<T> as MapVertex<
                    T,
                    U,
                >>::in_corners(m));
                let rq = q.map_vertex(f);
                let r = Polygon::PolyQuad(rq);
                assert(<Quad<T> as MapVertex<T, U>>::out_corners(rq@) =~= <Polygon<T> as MapVertex<
                    T,
                    U,
                >>::out_corners(r@));
                r
            },
            Polygon::PolyNGon(n) => {
                assert(<NGon<T> as MapVertex<T, U>>::in_corners(n@) =~= <Polygon<T> as MapVertex<
                    T,
                    U,
                >>::in_corners(m));
                let rn = n.map_vertex(f);
                let r = Polygon::PolyNGon(rn);
                assert(<NGon<T> as MapVertex<T, U>>::out_corners(rn@) =~= <Polygon<T> as MapVertex<
                    T,
                    U,
                >>::out_corners(r@));
                r
            },
        }
    }
}

/// This acts very similarly to a vertex shader. It gives a way to
/// manipulate and modify the vertices in a polygon stream. This is useful
/// if you need to scale the mesh, or just to modify the type of each
/// vertex.
pub trait MapToVertices<T, U>: Sized where Self: ShapeStream, Self::Item: MapVertex<T, U> {
    /// from a stream of polygons, produce a stream of polygons: each
    /// vertex in the process is modified with the supplied function
    fn vertex<F: Fn(T) -> U + Copy>(self, map: F) -> (r: MapToVerticesIter<Self, T, U, F>)
        requires
            fn_total::<T, U, F>(map),
            exists|g: spec_fn(T) -> U| fn_agrees::<T, U, F>(map, g),
        ensures
            exists|g: spec_fn(T) -> U|
                #[trigger] fn_agrees::<T, U, F>(map, g) && r.remaining() == Seq::new(
                    self.remaining().len(),
                    |i: int| <Self::Item as MapVertex<T, U>>::map_model(self.remaining()[i], g),
                ),
    ;
}

impl<T, U, P: MapVertex<T, U>, SRC: ShapeStream<Item = P>> MapToVertices<T, U> for SRC {
    fn vertex<F: Fn(T) -> U + Copy>(self, map: F) -> (r: MapToVerticesIter<SRC, T, U, F>) {
        let ghost g = choose|g: spec_fn(T) -> U| fn_agrees::<T, U, F>(map, g);
        let r = MapToVerticesIter { src: self, vf: VertexFn { f: map, g: Ghost(g) } };
        assert(r.remaining() =~= Seq::new(
            self.remaining().len(),
            |i: int| <P as MapVertex<T, U>>::map_model(self.remaining()[i], g),
        ));
        r
    }
}

/// A vertex transform paired with the spec-level function it implements.
/// The invariant pins the pair together: the transform can be called on
/// every vertex, and every value it can return is the described one.
#[verifier::reject_recursive_types(T)]
#[verifier::reject_recursive_types(U)]
struct VertexFn<T, U, F: Fn(T) -> U> {
    f: F,
    g: Ghost<spec_fn(T) -> U>,
}

impl<T, U, F: Fn(T) -> U> VertexFn<T, U, F> {
    #[verifier::type_invariant]
    spec fn wf(self) -> bool {
        fn_total::<T, U, F>(self.f) && fn_agrees::<T, U, F>(self.f, self.g@)
    }
}

/// A stream that applies a vertex transform to every shape of an upstream
/// stream, one shape per pull: the one-to-one adapter that needs no
/// buffering.
#[verifier::reject_recursive_types(T)]
#[verifier::reject_recursive_types(U)]
pub struct MapToVerticesIter<SRC, T, U, F: Fn(T) -> U> {
    src: SRC,
    vf: VertexFn<T, U, F>,
}

impl<T, U, P, SRC, F> Stream for MapToVerticesIter<SRC, T, U, F> where
    P: MapVertex<T, U>,
    SRC: ShapeStream<Item = P>,
    F: Fn(T) -> U + Copy,
{
    type Item = P::Output;

    type Model = <P::Output as View>::V;

    open spec fn model_of(v: P::Output) -> <P::Output as View>::V {
        v@
    }

    closed spec fn remaining(&self) -> Seq<<P::Output as View>::V> {
        Seq::new(
            self.src.remaining().len(),
            |i: int| P::map_model(self.src.remaining()[i], self.vf.g@),
        )
    }

    fn next(&mut self) -> (r: Option<P::Output>) {
        proof {
            use_type_invariant(&self.vf);
        }
        let pulled = self.src.next();
        match pulled {
            Some(p) => {
                proof {
                    SRC::model_is_view(p);
                }
                let mapped = p.map_vertex(self.vf.f);
                proof {
                    P::lemma_map_model(p@, mapped@, self.vf.g@);
                    assert(self.remaining() =~= old(self).remaining().drop_first());
                }
                Some(mapped)
            },
            None => {
                assert(self.remaining() =~= old(self).remaining());
                None
            },
        }
    }
}

impl<T, U, P, SRC, F> ShapeStream for MapToVerticesIter<SRC, T, U, F> where
    P: MapVertex<T, U>,
    P::Output: View,
    SRC: ShapeStream<Item = P>,
    F: Fn(T) -> U + Copy,
{
    proof fn model_is_view(v: P::Output) {
    }
}

} // verus!
