//! The pull protocol that every stage of the pipeline speaks: a finite,
//! ordered, non-restartable lazy sequence of items, consumed one item per
//! pull.

use crate::poly::EmitVertices;
use vstd::prelude::*;
use std::collections::VecDeque;

verus! {

/// A finite, ordered, non-restartable lazy sequence.
///
/// Each pull either produces the next item or signals exhaustion; once
/// exhausted, a stream never produces again. The contract is stated over
/// `Model`, the spec-level description of one item: plain payloads are their
/// own model, while shapes that hold a heap container are described by
/// their corner sequences.
pub trait Stream: Sized {
    /// the items the stream produces
    type Item;

    /// the spec-level description of one item
    type Model;

    /// the model of a produced item
    spec fn model_of(v: Self::Item) -> Self::Model;

    /// the models of the items this stream has yet to produce, in order
    spec fn remaining(&self) -> Seq<Self::Model>;

    /// Pull the next item, or learn that the stream is exhausted.
    fn next(&mut self) -> (r: Option<Self::Item>)
        ensures
            match r {
                Some(v) => {
                    &&& old(self).remaining().len() > 0
                    &&& Self::model_of(v) == old(self).remaining()[0]
                    &&& final(self).remaining() == old(self).remaining().drop_first()
                },
                None => {
                    &&& old(self).remaining().len() == 0
                    &&& final(self).remaining() == old(self).remaining()
                },
            },
    ;
}

/// A stream of shapes: a stream whose items carry a view and whose models
/// are exactly those views. The streaming adapters consume such streams,
/// since their contracts relate the emissions of each pulled shape to the
/// shape's model in the upstream sequence.
pub trait ShapeStream: Stream where
    Self::Item: View,
    Self: Stream<Model = <<Self as Stream>::Item as View>::V>,
{
    /// Every shape source describes its items by their views.
    proof fn model_is_view(v: Self::Item)
        ensures
            Self::model_of(v) == v@,
    ;
}

/// A stream over an owned queue of items: the entry point for feeding an
/// explicit list of shapes into the streaming adapters.
pub struct QueueStream<P> {
    items: VecDeque<P>,
}

impl<P: View> QueueStream<P> {
    /// create an empty stream
    pub fn new() -> (r: Self)
        ensures
            r.remaining() == Seq::<P::V>::empty(),
    {
        let r = QueueStream { items: VecDeque::new() };
        assert(r.remaining() =~= Seq::<P::V>::empty());
        r
    }

    /// append one item at the back of the stream
    pub fn push(&mut self, item: P)
        ensures
            final(self).remaining() == old(self).remaining().push(item@),
    {
        self.items.push_back(item);
        assert(self.remaining() =~= old(self).remaining().push(item@));
    }
}

impl<P: View> Stream for QueueStream<P> {
    type Item = P;

    type Model = P::V;

    open spec fn model_of(v: P) -> P::V {
        v@
    }

    closed spec fn remaining(&self) -> Seq<P::V> {
        self.items@.map(|i: int, p: P| p@)
    }

    fn next(&mut self) -> (r: Option<P>) {
        let r = self.items.pop_front();
        proof {
            if old(self).items@.len() > 0 {
                assert(self.remaining() =~= old(self).remaining().drop_first());
            } else {
                assert(self.remaining() =~= old(self).remaining());
            }
        }
        r
    }
}

impl<P: View> ShapeStream for QueueStream<P> {
    proof fn model_is_view(v: P) {
    }
}

/// the vertices that the shapes with models `s` emit, in order
pub open spec fn flat_vertex_seq<P: EmitVertices<V>, V>(s: Seq<P::V>) -> Seq<V>
    decreases s.len(),
{
    if s.len() == 0 {
        Seq::empty()
    } else {
        P::vertex_seq(s[0]) + flat_vertex_seq::<P, V>(s.drop_first())
    }
}

/// Supplies a way to convert a stream of polygons to a stream of vertices.
/// Useful for when you need to write the vertices into a graphics pipeline.
pub trait Vertices<V>: Sized where
    Self: ShapeStream,
    Self::Item: EmitVertices<V>,
 {
    /// Convert a polygon stream to a vertex stream.
    fn vertices(self) -> (r: VertexStreamIterator<Self, V>)
        ensures
            r.remaining() == flat_vertex_seq::<Self::Item, V>(self.remaining()),
    ;
}

impl<V, P: EmitVertices<V>, T: ShapeStream<Item = P>> Vertices<V> for T {
    fn vertices(self) -> (r: VertexStreamIterator<T, V>) {
        let r = VertexStreamIterator { source: self, buffer: VecDeque::new() };
        assert(r.remaining() =~= flat_vertex_seq::<P, V>(self.remaining()));
        r
    }
}

/// A stream that breaks a stream of polygons down into a stream of the
/// individual vertices of those polygons.
///
/// It bridges the one-to-many relation between shapes and corners with a
/// local first-in-first-out buffer: every pull drains the buffer first and
/// refills it from the upstream stream only when it runs empty, so that no
/// intermediate buffer of the whole output is ever materialized.
pub struct VertexStreamIterator<SRC, V> {
    source: SRC,
    buffer: VecDeque<V>,
}

impl<V, P, SRC> Stream for VertexStreamIterator<SRC, V> where
    P: EmitVertices<V>,
    SRC: ShapeStream<Item = P>,
{
    type Item = V;

    type Model = V;

    open spec fn model_of(v: V) -> V {
        v
    }

    closed spec fn remaining(&self) -> Seq<V> {
        self.buffer@ + flat_vertex_seq::<P, V>(self.source.remaining())
    }

    fn next(&mut self) -> (r: Option<V>) {
        loop
            invariant
                self.remaining() == old(self).remaining(),
            decreases self.source.remaining().len(),
        {
            let popped = self.buffer.pop_front();
            match popped {
                Some(v) => {
                    assert(self.remaining() =~= old(self).remaining().drop_first());
                    return Some(v);
                },
                None => {},
            }

            let pulled = self.source.next();
            match pulled {
                Some(p) => {
                    proof {
                        SRC::model_is_view(p);
                    }
                    p.emit_vertices(&mut self.buffer);
                    assert(self.remaining() =~= old(self).remaining());
                },
                None => {
                    assert(self.remaining() =~= old(self).remaining());
                    return None;
                },
            }
        }
    }
}

} // verus!
