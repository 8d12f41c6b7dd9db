//! Vertex deduplication: converting a stream of vertex values into a
//! deduplicated vertex buffer plus an index stream, in an unbounded and a
//! bounded, least-recently-used variant.

use vstd::prelude::*;
use vstd::std_specs::cmp::PartialEqSpec;

verus! {

/// the first position in `s` whose value compares equal to `v`, or -1
pub open spec fn find_eq<T: PartialEq>(s: Seq<T>, v: T) -> int
    decreases s.len(),
{
    if s.len() == 0 {
        -1
    } else if s[0].eq_spec(&v) {
        0
    } else {
        let r = find_eq(s.drop_first(), v);
        if r == -1 {
            -1
        } else {
            r + 1
        }
    }
}

/// What `find_eq` finds is the first match: a non-negative result is a
/// match preceded by none, and -1 means there is no match at all.
pub proof fn lemma_find_eq<T: PartialEq>(s: Seq<T>, v: T)
    ensures
        find_eq(s, v) >= 0 ==> {
            &&& find_eq(s, v) < s.len()
            &&& s[find_eq(s, v)].eq_spec(&v)
            &&& forall|k: int| 0 <= k < find_eq(s, v) ==> !(#[trigger] s[k]).eq_spec(&v)
        },
        find_eq(s, v) == -1 ==> forall|k: int| 0 <= k < s.len() ==> !(#[trigger] s[k]).eq_spec(&v),
        find_eq(s, v) >= -1,
    decreases s.len(),
{
    if s.len() > 0 && !s[0].eq_spec(&v) {
        lemma_find_eq(s.drop_first(), v);
        assert forall|k: int| 0 <= k < s.len() && find_eq(s, v) == -1 implies !(#[trigger] s[k]).eq_spec(&v) by {
            if k > 0 {
                assert(s.drop_first()[k - 1] == s[k]);
            }
        }
        if find_eq(s, v) >= 0 {
            assert forall|k: int| 0 <= k < find_eq(s, v) implies !(#[trigger] s[k]).eq_spec(&v) by {
                if k > 0 {
                    assert(s.drop_first()[k - 1] == s[k]);
                }
            }
        }
    }
}

/// A match at position `i`, preceded by no match, is exactly what
/// `find_eq` returns.
pub proof fn lemma_find_eq_at<T: PartialEq>(s: Seq<T>, v: T, i: int)
    requires
        0 <= i < s.len(),
        s[i].eq_spec(&v),
        forall|k: int| 0 <= k < i ==> !(#[trigger] s[k]).eq_spec(&v),
    ensures
        find_eq(s, v) == i,
    decreases s.len(),
{
    if i > 0 {
        assert forall|k: int| 0 <= k < i - 1 implies !(#[trigger] s.drop_first()[k]).eq_spec(&v) by {
            assert(s.drop_first()[k] == s[k + 1]);
        }
        assert(s.drop_first()[i - 1] == s[i]);
        lemma_find_eq_at(s.drop_first(), v, i - 1);
    }
}

/// When no position matches, `find_eq` reports -1.
pub proof fn lemma_find_eq_none<T: PartialEq>(s: Seq<T>, v: T)
    requires
        forall|k: int| 0 <= k < s.len() ==> !(#[trigger] s[k]).eq_spec(&v),
    ensures
        find_eq(s, v) == -1,
    decreases s.len(),
{
    if s.len() > 0 {
        assert forall|k: int| 0 <= k < s.len() - 1 implies !(#[trigger] s.drop_first()[k]).eq_spec(
            &v,
        ) by {
            assert(s.drop_first()[k] == s[k + 1]);
        }
        lemma_find_eq_none(s.drop_first(), v);
    }
}

/// The deduplicating step of the unbounded indexer: a buffer that already
/// holds an equal value hands back that value's position unchanged, and
/// any other value is appended and receives the next sequential index.
pub open spec fn plain_step<T: PartialEq>(m: Seq<T>, v: T) -> (Seq<T>, usize) {
    let j = find_eq(m, v);
    if j >= 0 {
        (m, j as usize)
    } else {
        (m.push(v), m.len() as usize)
    }
}

/// An `Indexer` turns a stream of vertex values into a stream of indices
/// into a growing vertex buffer. Each call hands one value in and gets the
/// value's index back.
pub trait Indexer<T: PartialEq>: Sized {
    /// the spec-level state of the indexer
    type M;

    /// the state this indexer is in
    spec fn model(&self) -> Self::M;

    /// the state after indexing `v`, and the index handed back
    spec fn step(m: Self::M, v: T) -> (Self::M, usize);

    /// convert a vertex value to an index
    fn index(&mut self, new: T) -> (r: usize)
        ensures
            T::obeys_eq_spec() ==> (final(self).model(), r) == Self::step(old(self).model(), new),
    ;
}

impl<T: PartialEq + Copy> Indexer<T> for Vec<T> {
    type M = Seq<T>;

    open spec fn model(&self) -> Seq<T> {
        self@
    }

    open spec fn step(m: Seq<T>, v: T) -> (Seq<T>, usize) {
        plain_step(m, v)
    }

    fn index(&mut self, new: T) -> (r: usize) {
        let mut i: usize = 0;
        let n = self.len();
        while i < n
            invariant
                0 <= i <= n == self@.len(),
                self@ == old(self)@,
                T::obeys_eq_spec() ==> forall|k: int|
                    0 <= k < i ==> !(#[trigger] self@[k]).eq_spec(&new),
            decreases n - i,
        {
            if self[i] == new {
                proof {
                    if T::obeys_eq_spec() {
                        lemma_find_eq_at(self@, new, i as int);
                    }
                }
                return i;
            }
            i += 1;
        }
        proof {
            if T::obeys_eq_spec() {
                lemma_find_eq_none(self@, new);
            }
        }
        let r = self.len();
        self.push(new);
        r
    }
}

/// Feeding the same vertex value to the unbounded indexer twice returns
/// the same index both times, and the second feeding leaves the buffer
/// unchanged.
pub proof fn lemma_plain_index_idempotent<T: PartialEq>(m: Seq<T>, v: T)
    requires
        v.eq_spec(&v),
    ensures
        ({
            let (m2, i) = plain_step(m, v);
            let (m3, i2) = plain_step(m2, v);
            i2 == i && m3 == m2
        }),
{
    lemma_find_eq(m, v);
    let j = find_eq(m, v);
    if j >= 0 {
    } else {
        let m2 = m.push(v);
        assert(m2[m.len() as int] == v);
        assert forall|k: int| 0 <= k < m.len() implies !(#[trigger] m2[k]).eq_spec(&v) by {
            assert(m2[k] == m[k]);
        }
        lemma_find_eq_at(m2, v, m.len() as int);
    }
}

/// the first position in `c` whose key compares equal to `v`, or -1
pub open spec fn find_key<T: PartialEq>(c: Seq<(T, usize)>, v: T) -> int
    decreases c.len(),
{
    if c.len() == 0 {
        -1
    } else if c[0].0.eq_spec(&v) {
        0
    } else {
        let r = find_key(c.drop_first(), v);
        if r == -1 {
            -1
        } else {
            r + 1
        }
    }
}

/// A key match at position `i`, preceded by no match, is exactly what
/// `find_key` returns.
pub proof fn lemma_find_key_at<T: PartialEq>(c: Seq<(T, usize)>, v: T, i: int)
    requires
        0 <= i < c.len(),
        c[i].0.eq_spec(&v),
        forall|k: int| 0 <= k < i ==> !(#[trigger] c[k]).0.eq_spec(&v),
    ensures
        find_key(c, v) == i,
    decreases c.len(),
{
    if i > 0 {
        assert forall|k: int| 0 <= k < i - 1 implies !(#[trigger] c.drop_first()[k]).0.eq_spec(
            &v,
        ) by {
            assert(c.drop_first()[k] == c[k + 1]);
        }
        assert(c.drop_first()[i - 1] == c[i]);
        lemma_find_key_at(c.drop_first(), v, i - 1);
    }
}

/// When no key matches, `find_key` reports -1.
pub proof fn lemma_find_key_none<T: PartialEq>(c: Seq<(T, usize)>, v: T)
    requires
        forall|k: int| 0 <= k < c.len() ==> !(#[trigger] c[k]).0.eq_spec(&v),
    ensures
        find_key(c, v) == -1,
    decreases c.len(),
{
    if c.len() > 0 {
        assert forall|k: int| 0 <= k < c.len() - 1 implies !(#[trigger] c.drop_first()[k]).0.eq_spec(
            &v,
        ) by {
            assert(c.drop_first()[k] == c[k + 1]);
        }
        lemma_find_key_none(c.drop_first(), v);
    }
}

/// The spec-level state of the bounded indexer: the value-to-index cache
/// in recency order (least recently used first), the vertex buffer
/// appended to so far, and the fixed cache capacity.
pub struct LruModel<T> {
    /// the cached value-to-index mappings, least recently used first
    pub cache: Seq<(T, usize)>,
    /// the vertex buffer: one entry per cache miss, in order
    pub vertices: Seq<T>,
    /// the cache capacity fixed at construction
    pub max: usize,
}

/// The step of the bounded indexer. A hit hands back the cached index and
/// moves the entry to the most-recent end; every access counts as a use. A
/// miss appends the value to the vertex buffer under the next sequential
/// index, caches the new mapping, and, when the cache has outgrown its
/// capacity, evicts the least-recently-used entry.
pub open spec fn lru_step<T: PartialEq>(m: LruModel<T>, v: T) -> (LruModel<T>, usize) {
    let j = find_key(m.cache, v);
    if j >= 0 {
        let e = m.cache[j];
        (LruModel { cache: m.cache.remove(j).push(e), vertices: m.vertices, max: m.max }, e.1)
    } else {
        let idx = m.vertices.len() as usize;
        let grown = m.cache.push((v, idx));
        let evicted = if grown.len() > m.max {
            grown.drop_first()
        } else {
            grown
        };
        (LruModel { cache: evicted, vertices: m.vertices.push(v), max: m.max }, idx)
    }
}

/// A bounded deduplicating indexer. The cache capacity is fixed at
/// construction; a value that recurs after its mapping has been evicted is
/// treated as a fresh miss and is appended to the vertex buffer again
/// under a new index, so only recency-windowed deduplication is
/// guaranteed.
pub struct LruIndexer<T> {
    cache: Vec<(T, usize)>,
    vertices: Vec<T>,
    max: usize,
}

impl<T: PartialEq + Copy> LruIndexer<T> {
    /// create a bounded indexer that caches at most `size` mappings
    pub fn new(size: usize) -> (r: Self)
        ensures
            r.model() == (LruModel {
                cache: Seq::<(T, usize)>::empty(),
                vertices: Seq::<T>::empty(),
                max: size,
            }),
    {
        LruIndexer { cache: Vec::new(), vertices: Vec::new(), max: size }
    }

    /// the vertex buffer built so far: one entry per cache miss, in order
    pub fn vertices(&self) -> (r: &Vec<T>)
        ensures
            r@ == self.model().vertices,
    {
        &self.vertices
    }
}

impl<T: PartialEq + Copy> Indexer<T> for LruIndexer<T> {
    type M = LruModel<T>;

    closed spec fn model(&self) -> LruModel<T> {
        LruModel { cache: self.cache@, vertices: self.vertices@, max: self.max }
    }

    open spec fn step(m: LruModel<T>, v: T) -> (LruModel<T>, usize) {
        lru_step(m, v)
    }

    fn index(&mut self, new: T) -> (r: usize) {
        let mut i: usize = 0;
        let n = self.cache.len();
        while i < n
            invariant
                0 <= i <= n == self.cache@.len(),
                *self == *old(self),
                T::obeys_eq_spec() ==> forall|k: int|
                    0 <= k < i ==> !(#[trigger] self.cache@[k]).0.eq_spec(&new),
            decreases n - i,
        {
            if self.cache[i].0 == new {
                proof {
                    if T::obeys_eq_spec() {
                        lemma_find_key_at(self.cache@, new, i as int);
                    }
                }
                let entry = self.cache.remove(i);
                self.cache.push(entry);
                return entry.1;
            }
            i += 1;
        }
        proof {
            if T::obeys_eq_spec() {
                lemma_find_key_none(self.cache@, new);
            }
        }
        let idx = self.vertices.len();
        self.vertices.push(new);
        self.cache.push((new, idx));
        if self.cache.len() > self.max {
            self.cache.remove(0);
            assert(self.cache@ =~= old(self).cache@.push((new, idx)).drop_first());
        }
        idx
    }
}

/// the bounded indexer's state after feeding it every value of `vs` in order
pub open spec fn lru_run<T: PartialEq>(m: LruModel<T>, vs: Seq<T>) -> LruModel<T>
    decreases vs.len(),
{
    if vs.len() == 0 {
        m
    } else {
        lru_run(lru_step(m, vs[0]).0, vs.drop_first())
    }
}

/// Feeding one more value runs the step on the state the earlier values
/// left behind.
pub proof fn lemma_lru_run_snoc<T: PartialEq>(m: LruModel<T>, s: Seq<T>, x: T)
    ensures
        lru_run(m, s.push(x)) == lru_step(lru_run(m, s), x).0,
    decreases s.len(),
{
    reveal_with_fuel(lru_run, 2);
    if s.len() == 0 {
        assert(s.push(x)[0] == x);
        assert(s.push(x).drop_first() =~= Seq::<T>::empty());
        assert(lru_run(m, s.push(x)) == lru_run(lru_step(m, x).0, Seq::<T>::empty()));
    } else {
        assert(s.push(x)[0] == s[0]);
        assert(s.push(x).drop_first() =~= s.drop_first().push(x));
        assert(lru_run(m, s.push(x)) == lru_run(lru_step(m, s[0]).0, s.drop_first().push(x)));
        lemma_lru_run_snoc(lru_step(m, s[0]).0, s.drop_first(), x);
        assert(lru_run(m, s) == lru_run(lru_step(m, s[0]).0, s.drop_first()));
    }
}

/// the unbounded indexer's buffer and the index stream it hands back
/// after feeding it every value of `vs` in order
pub open spec fn plain_run<T: PartialEq>(m: Seq<T>, vs: Seq<T>) -> (Seq<T>, Seq<usize>)
    decreases vs.len(),
{
    if vs.len() == 0 {
        (m, Seq::empty())
    } else {
        let (m1, i) = plain_step(m, vs[0]);
        let (m2, rest) = plain_run(m1, vs.drop_first());
        (m2, seq![i] + rest)
    }
}

/// A run hands back one index per value fed in.
pub proof fn lemma_plain_run_len<T: PartialEq>(m: Seq<T>, vs: Seq<T>)
    ensures
        plain_run(m, vs).1.len() == vs.len(),
    decreases vs.len(),
{
    if vs.len() > 0 {
        let (m1, i) = plain_step(m, vs[0]);
        lemma_plain_run_len(m1, vs.drop_first());
    }
}

/// A value the buffer already holds keeps its position when another value
/// is appended behind it.
pub proof fn lemma_find_eq_push_stable<T: PartialEq>(m: Seq<T>, v: T, w: T)
    requires
        find_eq(m, v) >= 0,
    ensures
        find_eq(m.push(w), v) == find_eq(m, v),
    decreases m.len(),
{
    assert(m.push(w)[0] == m[0]);
    if m[0].eq_spec(&v) {
        assert(find_eq(m.push(w), v) == 0);
    } else {
        assert(m.push(w).drop_first() =~= m.drop_first().push(w));
        lemma_find_eq_push_stable(m.drop_first(), v, w);
    }
}

/// Once a value sits at a position in the buffer, every later feed of any
/// values leaves it there, and every feed of that value in the run hands
/// back that position.
proof fn lemma_plain_run_stable<T: PartialEq>(m: Seq<T>, vs: Seq<T>, v: T, c: int)
    requires
        find_eq(m, v) == c,
        c >= 0,
    ensures
        ({
            let (m2, idxs) = plain_run(m, vs);
            &&& find_eq(m2, v) == c
            &&& idxs.len() == vs.len()
            &&& forall|t: int| 0 <= t < vs.len() && vs[t] == v ==> #[trigger] idxs[t] == c as usize
        }),
    decreases vs.len(),
{
    if vs.len() > 0 {
        let (m1, i0) = plain_step(m, vs[0]);
        if find_eq(m, vs[0]) >= 0 {
        } else {
            lemma_find_eq_push_stable(m, v, vs[0]);
        }
        lemma_plain_run_stable(m1, vs.drop_first(), v, c);
        let (m2, rest) = plain_run(m1, vs.drop_first());
        let idxs = seq![i0] + rest;
        assert forall|t: int| 0 <= t < vs.len() && vs[t] == v implies #[trigger] idxs[t] == (
        c as usize) by {
            if t == 0 {
                assert(idxs[0] == i0);
            } else {
                assert(idxs[t] == rest[t - 1]);
                assert(vs.drop_first()[t - 1] == vs[t]);
            }
        }
    }
}

/// Feeding the same vertex value twice in one run returns the same index
/// both times, wherever in the input sequence the two feeds sit.
pub proof fn lemma_plain_run_same_index<T: PartialEq>(m: Seq<T>, vs: Seq<T>, i: int, j: int)
    requires
        0 <= i < j < vs.len(),
        vs[i] == vs[j],
        vs[i].eq_spec(&vs[i]),
    ensures
        ({
            let (m2, idxs) = plain_run(m, vs);
            idxs[i] == idxs[j]
        }),
    decreases i + 1,
{
    let v = vs[0];
    let (m1, i0) = plain_step(m, v);
    let (m2, rest) = plain_run(m1, vs.drop_first());
    let idxs = seq![i0] + rest;
    lemma_plain_run_len(m1, vs.drop_first());
    if i == 0 {
        let c = if find_eq(m, v) >= 0 {
            find_eq(m, v)
        } else {
            m.len() as int
        };
        if find_eq(m, v) >= 0 {
        } else {
            assert(m1 == m.push(v));
            assert(m1[m.len() as int] == v);
            lemma_find_eq(m, v);
            assert forall|k: int| 0 <= k < m.len() implies !(#[trigger] m1[k]).eq_spec(&v) by {
                assert(m1[k] == m[k]);
            }
            lemma_find_eq_at(m1, v, m.len() as int);
        }
        assert(find_eq(m1, v) == c);
        assert(i0 == c as usize);
        lemma_plain_run_stable(m1, vs.drop_first(), v, c);
        assert(vs.drop_first()[j - 1] == vs[j]);
        assert(idxs[j] == rest[j - 1]);
        assert(idxs[0] == i0);
    } else {
        lemma_plain_run_same_index(m1, vs.drop_first(), i - 1, j - 1);
        assert(vs.drop_first()[i - 1] == vs[i] && vs.drop_first()[j - 1] == vs[j]);
        assert(idxs[i] == rest[i - 1] && idxs[j] == rest[j - 1]);
    }
}

/// One step keeps the buffer deduplicated.
proof fn lemma_plain_step_distinct<T: PartialEq>(m: Seq<T>, v: T)
    requires
        plain_distinct(m),
    ensures
        plain_distinct(plain_step(m, v).0),
{
    lemma_find_eq(m, v);
    if find_eq(m, v) == -1 {
        let m2 = m.push(v);
        assert forall|k: int, l: int| 0 <= k < l < m2.len() implies !(#[trigger] m2[k].eq_spec(
            &m2[l],
        )) by {
            if l < m.len() {
                assert(m2[k] == m[k] && m2[l] == m[l]);
            } else {
                assert(m2[k] == m[k] && m2[l] == v);
            }
        }
    }
}

/// A whole run keeps the buffer deduplicated and append-only: the values
/// already stored stay at their positions, so each distinct value appears
/// exactly once, at the position its first occurrence earned.
pub proof fn lemma_plain_run_dedup<T: PartialEq>(m: Seq<T>, vs: Seq<T>)
    requires
        plain_distinct(m),
    ensures
        ({
            let (m2, idxs) = plain_run(m, vs);
            &&& plain_distinct(m2)
            &&& m2.len() >= m.len()
            &&& m2.take(m.len() as int) == m
        }),
    decreases vs.len(),
{
    if vs.len() == 0 {
        assert(plain_run(m, vs).0.take(m.len() as int) =~= m);
    } else {
        let (m1, i0) = plain_step(m, vs[0]);
        lemma_plain_step_distinct(m, vs[0]);
        lemma_plain_run_dedup(m1, vs.drop_first());
        let m2 = plain_run(m1, vs.drop_first()).0;
        assert(m1.take(m.len() as int) =~= m);
        assert forall|k: int| 0 <= k < m.len() implies #[trigger] m2[k] == m[k] by {
            assert(m2.take(m1.len() as int)[k] == m2[k]);
            assert(m1.take(m.len() as int)[k] == m1[k]);
        }
        assert(m2.take(m.len() as int) =~= m);
    }
}

/// the mappings the bounded indexer's cache holds after the first `t`
/// values of a pairwise-distinct run: the most recent `min(t, k)` of them,
/// each value paired with its position, in recency order
pub open spec fn lru_window<T>(vs: Seq<T>, t: int, k: usize) -> Seq<(T, usize)> {
    let w = if t <= k {
        0
    } else {
        t - k
    };
    Seq::new((t - w) as nat, |i: int| (vs[w + i], (w + i) as usize))
}

/// Running the bounded indexer over pairwise-distinct values keeps
/// exactly the most recent `min(t, k)` mappings cached, in recency order,
/// and appends every value to the vertex buffer.
proof fn lemma_lru_run_window<T: PartialEq>(k: usize, vs: Seq<T>, t: int)
    requires
        1 <= k,
        vs.len() <= usize::MAX,
        0 <= t <= vs.len(),
        forall|i: int, j: int|
            0 <= i < vs.len() && 0 <= j < vs.len() && i != j ==> !(#[trigger] vs[i].eq_spec(
                &vs[j],
            )),
    ensures
        ({
            let start = LruModel {
                cache: Seq::<(T, usize)>::empty(),
                vertices: Seq::<T>::empty(),
                max: k,
            };
            let m = lru_run(start, vs.take(t));
            &&& m.max == k
            &&& m.vertices == vs.take(t)
            &&& m.cache == lru_window(vs, t, k)
        }),
    decreases t,
{
    let start = LruModel { cache: Seq::<(T, usize)>::empty(), vertices: Seq::<T>::empty(), max: k };
    if t == 0 {
        assert(vs.take(0) =~= Seq::<T>::empty());
        assert(lru_run(start, vs.take(0)) == start);
        assert(lru_window(vs, 0, k) =~= Seq::<(T, usize)>::empty());
    } else {
        lemma_lru_run_window(k, vs, t - 1);
        let m1 = lru_run(start, vs.take(t - 1));
        let v = vs[t - 1];
        assert(vs.take(t) =~= vs.take(t - 1).push(v));
        lemma_lru_run_snoc(start, vs.take(t - 1), v);
        assert forall|q: int| 0 <= q < m1.cache.len() implies !(#[trigger] m1.cache[q]).0.eq_spec(
            &v,
        ) by {
            let w = if t - 1 <= k {
                0
            } else {
                t - 1 - k
            };
            assert(m1.cache[q] == (vs[w + q], (w + q) as usize));
            assert(!vs[w + q].eq_spec(&vs[t - 1]));
        }
        lemma_find_key_none(m1.cache, v);
        let m = lru_step(m1, v).0;
        assert(m1.vertices.len() == t - 1);
        assert(m.vertices =~= vs.take(t));
        assert(m.cache =~= lru_window(vs, t, k));
    }
}

/// With capacity k, after k + 1 pairwise-distinct values have been fed
/// in, the first value's mapping has been evicted: looking that value up
/// again is a miss that hands back a fresh index and appends the value to
/// the vertex buffer a second time.
pub proof fn lemma_lru_eviction<T: PartialEq>(k: usize, vs: Seq<T>)
    requires
        1 <= k < usize::MAX,
        vs.len() == k + 1,
        forall|i: int, j: int|
            0 <= i < vs.len() && 0 <= j < vs.len() && i != j ==> !(#[trigger] vs[i].eq_spec(
                &vs[j],
            )),
    ensures
        ({
            let start = LruModel {
                cache: Seq::<(T, usize)>::empty(),
                vertices: Seq::<T>::empty(),
                max: k,
            };
            let m = lru_run(start, vs);
            let (m2, idx) = lru_step(m, vs[0]);
            &&& find_key(m.cache, vs[0]) == -1
            &&& idx == vs.len() as usize
            &&& m2.vertices == vs.push(vs[0])
        }),
{
    let start = LruModel { cache: Seq::<(T, usize)>::empty(), vertices: Seq::<T>::empty(), max: k };
    lemma_lru_run_window(k, vs, vs.len() as int);
    assert(vs.take(vs.len() as int) =~= vs);
    let m = lru_run(start, vs);
    assert forall|q: int| 0 <= q < m.cache.len() implies !(#[trigger] m.cache[q]).0.eq_spec(
        &vs[0],
    ) by {
        assert(m.cache[q] == (vs[1 + q], (1 + q) as usize));
        assert(!vs[1 + q].eq_spec(&vs[0]));
    }
    lemma_find_key_none(m.cache, vs[0]);
    assert(lru_step(m, vs[0]).0.vertices == m.vertices.push(vs[0]));
}

/// no two values of the buffer compare equal
pub open spec fn plain_distinct<T: PartialEq>(m: Seq<T>) -> bool {
    forall|k: int, l: int| 0 <= k < l < m.len() ==> !(#[trigger] m[k].eq_spec(&m[l]))
}

/// The unbounded indexer's vertex buffer holds each value at most once:
/// a step either leaves a deduplicated buffer unchanged, handing back the
/// position of the stored equal value, or appends a value no stored value
/// compares equal to.
pub proof fn lemma_plain_index_dedup<T: PartialEq>(m: Seq<T>, v: T)
    requires
        plain_distinct(m),
        m.len() < usize::MAX,
    ensures
        ({
            let (m2, i) = plain_step(m, v);
            &&& plain_distinct(m2)
            &&& i < m2.len()
            &&& find_eq(m, v) >= 0 ==> m2 == m && m[i as int].eq_spec(&v)
            &&& find_eq(m, v) == -1 ==> m2 == m.push(v) && m2[i as int] == v && (forall|k: int|
                0 <= k < m.len() ==> !(#[trigger] m[k]).eq_spec(&v))
        }),
{
    lemma_find_eq(m, v);
    let j = find_eq(m, v);
    if j == -1 {
        let m2 = m.push(v);
        assert forall|k: int, l: int| 0 <= k < l < m2.len() implies !(#[trigger] m2[k].eq_spec(
            &m2[l],
        )) by {
            if l < m.len() {
                assert(m2[k] == m[k] && m2[l] == m[l]);
            } else {
                assert(m2[k] == m[k] && m2[l] == v);
            }
        }
    }
}

} // verus!
