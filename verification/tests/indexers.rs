use genmesh::{Indexer, LruIndexer};

#[test]
fn plain_indexer_deduplicates() {
    // the same value always maps to the same index, and the buffer keeps
    // each distinct value once, in first-occurrence order
    let mut buf: Vec<u32> = Vec::new();
    assert_eq!(buf.index(5), 0);
    assert_eq!(buf.index(7), 1);
    assert_eq!(buf.index(5), 0);
    assert_eq!(buf.index(9), 2);
    assert_eq!(buf.index(7), 1);
    assert_eq!(buf, vec![5, 7, 9]);
}

#[test]
fn plain_indexer_same_value_twice_in_a_row() {
    let mut buf: Vec<u32> = Vec::new();
    let a = buf.index(42);
    let b = buf.index(42);
    assert_eq!(a, b);
    assert_eq!(buf, vec![42]);
}

#[test]
fn lru_indexer_hits_within_capacity() {
    let mut lru: LruIndexer<u32> = LruIndexer::new(4);
    assert_eq!(lru.index(5), 0);
    assert_eq!(lru.index(7), 1);
    assert_eq!(lru.index(5), 0);
    assert_eq!(lru.index(7), 1);
    assert_eq!(lru.vertices().clone(), vec![5, 7]);
}

#[test]
fn lru_indexer_evicts_least_recently_used() {
    // capacity 2: after inserting 3 distinct values, the first value
    // (never re-accessed) has been evicted and gets a brand-new index
    let mut lru: LruIndexer<u32> = LruIndexer::new(2);
    assert_eq!(lru.index(10), 0);
    assert_eq!(lru.index(20), 1);
    assert_eq!(lru.index(30), 2);
    assert_eq!(lru.index(10), 3);
    // the buffer now holds the first value twice
    assert_eq!(lru.vertices().clone(), vec![10, 20, 30, 10]);
}

#[test]
fn lru_indexer_access_refreshes_recency() {
    // every access counts as a use: re-reading the oldest value saves it
    // from eviction, and the middle value goes instead
    let mut lru: LruIndexer<u32> = LruIndexer::new(2);
    assert_eq!(lru.index(10), 0);
    assert_eq!(lru.index(20), 1);
    assert_eq!(lru.index(10), 0); // refresh 10: 20 is now least recent
    assert_eq!(lru.index(30), 2); // evicts 20
    assert_eq!(lru.index(10), 0); // still cached
    assert_eq!(lru.index(20), 3); // miss again: new index
    assert_eq!(lru.vertices().clone(), vec![10, 20, 30, 20]);
}

#[test]
fn lru_indexer_zero_capacity_never_caches() {
    let mut lru: LruIndexer<u32> = LruIndexer::new(0);
    assert_eq!(lru.index(1), 0);
    assert_eq!(lru.index(1), 1);
    assert_eq!(lru.index(1), 2);
    assert_eq!(lru.vertices().clone(), vec![1, 1, 1]);
}
