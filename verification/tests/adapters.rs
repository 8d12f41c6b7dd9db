use genmesh::{
    Line, Lines, MapToVertices, NGon, Polygon, Quad, QueueStream, Stream, Triangle, Triangulate,
    Vertices,
};

fn ngon_of(corners: &[u32]) -> NGon<u32> {
    let mut n = NGon::new();
    for &c in corners {
        n.add_vertex(c);
    }
    n
}

fn drain<S: Stream>(mut s: S) -> Vec<S::Item> {
    let mut out = Vec::new();
    while let Some(v) = s.next() {
        out.push(v);
    }
    out
}

#[test]
fn empty_stream_is_exhausted_immediately() {
    let mut q: QueueStream<Polygon<u32>> = QueueStream::new();
    assert!(q.next().is_none());
    let mut v = QueueStream::<Polygon<u32>>::new().vertices();
    assert!(v.next().is_none());
}

#[test]
fn vertices_flattens_in_emission_order() {
    let mut q: QueueStream<Polygon<u32>> = QueueStream::new();
    q.push(Polygon::PolyTri(Triangle::new(1, 2, 3)));
    q.push(Polygon::PolyQuad(Quad::new(4, 5, 6, 7)));
    q.push(Polygon::PolyNGon(ngon_of(&[8, 9])));
    assert_eq!(drain(q.vertices()), vec![1, 2, 3, 4, 5, 6, 7, 8, 9]);
}

#[test]
fn vertices_skips_shapes_that_emit_nothing() {
    let mut q: QueueStream<Polygon<u32>> = QueueStream::new();
    q.push(Polygon::PolyNGon(ngon_of(&[])));
    q.push(Polygon::PolyTri(Triangle::new(7, 8, 9)));
    q.push(Polygon::PolyNGon(ngon_of(&[])));
    assert_eq!(drain(q.vertices()), vec![7, 8, 9]);
}

#[test]
fn triangulate_quad_stream() {
    // one quad in, exactly the two diagonal-split triangles out, in order
    let mut q: QueueStream<Polygon<u32>> = QueueStream::new();
    q.push(Polygon::PolyQuad(Quad::new(1, 2, 3, 4)));
    assert_eq!(
        drain(q.triangulate()),
        vec![Triangle::new(1, 2, 3), Triangle::new(3, 4, 1)]
    );
}

#[test]
fn triangulate_counts_per_shape() {
    let mut q: QueueStream<Polygon<u32>> = QueueStream::new();
    q.push(Polygon::PolyQuad(Quad::new(1, 2, 3, 4)));
    q.push(Polygon::PolyNGon(ngon_of(&[1, 2, 3, 4, 5])));
    q.push(Polygon::PolyNGon(ngon_of(&[1, 2])));
    q.push(Polygon::PolyTri(Triangle::new(1, 2, 3)));
    // 2 from the quad, 3 from the 5-gon, 0 from the degenerate 2-gon,
    // 1 from the triangle
    assert_eq!(drain(q.triangulate()).len(), 6);
}

#[test]
fn lines_stream_keeps_per_shape_order() {
    let mut q: QueueStream<Polygon<u32>> = QueueStream::new();
    q.push(Polygon::PolyTri(Triangle::new(1, 2, 3)));
    q.push(Polygon::PolyNGon(ngon_of(&[4, 5, 6])));
    assert_eq!(
        drain(q.lines()),
        vec![
            Line::new(1, 2),
            Line::new(2, 3),
            Line::new(3, 1),
            Line::new(4, 5),
            Line::new(5, 6),
        ]
    );
}

#[test]
fn exhausted_streams_stay_exhausted() {
    let mut q: QueueStream<Triangle<u32>> = QueueStream::new();
    q.push(Triangle::new(1, 2, 3));
    let mut t = q.triangulate();
    assert!(t.next().is_some());
    assert!(t.next().is_none());
    assert!(t.next().is_none());
}

#[test]
fn vertex_maps_every_corner() {
    let mut q: QueueStream<Polygon<u32>> = QueueStream::new();
    q.push(Polygon::PolyTri(Triangle::new(0, 1, 2)));
    q.push(Polygon::PolyNGon(ngon_of(&[2, 1, 0])));
    let mapped = drain(q.vertex(|v: u32| v * 100));
    assert_eq!(
        mapped,
        vec![
            Polygon::PolyTri(Triangle::new(0, 100, 200)),
            Polygon::PolyNGon(ngon_of(&[200, 100, 0])),
        ]
    );
}

#[test]
fn adapters_compose() {
    // map, then triangulate, then flatten: the full pipeline
    let mut q: QueueStream<Polygon<u32>> = QueueStream::new();
    q.push(Polygon::PolyQuad(Quad::new(0, 1, 2, 3)));
    let flat = drain(q.vertex(|v: u32| v + 10).triangulate().vertices());
    assert_eq!(flat, vec![10, 11, 12, 12, 13, 10]);
}

#[test]
fn streamed_equals_indexed_through_the_pool() {
    // a generator exposing 4 shared vertices and the two indexed triangle
    // faces (0, 1, 2) and (0, 2, 3) streams the same mesh as mapping those
    // faces through the pool
    let pool: Vec<u32> = vec![100, 200, 300, 400];

    let mut faces: QueueStream<Polygon<usize>> = QueueStream::new();
    faces.push(Polygon::PolyTri(Triangle::new(0, 1, 2)));
    faces.push(Polygon::PolyTri(Triangle::new(0, 2, 3)));
    let streamed = drain(faces.vertex(|i: usize| pool[i]));

    assert_eq!(
        streamed,
        vec![
            Polygon::PolyTri(Triangle::new(100, 200, 300)),
            Polygon::PolyTri(Triangle::new(100, 300, 400)),
        ]
    );
}
