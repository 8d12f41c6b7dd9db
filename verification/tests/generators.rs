use genmesh::{
    Cone, Dodecahedron, IndexedPolygon, NGon, Octahedron, Polygon, SharedVertex, Stream,
    Tetrahedron, Triangle, VertexSection,
};

fn drain<S: Stream>(mut s: S) -> Vec<S::Item> {
    let mut out = Vec::new();
    while let Some(v) = s.next() {
        out.push(v);
    }
    out
}

fn ngon_of(corners: &[usize]) -> NGon<usize> {
    let mut n = NGon::new();
    for &c in corners {
        n.add_vertex(c);
    }
    n
}

fn streamed_equals_indexed<G>(g: G, streamed: &[Polygon<usize>])
where
    G: SharedVertex<usize> + IndexedPolygon<Polygon<usize>>,
{
    // the indexed view describes the same mesh as the streamed view
    assert_eq!(g.indexed_polygon_count(), streamed.len());
    for (i, face) in streamed.iter().enumerate() {
        assert_eq!(&g.indexed_polygon(i), face);
    }
    // and each face only references vertices the pool really has
    let n = g.shared_vertex_count();
    for face in streamed {
        match face {
            Polygon::PolyTri(t) => {
                assert!(t.x < n && t.y < n && t.z < n);
            }
            Polygon::PolyQuad(q) => {
                assert!(q.x < n && q.y < n && q.z < n && q.w < n);
            }
            Polygon::PolyNGon(g) => {
                let mut verts = g.verts.clone();
                while let Some(v) = verts.pop_front() {
                    assert!(v < n);
                }
            }
        }
    }
}

#[test]
fn tetrahedron_topology() {
    let faces = drain(Tetrahedron::new());
    assert_eq!(
        faces,
        vec![
            Polygon::PolyTri(Triangle::new(0, 2, 1)),
            Polygon::PolyTri(Triangle::new(2, 3, 1)),
            Polygon::PolyTri(Triangle::new(0, 1, 3)),
            Polygon::PolyTri(Triangle::new(0, 3, 2)),
        ]
    );
    assert_eq!(Tetrahedron::new().shared_vertex_count(), 4);
    streamed_equals_indexed(Tetrahedron::new(), &faces);
}

#[test]
fn octahedron_topology() {
    let faces = drain(Octahedron::new());
    assert_eq!(faces.len(), 8);
    assert_eq!(faces[0], Polygon::PolyTri(Triangle::new(3, 0, 4)));
    assert_eq!(faces[7], Polygon::PolyTri(Triangle::new(1, 0, 5)));
    assert_eq!(Octahedron::new().shared_vertex_count(), 6);
    streamed_equals_indexed(Octahedron::new(), &faces);
}

#[test]
fn dodecahedron_topology() {
    let faces = drain(Dodecahedron::new());
    assert_eq!(faces.len(), 12);
    assert_eq!(faces[0], Polygon::PolyNGon(ngon_of(&[0, 1, 2, 3, 4])));
    assert_eq!(faces[11], Polygon::PolyNGon(ngon_of(&[15, 19, 18, 17, 16])));
    assert_eq!(Dodecahedron::new().shared_vertex_count(), 20);
    streamed_equals_indexed(Dodecahedron::new(), &faces);
}

#[test]
fn cone_topology() {
    let faces = drain(Cone::new(3));
    assert_eq!(faces.len(), 6);
    // around the tip
    assert_eq!(faces[0], Polygon::PolyTri(Triangle::new(0, 3, 4)));
    assert_eq!(faces[1], Polygon::PolyTri(Triangle::new(1, 4, 5)));
    assert_eq!(faces[2], Polygon::PolyTri(Triangle::new(2, 5, 3)));
    // the bottom cap, wound towards the center
    assert_eq!(faces[3], Polygon::PolyTri(Triangle::new(9, 7, 6)));
    assert_eq!(faces[4], Polygon::PolyTri(Triangle::new(9, 8, 7)));
    assert_eq!(faces[5], Polygon::PolyTri(Triangle::new(9, 6, 8)));
    assert_eq!(Cone::new(3).shared_vertex_count(), 10);
    streamed_equals_indexed(Cone::new(3), &faces);
}

#[test]
fn cone_pool_layout_is_a_bijection() {
    let cone = Cone::new(5);
    assert_eq!(cone.index(VertexSection::Tip(2)), 2);
    assert_eq!(cone.index(VertexSection::TopRadius(2)), 7);
    assert_eq!(cone.index(VertexSection::BottomRadius(2)), 12);
    assert_eq!(cone.index(VertexSection::BottomCenter), 15);
    for idx in 0..16 {
        assert_eq!(cone.index(cone.rev_index(idx)), idx);
    }
}

#[test]
fn cone_minimum_subdivisions() {
    let faces = drain(Cone::new(2));
    assert_eq!(faces.len(), 4);
    assert_eq!(Cone::new(2).shared_vertex_count(), 7);
    streamed_equals_indexed(Cone::new(2), &faces);
}

#[test]
fn size_hints_are_exact() {
    let mut t = Tetrahedron::new();
    assert_eq!(t.size_hint(), (4, Some(4)));
    t.next();
    assert_eq!(t.size_hint(), (3, Some(3)));
    assert_eq!(Octahedron::new().size_hint(), (8, Some(8)));
    assert_eq!(Dodecahedron::new().size_hint(), (12, Some(12)));
    assert_eq!(Cone::new(7).size_hint(), (14, Some(14)));
}

#[test]
fn generators_are_not_restartable() {
    let mut t = Tetrahedron::new();
    for _ in 0..4 {
        assert!(t.next().is_some());
    }
    assert!(t.next().is_none());
    assert!(t.next().is_none());
}
