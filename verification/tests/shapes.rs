use genmesh::{
    EmitLines, EmitTriangles, EmitVertices, Line, MapVertex, NGon, Polygon, Quad, Stream, Triangle,
};
use std::collections::VecDeque;

fn ngon_of(corners: &[u32]) -> NGon<u32> {
    let mut n = NGon::new();
    for &c in corners {
        n.add_vertex(c);
    }
    n
}

#[test]
fn emit_vertices_fixed_order() {
    let mut out: VecDeque<u32> = VecDeque::new();
    Line::new(1, 2).emit_vertices(&mut out);
    Triangle::new(3, 4, 5).emit_vertices(&mut out);
    Quad::new(6, 7, 8, 9).emit_vertices(&mut out);
    ngon_of(&[10, 11]).emit_vertices(&mut out);
    let got: Vec<u32> = out.into_iter().collect();
    assert_eq!(got, vec![1, 2, 3, 4, 5, 6, 7, 8, 9, 10, 11]);
}

#[test]
fn as_vertices_drains_one_polygon() {
    let mut it = Polygon::PolyQuad(Quad::new(1u32, 2, 3, 4)).as_vertices();
    assert_eq!(it.next(), Some(1));
    assert_eq!(it.next(), Some(2));
    assert_eq!(it.next(), Some(3));
    assert_eq!(it.next(), Some(4));
    assert_eq!(it.next(), None);
    assert_eq!(it.next(), None);
}

#[test]
fn map_vertex_preserves_variant_and_order() {
    let t = Triangle::new(1u32, 2, 3).map_vertex(|v: u32| v * 10);
    assert_eq!(t, Triangle::new(10, 20, 30));

    let q = Quad::new(1u32, 2, 3, 4).map_vertex(|v: u32| v + 5);
    assert_eq!(q, Quad::new(6, 7, 8, 9));

    let l = Line::new(1u32, 2).map_vertex(|v: u32| v * 2);
    assert_eq!(l, Line::new(2, 4));

    let n = ngon_of(&[1, 2, 3, 4, 5]).map_vertex(|v: u32| v * 3);
    assert_eq!(n, ngon_of(&[3, 6, 9, 12, 15]));

    let p = Polygon::PolyNGon(ngon_of(&[7, 8, 9])).map_vertex(|v: u32| v - 7);
    match p {
        Polygon::PolyNGon(g) => assert_eq!(g, ngon_of(&[0, 1, 2])),
        _ => panic!("vertex mapping must keep the NGon variant"),
    }
}

#[test]
fn triangle_edges_close_the_cycle() {
    let mut out: VecDeque<Line<u32>> = VecDeque::new();
    Triangle::new(1u32, 2, 3).emit_lines(&mut out);
    let got: Vec<Line<u32>> = out.into_iter().collect();
    assert_eq!(got, vec![Line::new(1, 2), Line::new(2, 3), Line::new(3, 1)]);
}

#[test]
fn quad_edges_close_the_cycle() {
    let mut out: VecDeque<Line<u32>> = VecDeque::new();
    Quad::new(1u32, 2, 3, 4).emit_lines(&mut out);
    let got: Vec<Line<u32>> = out.into_iter().collect();
    assert_eq!(
        got,
        vec![Line::new(1, 2), Line::new(2, 3), Line::new(3, 4), Line::new(4, 1)]
    );
}

#[test]
fn ngon_edges_form_an_open_chain() {
    // edge-decomposing the 4-gon (A, B, C, D) yields A-B, B-C, C-D and,
    // unlike a quad, no closing edge D-A
    let mut out: VecDeque<Line<u32>> = VecDeque::new();
    ngon_of(&[1, 2, 3, 4]).emit_lines(&mut out);
    let got: Vec<Line<u32>> = out.into_iter().collect();
    assert_eq!(got, vec![Line::new(1, 2), Line::new(2, 3), Line::new(3, 4)]);
    assert!(!got.contains(&Line::new(4, 1)));
}

#[test]
fn degenerate_ngon_emits_no_edges() {
    let mut out: VecDeque<Line<u32>> = VecDeque::new();
    ngon_of(&[]).emit_lines(&mut out);
    ngon_of(&[42]).emit_lines(&mut out);
    assert!(out.is_empty());
}

#[test]
fn quad_triangulates_along_the_fixed_diagonal() {
    // triangulating the quad (A, B, C, D) yields exactly (A, B, C) then
    // (C, D, A)
    let mut out: VecDeque<Triangle<u32>> = VecDeque::new();
    Quad::new(1u32, 2, 3, 4).emit_triangles(&mut out);
    let got: Vec<Triangle<u32>> = out.into_iter().collect();
    assert_eq!(got, vec![Triangle::new(1, 2, 3), Triangle::new(3, 4, 1)]);
}

#[test]
fn triangle_triangulates_to_itself() {
    let mut out: VecDeque<Triangle<u32>> = VecDeque::new();
    Triangle::new(1u32, 2, 3).emit_triangles(&mut out);
    let got: Vec<Triangle<u32>> = out.into_iter().collect();
    assert_eq!(got, vec![Triangle::new(1, 2, 3)]);
}

#[test]
fn ngon_fan_triangulation_counts() {
    // n corners yield n - 2 triangles, fanning from the first corner
    let mut out: VecDeque<Triangle<u32>> = VecDeque::new();
    ngon_of(&[1, 2, 3, 4, 5]).emit_triangles(&mut out);
    let got: Vec<Triangle<u32>> = out.into_iter().collect();
    assert_eq!(
        got,
        vec![Triangle::new(1, 2, 3), Triangle::new(1, 3, 4), Triangle::new(1, 4, 5)]
    );

    // fewer than three corners yield nothing
    let mut none: VecDeque<Triangle<u32>> = VecDeque::new();
    ngon_of(&[]).emit_triangles(&mut none);
    ngon_of(&[1]).emit_triangles(&mut none);
    ngon_of(&[1, 2]).emit_triangles(&mut none);
    assert!(none.is_empty());
}

#[test]
fn polygon_dispatch_matches_the_wrapped_shape() {
    let mut a: VecDeque<Triangle<u32>> = VecDeque::new();
    Polygon::PolyQuad(Quad::new(1u32, 2, 3, 4)).emit_triangles(&mut a);
    let mut b: VecDeque<Triangle<u32>> = VecDeque::new();
    Quad::new(1u32, 2, 3, 4).emit_triangles(&mut b);
    assert_eq!(a, b);
}
