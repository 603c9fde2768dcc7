use captcha_puzzle::placement::{Anchor, PlacementEngine};
use captcha_puzzle::shape::Shape;
use captcha_puzzle::tessellate::tessellate;
use captcha_puzzle::vertex::{Color, Topology, Vertex, VertexDraw, VertexPos};

fn dist2(a: Anchor, b: Anchor) -> i64 {
    let dx = (a.x - b.x) as i64;
    let dy = (a.y - b.y) as i64;
    dx * dx + dy * dy
}

#[test]
fn placements_with_one_radius_are_pairwise_separated() {
    let radius: i32 = 200;
    let mut engine = PlacementEngine::new();
    let mut anchors = Vec::new();
    for _ in 0..5 {
        let a = engine.place(radius).expect("a near-empty board should place");
        assert!((-800..800).contains(&a.x));
        assert!((-800..800).contains(&a.y));
        anchors.push(a);
    }
    assert_eq!(engine.len(), 5);
    for i in 0..anchors.len() {
        for j in 0..anchors.len() {
            if i != j {
                assert!(dist2(anchors[i], anchors[j]) >= (2 * radius as i64) * (2 * radius as i64));
            }
        }
    }
}

#[test]
fn first_placement_on_an_empty_board_always_succeeds() {
    for radius in [200, 250, 400] {
        let mut engine = PlacementEngine::new();
        assert!(engine.place(radius).is_some());
        engine.clear_offsets();
        assert!(engine.place(radius).is_some());
    }
}

#[test]
fn clear_offsets_resets_the_board() {
    let mut engine = PlacementEngine::new();
    for _ in 0..3 {
        engine.place(250).expect("placement on a sparse board");
    }
    assert_eq!(engine.len(), 3);
    engine.clear_offsets();
    assert_eq!(engine.len(), 0);
}

#[test]
fn tessellate_vertex_counts_per_instance() {
    let a = Anchor { x: 0, y: 0 };
    assert_eq!(tessellate(&Shape::Line, a).len(), 2);
    assert_eq!(tessellate(&Shape::Triangle, a).len(), 3);
    assert_eq!(tessellate(&Shape::Circle, a).len(), 48 * 3);
}

#[test]
fn tessellate_line_endpoints_and_color() {
    let a = Anchor { x: 100, y: -50 };
    let verts = tessellate(&Shape::Line, a);
    assert_eq!(
        verts,
        vec![
            Vertex { pos: VertexPos::At { x: -100, y: -50 }, color: Color::Black },
            Vertex { pos: VertexPos::At { x: 300, y: -50 }, color: Color::Black },
        ]
    );
}

#[test]
fn tessellate_triangle_corners_and_color() {
    let a = Anchor { x: 0, y: 0 };
    let verts = tessellate(&Shape::Triangle, a);
    assert_eq!(
        verts,
        vec![
            Vertex { pos: VertexPos::At { x: 0, y: 200 }, color: Color::Red },
            Vertex { pos: VertexPos::At { x: -200, y: -200 }, color: Color::Red },
            Vertex { pos: VertexPos::At { x: 200, y: -200 }, color: Color::Red },
        ]
    );
}

#[test]
fn tessellate_circle_fan_structure() {
    let a = Anchor { x: 10, y: 20 };
    let verts = tessellate(&Shape::Circle, a);
    assert_eq!(verts.len(), 144);
    for seg in 0..48u32 {
        let base = (seg as usize) * 3;
        assert_eq!(
            verts[base],
            Vertex { pos: VertexPos::At { x: 10, y: 20 }, color: Color::Green }
        );
        assert_eq!(
            verts[base + 1],
            Vertex {
                pos: VertexPos::Rim { cx: 10, cy: 20, radius: 200, seg },
                color: Color::Green
            }
        );
        assert_eq!(
            verts[base + 2],
            Vertex {
                pos: VertexPos::Rim { cx: 10, cy: 20, radius: 200, seg: seg + 1 },
                color: Color::Green
            }
        );
    }
}

#[test]
fn to_vertices_emits_counts_per_instance() {
    let mut engine = PlacementEngine::new();
    assert_eq!(Shape::Line.to_vertices(&mut engine, 1).len(), 2);
    engine.clear_offsets();
    assert_eq!(Shape::Triangle.to_vertices(&mut engine, 1).len(), 3);
    engine.clear_offsets();
    assert_eq!(Shape::Circle.to_vertices(&mut engine, 1).len(), 144);
}

#[test]
fn to_vertices_places_one_anchor_per_instance() {
    let mut engine = PlacementEngine::new();
    let verts = Shape::Triangle.to_vertices(&mut engine, 3);
    assert_eq!(engine.len(), 3);
    assert_eq!(verts.len(), 3 * 3);
}

#[test]
fn to_vertices_with_nonpositive_count_is_empty() {
    let mut engine = PlacementEngine::new();
    assert!(Shape::Line.to_vertices(&mut engine, 0).is_empty());
    assert!(Shape::Circle.to_vertices(&mut engine, -2).is_empty());
    assert_eq!(engine.len(), 0);
}

#[test]
fn vertex_draw_batches_keep_vertices_and_topology() {
    let a = Anchor { x: 0, y: 0 };
    let verts = tessellate(&Shape::Line, a);
    let batch = VertexDraw::new_lines(verts.clone());
    assert_eq!(batch.vertices, verts);
    assert_eq!(batch.topology, Topology::LineList);
    let call = batch.draw();
    assert_eq!(call.num_vertices, 2);
    assert_eq!(call.topology, Topology::LineList);

    let tri_batch = VertexDraw::new_tris(tessellate(&Shape::Circle, a));
    assert_eq!(tri_batch.topology, Topology::TriangleList);
    assert_eq!(tri_batch.draw().num_vertices, 144);
}
