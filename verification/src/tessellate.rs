//! Tessellation: turning a shape kind, an anchor and an instance count into
//! a flat list of colored primitive vertices. A line becomes two endpoints,
//! a triangle three corners, and a circle a triangle fan of
//! `CIRCLE_SEGMENTS` segments with three vertices each.

use vstd::prelude::*;
use crate::placement::{Anchor, PlacementEngine, in_square, separated};
use crate::shape::Shape;
use crate::vertex::{Color, Vertex, VertexPos, CIRCLE_SEGMENTS};

verus! {

/// Number of vertices one tessellated instance of `s` emits: 2 for a line,
/// 3 for a triangle, and `3 * CIRCLE_SEGMENTS` (144) for a circle.
pub open spec fn spec_vertex_count(s: Shape) -> int {
    match s {
        Shape::Line => 2,
        Shape::Triangle => 3,
        Shape::Circle => 144,
    }
}

/// The two endpoints of a horizontal segment of half-width 200 centered at
/// `a`, colored black.
pub open spec fn spec_line_vertices(a: Anchor) -> Seq<Vertex> {
    seq![
        Vertex { pos: VertexPos::At { x: (a.x - 200) as i32, y: a.y }, color: Color::Black },
        Vertex { pos: VertexPos::At { x: (a.x + 200) as i32, y: a.y }, color: Color::Black },
    ]
}

/// The three corners of an upright isosceles triangle of half-width and
/// half-height 200 centered at `a`, colored red.
pub open spec fn spec_triangle_vertices(a: Anchor) -> Seq<Vertex> {
    seq![
        Vertex { pos: VertexPos::At { x: a.x, y: (a.y + 200) as i32 }, color: Color::Red },
        Vertex {
            pos: VertexPos::At { x: (a.x - 200) as i32, y: (a.y - 200) as i32 },
            color: Color::Red,
        },
        Vertex {
            pos: VertexPos::At { x: (a.x + 200) as i32, y: (a.y - 200) as i32 },
            color: Color::Red,
        },
    ]
}

/// The first `n` fan segments of the circle of radius 200 at `a`, colored
/// green: segment `i` emits the center, the rim point at index `i`, and the
/// rim point at index `i + 1`.
pub open spec fn spec_circle_fan(a: Anchor, n: nat) -> Seq<Vertex>
    decreases n,
{
    if n == 0 {
        Seq::empty()
    } else {
        spec_circle_fan(a, (n - 1) as nat) + seq![
            Vertex { pos: VertexPos::At { x: a.x, y: a.y }, color: Color::Green },
            Vertex {
                pos: VertexPos::Rim { cx: a.x, cy: a.y, radius: 200, seg: (n - 1) as u32 },
                color: Color::Green,
            },
            Vertex {
                pos: VertexPos::Rim { cx: a.x, cy: a.y, radius: 200, seg: n as u32 },
                color: Color::Green,
            },
        ]
    }
}

/// One tessellated instance of `s` anchored at `a`.
pub open spec fn spec_tessellate(s: Shape, a: Anchor) -> Seq<Vertex> {
    match s {
        Shape::Line => spec_line_vertices(a),
        Shape::Triangle => spec_triangle_vertices(a),
        Shape::Circle => spec_circle_fan(a, CIRCLE_SEGMENTS as nat),
    }
}

/// The concatenated tessellations of `s` at each anchor of `anchors`, in
/// order.
pub open spec fn spec_tessellate_all(s: Shape, anchors: Seq<Anchor>) -> Seq<Vertex>
    decreases anchors.len(),
{
    if anchors.len() == 0 {
        Seq::empty()
    } else {
        spec_tessellate_all(s, anchors.drop_last()) + spec_tessellate(s, anchors.last())
    }
}

/// A fan of `n` segments holds `3 * n` vertices.
pub proof fn lemma_circle_fan_len(a: Anchor, n: nat)
    ensures
        spec_circle_fan(a, n).len() == 3 * n,
    decreases n,
{
    if n > 0 {
        lemma_circle_fan_len(a, (n - 1) as nat);
    }
}

/// Law: one tessellated instance emits exactly 2 vertices for a line, 3 for
/// a triangle, and 144 for a circle, whatever its anchor.
pub proof fn lemma_tessellate_count(s: Shape, a: Anchor)
    ensures
        spec_tessellate(s, a).len() == spec_vertex_count(s),
{
    if s is Circle {
        lemma_circle_fan_len(a, CIRCLE_SEGMENTS as nat);
    }
}

/// The concatenated tessellation of a run of anchors holds one instance's
/// vertex count per anchor.
pub proof fn lemma_tessellate_all_len(s: Shape, anchors: Seq<Anchor>)
    ensures
        spec_tessellate_all(s, anchors).len() == anchors.len() * spec_vertex_count(s),
    decreases anchors.len(),
{
    if anchors.len() > 0 {
        lemma_tessellate_all_len(s, anchors.drop_last());
        lemma_tessellate_count(s, anchors.last());
        assert((anchors.len() - 1) * spec_vertex_count(s) + spec_vertex_count(s) == anchors.len()
            * spec_vertex_count(s)) by (nonlinear_arith);
    }
}

/// One tessellated instance of `s` anchored at `a`.
pub fn tessellate(s: &Shape, a: Anchor) -> (r: Vec<Vertex>)
    requires
        in_square(a),
    ensures
        r@ == spec_tessellate(*s, a),
        r@.len() == spec_vertex_count(*s),
{
    proof {
        lemma_tessellate_count(*s, a);
    }
    let mut verts: Vec<Vertex> = Vec::new();
    match s {
        Shape::Line => {
            verts.push(
                Vertex { pos: VertexPos::At { x: a.x - 200, y: a.y }, color: Color::Black },
            );
            verts.push(
                Vertex { pos: VertexPos::At { x: a.x + 200, y: a.y }, color: Color::Black },
            );
            proof {
                assert(verts@ =~= spec_line_vertices(a));
            }
        },
        Shape::Triangle => {
            verts.push(
                Vertex { pos: VertexPos::At { x: a.x, y: a.y + 200 }, color: Color::Red },
            );
            verts.push(
                Vertex { pos: VertexPos::At { x: a.x - 200, y: a.y - 200 }, color: Color::Red },
            );
            verts.push(
                Vertex { pos: VertexPos::At { x: a.x + 200, y: a.y - 200 }, color: Color::Red },
            );
            proof {
                assert(verts@ =~= spec_triangle_vertices(a));
            }
        },
        Shape::Circle => {
            let mut i: u32 = 0;
            while i < CIRCLE_SEGMENTS
                invariant
                    in_square(a),
                    i <= CIRCLE_SEGMENTS,
                    verts@ == spec_circle_fan(a, i as nat),
                decreases CIRCLE_SEGMENTS - i,
            {
                verts.push(Vertex { pos: VertexPos::At { x: a.x, y: a.y }, color: Color::Green });
                verts.push(
                    Vertex {
                        pos: VertexPos::Rim { cx: a.x, cy: a.y, radius: 200, seg: i },
                        color: Color::Green,
                    },
                );
                verts.push(
                    Vertex {
                        pos: VertexPos::Rim { cx: a.x, cy: a.y, radius: 200, seg: i + 1 },
                        color: Color::Green,
                    },
                );
                proof {
                    assert(verts@ =~= spec_circle_fan(a, (i + 1) as nat));
                }
                i = i + 1;
            }
        },
    }
    verts
}

impl Shape {
    /// Places `count` fresh anchors for this shape — as many as the engine
    /// can fit, at most `count`, at least one when the board starts empty —
    /// and returns the concatenated tessellation of one instance at each.
    /// Every anchor placed here keeps this shape's separation radius
    /// against every anchor accepted earlier in the pass.
    pub fn to_vertices(&self, engine: &mut PlacementEngine, count: i32) -> (r: Vec<Vertex>)
        requires
            old(engine).wf(),
        ensures
            final(engine).wf(),
            old(engine)@.len() <= final(engine)@.len(),
            final(engine)@.len() <= old(engine)@.len() + (if count >= 0 {
                count as int
            } else {
                0
            }),
            final(engine)@.take(old(engine)@.len() as int) == old(engine)@,
            old(engine)@.len() == 0 && count >= 1 ==> final(engine)@.len() >= 1,
            r@ == spec_tessellate_all(*self, final(engine)@.skip(old(engine)@.len() as int)),
            r@.len() == (final(engine)@.len() - old(engine)@.len()) * spec_vertex_count(*self),
            forall|i: int, j: int|
                0 <= i < j < final(engine)@.len() && old(engine)@.len() <= j
                    ==> #[trigger] separated(
                    final(engine)@[i],
                    final(engine)@[j],
                    self.spec_min_radius(),
                ),
    {
        let radius = self.min_radius();
        let mut verts: Vec<Vertex> = Vec::new();
        let ghost mut placed: Seq<Anchor> = Seq::empty();
        let mut k: i32 = 0;
        proof {
            assert(engine@ =~= old(engine)@ + placed);
        }
        while k < count
            invariant
                engine.wf(),
                0 <= k,
                k <= count || count < 0,
                count >= 0 || k == 0,
                engine@ == old(engine)@ + placed,
                placed.len() <= k,
                old(engine)@.len() == 0 && count >= 1 && k >= 1 ==> placed.len() >= 1,
                radius == self.spec_min_radius(),
                verts@ == spec_tessellate_all(*self, placed),
                forall|i: int, j: int|
                    0 <= i < j < engine@.len() && old(engine)@.len() <= j
                        ==> #[trigger] separated(engine@[i], engine@[j], self.spec_min_radius()),
            decreases count - k,
        {
            match engine.place(radius) {
                Some(a) => {
                    let mut vs = tessellate(self, a);
                    verts.append(&mut vs);
                    proof {
                        let placed0 = placed;
                        placed = placed.push(a);
                        assert(placed.drop_last() =~= placed0);
                        assert(placed.last() == a);
                        assert(engine@ =~= old(engine)@ + placed);
                        assert(verts@ == spec_tessellate_all(*self, placed));
                    }
                },
                None => {},
            }
            k = k + 1;
        }
        proof {
            assert(engine@.take(old(engine)@.len() as int) =~= old(engine)@);
            assert(engine@.skip(old(engine)@.len() as int) =~= placed);
            lemma_tessellate_all_len(*self, placed);
        }
        verts
    }
}

} // verus!
