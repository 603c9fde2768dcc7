//! The drawable primitive model handed to the rendering backend: colored
//! vertices, the two primitive topologies the backend offers, and retained
//! draw batches. Positions are integers in thousandths of the scene's unit
//! coordinates; a circle's rim points are kept symbolically by segment
//! index, and the backend evaluates the angle when it builds its own
//! floating-point buffers.

use vstd::prelude::*;

verus! {

/// Color of a primitive vertex; the backend maps each name to its RGB
/// triple.
#[derive(Clone, Copy, Debug, PartialEq, Eq, Structural)]
pub enum Color {
    Black,
    Red,
    Green,
}

/// Number of equal angular segments in the fan that approximates a circle.
pub const CIRCLE_SEGMENTS: u32 = 48;

/// A vertex position. `At` is an exact point. `Rim` is the point of the
/// circle of radius `radius` around `(cx, cy)` at angle `seg` segments of a
/// full turn (so `seg == CIRCLE_SEGMENTS` closes the sweep).
#[derive(Clone, Copy, Debug, PartialEq, Eq, Structural)]
pub enum VertexPos {
    At { x: i32, y: i32 },
    Rim { cx: i32, cy: i32, radius: i32, seg: u32 },
}

/// A colored primitive vertex, consumed by the rendering backend as an
/// opaque buffer slot.
#[derive(Clone, Copy, Debug, PartialEq, Eq, Structural)]
pub struct Vertex {
    pub pos: VertexPos,
    pub color: Color,
}

/// The two primitive assembly modes the backend offers.
#[derive(Clone, Copy, Debug, PartialEq, Eq, Structural)]
pub enum Topology {
    LineList,
    TriangleList,
}

/// The parameters of one backend draw call: how many buffer slots to draw
/// and under which topology.
#[derive(Clone, Copy, Debug, PartialEq, Eq, Structural)]
pub struct DrawCall {
    pub num_vertices: u32,
    pub topology: Topology,
}

/// A retained draw batch: a vertex list and the topology it is assembled
/// with.
pub struct VertexDraw {
    pub vertices: Vec<Vertex>,
    pub topology: Topology,
}

impl VertexDraw {
    /// A batch over the given vertices and topology.
    pub fn new(vertices: Vec<Vertex>, topology: Topology) -> (r: VertexDraw)
        ensures
            r.vertices@ == vertices@,
            r.topology == topology,
    {
        VertexDraw { vertices, topology }
    }

    /// A batch assembled as a line list.
    pub fn new_lines(vertices: Vec<Vertex>) -> (r: VertexDraw)
        ensures
            r.vertices@ == vertices@,
            r.topology == Topology::LineList,
    {
        VertexDraw::new(vertices, Topology::LineList)
    }

    /// A batch assembled as a triangle list.
    pub fn new_tris(vertices: Vec<Vertex>) -> (r: VertexDraw)
        ensures
            r.vertices@ == vertices@,
            r.topology == Topology::TriangleList,
    {
        VertexDraw::new(vertices, Topology::TriangleList)
    }

    /// The draw call this batch submits: its full vertex range under its
    /// own topology.
    pub fn draw(&self) -> (r: DrawCall)
        requires
            self.vertices@.len() <= u32::MAX,
        ensures
            r.num_vertices == self.vertices@.len(),
            r.topology == self.topology,
    {
        DrawCall { num_vertices: self.vertices.len() as u32, topology: self.topology }
    }
}

} // verus!
