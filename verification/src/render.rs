//! The per-frame render state machine. Each frame it clears the placement
//! state, polls the verification signal handed in by the event loop,
//! latches the solved flag on the first signal, and either tessellates the
//! whole puzzle into the two topology batches or asks for the solved text
//! overlay instead. The solved transition is irreversible.

use vstd::prelude::*;
use crate::placement::{separated, Anchor, PlacementEngine};
use crate::puzzle::{puzzle_wf, PuzzleItem};
use crate::shape::Shape;
use crate::tessellate::spec_tessellate_all;
use crate::verification::spec_is_solved_signal;
use crate::vertex::{Topology, Vertex, VertexDraw};

verus! {

/// The anchors of all groups, concatenated in order.
pub open spec fn spec_flatten(groups: Seq<Seq<Anchor>>) -> Seq<Anchor>
    decreases groups.len(),
{
    if groups.len() == 0 {
        Seq::empty()
    } else {
        spec_flatten(groups.drop_last()) + groups.last()
    }
}

/// Total length of the first `k` groups.
pub open spec fn flatten_prefix_len(groups: Seq<Seq<Anchor>>, k: int) -> int
    decreases k,
{
    if k <= 0 {
        0
    } else {
        flatten_prefix_len(groups, k - 1) + groups[k - 1].len()
    }
}

/// The first `k` groups' total length ignores everything past `k`.
proof fn lemma_prefix_len_push(groups: Seq<Seq<Anchor>>, g: Seq<Anchor>, k: int)
    requires
        0 <= k <= groups.len(),
    ensures
        flatten_prefix_len(groups.push(g), k) == flatten_prefix_len(groups, k),
    decreases k,
{
    if k > 0 {
        lemma_prefix_len_push(groups, g, k - 1);
        assert(groups.push(g)[k - 1] == groups[k - 1]);
    }
}

/// The first `k` groups' total length ignores the dropped last group.
proof fn lemma_prefix_len_drop_last(groups: Seq<Seq<Anchor>>, k: int)
    requires
        0 <= k < groups.len(),
    ensures
        flatten_prefix_len(groups.drop_last(), k) == flatten_prefix_len(groups, k),
    decreases k,
{
    if k > 0 {
        lemma_prefix_len_drop_last(groups, k - 1);
        assert(groups.drop_last()[k - 1] == groups[k - 1]);
    }
}

/// Prefix lengths grow with `k`.
proof fn lemma_prefix_len_mono(groups: Seq<Seq<Anchor>>, k1: int, k2: int)
    requires
        0 <= k1 <= k2,
    ensures
        flatten_prefix_len(groups, k1) <= flatten_prefix_len(groups, k2),
    decreases k2 - k1,
{
    if k1 < k2 {
        lemma_prefix_len_mono(groups, k1, k2 - 1);
    }
}

/// A flattening's length is its groups' total length.
proof fn lemma_flatten_len(groups: Seq<Seq<Anchor>>)
    ensures
        spec_flatten(groups).len() == flatten_prefix_len(groups, groups.len() as int),
    decreases groups.len(),
{
    if groups.len() > 0 {
        lemma_flatten_len(groups.drop_last());
        lemma_prefix_len_drop_last(groups, groups.len() - 1);
    }
}

/// The triangle-topology vertices of a puzzle: every non-Line item's
/// instances tessellated over its anchor group, concatenated in puzzle
/// order.
pub open spec fn spec_tri_topology(p: Seq<PuzzleItem>, groups: Seq<Seq<Anchor>>) -> Seq<Vertex>
    recommends
        groups.len() == p.len(),
    decreases p.len(),
{
    if p.len() == 0 {
        Seq::empty()
    } else {
        spec_tri_topology(p.drop_last(), groups.drop_last()) + (if p.last().shape is Line {
            Seq::<Vertex>::empty()
        } else {
            spec_tessellate_all(p.last().shape, groups.last())
        })
    }
}

/// The line-topology vertices of a puzzle: every Line item's instances
/// tessellated over its anchor group, concatenated in puzzle order.
pub open spec fn spec_line_topology(p: Seq<PuzzleItem>, groups: Seq<Seq<Anchor>>) -> Seq<Vertex>
    recommends
        groups.len() == p.len(),
    decreases p.len(),
{
    if p.len() == 0 {
        Seq::empty()
    } else {
        spec_line_topology(p.drop_last(), groups.drop_last()) + (if p.last().shape is Line {
            spec_tessellate_all(p.last().shape, groups.last())
        } else {
            Seq::<Vertex>::empty()
        })
    }
}

/// Some per-item grouping of the anchors placed after `pre` explains both
/// topology vertex lists: group `k` holds the anchors item `k` claimed (at
/// most its instance count), every anchor of group `k` keeps item `k`'s
/// separation radius from every anchor placed before it in the pass, and
/// the lists are the groups' tessellations split by primitive class.
pub open spec fn spec_batches_explained(
    pre: Seq<Anchor>,
    post: Seq<Anchor>,
    p: Seq<PuzzleItem>,
    tri: Seq<Vertex>,
    line: Seq<Vertex>,
) -> bool {
    exists|groups: Seq<Seq<Anchor>>|
        {
            &&& groups.len() == p.len()
            &&& post == pre + #[trigger] spec_flatten(groups)
            &&& (forall|i: int| 0 <= i < p.len() ==> (#[trigger] groups[i]).len() <= p[i].param)
            &&& (forall|k: int, i: int, j: int|
                0 <= k < p.len() && pre.len() + flatten_prefix_len(groups, k) <= j && j < pre.len()
                    + flatten_prefix_len(groups, k + 1) && 0 <= i < j ==> #[trigger] separated(
                    post[i],
                    post[j],
                    p[k].shape.spec_min_radius(),
                ))
            &&& tri == spec_tri_topology(p, groups)
            &&& line == spec_line_topology(p, groups)
        }
}

/// The batch list an unsolved frame submits for topology vertex lists
/// `tri` and `line`: the nonempty lists only, triangle topology first.
pub open spec fn spec_batch_layout(tri: Seq<Vertex>, line: Seq<Vertex>, batches: Seq<
    VertexDraw,
>) -> bool {
    if tri.len() > 0 && line.len() > 0 {
        &&& batches.len() == 2
        &&& batches[0].vertices@ == tri
        &&& batches[0].topology == Topology::TriangleList
        &&& batches[1].vertices@ == line
        &&& batches[1].topology == Topology::LineList
    } else if tri.len() > 0 {
        &&& batches.len() == 1
        &&& batches[0].vertices@ == tri
        &&& batches[0].topology == Topology::TriangleList
    } else if line.len() > 0 {
        &&& batches.len() == 1
        &&& batches[0].vertices@ == line
        &&& batches[0].topology == Topology::LineList
    } else {
        batches.len() == 0
    }
}

/// The geometry a frame starting from an empty board submits: some
/// grouping of the frame's anchors explains two topology lists, laid out
/// as the frame's batches.
pub open spec fn spec_geometry_plan(post: Seq<Anchor>, p: Seq<PuzzleItem>, batches: Seq<
    VertexDraw,
>) -> bool {
    exists|tri: Seq<Vertex>, line: Seq<Vertex>|
        {
            &&& #[trigger] spec_batches_explained(Seq::empty(), post, p, tri, line)
            &&& spec_batch_layout(tri, line, batches)
        }
}

/// Whether a polled message, if any, is the solved signal.
pub open spec fn spec_signal_solves(signal: Option<Vec<u8>>) -> bool {
    match signal {
        Some(m) => spec_is_solved_signal(m@),
        None => false,
    }
}

/// What one frame asks the rendering backend to do.
pub enum FramePlan {
    /// Draw these batches; both puzzle topologies, each only if nonempty,
    /// triangle topology first.
    Geometry { batches: Vec<VertexDraw> },
    /// Draw no shape geometry; show the fixed solved text overlay.
    Overlay,
}

/// Per-frame orchestrator over the placement engine and the puzzle. Its
/// one piece of state is the solved flag, which moves from false to true
/// the first frame the solved signal arrives and never back.
pub struct RenderStateMachine {
    solved: bool,
}

impl RenderStateMachine {
    /// Whether the solved state has been reached.
    pub closed spec fn spec_solved(&self) -> bool {
        self.solved
    }

    /// A machine in the initial, unsolved state.
    pub fn new() -> (r: RenderStateMachine)
        ensures
            !r.spec_solved(),
    {
        RenderStateMachine { solved: false }
    }

    /// The solved flag, for the event loop's own bookkeeping.
    pub fn is_solved(&self) -> (r: bool)
        ensures
            r == self.spec_solved(),
    {
        self.solved
    }

    /// Tessellates every puzzle item over a shared placement engine,
    /// splitting the output by primitive class: Triangle and Circle into
    /// the triangle-topology list, Line into the line-topology list.
    pub fn tessellate_puzzle(engine: &mut PlacementEngine, puzzle: &Vec<PuzzleItem>) -> (r: (
        Vec<Vertex>,
        Vec<Vertex>,
    ))
        requires
            old(engine).wf(),
            puzzle_wf(puzzle@),
        ensures
            final(engine).wf(),
            spec_batches_explained(old(engine)@, final(engine)@, puzzle@, r.0@, r.1@),
            old(engine)@.len() == 0 && puzzle@.len() >= 1 ==> r.0@.len() + r.1@.len() >= 1,
    {
        let mut tri: Vec<Vertex> = Vec::new();
        let mut line: Vec<Vertex> = Vec::new();
        let ghost mut groups: Seq<Seq<Anchor>> = Seq::empty();
        let mut k: usize = 0;
        while k < puzzle.len()
            invariant
                engine.wf(),
                puzzle_wf(puzzle@),
                k <= puzzle@.len(),
                groups.len() == k,
                engine@ == old(engine)@ + spec_flatten(groups),
                forall|i: int| 0 <= i < k ==> (#[trigger] groups[i]).len() <= puzzle@[i].param,
                forall|k2: int, i: int, j: int|
                    0 <= k2 < k && old(engine)@.len() + flatten_prefix_len(groups, k2) <= j && j
                        < old(engine)@.len() + flatten_prefix_len(groups, k2 + 1) && 0 <= i < j
                        ==> #[trigger] separated(
                        engine@[i],
                        engine@[j],
                        puzzle@[k2].shape.spec_min_radius(),
                    ),
                old(engine)@.len() == 0 && puzzle@.len() >= 1 && k >= 1 ==> tri@.len() + line@.len()
                    >= 1,
                tri@ == spec_tri_topology(puzzle@.take(k as int), groups),
                line@ == spec_line_topology(puzzle@.take(k as int), groups),
            decreases puzzle@.len() - k,
        {
            let it = puzzle[k];
            let ghost pre = engine@;
            let ghost groups0 = groups;
            let mut vs = it.shape.to_vertices(engine, it.param);
            let ghost g = engine@.skip(pre.len() as int);
            let ghost vs_view = vs@;
            proof {
                groups = groups.push(g);
                assert(groups.drop_last() =~= groups0);
                assert(groups.last() == g);
                assert(engine@ =~= pre + g);
                assert(spec_flatten(groups) == spec_flatten(groups0) + g);
                assert(engine@ =~= old(engine)@ + spec_flatten(groups));
                assert(puzzle@.take((k + 1) as int).drop_last() =~= puzzle@.take(k as int));
                assert(puzzle@.take((k + 1) as int).last() == puzzle@[k as int]);
                assert(g.len() <= puzzle@[k as int].param);
                // The spans of the groups placed so far, in the engine's
                // anchor sequence.
                lemma_flatten_len(groups0);
                lemma_prefix_len_push(groups0, g, k as int);
                assert(old(engine)@.len() + flatten_prefix_len(groups, k as int) == pre.len());
                assert(flatten_prefix_len(groups, (k + 1) as int) == flatten_prefix_len(
                    groups,
                    k as int,
                ) + g.len());
            }
            match it.shape {
                Shape::Line => {
                    line.append(&mut vs);
                },
                _ => {
                    tri.append(&mut vs);
                },
            }
            proof {
                assert(tri@ == spec_tri_topology(puzzle@.take((k + 1) as int), groups));
                assert(line@ == spec_line_topology(puzzle@.take((k + 1) as int), groups));
                assert forall|k2: int, i: int, j: int|
                    0 <= k2 < k + 1 && old(engine)@.len() + flatten_prefix_len(groups, k2) <= j && j
                        < old(engine)@.len() + flatten_prefix_len(groups, k2 + 1) && 0 <= i
                        < j implies #[trigger] separated(
                    engine@[i],
                    engine@[j],
                    puzzle@[k2].shape.spec_min_radius(),
                ) by {
                    if k2 == k as int {
                        assert(pre.len() <= j < engine@.len());
                        assert(separated(engine@[i], engine@[j], it.shape.spec_min_radius()));
                    } else {
                        lemma_prefix_len_push(groups0, g, k2);
                        lemma_prefix_len_push(groups0, g, k2 + 1);
                        lemma_prefix_len_mono(groups0, k2 + 1, k as int);
                        assert(j < pre.len());
                        assert(engine@[i] == pre[i]);
                        assert(engine@[j] == pre[j]);
                        assert(separated(pre[i], pre[j], puzzle@[k2].shape.spec_min_radius()));
                    }
                }
                // The first item of a pass that starts on an empty board
                // always contributes geometry.
                if old(engine)@.len() == 0 && k == 0 {
                    assert(spec_flatten(groups0) =~= Seq::<Anchor>::empty());
                    assert(pre.len() == 0);
                    assert(g.len() >= 1);
                    assert(crate::tessellate::spec_vertex_count(it.shape) >= 2);
                    assert(vs_view.len() >= 1) by (nonlinear_arith)
                        requires
                            vs_view.len() == g.len() * crate::tessellate::spec_vertex_count(
                                it.shape,
                            ),
                            g.len() >= 1,
                            crate::tessellate::spec_vertex_count(it.shape) >= 2,
                    ;
                    assert(tri@.len() + line@.len() >= 1);
                }
            }
            k = k + 1;
        }
        proof {
            assert(puzzle@.take(puzzle@.len() as int) =~= puzzle@);
        }
        (tri, line)
    }

    /// Runs one frame. Clears the placement state, latches the solved flag
    /// if the polled signal is the solved message, then either tessellates
    /// the puzzle into its topology batches or — once solved — discards all
    /// geometry and asks for the text overlay.
    pub fn frame(
        &mut self,
        engine: &mut PlacementEngine,
        puzzle: &Vec<PuzzleItem>,
        signal: Option<Vec<u8>>,
    ) -> (r: FramePlan)
        requires
            puzzle_wf(puzzle@),
        ensures
            final(engine).wf(),
            final(self).spec_solved() == (old(self).spec_solved() || spec_signal_solves(signal)),
            final(self).spec_solved() ==> (r is Overlay && final(engine)@ == Seq::<
                Anchor,
            >::empty()),
            !final(self).spec_solved() ==> (r matches FramePlan::Geometry { batches }
                && spec_geometry_plan(final(engine)@, puzzle@, batches@) && (puzzle@.len() >= 1
                ==> batches@.len() >= 1)),
    {
        engine.clear_offsets();
        match &signal {
            Some(msg) => {
                if crate::verification::is_solved_message(msg) {
                    self.solved = true;
                }
            },
            None => {},
        }
        if !self.solved {
            let (tri, line) = Self::tessellate_puzzle(engine, puzzle);
            let ghost tri_view = tri@;
            let ghost line_view = line@;
            let mut batches: Vec<VertexDraw> = Vec::new();
            if tri.len() > 0 {
                batches.push(VertexDraw::new_tris(tri));
            }
            if line.len() > 0 {
                batches.push(VertexDraw::new_lines(line));
            }
            proof {
                assert(spec_batch_layout(tri_view, line_view, batches@));
                assert(spec_geometry_plan(engine@, puzzle@, batches@));
                if puzzle@.len() >= 1 {
                    assert(tri_view.len() + line_view.len() >= 1);
                    assert(batches@.len() >= 1);
                }
            }
            FramePlan::Geometry { batches }
        } else {
            FramePlan::Overlay
        }
    }
}

} // verus!
