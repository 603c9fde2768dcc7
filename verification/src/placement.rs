//! Non-overlapping anchor placement. A rejection sampler draws candidate
//! points from a bounded square and accepts one only if it keeps a
//! shape-dependent separation from every anchor accepted earlier in the
//! same rendering pass. Coordinates are integers in thousandths of the
//! scene's unit coordinates, and separations are compared on squared
//! distances, so every statement stays within integer arithmetic.

use vstd::prelude::*;

verus! {

/// A 2D placement point, in thousandths of the scene's unit coordinates.
#[derive(Clone, Copy, Debug, PartialEq, Eq, Structural)]
pub struct Anchor {
    pub x: i32,
    pub y: i32,
}

/// The bounded square candidates are drawn from: each axis in `[-800, 800)`.
pub open spec fn in_square(a: Anchor) -> bool {
    -800 <= a.x < 800 && -800 <= a.y < 800
}

/// Squared Euclidean distance between two anchors.
pub open spec fn dist2(a: Anchor, b: Anchor) -> int {
    (a.x - b.x) * (a.x - b.x) + (a.y - b.y) * (a.y - b.y)
}

/// The anchors keep a center distance of at least `2 * r`, stated on
/// squared distances.
pub open spec fn separated(a: Anchor, b: Anchor, r: int) -> bool {
    dist2(a, b) >= (2 * r) * (2 * r)
}

/// Every pair of distinct anchors in `s` keeps a separation of `2 * r`.
pub open spec fn pairwise_separated(s: Seq<Anchor>, r: int) -> bool {
    forall|i: int, j: int| 0 <= i < j < s.len() ==> separated(s[i], s[j], r)
}

/// Cap on candidate draws per placement request. The sampler itself has no
/// natural bound — a square saturated by too many shapes could reject
/// candidates forever — so a request gives up after this many draws rather
/// than stall the frame.
pub const MAX_PLACE_ATTEMPTS: u32 = 1000;

/// Rejection sampler for non-overlapping anchors. Holds the anchors
/// accepted during the current rendering pass; cleared at the start of
/// every redraw, so layout never carries over from one frame to the next.
pub struct PlacementEngine {
    anchors: Vec<Anchor>,
}

impl View for PlacementEngine {
    type V = Seq<Anchor>;

    closed spec fn view(&self) -> Seq<Anchor> {
        self.anchors@
    }
}

impl PlacementEngine {
    /// Every accepted anchor lies inside the sampling square.
    pub open spec fn wf(&self) -> bool {
        forall|i: int| 0 <= i < self@.len() ==> in_square(self@[i])
    }

    /// A fresh engine with no accepted anchors.
    pub fn new() -> (r: PlacementEngine)
        ensures
            r@ == Seq::<Anchor>::empty(),
            r.wf(),
    {
        PlacementEngine { anchors: Vec::new() }
    }

    /// How many anchors the current pass has accepted.
    pub fn len(&self) -> (r: usize)
        ensures
            r == self@.len(),
    {
        self.anchors.len()
    }

    /// Clears the accepted-anchor set. Called exactly once at the start of
    /// each redraw, so a frame always places onto an empty board.
    pub fn clear_offsets(&mut self)
        ensures
            final(self)@ == Seq::<Anchor>::empty(),
            final(self).wf(),
    {
        self.anchors.clear();
    }

    /// True exactly when `candidate` keeps a center distance of
    /// `2 * min_radius` from every anchor accepted so far.
    pub fn accepts(&self, candidate: Anchor, min_radius: i32) -> (r: bool)
        requires
            self.wf(),
            in_square(candidate),
            0 < min_radius <= 400,
        ensures
            r == forall|i: int|
                0 <= i < self@.len() ==> separated(self@[i], candidate, min_radius as int),
    {
        proof {
            assert((2 * min_radius) * (2 * min_radius) <= 640000) by (nonlinear_arith)
                requires
                    0 < min_radius <= 400,
            ;
        }
        let bound: i32 = (2 * min_radius) * (2 * min_radius);
        let mut k: usize = 0;
        while k < self.anchors.len()
            invariant
                self.wf(),
                in_square(candidate),
                0 < min_radius <= 400,
                bound == (2 * min_radius) * (2 * min_radius),
                k <= self.anchors.len(),
                self.anchors@ == self@,
                forall|i: int| 0 <= i < k ==> separated(self@[i], candidate, min_radius as int),
            decreases self.anchors.len() - k,
        {
            let a = self.anchors[k];
            proof {
                assert(in_square(self@[k as int]));
            }
            let dx: i32 = a.x - candidate.x;
            let dy: i32 = a.y - candidate.y;
            proof {
                assert(0 <= dx * dx < 2560000 && 0 <= dy * dy < 2560000) by (nonlinear_arith)
                    requires
                        -1600 < dx < 1600,
                        -1600 < dy < 1600,
                ;
            }
            let d2: i32 = dx * dx + dy * dy;
            if d2 < bound {
                proof {
                    assert(!separated(self@[k as int], candidate, min_radius as int));
                }
                return false;
            }
            k = k + 1;
        }
        true
    }

    /// Draws candidates until one keeps the required separation from every
    /// anchor accepted so far, records and returns it. The underlying
    /// rejection loop has no natural bound, so after `MAX_PLACE_ATTEMPTS`
    /// failed draws the request gives up and leaves the set unchanged: an
    /// explicit failure in place of a possible stall on a saturated board.
    /// On an empty board every candidate is accepted, so the request is
    /// guaranteed to succeed there.
    pub fn place(&mut self, min_radius: i32) -> (r: Option<Anchor>)
        requires
            old(self).wf(),
            0 < min_radius <= 400,
        ensures
            final(self).wf(),
            match r {
                Some(a) => {
                    &&& in_square(a)
                    &&& final(self)@ == old(self)@.push(a)
                    &&& forall|i: int|
                        0 <= i < old(self)@.len() ==> separated(
                            old(self)@[i],
                            a,
                            min_radius as int,
                        )
                },
                None => final(self)@ == old(self)@,
            },
            pairwise_separated(old(self)@, min_radius as int) ==> pairwise_separated(
                final(self)@,
                min_radius as int,
            ),
            old(self)@.len() == 0 ==> r is Some,
    {
        let mut attempts: u32 = 0;
        while attempts < MAX_PLACE_ATTEMPTS
            invariant
                self.wf(),
                self@ == old(self)@,
                0 < min_radius <= 400,
                attempts > 0 ==> old(self)@.len() > 0,
            decreases MAX_PLACE_ATTEMPTS - attempts,
        {
            let candidate = Anchor { x: crate::sampling::sample_coord(), y: crate::sampling::sample_coord() };
            if self.accepts(candidate, min_radius) {
                self.anchors.push(candidate);
                proof {
                    if pairwise_separated(old(self)@, min_radius as int) {
                        lemma_place_preserves_separation(
                            old(self)@,
                            candidate,
                            min_radius as int,
                        );
                    }
                }
                return Some(candidate);
            }
            attempts = attempts + 1;
        }
        None
    }
}

/// Law: a placement run with one radius keeps the whole set pairwise
/// separated. If the accepted set is pairwise separated and a new anchor
/// keeps the separation from every anchor already in the set — exactly what
/// a successful placement request establishes — then the extended set is
/// pairwise separated too.
pub proof fn lemma_place_preserves_separation(s: Seq<Anchor>, a: Anchor, r: int)
    requires
        pairwise_separated(s, r),
        forall|i: int| 0 <= i < s.len() ==> separated(s[i], a, r),
    ensures
        pairwise_separated(s.push(a), r),
{
    assert forall|i: int, j: int| 0 <= i < j < s.push(a).len() implies separated(
        s.push(a)[i],
        s.push(a)[j],
        r,
    ) by {
        if j == s.len() {
            assert(s.push(a)[i] == s[i]);
            assert(s.push(a)[j] == a);
        } else {
            assert(s.push(a)[i] == s[i]);
            assert(s.push(a)[j] == s[j]);
        }
    }
}

} // verus!
