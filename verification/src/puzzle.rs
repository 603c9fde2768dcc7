//! Puzzle generation and the hidden verification code. A puzzle is an
//! ordered list of (shape, parameter) pairs, one per shape kind in the
//! fixed order Line, Triangle, Circle; its hidden code is the decimal
//! digits of each item's computed transform value, concatenated in puzzle
//! order. The code is derived once and then copied, never re-derived, so it
//! is stable across redraws.

use vstd::prelude::*;
use crate::shape::Shape;

verus! {

/// One puzzle entry: a shape kind and its displayed parameter. The
/// parameter doubles as the number of instances of the shape drawn on
/// screen.
#[derive(Clone, Copy, Debug, PartialEq, Eq, Structural)]
pub struct PuzzleItem {
    pub shape: Shape,
    pub param: i32,
}

/// A valid puzzle item carries a parameter in `[1, 8)`.
pub open spec fn item_wf(it: PuzzleItem) -> bool {
    1 <= it.param < 8
}

/// Every item of the puzzle is valid.
pub open spec fn puzzle_wf(p: Seq<PuzzleItem>) -> bool {
    forall|i: int| 0 <= i < p.len() ==> item_wf(#[trigger] p[i])
}

/// The value an item contributes to the hidden code: its shape's transform
/// of its parameter.
pub open spec fn item_value(it: PuzzleItem) -> int {
    it.shape.spec_compute(it.param as int)
}

/// A valid item's value lies in `[1, 50]`.
pub proof fn lemma_item_value_bounds(it: PuzzleItem)
    requires
        item_wf(it),
    ensures
        1 <= item_value(it) <= 50,
{
    let n = it.param as int;
    assert(1 <= n * n <= 49) by (nonlinear_arith)
        requires
            1 <= n < 8,
    ;
}

/// The ASCII decimal digits of `v`, most significant first.
pub open spec fn spec_decimal(v: nat) -> Seq<u8>
    decreases v,
{
    if v < 10 {
        seq![(48 + v) as u8]
    } else {
        spec_decimal(v / 10).push((48 + v % 10) as u8)
    }
}

/// The decimal representation of `v` as ASCII digit bytes.
pub fn decimal_digits(v: u32) -> (r: Vec<u8>)
    ensures
        r@ == spec_decimal(v as nat),
    decreases v,
{
    if v < 10 {
        let mut r: Vec<u8> = Vec::new();
        r.push(48 + v as u8);
        proof {
            assert(r@ =~= spec_decimal(v as nat));
        }
        r
    } else {
        let mut r = decimal_digits(v / 10);
        r.push(48 + (v % 10) as u8);
        r
    }
}

/// The hidden code of a puzzle: the decimal digits of each item's computed
/// value, concatenated in puzzle order.
pub open spec fn spec_hidden_code(p: Seq<PuzzleItem>) -> Seq<u8>
    decreases p.len(),
{
    if p.len() == 0 {
        Seq::empty()
    } else {
        spec_hidden_code(p.drop_last()) + spec_decimal(item_value(p.last()) as nat)
    }
}

/// The number of decimal digits the items of `p` contribute in all.
pub open spec fn digit_count_sum(p: Seq<PuzzleItem>) -> int
    decreases p.len(),
{
    if p.len() == 0 {
        0
    } else {
        digit_count_sum(p.drop_last()) + spec_decimal(item_value(p.last()) as nat).len()
    }
}

/// Law: the hidden code's length equals the sum of the digit counts of the
/// items' computed values, whatever parameters were drawn.
pub proof fn lemma_hidden_code_len(p: Seq<PuzzleItem>)
    ensures
        spec_hidden_code(p).len() == digit_count_sum(p),
    decreases p.len(),
{
    if p.len() > 0 {
        lemma_hidden_code_len(p.drop_last());
    }
}

/// Derives the hidden code of `puzzle`.
pub fn hidden_code(puzzle: &Vec<PuzzleItem>) -> (r: Vec<u8>)
    requires
        puzzle_wf(puzzle@),
    ensures
        r@ == spec_hidden_code(puzzle@),
{
    let mut code: Vec<u8> = Vec::new();
    let mut k: usize = 0;
    while k < puzzle.len()
        invariant
            puzzle_wf(puzzle@),
            k <= puzzle@.len(),
            code@ == spec_hidden_code(puzzle@.take(k as int)),
        decreases puzzle@.len() - k,
    {
        let it = puzzle[k];
        proof {
            assert(item_wf(puzzle@[k as int]));
            lemma_item_value_bounds(it);
        }
        let value = it.shape.compute(it.param);
        let mut ds = decimal_digits(value as u32);
        code.append(&mut ds);
        proof {
            assert(puzzle@.take((k + 1) as int).drop_last() =~= puzzle@.take(k as int));
            assert(puzzle@.take((k + 1) as int).last() == puzzle@[k as int]);
        }
        k = k + 1;
    }
    proof {
        assert(puzzle@.take(puzzle@.len() as int) =~= puzzle@);
    }
    code
}

/// Builds a randomized puzzle — one item per shape kind, in the fixed order
/// Line, Triangle, Circle, each parameter drawn from `[1, 8)` — and derives
/// its hidden code. The order is fixed because it determines the code's
/// concatenation order, which display and verification must agree on.
pub fn generate() -> (r: (Vec<PuzzleItem>, Vec<u8>))
    ensures
        r.0@.len() == 3,
        puzzle_wf(r.0@),
        r.0@[0].shape == Shape::Line,
        r.0@[1].shape == Shape::Triangle,
        r.0@[2].shape == Shape::Circle,
        r.1@ == spec_hidden_code(r.0@),
{
    let mut puzzle: Vec<PuzzleItem> = Vec::new();
    puzzle.push(PuzzleItem { shape: Shape::Line, param: crate::sampling::sample_param() });
    puzzle.push(PuzzleItem { shape: Shape::Triangle, param: crate::sampling::sample_param() });
    puzzle.push(PuzzleItem { shape: Shape::Circle, param: crate::sampling::sample_param() });
    let code = hidden_code(&puzzle);
    (puzzle, code)
}

} // verus!
