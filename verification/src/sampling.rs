//! Trusted boundary to the process random number generator. Every draw the
//! puzzle and the placement engine need comes through one of these wrappers,
//! and the logic that consumes a drawn value holds for every value the
//! contracts admit.

use vstd::prelude::*;
use rand::Rng;

verus! {

/// Relies on `rand::Rng::gen_range`: a value drawn from the half-open range
/// `[-800, 800)`, one axis of a placement candidate in thousandths of the
/// scene's unit coordinates.
#[verifier::external_body]
pub(crate) fn sample_coord() -> (r: i32)
    ensures
        -800 <= r < 800,
{
    rand::thread_rng().gen_range(-800..800)
}

/// Relies on `rand::Rng::gen_range`: a puzzle parameter drawn from `[1, 8)`.
#[verifier::external_body]
pub(crate) fn sample_param() -> (r: i32)
    ensures
        1 <= r < 8,
{
    rand::thread_rng().gen_range(1..8)
}

/// Relies on `rand::Rng::gen_range`: a shape index drawn from `[0, 3)`.
#[verifier::external_body]
pub(crate) fn sample_shape_index() -> (r: u32)
    ensures
        r < 3,
{
    rand::thread_rng().gen_range(0..3)
}

} // verus!
