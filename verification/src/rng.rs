//! The crate's only source of randomness: one trusted call into `rand`.

use vstd::prelude::*;
use rand::Rng;

verus! {

/// Relies on `rand::Rng::gen_range` on `rand::thread_rng()`: for a non-empty
/// inclusive range `min..=max` it returns a value that lies within the range,
/// and panics only when the range is empty, which the precondition rules out.
/// Nothing more is assumed of the draw.
#[verifier::external_body]
pub(crate) fn draw_uniform(min: i32, max: i32) -> (r: i32)
    requires
        min <= max,
    ensures
        min <= r <= max,
{
    rand::thread_rng().gen_range(min..=max)
}

} // verus!
