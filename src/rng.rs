//! Integer random draws.

use vstd::prelude::*;

verus! {

/// Relies on `fastrand::u32`: a draw from the nonempty range `0..bound` lies in
/// that range. The range must be nonempty, as the function panics on an empty one.
#[verifier::external_body]
fn draw_below(bound: u32) -> (r: u32)
    requires
        bound > 0,
    ensures
        r < bound,
{
    fastrand::u32(0..bound)
}

/// A random integer below `max`, or 0 where `max` is 0. The draw starts at 0
/// whatever `min` is; `min` only has to be at most `max`.
pub fn random_range_u32(min: u32, max: u32) -> (r: u32)
    requires
        min <= max,
    ensures
        max == 0 ==> r == 0,
        max > 0 ==> r < max,
{
    if max == 0 {
        0
    } else {
        draw_below(max)
    }
}

} // verus!
