//! Random draws.

use vstd::prelude::*;

verus! {

/// Draws 32 random bits with `rand::random`.
///
/// Trusted: nothing is stated of the outcome; any value may come back, and
/// two draws need not agree.
#[verifier::external_body]
pub(crate) fn random_u32() -> (draw: u32) {
    rand::random::<u32>()
}

/// `draw` brought below `bound`: what is left of it when it is divided by the
/// bound, and zero where the bound is zero.
pub open spec fn brought_below(draw: u64, bound: u64) -> u64 {
    if bound == 0 {
        0
    } else {
        draw % bound
    }
}

/// The 64 bits that two draws of 32 bits make, the first in front.
pub open spec fn joined_draws(high: u32, low: u32) -> u64 {
    (high * 4_294_967_296 + low) as u64
}

/// Brings a draw below `bound`.
pub fn bring_below(draw: u64, bound: u64) -> (brought: u64)
    ensures
        brought == brought_below(draw, bound),
        bound > 0 ==> brought < bound,
{
    if bound == 0 {
        0
    } else {
        draw % bound
    }
}

/// Makes 64 bits of two draws of 32 bits.
pub fn join_draws(high: u32, low: u32) -> (joined: u64)
    ensures
        joined == joined_draws(high, low),
{
    (high as u64) * 4_294_967_296 + (low as u64)
}

/// A random number below `bound`, or zero where the bound is zero.
pub fn draw_below(bound: u32) -> (draw: u32)
    ensures
        bound > 0 ==> draw < bound,
        bound == 0 ==> draw == 0,
{
    bring_below(random_u32() as u64, bound as u64) as u32
}

/// A random 64-bit number below `bound`, or zero where the bound is zero.
pub fn draw_within(bound: u64) -> (draw: u64)
    ensures
        bound > 0 ==> draw < bound,
        bound == 0 ==> draw == 0,
{
    let high = random_u32();
    let low = random_u32();
    bring_below(join_draws(high, low), bound)
}

} // verus!
