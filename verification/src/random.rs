//! Random picks, with the `rand` crate.

use rand::Rng;
use vstd::prelude::*;

verus! {

/// Draws a number below `upper` with `rand::thread_rng().gen_range(0..upper)`.
/// Trusted: the number is below `upper`; which one comes out is left to
/// chance, so nothing more is stated of it. `gen_range` panics on an empty
/// range, so `upper` must be positive; `thread_rng` panics (and nothing is
/// returned) when the operating system's random source cannot be read.
#[verifier::external_body]
fn gen_below(upper: usize) -> (r: usize)
    requires
        0 < upper,
    ensures
        r < upper,
{
    rand::thread_rng().gen_range(0..upper)
}

/// Picks an index for a list that reports `count` entries, drawn from
/// `0..count - 1` as the bot does (so the last reported entry is never
/// picked). A count below 2 leaves that range empty or negative, on which
/// the bot fails, so it is left out.
pub fn pick_index(count: usize) -> (i: usize)
    requires
        count >= 2,
    ensures
        i < count - 1,
{
    gen_below(count - 1)
}

} // verus!
