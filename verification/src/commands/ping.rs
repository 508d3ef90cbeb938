//! `!ping`.

use vstd::prelude::*;

verus! {

/// The answer to `!ping`.
pub open spec fn pong_text() -> Seq<char> {
    "Pong!"@
}

/// Answers `!ping`.
pub fn ping_reply() -> (r: String)
    ensures
        r@ == pong_text(),
{
    String::from_str("Pong!")
}

} // verus!
