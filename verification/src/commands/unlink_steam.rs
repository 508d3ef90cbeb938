//! `!unlink`: removes the author's link.

use crate::data::bindings::{is_bound, unlinked, Bindings};
use vstd::prelude::*;

verus! {

/// The answer when a link was removed.
pub open spec fn unlinked_text() -> Seq<char> {
    "Steam account unlinked"@
}

/// The answer when there was no link to remove.
pub open spec fn nothing_to_unlink_text() -> Seq<char> {
    "No linked steam account found"@
}

/// Removes every link of `user` from the store (which is then written
/// back) and gives the answer.
pub fn unlink_account(bindings: &mut Bindings, user: u64) -> (reply: String)
    ensures
        final(bindings)@ == unlinked(old(bindings)@, user),
        reply@ == if is_bound(old(bindings)@, user) {
            unlinked_text()
        } else {
            nothing_to_unlink_text()
        },
{
    let removed = bindings.unlink(user);
    if removed {
        String::from_str("Steam account unlinked")
    } else {
        String::from_str("No linked steam account found")
    }
}

} // verus!
