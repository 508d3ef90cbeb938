//! What each command of the bot decides.

pub mod bind_steam;
pub mod link_steam;
pub mod ping;
pub mod random_game;
pub mod random_wishlist_game;
pub mod unlink_steam;

use crate::data::bindings::{lookup, Bindings};
use crate::text::{concat2, decimal, decimal_string};
use vstd::prelude::*;

verus! {

/// The commands that have a type of their own.
#[allow(non_camel_case_types)]
pub enum commands {
    LinkSteam(link_steam::LinkSteam),
}

/// The author of a message, as far as the commands read it.
#[derive(Debug, Clone)]
pub struct Author {
    pub id: u64,
    pub name: String,
    pub discriminator: u16,
}

/// `name#discriminator`, the discriminator written in decimal without padding.
pub open spec fn discord_tag(author: Author) -> Seq<char> {
    author.name@ + "#"@ + decimal(author.discriminator as nat)
}

/// Writes the author's `name#discriminator`.
pub fn author_tag(author: &Author) -> (r: String)
    ensures
        r@ == discord_tag(*author),
{
    let mut r = concat2(author.name.as_str(), "#");
    let d = decimal_string(author.discriminator as u64);
    r.append(d.as_str());
    r
}

/// The reply of the commands that need a linked account when there is none.
pub open spec fn no_linked_account_text() -> Seq<char> {
    "No linked steam account found"@
}

/// The Steam id linked to the author, or the reply that there is none.
pub fn linked_steam_id(bindings: &Bindings, user: u64) -> (r: Result<String, String>)
    ensures
        r is Ok <==> lookup(bindings@, user) is Some,
        r matches Ok(id) ==> lookup(bindings@, user) == Some(id@),
        r matches Err(t) ==> t@ == no_linked_account_text(),
{
    match bindings.steam_id_of(user) {
        Some(id) => Ok(id),
        None => Err(String::from_str("No linked steam account found")),
    }
}

} // verus!
