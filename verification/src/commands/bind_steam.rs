//! `!bind <steam id>`: links the author to a Steam account, with its own
//! answers.
//!
//! The steps are those of `!link`: [`bind_start`] reads the message, the bot
//! asks Steam for the player, [`account_of`](crate::commands::link_steam::account_of)
//! checks the answer, the bot reads the store and [`bind_finish`] changes it
//! and gives the answer.

use crate::commands::link_steam::{
    first_argument, has_argument, link_or_refuse, link_start, missing_argument_text,
    player_summaries_url, LinkOutcome, LinkStart,
};
use crate::data::bindings::{is_bound, linked, Bindings};
use crate::embed::{is_thumbnail_embed_result, EMBED_COLOR};
use crate::schemas::steam_user::SteamUserSummary;
use crate::text::concat2;
use vstd::prelude::*;

verus! {

pub open spec fn already_bound_text() -> Seq<char> {
    "Account is already bound"@
}

pub open spec fn bound_title(account: SteamUserSummary) -> Seq<char> {
    "Account bound to steam user: "@ + account.personaname@
}

/// Reads a `!bind` message: its second word is the Steam id.
pub fn bind_start(content: &str, steam_api_key: &str) -> (r: LinkStart)
    ensures
        r is MissingArgument <==> !has_argument(content@),
        r matches LinkStart::MissingArgument(t) ==> t@ == missing_argument_text(),
        r matches LinkStart::FetchPlayer { steam_id, url } ==> (steam_id@ == first_argument(content@)
            && url@ == player_summaries_url(steam_api_key@, steam_id@)),
{
    link_start(content, steam_api_key)
}

/// Links `user` to the Steam account unless they are linked already.
pub fn bind_finish(
    account: &SteamUserSummary,
    bindings: &mut Bindings,
    user: u64,
    steam_id: String,
) -> (r: LinkOutcome)
    ensures
        final(bindings)@ == linked(old(bindings)@, user, steam_id@),
        r is AlreadyLinked <==> is_bound(old(bindings)@, user),
        r matches LinkOutcome::AlreadyLinked(t) ==> t@ == already_bound_text(),
        r matches LinkOutcome::Linked(e) ==> is_thumbnail_embed_result(
            e,
            bound_title(*account),
            account.avatar@,
            EMBED_COLOR,
        ),
{
    let already = String::from_str("Account is already bound");
    let title = concat2("Account bound to steam user: ", account.personaname.as_str());
    link_or_refuse(bindings, user, steam_id, already, title, account.avatar.as_str())
}

} // verus!
