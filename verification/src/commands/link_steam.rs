//! `!link <steam id>`: links the author to a Steam account.
//!
//! The command runs in steps, with the bot's own work between them:
//! [`link_start`] reads the message; the bot asks Steam for the player;
//! [`account_of`] checks the answer; the bot reads the store;
//! [`link_finish`] changes the store and gives the answer.

use crate::commands::{author_tag, discord_tag, Author};
use crate::data::bindings::{is_bound, linked, Bindings};
use crate::embed::{is_thumbnail_embed_result, make_thumbnail_embed, EmbedFailure, EMBED_COLOR};
use crate::schemas::steam_user::{Players, SteamUserSummary};
use crate::text::{concat2, find_char_from, lemma_scan_to_at, lemma_scan_to_bounds, scan_to};
use twilight_model::channel::embed::Embed;
use vstd::prelude::*;

verus! {

/// The link command.
pub struct LinkSteam;

/// The message has a second word: it holds a space.
pub open spec fn has_argument(s: Seq<char>) -> bool {
    scan_to(s, ' ', 0) < s.len()
}

/// The second word of the message split at each space: what lies between
/// its first and its second space (or its end).
pub open spec fn first_argument(s: Seq<char>) -> Seq<char> {
    let f = scan_to(s, ' ', 0);
    s.subrange((f + 1) as int, scan_to(s, ' ', f + 1) as int)
}

/// The Steam id is the whole second word: for a message made of a first
/// word, a space and an id (neither holding a space), optionally followed by
/// another space and anything, the Steam id read is exactly that id, of any
/// length; a message without a space has no Steam id.
pub proof fn law_steam_id_is_second_word(first: Seq<char>, id: Seq<char>, rest: Seq<char>)
    requires
        !first.contains(' '),
        !id.contains(' '),
    ensures
        has_argument(first + seq![' '] + id),
        first_argument(first + seq![' '] + id) == id,
        has_argument(first + seq![' '] + id + seq![' '] + rest),
        first_argument(first + seq![' '] + id + seq![' '] + rest) == id,
        !has_argument(first),
{
    let f = first.len();
    lemma_scan_to_at(first, ' ', 0, f);
    let s1 = first + seq![' '] + id;
    let s2 = first + seq![' '] + id + seq![' '] + rest;
    assert forall|k: int| 0 <= k < f implies #[trigger] s1[k] != ' ' by {
        assert(s1[k] == first[k]);
    }
    assert forall|k: int| 0 <= k < f implies #[trigger] s2[k] != ' ' by {
        assert(s2[k] == first[k]);
    }
    assert(s1[f as int] == ' ');
    assert(s2[f as int] == ' ');
    lemma_scan_to_at(s1, ' ', 0, f);
    lemma_scan_to_at(s2, ' ', 0, f);
    let e = f + 1 + id.len();
    assert forall|k: int| f + 1 <= k < e implies #[trigger] s1[k] != ' ' by {
        assert(s1[k] == id[k - f - 1]);
    }
    assert forall|k: int| f + 1 <= k < e implies #[trigger] s2[k] != ' ' by {
        assert(s2[k] == id[k - f - 1]);
    }
    assert(s2[e as int] == ' ');
    lemma_scan_to_at(s1, ' ', (f + 1) as nat, e as nat);
    lemma_scan_to_at(s2, ' ', (f + 1) as nat, e as nat);
    assert(s1.subrange((f + 1) as int, e as int) =~= id);
    assert(s2.subrange((f + 1) as int, e as int) =~= id);
}

/// The request for a player's summary.
pub open spec fn player_summaries_url(key: Seq<char>, steam_id: Seq<char>) -> Seq<char> {
    "https://api.steampowered.com/ISteamUser/GetPlayerSummaries/v2/?key="@ + key
        + "&steamids="@ + steam_id
}

pub open spec fn missing_argument_text() -> Seq<char> {
    "Missing argument: Steam ID"@
}

pub open spec fn no_account_text() -> Seq<char> {
    "Steam account does not exist"@
}

pub open spec fn already_linked_text(author: Author) -> Seq<char> {
    discord_tag(author) + " is already linked to a steam account"@
}

pub open spec fn linked_title(author: Author, account: SteamUserSummary) -> Seq<char> {
    discord_tag(author) + " linked to steam user: "@ + account.personaname@
}

/// The first step of a link: the answer to a message without a Steam id, or
/// the Steam id and the request to send.
pub enum LinkStart {
    MissingArgument(String),
    FetchPlayer { steam_id: String, url: String },
}

/// Reads a `!link` message: its second word is the Steam id.
pub fn link_start(content: &str, steam_api_key: &str) -> (r: LinkStart)
    ensures
        r is MissingArgument <==> !has_argument(content@),
        r matches LinkStart::MissingArgument(t) ==> t@ == missing_argument_text(),
        r matches LinkStart::FetchPlayer { steam_id, url } ==> (steam_id@ == first_argument(content@)
            && url@ == player_summaries_url(steam_api_key@, steam_id@)),
{
    let n = content.unicode_len();
    let f = find_char_from(content, ' ', 0);
    proof {
        lemma_scan_to_bounds(content@, ' ', 0);
    }
    if f == n {
        return LinkStart::MissingArgument(String::from_str("Missing argument: Steam ID"));
    }
    let g = find_char_from(content, ' ', f + 1);
    proof {
        lemma_scan_to_bounds(content@, ' ', (f + 1) as nat);
    }
    let steam_id = String::from_str(content.substring_char(f + 1, g));
    let mut url = concat2(
        "https://api.steampowered.com/ISteamUser/GetPlayerSummaries/v2/?key=",
        steam_api_key,
    );
    url.append("&steamids=");
    url.append(steam_id.as_str());
    LinkStart::FetchPlayer { steam_id, url }
}

/// The account that Steam answered with (its first player), or the answer
/// that there is none.
pub fn account_of(players: &Players) -> (r: Result<&SteamUserSummary, String>)
    ensures
        r is Err <==> players.players@.len() == 0,
        r matches Err(t) ==> t@ == no_account_text(),
        r matches Ok(a) ==> *a == players.players@[0],
{
    if players.players.len() == 0 {
        Err(String::from_str("Steam account does not exist"))
    } else {
        Ok(&players.players[0])
    }
}

/// The last step of a link: the store is unchanged and the answer is text,
/// or the link was added and the answer is an embed.
pub enum LinkOutcome {
    AlreadyLinked(String),
    Linked(Result<Embed, EmbedFailure>),
}

/// Links `user` to `steam_id` unless they are linked already; answers with
/// `already` in that case, else with an embed of `title` and the account's
/// avatar.
pub fn link_or_refuse(
    bindings: &mut Bindings,
    user: u64,
    steam_id: String,
    already: String,
    title: String,
    avatar: &str,
) -> (r: LinkOutcome)
    ensures
        final(bindings)@ == linked(old(bindings)@, user, steam_id@),
        r is AlreadyLinked <==> is_bound(old(bindings)@, user),
        r matches LinkOutcome::AlreadyLinked(t) ==> t@ == already@,
        r matches LinkOutcome::Linked(e) ==> is_thumbnail_embed_result(e, title@, avatar@, EMBED_COLOR),
{
    if bindings.link(user, steam_id) {
        LinkOutcome::Linked(make_thumbnail_embed(title.as_str(), avatar))
    } else {
        LinkOutcome::AlreadyLinked(already)
    }
}

/// Links the author to the Steam account unless they are linked already.
pub fn link_finish(
    account: &SteamUserSummary,
    bindings: &mut Bindings,
    author: &Author,
    steam_id: String,
) -> (r: LinkOutcome)
    ensures
        final(bindings)@ == linked(old(bindings)@, author.id, steam_id@),
        r is AlreadyLinked <==> is_bound(old(bindings)@, author.id),
        r matches LinkOutcome::AlreadyLinked(t) ==> t@ == already_linked_text(*author),
        r matches LinkOutcome::Linked(e) ==> is_thumbnail_embed_result(
            e,
            linked_title(*author, *account),
            account.avatar@,
            EMBED_COLOR,
        ),
{
    let tag = author_tag(author);
    let already = concat2(tag.as_str(), " is already linked to a steam account");
    let mut title = concat2(tag.as_str(), " linked to steam user: ");
    title.append(account.personaname.as_str());
    link_or_refuse(bindings, author.id, steam_id, already, title, account.avatar.as_str())
}

} // verus!
