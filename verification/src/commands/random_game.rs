//! `!rg`: a random game of the author's Steam library.
//!
//! Steps: [`crate::commands::linked_steam_id`] finds the author's Steam id;
//! [`owned_games_request`] is the request to send; [`pick_owned_game`]
//! draws a game of the answer; [`random_game_embed`] is the answer.

use crate::embed::{
    image_url_accepted, is_thumbnail_embed_result, make_thumbnail_embed, title_accepted,
    EmbedFailure, EMBED_COLOR,
};
use crate::random::pick_index;
use crate::schemas::owned_games::{OwnedGame, OwnedGameList};
use crate::text::{
    concat2, decimal, decimal_usize, decimal_value, is_digit, lemma_decimal_reads_back,
};
use twilight_model::channel::embed::Embed;
use vstd::prelude::*;

verus! {

/// The request for the games a Steam user owns.
pub open spec fn owned_games_url(key: Seq<char>, steam_id: Seq<char>) -> Seq<char> {
    "https://api.steampowered.com/IPlayerService/GetOwnedGames/v1/?key="@ + key + "&steamid="@
        + steam_id + "&include_appinfo=1&include_played_free_games=1&include_free_sub=1"@
}

/// The icon of a game on the Steam media server.
pub open spec fn icon_url(game: OwnedGame) -> Seq<char> {
    "https://media.steampowered.com/steamcommunity/public/images/apps/"@ + decimal(
        game.appid as nat,
    ) + "/"@ + game.img_icon_url@
}

/// The icon URL names the game's full appid: after the media path comes a
/// non-empty run of decimal digits that reads back as the appid, then `/`
/// and the icon's file name.
pub proof fn law_icon_url_names_the_appid(game: OwnedGame)
    ensures
        exists|digits: Seq<char>|
            {
                &&& icon_url(game) == "https://media.steampowered.com/steamcommunity/public/images/apps/"@
                    + digits + "/"@ + game.img_icon_url@
                &&& digits.len() > 0
                &&& forall|i: int| 0 <= i < digits.len() ==> is_digit(#[trigger] digits[i])
                &&& decimal_value(digits) == game.appid
            },
{
    lemma_decimal_reads_back(game.appid as nat);
    let digits = decimal(game.appid as nat);
    assert(icon_url(game) == "https://media.steampowered.com/steamcommunity/public/images/apps/"@
        + digits + "/"@ + game.img_icon_url@);
}

/// Writes the request for the games a Steam user owns.
pub fn owned_games_request(steam_api_key: &str, steam_id: &str) -> (url: String)
    ensures
        url@ == owned_games_url(steam_api_key@, steam_id@),
{
    let mut url = concat2(
        "https://api.steampowered.com/IPlayerService/GetOwnedGames/v1/?key=",
        steam_api_key,
    );
    url.append("&steamid=");
    url.append(steam_id);
    url.append("&include_appinfo=1&include_played_free_games=1&include_free_sub=1");
    url
}

/// Draws the index of a game, below the reported count less one. A count
/// below 2 leaves nothing to draw from, on which the bot fails.
pub fn pick_owned_game(list: &OwnedGameList) -> (i: usize)
    requires
        list.game_count >= 2,
    ensures
        i < list.game_count - 1,
{
    pick_index(list.game_count)
}

/// The answer for a drawn game: its name as title, its icon as thumbnail.
/// The icon URL always starts with `https:`, so only the name can make the
/// embed fail.
pub fn random_game_embed(game: &OwnedGame) -> (r: Result<Embed, EmbedFailure>)
    ensures
        is_thumbnail_embed_result(r, game.name@, icon_url(*game), EMBED_COLOR),
        r is Ok <==> title_accepted(game.name@),
{
    let base = "https://media.steampowered.com/steamcommunity/public/images/apps/";
    let mut url = concat2(base, decimal_usize(game.appid).as_str());
    url.append("/");
    url.append(game.img_icon_url.as_str());
    proof {
        reveal_strlit("https://media.steampowered.com/steamcommunity/public/images/apps/");
        assert(url@.take(6) =~= seq!['h', 't', 't', 'p', 's', ':']);
        assert(image_url_accepted(url@));
    }
    make_thumbnail_embed(game.name.as_str(), url.as_str())
}

} // verus!
