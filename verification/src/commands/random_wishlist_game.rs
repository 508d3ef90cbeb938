//! `!rw`: a random game of the author's Steam wishlist, with its price.
//!
//! Steps: [`crate::commands::linked_steam_id`] finds the author's Steam id;
//! [`wishlist_request`] is the request to send; the bot takes the games of
//! the answer in whatever order its map gives them and draws one with
//! [`crate::random::pick_index`]; [`wishlist_embed`] is the answer.

use crate::embed::{
    description_accepted, image_url_accepted, is_image_embed_result, make_image_embed,
    title_accepted, EmbedFailure, EMBED_COLOR,
};
use crate::schemas::wishlist_data::WishlistGame;
use crate::text::{concat2, decimal, decimal_usize, same_text};
use twilight_model::channel::embed::Embed;
use vstd::prelude::*;

verus! {

/// The request for a user's wishlist.
pub open spec fn wishlist_url(steam_id: Seq<char>) -> Seq<char> {
    "https://store.steampowered.com/wishlist/profiles/"@ + steam_id + "/wishlistdata/"@
}

/// Writes the request for a user's wishlist.
pub fn wishlist_request(steam_id: &str) -> (url: String)
    ensures
        url@ == wishlist_url(steam_id@),
{
    let mut url = concat2("https://store.steampowered.com/wishlist/profiles/", steam_id);
    url.append("/wishlistdata/");
    url
}

/// The price and discount of the game's first offer, or none (0, 0).
pub open spec fn first_sub(game: WishlistGame) -> (nat, nat) {
    if game.subs@.len() > 0 {
        (game.subs@[0].price as nat, game.subs@[0].discount_pct as nat)
    } else {
        (0, 0)
    }
}

/// The game's tags, as texts.
pub open spec fn tag_texts(game: WishlistGame) -> Seq<Seq<char>> {
    game.tags@.map_values(|t: String| t@)
}

/// The tags, separated by `, `.
pub open spec fn joined(tags: Seq<Seq<char>>) -> Seq<char>
    decreases tags.len(),
{
    if tags.len() == 0 {
        Seq::empty()
    } else if tags.len() == 1 {
        tags[0]
    } else {
        joined(tags.drop_last()) + ", "@ + tags.last()
    }
}

pub open spec fn tags_text(tags: Seq<Seq<char>>) -> Seq<char> {
    if tags.len() == 0 {
        "no tags found"@
    } else {
        joined(tags)
    }
}

/// The struck-through former price, shown when there is a discount: the
/// price divided by the remaining percentage, as the bot computes it.
pub open spec fn old_price_text(price: nat, discount: nat) -> Seq<char> {
    if discount > 0 {
        "~~"@ + decimal(price / ((100 - discount) as nat)) + "$~~ "@
    } else {
        Seq::empty()
    }
}

pub open spec fn disclaimer_text(kind: Seq<char>) -> Seq<char> {
    if kind == "DLC"@ {
        "**DLC prices currently not available**"@
    } else {
        Seq::empty()
    }
}

/// The description of the answer.
pub open spec fn wishlist_description(game: WishlistGame) -> Seq<char> {
    let (price, discount) = first_sub(game);
    "Review score: "@ + decimal(game.review_score as nat) + "\n        Tags: "@ + tags_text(
        tag_texts(game),
    ) + "\n        Discount: "@ + decimal(discount) + "%\n        Price: "@ + old_price_text(
        price,
        discount,
    ) + decimal(price / 100) + "$"@ + disclaimer_text(game.kind@)
}

pub open spec fn wishlist_title(game: WishlistGame) -> Seq<char> {
    "You should buy: "@ + game.name@
}

/// The bot divides by `100 - discount` when there is a discount, so a
/// discount of 100 or more makes it fail.
pub open spec fn discount_in_range(game: WishlistGame) -> bool {
    first_sub(game).1 < 100
}

/// The price line of the description: for a discount strictly between 0 and
/// 100 it shows, struck through, the price before the discount (the price
/// divided by the remaining percentage, rounded down), then the price in
/// whole units (rounded down), `$` and the DLC disclaimer if any.
pub proof fn law_price_line_with_discount(game: WishlistGame)
    requires
        0 < first_sub(game).1 < 100,
    ensures
        exists|head: Seq<char>, old: nat, shown: nat|
            #![trigger head + "%\n        Price: "@, decimal(old), decimal(shown)]
            {
                let (price, discount) = first_sub(game);
                &&& old * ((100 - discount) as nat) <= price < (old + 1) * ((100 - discount) as nat)
                &&& shown * 100 <= price < (shown + 1) * 100
                &&& wishlist_description(game) == head + "%\n        Price: "@ + "~~"@ + decimal(old)
                    + "$~~ "@ + decimal(shown) + "$"@ + disclaimer_text(game.kind@)
            },
{
    let (price, discount) = first_sub(game);
    let q = (100 - discount) as nat;
    let old = price / q;
    let shown = price / 100;
    assert(old * q <= price < (old + 1) * q) by (nonlinear_arith)
        requires
            old == price / q,
            q > 0,
    ;
    assert(shown * 100 <= price < (shown + 1) * 100);
    let head = "Review score: "@ + decimal(game.review_score as nat) + "\n        Tags: "@
        + tags_text(tag_texts(game)) + "\n        Discount: "@ + decimal(discount);
    assert(wishlist_description(game) =~= head + "%\n        Price: "@ + "~~"@ + decimal(old)
        + "$~~ "@ + decimal(shown) + "$"@ + disclaimer_text(game.kind@));
}

/// Without a discount the price line shows no former price: the price in
/// whole units (rounded down), `$` and the DLC disclaimer if any.
pub proof fn law_price_line_without_discount(game: WishlistGame)
    requires
        first_sub(game).1 == 0,
    ensures
        exists|head: Seq<char>, shown: nat|
            #![trigger head + "%\n        Price: "@, decimal(shown)]
            {
                let (price, discount) = first_sub(game);
                &&& shown * 100 <= price < (shown + 1) * 100
                &&& wishlist_description(game) == head + "%\n        Price: "@ + decimal(shown)
                    + "$"@ + disclaimer_text(game.kind@)
            },
{
    let (price, discount) = first_sub(game);
    let shown = price / 100;
    let head = "Review score: "@ + decimal(game.review_score as nat) + "\n        Tags: "@
        + tags_text(tag_texts(game)) + "\n        Discount: "@ + decimal(discount);
    assert(wishlist_description(game) =~= head + "%\n        Price: "@ + decimal(shown) + "$"@
        + disclaimer_text(game.kind@));
}

/// Writes the tags separated by `, `, or `no tags found` when there are none.
pub fn tags_line(tags: &Vec<String>) -> (r: String)
    ensures
        r@ == tags_text(tags@.map_values(|t: String| t@)),
{
    let ghost ts = tags@.map_values(|t: String| t@);
    let n = tags.len();
    if n == 0 {
        return String::from_str("no tags found");
    }
    let mut r = String::new();
    let mut i: usize = 0;
    while i < n
        invariant
            n == tags@.len(),
            ts == tags@.map_values(|t: String| t@),
            0 < n,
            i <= n,
            r@ == joined(ts.take(i as int)),
        decreases n - i,
    {
        let ghost pre = ts.take(i as int);
        let ghost post = ts.take(i + 1);
        assert(post.drop_last() =~= pre);
        assert(post.last() == tags@[i as int]@);
        if i == 0 {
            assert(r@ =~= Seq::<char>::empty());
            r.append(tags[i].as_str());
            assert(r@ =~= post[0]);
        } else {
            r.append(", ");
            r.append(tags[i].as_str());
        }
        i = i + 1;
    }
    assert(ts.take(n as int) =~= ts);
    r
}

/// Writes the description of the answer for a wishlist game.
pub fn wishlist_details(game: &WishlistGame) -> (r: String)
    requires
        discount_in_range(*game),
    ensures
        r@ == wishlist_description(*game),
{
    let (price, discount) = if game.subs.len() > 0 {
        (game.subs[0].price, game.subs[0].discount_pct)
    } else {
        (0, 0)
    };
    let mut r = concat2("Review score: ", decimal_usize(game.review_score).as_str());
    r.append("\n        Tags: ");
    r.append(tags_line(&game.tags).as_str());
    r.append("\n        Discount: ");
    r.append(decimal_usize(discount).as_str());
    r.append("%\n        Price: ");
    if discount > 0 {
        r.append("~~");
        r.append(decimal_usize(price / (100 - discount)).as_str());
        r.append("$~~ ");
    }
    r.append(decimal_usize(price / 100).as_str());
    r.append("$");
    if same_text(game.kind.as_str(), "DLC") {
        r.append("**DLC prices currently not available**");
    }
    r
}

/// The answer for a drawn wishlist game: `You should buy: <name>`, its
/// capsule image and its description.
pub fn wishlist_embed(game: &WishlistGame) -> (r: Result<Embed, EmbedFailure>)
    requires
        discount_in_range(*game),
    ensures
        is_image_embed_result(
            r,
            wishlist_title(*game),
            game.capsule@,
            EMBED_COLOR,
            wishlist_description(*game),
        ),
{
    let title = concat2("You should buy: ", game.name.as_str());
    let description = wishlist_details(game);
    make_image_embed(title.as_str(), game.capsule.as_str(), description.as_str())
}

} // verus!
