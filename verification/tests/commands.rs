use sly::commands::bind_steam::{bind_finish, bind_start};
use sly::commands::link_steam::{account_of, link_finish, link_start, LinkOutcome, LinkStart};
use sly::commands::ping::ping_reply;
use sly::commands::random_game::{owned_games_request, pick_owned_game, random_game_embed};
use sly::commands::random_wishlist_game::{
    tags_line, wishlist_details, wishlist_embed, wishlist_request,
};
use sly::commands::unlink_steam::unlink_account;
use sly::commands::{author_tag, linked_steam_id, Author};
use sly::data::bindings::{Bindings, SteamBinding};
use sly::embed::{make_image_embed, make_thumbnail_embed, EmbedFailure, EMBED_COLOR};
use sly::random::pick_index;
use sly::schemas::owned_games::{OwnedGame, OwnedGameList};
use sly::schemas::steam_user::{Players, SteamUserSummary};
use sly::schemas::wishlist_data::{GameSub, WishlistGame};

fn author() -> Author {
    Author { id: 42, name: "alice".to_string(), discriminator: 7 }
}

fn account() -> SteamUserSummary {
    SteamUserSummary {
        steamid: "76561197960287930".to_string(),
        personaname: "Gabe".to_string(),
        avatar: "https://avatars.example/a.jpg".to_string(),
    }
}

fn store(entries: &[(u64, &str)]) -> Bindings {
    Bindings {
        steam_bindings: entries
            .iter()
            .map(|(d, s)| SteamBinding { discord_id: *d, steam_id: s.to_string() })
            .collect(),
    }
}

fn game(name: &str, kind: &str, tags: &[&str], subs: Vec<GameSub>) -> WishlistGame {
    WishlistGame {
        name: name.to_string(),
        capsule: "https://cdn.example/capsule.jpg".to_string(),
        review_score: 8,
        tags: tags.iter().map(|t| t.to_string()).collect(),
        subs,
        kind: kind.to_string(),
    }
}

#[test]
fn ping_answers_pong() {
    assert_eq!(ping_reply(), "Pong!");
}

#[test]
fn tag_is_name_hash_discriminator_unpadded() {
    assert_eq!(author_tag(&author()), "alice#7");
    let a = Author { id: 1, name: "bob".to_string(), discriminator: 1234 };
    assert_eq!(author_tag(&a), "bob#1234");
}

#[test]
fn link_start_without_argument_asks_for_it() {
    match link_start("!link", "KEY") {
        LinkStart::MissingArgument(t) => assert_eq!(t, "Missing argument: Steam ID"),
        _ => panic!("expected the missing argument answer"),
    }
}

#[test]
fn link_start_takes_the_second_word() {
    match link_start("!link 7656 extra", "KEY") {
        LinkStart::FetchPlayer { steam_id, url } => {
            assert_eq!(steam_id, "7656");
            assert_eq!(
                url,
                "https://api.steampowered.com/ISteamUser/GetPlayerSummaries/v2/?key=KEY&steamids=7656"
            );
        }
        _ => panic!("expected a request"),
    }
    match link_start("!link  7656", "K") {
        LinkStart::FetchPlayer { steam_id, .. } => assert_eq!(steam_id, ""),
        _ => panic!("expected a request"),
    }
    match link_start("!link\t7656", "K") {
        LinkStart::MissingArgument(_) => (),
        _ => panic!("a tab does not split"),
    }
}

#[test]
fn account_of_takes_the_first_player() {
    let none = Players { players: vec![] };
    assert_eq!(account_of(&none).unwrap_err(), "Steam account does not exist");
    let two = Players { players: vec![account(), SteamUserSummary {
        steamid: "2".to_string(), personaname: "Other".to_string(), avatar: "x".to_string() }] };
    assert_eq!(account_of(&two).unwrap().personaname, "Gabe");
}

#[test]
fn link_finish_links_and_answers_with_an_embed() {
    let mut b = store(&[(1, "a")]);
    match link_finish(&account(), &mut b, &author(), "7656".to_string()) {
        LinkOutcome::Linked(Ok(e)) => {
            assert_eq!(e.title.as_deref(), Some("alice#7 linked to steam user: Gabe"));
            assert_eq!(e.thumbnail.unwrap().url, "https://avatars.example/a.jpg");
            assert_eq!(e.color, Some(0x28de98));
            assert_eq!(e.kind, "rich");
            assert!(e.description.is_none());
        }
        _ => panic!("expected a link"),
    }
    assert_eq!(b.steam_id_of(42), Some("7656".to_string()));
    assert_eq!(b.steam_bindings.len(), 2);
}

#[test]
fn link_finish_refuses_a_linked_author() {
    let mut b = store(&[(42, "old")]);
    match link_finish(&account(), &mut b, &author(), "new".to_string()) {
        LinkOutcome::AlreadyLinked(t) => {
            assert_eq!(t, "alice#7 is already linked to a steam account")
        }
        _ => panic!("expected a refusal"),
    }
    assert_eq!(b.steam_id_of(42), Some("old".to_string()));
    assert_eq!(b.steam_bindings.len(), 1);
}

#[test]
fn link_finish_with_a_bad_avatar_still_links() {
    let mut b = Bindings::new();
    let mut acc = account();
    acc.avatar = "ftp://avatars.example/a.jpg".to_string();
    match link_finish(&acc, &mut b, &author(), "7656".to_string()) {
        LinkOutcome::Linked(Err(EmbedFailure::ImageUrl(_))) => (),
        _ => panic!("expected an image URL failure"),
    }
    assert_eq!(b.steam_id_of(42), Some("7656".to_string()));
}

#[test]
fn bind_has_its_own_answers() {
    match bind_start("!bind", "K") {
        LinkStart::MissingArgument(t) => assert_eq!(t, "Missing argument: Steam ID"),
        _ => panic!("expected the missing argument answer"),
    }
    let mut b = store(&[(9, "s")]);
    match bind_finish(&account(), &mut b, 9, "t".to_string()) {
        LinkOutcome::AlreadyLinked(t) => assert_eq!(t, "Account is already bound"),
        _ => panic!("expected a refusal"),
    }
    match bind_finish(&account(), &mut b, 10, "t".to_string()) {
        LinkOutcome::Linked(Ok(e)) => {
            assert_eq!(e.title.as_deref(), Some("Account bound to steam user: Gabe"))
        }
        _ => panic!("expected a link"),
    }
    assert_eq!(b.steam_id_of(10), Some("t".to_string()));
}

#[test]
fn unlink_answers_whether_there_was_a_link() {
    let mut b = store(&[(42, "a"), (1, "b")]);
    assert_eq!(unlink_account(&mut b, 42), "Steam account unlinked");
    assert_eq!(b.steam_bindings.len(), 1);
    assert_eq!(unlink_account(&mut b, 42), "No linked steam account found");
    assert_eq!(b.steam_id_of(1), Some("b".to_string()));
}

#[test]
fn linked_steam_id_or_the_answer_that_there_is_none() {
    let b = store(&[(42, "a")]);
    assert_eq!(linked_steam_id(&b, 42), Ok("a".to_string()));
    assert_eq!(linked_steam_id(&b, 1), Err("No linked steam account found".to_string()));
}

#[test]
fn requests_for_steam() {
    assert_eq!(
        owned_games_request("KEY", "7656"),
        "https://api.steampowered.com/IPlayerService/GetOwnedGames/v1/?key=KEY&steamid=7656&include_appinfo=1&include_played_free_games=1&include_free_sub=1"
    );
    assert_eq!(
        wishlist_request("7656"),
        "https://store.steampowered.com/wishlist/profiles/7656/wishlistdata/"
    );
}

#[test]
fn picks_stay_below_count_less_one() {
    for _ in 0..200 {
        assert!(pick_index(5) < 4);
    }
    for _ in 0..20 {
        assert_eq!(pick_index(2), 0);
    }
    let list = OwnedGameList { game_count: 3, games: vec![] };
    for _ in 0..50 {
        assert!(pick_owned_game(&list) < 2);
    }
}

#[test]
fn random_game_embed_shows_the_icon() {
    let g = OwnedGame {
        appid: 570,
        name: "Dota 2".to_string(),
        playtime_forever: 10,
        img_icon_url: "abc".to_string(),
        img_logo_url: "def".to_string(),
    };
    let e = random_game_embed(&g).unwrap();
    assert_eq!(e.title.as_deref(), Some("Dota 2"));
    assert_eq!(
        e.thumbnail.unwrap().url,
        "https://media.steampowered.com/steamcommunity/public/images/apps/570/abc"
    );
    assert_eq!(e.color, Some(EMBED_COLOR));
    let unnamed = OwnedGame { name: String::new(), ..g };
    assert!(matches!(random_game_embed(&unnamed), Err(EmbedFailure::Build(_))));
}

#[test]
fn tags_are_joined() {
    assert_eq!(tags_line(&vec![]), "no tags found");
    assert_eq!(tags_line(&vec!["RPG".to_string()]), "RPG");
    assert_eq!(
        tags_line(&vec!["RPG".to_string(), "Indie".to_string(), "2D".to_string()]),
        "RPG, Indie, 2D"
    );
}

#[test]
fn wishlist_description_without_discount() {
    let g = game("Hades", "Game", &["Action", "Roguelike"], vec![GameSub { price: 2499, discount_pct: 0 }]);
    assert_eq!(
        wishlist_details(&g),
        "Review score: 8\n        Tags: Action, Roguelike\n        Discount: 0%\n        Price: 24$"
    );
}

#[test]
fn wishlist_description_with_discount_and_dlc() {
    let g = game("Pack", "DLC", &[], vec![GameSub { price: 1000, discount_pct: 50 }]);
    assert_eq!(
        wishlist_details(&g),
        "Review score: 8\n        Tags: no tags found\n        Discount: 50%\n        Price: ~~20$~~ 10$**DLC prices currently not available**"
    );
}

#[test]
fn wishlist_description_without_offers() {
    let g = game("Free", "Game", &["F2P"], vec![]);
    assert_eq!(
        wishlist_details(&g),
        "Review score: 8\n        Tags: F2P\n        Discount: 0%\n        Price: 0$"
    );
}

#[test]
fn wishlist_embed_parts() {
    let g = game("Hades", "Game", &["Action"], vec![GameSub { price: 2499, discount_pct: 0 }]);
    let e = wishlist_embed(&g).unwrap();
    assert_eq!(e.title.as_deref(), Some("You should buy: Hades"));
    assert_eq!(e.image.unwrap().url, "https://cdn.example/capsule.jpg");
    assert_eq!(e.color, Some(0x28de98));
    assert_eq!(e.description, Some(wishlist_details(&g)));
    let mut bad = game("Hades", "Game", &[], vec![]);
    bad.capsule = "capsule.jpg".to_string();
    assert!(matches!(wishlist_embed(&bad), Err(EmbedFailure::ImageUrl(_))));
}

#[test]
fn embed_limits() {
    assert!(make_thumbnail_embed("t", "http://x").is_ok());
    assert!(matches!(make_thumbnail_embed("", "http://x"), Err(EmbedFailure::Build(_))));
    let long: String = std::iter::repeat('a').take(257).collect();
    assert!(matches!(make_thumbnail_embed(&long, "https://x"), Err(EmbedFailure::Build(_))));
    let max: String = std::iter::repeat('é').take(256).collect();
    assert!(make_thumbnail_embed(&max, "https:x").is_ok());
    let desc: String = std::iter::repeat('d').take(4097).collect();
    assert!(matches!(make_image_embed("t", "https://x", &desc), Err(EmbedFailure::Build(_))));
    assert!(make_image_embed("t", "https://x", &desc[..4096]).is_ok());
    assert!(matches!(make_image_embed("t", "https://x", ""), Err(EmbedFailure::Build(_))));
    assert!(matches!(make_image_embed("t", "mailto:x", "d"), Err(EmbedFailure::ImageUrl(_))));
}
