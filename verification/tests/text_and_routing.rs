use sly::bot::{Sly, SlyCommand};
use sly::command_parse::{is_command_message, message_command, BOT_PREFIX};
use sly::dispatch::{route, Command};
use sly::text::{
    concat2, decimal_string, decimal_usize, find_char_from, find_space_from, same_text,
    white_space,
};

#[test]
fn decimal_writes_plain_numerals() {
    assert_eq!(decimal_string(0), "0");
    assert_eq!(decimal_string(7), "7");
    assert_eq!(decimal_string(10), "10");
    assert_eq!(decimal_string(42), "42");
    assert_eq!(decimal_string(1000), "1000");
    assert_eq!(decimal_string(u64::MAX), "18446744073709551615");
    assert_eq!(decimal_usize(1999), "1999");
}

#[test]
fn white_space_is_unicode_white_space() {
    for c in [' ', '\t', '\n', '\r', '\u{b}', '\u{c}', '\u{85}', '\u{a0}', '\u{1680}', '\u{2000}',
        '\u{200a}', '\u{2028}', '\u{2029}', '\u{202f}', '\u{205f}', '\u{3000}'] {
        assert!(white_space(c), "{:?}", c);
    }
    for c in ['a', '!', '0', '\u{200b}', '\u{180e}', '\u{feff}', 'é'] {
        assert!(!white_space(c), "{:?}", c);
    }
    for c in ['\u{0}', 'x', ' ', '\u{3000}', '\u{2007}', '\u{1f600}'] {
        assert_eq!(white_space(c), c.is_whitespace());
    }
}

#[test]
fn scanning_and_comparing() {
    assert_eq!(find_char_from("!link 123 x", ' ', 0), 5);
    assert_eq!(find_char_from("!link 123 x", ' ', 6), 9);
    assert_eq!(find_char_from("!link", ' ', 0), 5);
    assert_eq!(find_char_from("äö ü", ' ', 0), 2);
    assert_eq!(find_space_from("!ping\tpong", 1), 5);
    assert_eq!(find_space_from("!ping", 1), 5);
    assert!(same_text("ping", "ping"));
    assert!(!same_text("ping", "pin"));
    assert!(!same_text("ping", "pong"));
    assert!(same_text("", ""));
    assert_eq!(concat2("ab", "cd"), "abcd");
}

#[test]
fn prefix_check_needs_a_character_after_the_prefix() {
    assert_eq!(BOT_PREFIX, '!');
    assert!(is_command_message("!ping"));
    assert!(is_command_message("hello !x"));
    assert!(is_command_message("!!"));
    assert!(!is_command_message("!"));
    assert!(!is_command_message("ping"));
    assert!(!is_command_message("!\nping"));
    assert!(!is_command_message(""));
}

#[test]
fn command_word_follows_the_first_character() {
    assert_eq!(message_command("!ping"), Some("ping".to_string()));
    assert_eq!(message_command("!link 7656"), Some("link".to_string()));
    assert_eq!(message_command("!rg\tnow"), Some("rg".to_string()));
    assert_eq!(message_command("! x"), Some("".to_string()));
    assert_eq!(message_command("?ping !x"), Some("ping".to_string()));
    assert_eq!(message_command("plain text"), None);
}

#[test]
fn route_names_the_commands() {
    assert_eq!(route("!ping"), Some(Command::Ping));
    assert_eq!(route("!ping please"), Some(Command::Ping));
    assert_eq!(route("!link 76561197960287930"), Some(Command::Link));
    assert_eq!(route("!unlink"), Some(Command::Unlink));
    assert_eq!(route("!rg"), Some(Command::RandomGame));
    assert_eq!(route("!rw"), Some(Command::RandomWishlistGame));
    assert_eq!(route("!pingpong"), None);
    assert_eq!(route("!PING"), None);
    assert_eq!(route("!bind 1"), None);
    assert_eq!(route("ping"), None);
    assert_eq!(route("!"), None);
    assert_eq!(route("#ping and !x"), Some(Command::Ping));
}

#[test]
fn sly_routes_its_own_table() {
    assert_eq!(Sly::route("!ping"), Some(SlyCommand::Ping));
    assert_eq!(Sly::route("!bind 76561197960287930"), Some(SlyCommand::Bind));
    assert_eq!(Sly::route("!unbind"), Some(SlyCommand::Unbind));
    assert_eq!(Sly::route("!link 1"), None);
    assert_eq!(Sly::route("!rg"), None);
    assert_eq!(Sly::route("hello"), None);
}
