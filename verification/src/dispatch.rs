//! Which command a chat message asks for.

use crate::command_parse::{
    command_pattern_fails, command_word, has_command_prefix, message_command,
};
use crate::text::same_text;
use vstd::prelude::*;

verus! {

/// The commands that the bot answers.
#[derive(Debug, Clone, Copy, PartialEq, Eq, Structural)]
pub enum Command {
    /// `!ping`
    Ping,
    /// `!link <steam id>`
    Link,
    /// `!unlink`
    Unlink,
    /// `!rg`: a random game of the user's Steam library.
    RandomGame,
    /// `!rw`: a random game of the user's Steam wishlist.
    RandomWishlistGame,
}

/// The command that a command word names.
pub open spec fn command_named(word: Seq<char>) -> Option<Command> {
    if word == seq!['p', 'i', 'n', 'g'] {
        Some(Command::Ping)
    } else if word == seq!['l', 'i', 'n', 'k'] {
        Some(Command::Link)
    } else if word == seq!['u', 'n', 'l', 'i', 'n', 'k'] {
        Some(Command::Unlink)
    } else if word == seq!['r', 'g'] {
        Some(Command::RandomGame)
    } else if word == seq!['r', 'w'] {
        Some(Command::RandomWishlistGame)
    } else {
        None
    }
}

/// The command that a message asks for: none unless it passes the prefix
/// check, else the one its command word names.
pub open spec fn routed(content: Seq<char>) -> Option<Command> {
    if has_command_prefix(content) {
        command_named(command_word(content))
    } else {
        None
    }
}

/// Only a message that passes the prefix check is routed to a command.
pub proof fn law_routed_only_with_prefix(content: Seq<char>)
    ensures
        routed(content) is Some ==> has_command_prefix(content),
{
}

/// Routing reads only the command word: every message that passes the
/// prefix check goes to the command its word names (`ping`, `link`,
/// `unlink`, `rg`, `rw`), whatever else the message holds, and to none for
/// any other word.
pub proof fn law_route_by_command_word(content: Seq<char>)
    requires
        has_command_prefix(content),
    ensures
        command_word(content) == seq!['p', 'i', 'n', 'g'] ==> routed(content) == Some(Command::Ping),
        command_word(content) == seq!['l', 'i', 'n', 'k'] ==> routed(content) == Some(Command::Link),
        command_word(content) == seq!['u', 'n', 'l', 'i', 'n', 'k'] ==> routed(content) == Some(
            Command::Unlink,
        ),
        command_word(content) == seq!['r', 'g'] ==> routed(content) == Some(Command::RandomGame),
        command_word(content) == seq!['r', 'w'] ==> routed(content) == Some(
            Command::RandomWishlistGame,
        ),
        routed(content) is None <==> !(command_word(content) == seq!['p', 'i', 'n', 'g']
            || command_word(content) == seq!['l', 'i', 'n', 'k'] || command_word(content)
            == seq!['u', 'n', 'l', 'i', 'n', 'k'] || command_word(content) == seq!['r', 'g']
            || command_word(content) == seq!['r', 'w']),
{
}

/// Two messages that pass the prefix check and have the same command word
/// go to the same command.
pub proof fn law_same_word_same_command(a: Seq<char>, b: Seq<char>)
    requires
        has_command_prefix(a),
        has_command_prefix(b),
        command_word(a) == command_word(b),
    ensures
        routed(a) == routed(b),
{
}

/// Decides which command a message asks for. A message that passes the
/// prefix check but starts with a line feed is left out: the bot fails on it.
pub fn route(content: &str) -> (r: Option<Command>)
    requires
        has_command_prefix(content@) ==> !command_pattern_fails(content@),
    ensures
        r == routed(content@),
{
    proof {
        reveal_strlit("ping");
        assert("ping"@ =~= seq!['p', 'i', 'n', 'g']);
        reveal_strlit("link");
        assert("link"@ =~= seq!['l', 'i', 'n', 'k']);
        reveal_strlit("unlink");
        assert("unlink"@ =~= seq!['u', 'n', 'l', 'i', 'n', 'k']);
        reveal_strlit("rg");
        assert("rg"@ =~= seq!['r', 'g']);
        reveal_strlit("rw");
        assert("rw"@ =~= seq!['r', 'w']);
    }
    match message_command(content) {
        None => None,
        Some(word) => {
            let w = word.as_str();
            if same_text(w, "ping") {
                Some(Command::Ping)
            } else if same_text(w, "link") {
                Some(Command::Link)
            } else if same_text(w, "unlink") {
                Some(Command::Unlink)
            } else if same_text(w, "rg") {
                Some(Command::RandomGame)
            } else if same_text(w, "rw") {
                Some(Command::RandomWishlistGame)
            } else {
                None
            }
        },
    }
}

} // verus!
