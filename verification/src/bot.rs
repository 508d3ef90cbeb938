//! Sly, the bot, with its own command table: `!ping`, `!bind` and `!unbind`.

use crate::command_parse::{
    command_pattern_fails, command_word, has_command_prefix, message_command,
};
use crate::dispatch::{routed, Command};
use crate::text::same_text;
use vstd::prelude::*;

verus! {

/// The bot.
pub struct Sly;

/// The commands in Sly's table.
#[derive(Debug, Clone, Copy, PartialEq, Eq, Structural)]
pub enum SlyCommand {
    /// `!ping`
    Ping,
    /// `!bind <steam id>`: links the author's Steam account.
    Bind,
    /// `!unbind`: removes the author's link.
    Unbind,
}

/// The command of Sly's table that a command word names.
pub open spec fn sly_command_named(word: Seq<char>) -> Option<SlyCommand> {
    if word == seq!['p', 'i', 'n', 'g'] {
        Some(SlyCommand::Ping)
    } else if word == seq!['b', 'i', 'n', 'd'] {
        Some(SlyCommand::Bind)
    } else if word == seq!['u', 'n', 'b', 'i', 'n', 'd'] {
        Some(SlyCommand::Unbind)
    } else {
        None
    }
}

/// The command of Sly's table that a message asks for.
pub open spec fn sly_routed(content: Seq<char>) -> Option<SlyCommand> {
    if has_command_prefix(content) {
        sly_command_named(command_word(content))
    } else {
        None
    }
}

/// Sly's routing reads only the command word: every message that passes the
/// prefix check goes to the command its word names (`ping`, `bind`,
/// `unbind`), whatever else the message holds, and to none for any other
/// word.
pub proof fn law_sly_route_by_command_word(content: Seq<char>)
    requires
        has_command_prefix(content),
    ensures
        command_word(content) == seq!['p', 'i', 'n', 'g'] ==> sly_routed(content) == Some(
            SlyCommand::Ping,
        ),
        command_word(content) == seq!['b', 'i', 'n', 'd'] ==> sly_routed(content) == Some(
            SlyCommand::Bind,
        ),
        command_word(content) == seq!['u', 'n', 'b', 'i', 'n', 'd'] ==> sly_routed(content) == Some(
            SlyCommand::Unbind,
        ),
        sly_routed(content) is None <==> !(command_word(content) == seq!['p', 'i', 'n', 'g']
            || command_word(content) == seq!['b', 'i', 'n', 'd'] || command_word(content)
            == seq!['u', 'n', 'b', 'i', 'n', 'd']),
{
}

/// Sly's table and the bot's main table read a message the same way: a
/// message asks Sly for `ping` exactly when it asks the main table for it.
pub proof fn law_tables_agree_on_ping(content: Seq<char>)
    ensures
        (sly_routed(content) == Some(SlyCommand::Ping)) <==> (routed(content) == Some(Command::Ping)),
{
}

impl Sly {
    /// Decides which command of Sly's table a message asks for. A message
    /// that passes the prefix check but starts with a line feed is left out:
    /// the bot fails on it.
    pub fn route(content: &str) -> (r: Option<SlyCommand>)
        requires
            has_command_prefix(content@) ==> !command_pattern_fails(content@),
        ensures
            r == sly_routed(content@),
    {
        proof {
            reveal_strlit("ping");
            assert("ping"@ =~= seq!['p', 'i', 'n', 'g']);
            reveal_strlit("bind");
            assert("bind"@ =~= seq!['b', 'i', 'n', 'd']);
            reveal_strlit("unbind");
            assert("unbind"@ =~= seq!['u', 'n', 'b', 'i', 'n', 'd']);
        }
        match message_command(content) {
            None => None,
            Some(word) => {
                let w = word.as_str();
                if same_text(w, "ping") {
                    Some(SlyCommand::Ping)
                } else if same_text(w, "bind") {
                    Some(SlyCommand::Bind)
                } else if same_text(w, "unbind") {
                    Some(SlyCommand::Unbind)
                } else {
                    None
                }
            },
        }
    }
}

} // verus!
