//! Reading a command out of a chat message, with the `regex` crate.
//!
//! A message is a command when it holds the prefix `!` followed by some
//! character other than a line feed (the pattern `!.+`). Its command word is
//! what follows the message's first character up to the first white space
//! (group 1 of `^.(\S*)`).

use crate::text::{is_white_space, scan_to_space};
use regex::Regex;
use vstd::prelude::*;

verus! {

/// The prefix that starts every command.
pub const BOT_PREFIX: char = '!';

/// What `Regex::new(pattern)` and then `Regex::is_match(haystack)` give;
/// `None` stands for a pattern that does not compile.
pub uninterp spec fn regex_is_match_result(pattern: Seq<char>, haystack: Seq<char>) -> Option<
    bool,
>;

/// What `Regex::new(pattern)` and then `Regex::captures(haystack)` and
/// `Captures::get(group)` give: `None` for a pattern that does not compile,
/// `Some(None)` when there is no match, else the text of the group if it
/// took part in the match.
pub uninterp spec fn regex_capture_result(
    pattern: Seq<char>,
    haystack: Seq<char>,
    group: usize,
) -> Option<Option<Option<Seq<char>>>>;

/// The prefix check: the prefix, then `.+`.
pub open spec fn prefix_check_pattern() -> Seq<char> {
    seq![BOT_PREFIX, '.', '+']
}

/// The command pattern `^.(\S*)`.
pub open spec fn command_pattern() -> Seq<char> {
    seq!['^', '.', '(', '\\', 'S', '*', ')']
}

/// `!.+` matches somewhere in `s`: some `!` is followed by a character that
/// is not a line feed (`.` does not match `\n`).
pub open spec fn has_command_prefix(s: Seq<char>) -> bool {
    exists|i: int| 0 <= i && i + 1 < s.len() && #[trigger] s[i] == BOT_PREFIX && s[i + 1] != '\n'
}

/// The command word: group 1 of `^.(\S*)`, the characters after the first
/// one, up to the first white space.
pub open spec fn command_word(s: Seq<char>) -> Seq<char> {
    s.subrange(1, scan_to_space(s, 1) as int)
}

proof fn lemma_scan_to_space_stops(s: Seq<char>, i: nat, j: nat)
    requires
        i <= j < s.len(),
        is_white_space(s[j as int]),
        forall|k: int| i <= k < j ==> !is_white_space(#[trigger] s[k]),
    ensures
        scan_to_space(s, i) == j,
    decreases j - i,
{
    if i < j {
        lemma_scan_to_space_stops(s, i + 1, j);
    }
}

/// The command word ends at the first white space after the first
/// character: whatever follows it does not change the word.
pub proof fn law_command_word_ends_at_space(first: char, word: Seq<char>, sep: char, rest: Seq<char>)
    requires
        forall|k: int| 0 <= k < word.len() ==> !is_white_space(#[trigger] word[k]),
        is_white_space(sep),
    ensures
        command_word(seq![first] + word + seq![sep] + rest) == word,
{
    let s = seq![first] + word + seq![sep] + rest;
    let j = (word.len() + 1) as nat;
    assert(s[j as int] == sep);
    assert forall|k: int| 1 <= k < j implies !is_white_space(#[trigger] s[k]) by {
        assert(s[k] == word[k - 1]);
    }
    lemma_scan_to_space_stops(s, 1, j);
    assert(s.subrange(1, j as int) =~= word);
}

/// `^.(\S*)` fails on a message that is empty or starts with a line feed.
pub open spec fn command_pattern_fails(s: Seq<char>) -> bool {
    s.len() == 0 || s[0] == '\n'
}

/// The outcome of one capture: the pattern did not compile, it did not
/// match, or the text of the group (if the group took part).
pub enum Captured {
    InvalidPattern,
    NoMatch,
    Group(Option<String>),
}

impl View for Captured {
    type V = Option<Option<Option<Seq<char>>>>;

    open spec fn view(&self) -> Option<Option<Option<Seq<char>>>> {
        match self {
            Captured::InvalidPattern => None,
            Captured::NoMatch => Some(None),
            Captured::Group(None) => Some(Some(None)),
            Captured::Group(Some(g)) => Some(Some(Some(g@))),
        }
    }
}

/// Compiles `pattern` with `Regex::new` and runs `Regex::is_match` on
/// `haystack`. Trusted: the result is named by `regex_is_match_result`;
/// for the prefix check `!.+` it is, as the crate documents `.` and `+`,
/// whether some `!` is followed by a character other than `\n`.
#[verifier::external_body]
fn regex_is_match(pattern: &str, haystack: &str) -> (r: Option<bool>)
    ensures
        r == regex_is_match_result(pattern@, haystack@),
        pattern@ == prefix_check_pattern() ==> r == Some(has_command_prefix(haystack@)),
{
    match Regex::new(pattern) {
        Ok(re) => Some(re.is_match(haystack)),
        Err(_) => None,
    }
}

/// Compiles `pattern` with `Regex::new`, runs `Regex::captures` on
/// `haystack` and takes group `group`. Trusted: the result is named by
/// `regex_capture_result`; for `^.(\S*)` and group 1 it is, as the crate
/// documents `^`, `.`, `\S` (not Unicode `White_Space`) and greedy `*`, no
/// match for a haystack that is empty or starts with `\n`, else the
/// characters after the first up to the first white space.
#[verifier::external_body]
fn regex_capture(pattern: &str, haystack: &str, group: usize) -> (r: Captured)
    ensures
        r@ == regex_capture_result(pattern@, haystack@, group),
        (pattern@ == command_pattern() && group == 1) ==> r@ == Some(if command_pattern_fails(haystack@) { None } else { Some(Some(command_word(haystack@))) }),
{
    match Regex::new(pattern) {
        Err(_) => Captured::InvalidPattern,
        Ok(re) => match re.captures(haystack) {
            None => Captured::NoMatch,
            Some(caps) => match caps.get(group) {
                Some(m) => Captured::Group(Some(m.as_str().to_string())),
                None => Captured::Group(None),
            },
        },
    }
}

/// Runs the prefix check `!.+` on a message.
pub fn is_command_message(content: &str) -> (r: bool)
    ensures
        r == has_command_prefix(content@),
{
    let pattern = "!.+";
    proof {
        reveal_strlit("!.+");
    }
    assert(pattern@ == prefix_check_pattern());
    match regex_is_match(pattern, content) {
        Some(b) => b,
        None => false,
    }
}

/// The command word of a message that passes the prefix check, `None` for
/// any other message. A message that passes the check but starts with a
/// line feed has no command word (the bot fails on it), so it is left out.
pub fn message_command(content: &str) -> (r: Option<String>)
    requires
        has_command_prefix(content@) ==> !command_pattern_fails(content@),
    ensures
        r is Some <==> has_command_prefix(content@),
        r matches Some(w) ==> w@ == command_word(content@),
{
    if !is_command_message(content) {
        return None;
    }
    let pattern = "^.(\\S*)";
    proof {
        reveal_strlit("^.(\\S*)");
    }
    assert(pattern@ == command_pattern());
    match regex_capture(pattern, content, 1) {
        Captured::Group(Some(w)) => Some(w),
        _ => Some(String::new()),
    }
}

} // verus!
