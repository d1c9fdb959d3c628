//! What a chat message asks of the ballot, and what the server's answer to
//! an information request says of its players.

use vstd::prelude::*;
use crate::pattern::{captures, fields_of, fields_view, groups_view, read_fields, regex_captures};

verus! {

/// A message of the form `vote <category> <value>`.
pub const PROPOSE_PATTERN: &'static str = "^vote (?P<type>map|mode) (?P<input>.*)";

/// A message that begins with `yay` or `nay`.
pub const VOTE_PATTERN: &'static str = "^(?P<vote>yay|nay)";

/// The number of human players in the server's information string.
pub const INFO_PATTERN: &'static str = "\\\\g_humanplayers\\\\(?P<player_count>[0-9]{1,2})\\\\";

/// The category and the value that a match of the proposal pattern names.
pub open spec fn proposal_of(fields: Option<Seq<Seq<char>>>) -> Option<(Seq<char>, Seq<char>)> {
    match fields {
        Some(found) => Some((found[0], found[1])),
        None => None,
    }
}

/// The choice that a match of the vote pattern names: yes for `yay`, no
/// for `nay`, and none for any other word.
pub open spec fn choice_of(fields: Option<Seq<Seq<char>>>) -> Option<bool> {
    match fields {
        Some(found) => if found[0] == "yay"@ {
            Some(true)
        } else if found[0] == "nay"@ {
            Some(false)
        } else {
            None
        },
        None => None,
    }
}

/// The value of a decimal digit.
pub open spec fn digit_of(c: char) -> Option<int> {
    if '0' <= c <= '9' {
        Some(c as int - '0' as int)
    } else {
        None
    }
}

/// The number that one or two decimal digits write.
pub open spec fn number_of(text: Seq<char>) -> Option<int> {
    if text.len() == 1 && digit_of(text[0]) is Some {
        digit_of(text[0])
    } else if text.len() == 2 && digit_of(text[0]) is Some && digit_of(text[1]) is Some {
        Some(10 * digit_of(text[0])->Some_0 + digit_of(text[1])->Some_0)
    } else {
        None
    }
}

/// The player count that a match of the information pattern names.
pub open spec fn count_of(fields: Option<Seq<Seq<char>>>) -> Option<int> {
    match fields {
        Some(found) => number_of(found[0]),
        None => None,
    }
}

/// The category and the value of the proposal that a match reports.
pub fn proposal_from(groups: Option<Vec<Option<String>>>) -> (proposal: Option<(String, String)>)
    ensures
        match proposal {
            Some((category, value)) => proposal_of(fields_of(groups_view(groups), 2)) == Some(
                (category@, value@),
            ),
            None => fields_of(groups_view(groups), 2) is None,
        },
{
    match read_fields(groups, 2) {
        Some(fields) => {
            proof {
                let expected = fields_of(groups_view(groups), 2)->Some_0;
                assert(fields_view(Some(fields))->Some_0[0] == fields@[0]@);
                assert(fields_view(Some(fields))->Some_0[1] == fields@[1]@);
            }
            Some((fields[0].clone(), fields[1].clone()))
        },
        None => None,
    }
}

/// The choice that a match reports.
pub fn choice_from(groups: Option<Vec<Option<String>>>) -> (choice: Option<bool>)
    ensures
        choice == choice_of(fields_of(groups_view(groups), 1)),
{
    match read_fields(groups, 1) {
        Some(fields) => {
            proof {
                assert(fields_view(Some(fields))->Some_0[0] == fields@[0]@);
            }
            let yay: String = "yay".to_owned();
            let nay: String = "nay".to_owned();
            if fields[0] == yay {
                Some(true)
            } else if fields[0] == nay {
                Some(false)
            } else {
                None
            }
        },
        None => None,
    }
}

/// The value of `c` as a decimal digit.
pub fn digit(c: char) -> (value: Option<i8>)
    ensures
        value is Some <==> digit_of(c) is Some,
        value is Some ==> value->Some_0 == digit_of(c)->Some_0,
        value is Some ==> 0 <= value->Some_0 <= 9,
{
    if '0' <= c && c <= '9' {
        Some((c as u32 - '0' as u32) as i8)
    } else {
        None
    }
}

/// The number that `text` writes in one or two decimal digits.
pub fn number(text: &str) -> (value: Option<i8>)
    ensures
        value is Some <==> number_of(text@) is Some,
        value is Some ==> value->Some_0 == number_of(text@)->Some_0,
        value is Some ==> 0 <= value->Some_0 <= 99,
{
    let length: usize = text.unicode_len();
    if length == 1 {
        digit(text.get_char(0))
    } else if length == 2 {
        match (digit(text.get_char(0)), digit(text.get_char(1))) {
            (Some(tens), Some(ones)) => Some(10 * tens + ones),
            _ => None,
        }
    } else {
        None
    }
}

/// The player count that a match reports.
pub fn count_from(groups: Option<Vec<Option<String>>>) -> (count: Option<i8>)
    ensures
        count is Some <==> count_of(fields_of(groups_view(groups), 1)) is Some,
        count is Some ==> count->Some_0 == count_of(fields_of(groups_view(groups), 1))->Some_0,
        count is Some ==> 0 <= count->Some_0 <= 99,
{
    match read_fields(groups, 1) {
        Some(fields) => {
            proof {
                assert(fields_view(Some(fields))->Some_0[0] == fields@[0]@);
            }
            number(fields[0].as_str())
        },
        None => None,
    }
}

/// The proposal that `message` makes, if it makes one.
pub fn parse_proposal(message: &str) -> (proposal: Option<(String, String)>)
    ensures
        match proposal {
            Some((category, value)) => proposal_of(
                fields_of(regex_captures(PROPOSE_PATTERN@, message@), 2),
            ) == Some((category@, value@)),
            None => fields_of(regex_captures(PROPOSE_PATTERN@, message@), 2) is None,
        },
{
    proposal_from(captures(PROPOSE_PATTERN, message))
}

/// The choice that `message` casts, if it casts one.
pub fn parse_choice(message: &str) -> (choice: Option<bool>)
    ensures
        choice == choice_of(fields_of(regex_captures(VOTE_PATTERN@, message@), 1)),
{
    choice_from(captures(VOTE_PATTERN, message))
}

/// The number of human players that `message` reports, if it reports one.
pub fn parse_player_count(message: &str) -> (count: Option<i8>)
    ensures
        count is Some <==> count_of(fields_of(regex_captures(INFO_PATTERN@, message@), 1)) is Some,
        count is Some ==> count->Some_0 == count_of(
            fields_of(regex_captures(INFO_PATTERN@, message@), 1),
        )->Some_0,
        count is Some ==> 0 <= count->Some_0 <= 99,
{
    count_from(captures(INFO_PATTERN, message))
}

} // verus!
