//! Matching a text against a regular expression, and reading what the
//! match captured.

use vstd::prelude::*;

verus! {

/// What the `regex` crate finds when `pattern` is searched in `text`: for
/// the leftmost match, the text of every capture group in the order of the
/// opening parentheses, the whole match first and a group that took no part
/// as `None`. It is `None` where nothing matches or the pattern is not a
/// regular expression.
pub uninterp spec fn regex_captures(pattern: Seq<char>, text: Seq<char>) -> Option<
    Seq<Option<Seq<char>>>,
>;

/// A capture group as a sequence of characters.
pub open spec fn group_view(group: Option<String>) -> Option<Seq<char>> {
    match group {
        Some(part) => Some(part@),
        None => None,
    }
}

/// The capture groups of a match as sequences of characters.
pub open spec fn groups_view(groups: Option<Vec<Option<String>>>) -> Option<
    Seq<Option<Seq<char>>>,
> {
    match groups {
        Some(found) => Some(Seq::new(found@.len(), |i: int| group_view(found@[i]))),
        None => None,
    }
}

/// The fields of a match as sequences of characters.
pub open spec fn fields_view(fields: Option<Vec<String>>) -> Option<Seq<Seq<char>>> {
    match fields {
        Some(found) => Some(Seq::new(found@.len(), |i: int| found@[i]@)),
        None => None,
    }
}

/// The `count` groups that follow the whole match, where the match has
/// exactly that many and each took part.
pub open spec fn fields_of(groups: Option<Seq<Option<Seq<char>>>>, count: nat) -> Option<
    Seq<Seq<char>>,
> {
    if groups is Some && groups->Some_0.len() == count + 1 && (forall|i: int|
        1 <= i <= count ==> (#[trigger] groups->Some_0[i]) is Some) {
        Some(Seq::new(count, |i: int| groups->Some_0[i + 1]->Some_0))
    } else {
        None
    }
}

/// Compiles `pattern` with `regex::Regex::new` and searches `text` with
/// `Regex::captures`; the groups come from `Captures::iter`. The contract
/// only gives the result its name: the same pattern and text always give
/// the same groups.
#[verifier::external_body]
pub(crate) fn captures(pattern: &str, text: &str) -> (groups: Option<Vec<Option<String>>>)
    ensures
        groups_view(groups) == regex_captures(pattern@, text@),
{
    let compiled = match regex::Regex::new(pattern) {
        Ok(compiled) => compiled,
        Err(_) => return None,
    };
    let found = compiled.captures(text)?;
    Some(found.iter().map(|group| group.map(|part| part.as_str().to_owned())).collect())
}

/// Reads `count` fields out of the groups of a match.
pub fn read_fields(groups: Option<Vec<Option<String>>>, count: usize) -> (fields: Option<
    Vec<String>,
>)
    ensures
        fields_view(fields) == fields_of(groups_view(groups), count as nat),
        fields is Some ==> fields->Some_0@.len() == count,
{
    let found = match groups {
        Some(found) => found,
        None => {
            return None;
        },
    };
    let ghost model = groups_view(Some(found))->Some_0;
    assert(groups_view(groups) == Some(model));
    assert(model.len() == found@.len());
    let total: usize = found.len();
    if count == usize::MAX || total != count + 1 {
        return None;
    }
    let mut fields: Vec<String> = Vec::new();
    let mut i: usize = 1;
    while i <= count
        invariant
            1 <= i <= count + 1,
            count < usize::MAX,
            found.len() == count + 1,
            groups_view(groups) == Some(model),
            model == Seq::new(found@.len(), |k: int| group_view(found@[k])),
            fields.len() == i - 1,
            forall|k: int| 1 <= k < i ==> (#[trigger] model[k]) is Some,
            forall|k: int| 0 <= k < i - 1 ==> (#[trigger] fields@[k])@ == model[k + 1]->Some_0,
        decreases count + 1 - i,
    {
        match &found[i] {
            Some(part) => {
                fields.push(part.clone());
            },
            None => {
                assert(model[i as int] is None);
                assert(fields_of(Some(model), count as nat) is None);
                return None;
            },
        }
        i += 1;
    }
    assert(fields_view(Some(fields))->Some_0 =~= fields_of(Some(model), count as nat)->Some_0);
    Some(fields)
}

} // verus!
