//! Regular expressions over text, and the patterns that the parsers use.

use vstd::prelude::*;

verus! {

/// What a search for the regular expression `pattern` in `text` captures:
/// `None` where `pattern` is no valid expression or matches nowhere in
/// `text`; else the groups of the leftmost match, the whole match first, each
/// with the text it captured, or `None` for a group that took no part.
pub uninterp spec fn regex_captures(pattern: Seq<char>, text: Seq<char>) -> Option<
    Seq<Option<Seq<char>>>,
>;

/// Compiles `pattern` with `Regex::new` and searches `text` with
/// `Regex::captures`; a pattern that does not compile gives `None`, as a
/// search without a match does. The groups come back in the order of
/// `Captures::iter`, each as the text of its `Match`. Taken on trust: the
/// result is what `regex_captures` names for this pattern and this text, so
/// that the same pattern and text always give the same groups; what the
/// groups are is not claimed.
#[verifier::external_body]
pub(crate) fn captures(pattern: &str, text: &str) -> (groups: Option<Vec<Option<String>>>)
    ensures
        groups.deep_view() == regex_captures(pattern@, text@),
{
    match lazy_regex::Regex::new(pattern) {
        Ok(re) => re.captures(text).map(
            |found| found.iter().map(|group| group.map(|m| m.as_str().to_string())).collect(),
        ),
        Err(_) => None,
    }
}

/// Group `index` among `groups`: its text, or `None` where the group is
/// missing or took no part in the match.
pub open spec fn group_at(groups: Seq<Option<Seq<char>>>, index: int) -> Option<Seq<char>> {
    if 0 <= index < groups.len() {
        groups[index]
    } else {
        None
    }
}

/// Group `index` among `groups`.
pub fn group_of(groups: &Vec<Option<String>>, index: usize) -> (text: Option<String>)
    ensures
        text.deep_view() == group_at(groups.deep_view(), index as int),
{
    if index < groups.len() {
        match &groups[index] {
            Some(text) => Some(text.clone()),
            None => None,
        }
    } else {
        None
    }
}

/// The text of group `index` among `groups`, empty where the group is
/// missing or took no part in the match.
pub open spec fn group_text(groups: Seq<Option<Seq<char>>>, index: int) -> Seq<char> {
    if 0 <= index < groups.len() {
        match groups[index] {
            Some(text) => text,
            None => Seq::empty(),
        }
    } else {
        Seq::empty()
    }
}

/// The text of group `index` among `groups`.
pub fn group(groups: &Vec<Option<String>>, index: usize) -> (text: String)
    ensures
        text@ == group_text(groups.deep_view(), index as int),
{
    if index < groups.len() {
        match &groups[index] {
            Some(text) => text.clone(),
            None => String::new(),
        }
    } else {
        String::new()
    }
}

} // verus!
