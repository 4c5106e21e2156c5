//! Regular expressions, as the `regex` crate compiles and matches them.

use regex::Regex;
use vstd::prelude::*;

verus! {

/// `regex::Regex`, a compiled expression: nothing is known of what it holds.
#[verifier::external_type_specification]
#[verifier::external_body]
pub struct ExRegex(regex::Regex);

/// `regex::Error`, the reason why a pattern was refused: nothing is known of
/// what it holds.
#[verifier::external_type_specification]
#[verifier::external_body]
pub struct ExRegexError(regex::Error);

/// The expression that `Regex::new` makes of `pattern`, or `None` where it
/// refuses the pattern.
pub uninterp spec fn compiled(pattern: Seq<char>) -> Option<Regex>;

/// What `Regex::captures` finds with `re` in `haystack`: `None` where nothing
/// matches, else the text of each capture group of the first match, group 0
/// being the whole match, and `None` for a group that took no part.
pub uninterp spec fn regex_captures(re: Regex, haystack: Seq<char>) -> Option<
    Seq<Option<Seq<char>>>,
>;

/// Whether `pattern` can be compiled.
pub open spec fn compiles(pattern: Seq<char>) -> bool {
    compiled(pattern) is Some
}

/// What `pattern` finds in `haystack`; nothing where it cannot be compiled.
pub open spec fn found(pattern: Seq<char>, haystack: Seq<char>) -> Option<Seq<Option<Seq<char>>>> {
    match compiled(pattern) {
        Some(re) => regex_captures(re, haystack),
        None => None,
    }
}

/// The characters of each captured group.
pub open spec fn captured(groups: Vec<Option<String>>) -> Seq<Option<Seq<char>>> {
    Seq::new(groups@.len(), |i: int| crate::text::opt_text(groups@[i]))
}

/// The characters of the groups of an optional match.
pub open spec fn captures_view(groups: Option<Vec<Option<String>>>) -> Option<
    Seq<Option<Seq<char>>>,
> {
    match groups {
        Some(v) => Some(captured(v)),
        None => None,
    }
}

/// Calls `Regex::new`. Whether a pattern is accepted, and the expression made
/// of it, depend on the pattern alone.
#[verifier::external_body]
pub(crate) fn compile(pattern: &str) -> (r: Result<Regex, regex::Error>)
    ensures
        match r {
            Ok(re) => compiled(pattern@) == Some(re),
            Err(_) => compiled(pattern@) is None,
        },
{
    Regex::new(pattern)
}

/// Calls `Regex::captures` and copies out the text of every group of the
/// match, in the order of `Captures::iter`. What is found depends on the
/// expression and the haystack alone.
#[verifier::external_body]
pub(crate) fn captures(re: &Regex, haystack: &str) -> (r: Option<Vec<Option<String>>>)
    ensures
        captures_view(r) == regex_captures(*re, haystack@),
{
    re.captures(haystack).map(|c| c.iter().map(|m| m.map(|g| g.as_str().to_owned())).collect())
}

/// The group `i` of a match, where the match has such a group and the group
/// took part.
pub open spec fn group(groups: Seq<Option<Seq<char>>>, i: int) -> Option<Seq<char>> {
    if 0 <= i < groups.len() {
        groups[i]
    } else {
        None
    }
}

/// The text of group `i` of a match.
pub fn group_text(groups: &Vec<Option<String>>, i: usize) -> (r: Option<&str>)
    ensures
        match r {
            Some(s) => group(captured(*groups), i as int) == Some(s@),
            None => group(captured(*groups), i as int) is None,
        },
{
    if i < groups.len() {
        match &groups[i] {
            Some(s) => Some(s.as_str()),
            None => None,
        }
    } else {
        None
    }
}

} // verus!
