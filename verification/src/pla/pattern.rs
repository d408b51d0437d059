//! Regular expressions, as the `regex` crate matches them.

use vstd::prelude::*;

verus! {

/// What `regex::Regex::captures` finds of `pattern` in `haystack`: nothing,
/// or, for the leftmost match, one item per capture group of the pattern,
/// the whole match first. Each item is the text that the group matched, or
/// nothing where the group took no part. A pattern that `regex::Regex::new`
/// refuses finds nothing.
pub uninterp spec fn regex_captures(pattern: Seq<char>, haystack: Seq<char>) -> Option<
    Seq<Option<Seq<char>>>,
>;

/// Compiles `pattern` with `regex::Regex::new`, searches `haystack` with
/// `Regex::captures`, and copies the text of each group that
/// `Captures::iter` hands out, by `Match::as_str`. Not proved: the groups
/// are taken to be a function of the two texts, which `regex_captures`
/// names. Where the pattern does not compile, or does not match, the result
/// is `None`.
#[verifier::external_body]
pub(crate) fn captures(pattern: &str, haystack: &str) -> (groups: Option<Vec<Option<String>>>)
    ensures
        groups.deep_view() == regex_captures(pattern@, haystack@),
{
    match regex::Regex::new(pattern) {
        Ok(regex) => regex.captures(haystack).map(
            |found| found.iter().map(|group| group.map(|part| part.as_str().to_string())).collect(),
        ),
        Err(_) => None,
    }
}

/// The text of capture group `index`, where there was a match, the group
/// exists and it took part in the match.
pub open spec fn spec_group(captures: Option<Seq<Option<Seq<char>>>>, index: int) -> Option<
    Seq<char>,
> {
    match captures {
        Some(groups) => if 0 <= index < groups.len() {
            groups[index]
        } else {
            None
        },
        None => None,
    }
}

/// The text of capture group `index`, where there was a match, the group
/// exists and it took part in the match.
pub fn group<'a>(captures: &'a Option<Vec<Option<String>>>, index: usize) -> (text: Option<
    &'a str,
>)
    ensures
        text.deep_view() == spec_group(captures.deep_view(), index as int),
{
    match captures {
        Some(groups) => {
            if index < groups.len() {
                match &groups[index] {
                    Some(part) => Some(part.as_str()),
                    None => None,
                }
            } else {
                None
            }
        },
        None => None,
    }
}

} // verus!
