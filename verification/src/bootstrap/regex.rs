//! Regular expressions at a position of the input.

use vstd::prelude::*;
use regex_automata::meta::Regex;
use crate::cst::state::pos_view;

verus! {

/// How many characters the match covers that `regex_automata` finds for a
/// pattern in a text, if the pattern is a regular expression and there is
/// a match.
pub uninterp spec fn regex_match_len(pattern: Seq<char>, text: Seq<char>) -> Option<int>;

/// Calls `Regex::new` and `Regex::find` of `regex_automata::meta` on the
/// input from `at` on, and counts the characters up to the end of the
/// match. The result depends on the pattern and on that text alone. There
/// is no result where the pattern is no regular expression; a match ends
/// inside the text.
#[verifier::external_body]
pub(crate) fn regex_find(pattern: &str, input: &Vec<char>, at: usize) -> (r: Option<usize>)
    requires
        at <= input.len(),
    ensures
        pos_view(r) == regex_match_len(pattern@, input@.skip(at as int)),
        r matches Some(n) ==> n <= input.len() - at,
{
    let text: String = input[at..].iter().collect();
    let found = Regex::new(pattern).ok()?.find(text.as_str())?;
    Some(text[..found.end()].chars().count())
}

/// Where the match of a pattern ends that is tried at a position.
pub open spec fn spec_regex(s: Seq<char>, at: Option<int>, pattern: Seq<char>) -> Option<int> {
    match at {
        Some(p) => if 0 <= p <= s.len() {
            match regex_match_len(pattern, s.skip(p)) {
                Some(n) => if 0 <= n <= s.len() - p {
                    Some(p + n)
                } else {
                    None
                },
                None => None,
            }
        } else {
            None
        },
        None => None,
    }
}

/// Matches a pattern at the position.
pub fn regex(input: &Vec<char>, at: Option<usize>, pattern: &str) -> (r: Option<usize>)
    ensures
        pos_view(r) == spec_regex(input@, pos_view(at), pattern@),
{
    match at {
        Some(p) => {
            if p > input.len() {
                return None;
            }
            match regex_find(pattern, input, p) {
                Some(n) => Some(p + n),
                None => None,
            }
        },
        None => None,
    }
}

} // verus!
