//! Small operations on text that the rest of the library shares.

use vstd::prelude::*;
use vstd::string::StrSliceExecFns;
use convert_case::{Case, Casing};

verus! {

/// What `convert_case` makes of a text in snake case.
pub uninterp spec fn snake_case(text: Seq<char>) -> Seq<char>;

/// What `convert_case` makes of a text in Pascal case.
pub uninterp spec fn pascal_case(text: Seq<char>) -> Seq<char>;

/// `text` without its leading run of `c`.
pub open spec fn strip_leading(text: Seq<char>, c: char) -> Seq<char>
    decreases text.len(),
{
    if text.len() > 0 && text[0] == c {
        strip_leading(text.drop_first(), c)
    } else {
        text
    }
}

/// Calls `Casing::to_case` of `convert_case` with `Case::Snake`. The
/// conversion depends on the text alone; the contract gives its result a
/// name and claims nothing more of it.
#[verifier::external_body]
pub(crate) fn to_snake_case(text: &str) -> (r: String)
    ensures
        r@ == snake_case(text@),
{
    text.to_case(Case::Snake)
}

/// Calls `Casing::to_case` of `convert_case` with `Case::Pascal`. The
/// conversion depends on the text alone; the contract gives its result a
/// name and claims nothing more of it.
#[verifier::external_body]
pub(crate) fn to_pascal_case(text: &str) -> (r: String)
    ensures
        r@ == pascal_case(text@),
{
    text.to_case(Case::Pascal)
}

/// Calls `str::trim_start_matches` with one character as the pattern:
/// every leading occurrence of the character is removed, and nothing else.
#[verifier::external_body]
pub(crate) fn trim_leading(text: &str, c: char) -> (r: String)
    ensures
        r@ == strip_leading(text@, c),
{
    text.trim_start_matches(c).to_string()
}

/// Whether two texts are the same.
pub fn same_text(a: &str, b: &str) -> (r: bool)
    ensures
        r == (a@ == b@),
{
    let x = a.to_owned();
    let y = b.to_owned();
    x == y
}

/// Whether the text begins with the character.
pub fn starts_with_char(text: &str, c: char) -> (r: bool)
    ensures
        r == (text@.len() > 0 && text@[0] == c),
{
    text.unicode_len() > 0 && text.get_char(0) == c
}

} // verus!
