//! Going forward in a text that is read piece by piece.

use vstd::prelude::*;
use vstd::string::StringSliceAdditionalSpecFns;
use vstd::utf8::{encode_utf8, is_char_boundary};

verus! {

/// By how much to go forward.
#[derive(Clone, Copy, Debug, PartialEq, Eq)]
pub enum ParseAdvance {
    /// By so many bytes.
    Offset(usize),
    /// By the bytes of one character.
    Character(char),
    /// By the bytes of a text.
    String(&'static str),
}

/// What is left of a text, and how far into the text it begins.
#[derive(Clone, Copy, Debug)]
pub struct YState<'i> {
    pub partial_string: &'i str,
    pub start_offset: usize,
    /// The farthest place at which an error was met.
    pub farthest_error: Option<usize>,
}

/// How many bytes a step goes forward.
pub open spec fn spec_offset(term: ParseAdvance) -> int {
    match term {
        ParseAdvance::Offset(v) => v as int,
        ParseAdvance::Character(c) => encode_utf8(seq![c]).len() as int,
        ParseAdvance::String(s) => s.spec_bytes().len() as int,
    }
}

/// Calls `char::len_utf8`: the number of bytes that the character needs in
/// UTF-8.
#[verifier::external_body]
pub(crate) fn char_len(c: char) -> (r: usize)
    ensures
        r == encode_utf8(seq![c]).len(),
{
    c.len_utf8()
}

impl From<usize> for ParseAdvance {
    fn from(v: usize) -> (r: ParseAdvance) {
        ParseAdvance::Offset(v)
    }
}

impl vstd::std_specs::convert::FromSpecImpl<usize> for ParseAdvance {
    open spec fn obeys_from_spec() -> bool {
        true
    }

    open spec fn from_spec(v: usize) -> ParseAdvance {
        ParseAdvance::Offset(v)
    }
}

impl From<char> for ParseAdvance {
    fn from(c: char) -> (r: ParseAdvance) {
        ParseAdvance::Character(c)
    }
}

impl vstd::std_specs::convert::FromSpecImpl<char> for ParseAdvance {
    open spec fn obeys_from_spec() -> bool {
        true
    }

    open spec fn from_spec(c: char) -> ParseAdvance {
        ParseAdvance::Character(c)
    }
}

impl From<&'static str> for ParseAdvance {
    fn from(s: &'static str) -> (r: ParseAdvance) {
        ParseAdvance::String(s)
    }
}

impl vstd::std_specs::convert::FromSpecImpl<&'static str> for ParseAdvance {
    open spec fn obeys_from_spec() -> bool {
        true
    }

    open spec fn from_spec(s: &'static str) -> ParseAdvance {
        ParseAdvance::String(s)
    }
}

impl ParseAdvance {
    /// How many bytes the step goes forward.
    pub fn offset(&self) -> (r: usize)
        ensures
            r == spec_offset(*self),
    {
        match self {
            ParseAdvance::Offset(v) => *v,
            ParseAdvance::Character(c) => char_len(*c),
            ParseAdvance::String(s) => s.as_bytes().len(),
        }
    }
}

impl<'i> YState<'i> {
    /// The state behind the step. The step has to end in what is left of
    /// the text, at a character boundary, and the offset must not leave
    /// the range of `usize`.
    pub fn advance(self, term: ParseAdvance) -> (r: YState<'i>)
        requires
            is_char_boundary(self.partial_string.spec_bytes(), spec_offset(term)),
            spec_offset(term) <= self.partial_string.spec_bytes().len(),
            self.start_offset + spec_offset(term) <= usize::MAX,
        ensures
            r.partial_string.spec_bytes() == self.partial_string.spec_bytes().subrange(
                spec_offset(term),
                self.partial_string.spec_bytes().len() as int,
            ),
            r.start_offset == self.start_offset + spec_offset(term),
            r.farthest_error == self.farthest_error,
    {
        let offset = term.offset();
        let (_, rest) = self.partial_string.split_at(offset);
        YState {
            partial_string: rest,
            start_offset: self.start_offset + offset,
            farthest_error: self.farthest_error,
        }
    }
}

} // verus!
