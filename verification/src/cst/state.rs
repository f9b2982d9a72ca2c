//! The state of the recogniser and the primitives that every rule of the
//! grammar is made of.
//!
//! The input is a sequence of characters and a position counts
//! characters. Matching goes from a position that may be missing (the
//! steps before have failed) to a position that may be missing: a missing
//! position stays missing, so that the steps of a sequence can be written
//! one after the other.

use vstd::prelude::*;
use vstd::string::StrSliceExecFns;

verus! {

/// What stands between the parts of a rule.
#[derive(Clone, Copy, Debug, PartialEq, Eq, Structural)]
pub enum Atomicity {
    /// Nothing is skipped, and no inner rule is recorded.
    Atomic,
    /// Nothing is skipped.
    CompoundAtomic,
    /// Comments and white space are skipped.
    NonAtomic,
}

/// Where the recogniser stands in its input.
#[derive(Debug, PartialEq, Eq)]
pub struct RuleState {
    pub input: Vec<char>,
    /// The number of characters that are behind.
    pub position: usize,
    pub atomicity: Atomicity,
}

/// The outcome of a rule: the state behind what was matched, or the state
/// as it was.
pub type RuleResult = Result<RuleState, RuleState>;

/// A position as mathematics.
pub open spec fn pos_view(at: Option<usize>) -> Option<int> {
    match at {
        Some(p) => Some(p as int),
        None => None,
    }
}

/// A position that is there and lies in the input or at its end.
pub open spec fn spec_valid(s: Seq<char>, at: Option<int>) -> bool {
    at matches Some(p) && 0 <= p <= s.len()
}

/// What is left of the input from a position on, and one more: the
/// measure by which repetition and recursion end.
pub open spec fn spec_measure(s: Seq<char>, at: Option<int>) -> nat {
    match at {
        Some(p) => if 0 <= p <= s.len() {
            (s.len() - p + 1) as nat
        } else {
            0
        },
        None => 0,
    }
}

/// The position `at`, if it lies behind `from` and in the input: the
/// condition on which a repetition goes on and a rule calls itself.
pub open spec fn spec_guard(s: Seq<char>, from: Option<int>, at: Option<int>) -> Option<int> {
    match (from, at) {
        (Some(p), Some(q)) => if 0 <= p < q <= s.len() {
            at
        } else {
            None
        },
        _ => None,
    }
}

/// The position `at`, if it does not lie before `from` and lies in the
/// input: the condition on which a rule goes on with a rule that can lead
/// back to it.
pub open spec fn spec_hold(s: Seq<char>, from: Option<int>, at: Option<int>) -> Option<int> {
    match (from, at) {
        (Some(p), Some(q)) => if 0 <= p <= q <= s.len() {
            at
        } else {
            None
        },
        _ => None,
    }
}

/// The first of two alternatives that matches.
pub open spec fn spec_first(first: Option<int>, second: Option<int>) -> Option<int> {
    if first is Some {
        first
    } else {
        second
    }
}

/// Where an optional part ends that is tried at `at`: behind the part if
/// it matches, else at `at`.
pub open spec fn spec_opt(at: Option<int>, part: Option<int>) -> Option<int> {
    if part is Some {
        part
    } else {
        at
    }
}

/// Where a negative lookahead ends that is tried at `at`: at `at` if the
/// part does not match, and nowhere if it does.
pub open spec fn spec_not(at: Option<int>, part: Option<int>) -> Option<int> {
    if part is Some {
        None
    } else {
        at
    }
}

/// The text, at the position.
pub open spec fn spec_lit(s: Seq<char>, at: Option<int>, text: Seq<char>) -> Option<int> {
    match at {
        Some(p) => if 0 <= p && p + text.len() <= s.len() && s.subrange(p, p + text.len()) == text {
            Some(p + text.len())
        } else {
            None
        },
        None => None,
    }
}

/// One character out of `set`.
pub open spec fn spec_one_of(s: Seq<char>, at: Option<int>, set: Seq<char>) -> Option<int> {
    match at {
        Some(p) => if 0 <= p < s.len() && set.contains(s[p]) {
            Some(p + 1)
        } else {
            None
        },
        None => None,
    }
}

/// One character from `lo` to `hi`, both included.
pub open spec fn spec_range(s: Seq<char>, at: Option<int>, lo: char, hi: char) -> Option<int> {
    match at {
        Some(p) => if 0 <= p < s.len() && lo as u32 <= s[p] as u32 <= hi as u32 {
            Some(p + 1)
        } else {
            None
        },
        None => None,
    }
}

/// Any one character.
pub open spec fn spec_any(s: Seq<char>, at: Option<int>) -> Option<int> {
    match at {
        Some(p) => if 0 <= p < s.len() {
            Some(p + 1)
        } else {
            None
        },
        None => None,
    }
}

/// The start of the input.
pub open spec fn spec_soi(s: Seq<char>, at: Option<int>) -> Option<int> {
    match at {
        Some(p) => if p == 0 {
            at
        } else {
            None
        },
        None => None,
    }
}

/// The end of the input.
pub open spec fn spec_eoi(s: Seq<char>, at: Option<int>) -> Option<int> {
    match at {
        Some(p) => if p == s.len() {
            at
        } else {
            None
        },
        None => None,
    }
}

/// What the Unicode tables of `pest` say of a character: whether it can
/// start an identifier.
pub uninterp spec fn is_xid_start(c: char) -> bool;

/// What the Unicode tables of `pest` say of a character: whether it can
/// continue an identifier.
pub uninterp spec fn is_xid_continue(c: char) -> bool;

/// One character that can start an identifier.
pub open spec fn spec_xid_start(s: Seq<char>, at: Option<int>) -> Option<int> {
    match at {
        Some(p) => if 0 <= p < s.len() && is_xid_start(s[p]) {
            Some(p + 1)
        } else {
            None
        },
        None => None,
    }
}

/// One character that can continue an identifier.
pub open spec fn spec_xid_continue(s: Seq<char>, at: Option<int>) -> Option<int> {
    match at {
        Some(p) => if 0 <= p < s.len() && is_xid_continue(s[p]) {
            Some(p + 1)
        } else {
            None
        },
        None => None,
    }
}

/// Calls `pest::unicode::XID_START`, a look-up in a table of the Unicode
/// property `XID_Start`: the result depends on the character alone.
#[verifier::external_body]
pub(crate) fn xid_start_char(c: char) -> (r: bool)
    ensures
        r == is_xid_start(c),
{
    pest::unicode::XID_START(c)
}

/// Calls `pest::unicode::XID_CONTINUE`, a look-up in a table of the
/// Unicode property `XID_Continue`: the result depends on the character
/// alone.
#[verifier::external_body]
pub(crate) fn xid_continue_char(c: char) -> (r: bool)
    ensures
        r == is_xid_continue(c),
{
    pest::unicode::XID_CONTINUE(c)
}

/// Whether the position is there and lies in the input or at its end.
pub fn valid(input: &Vec<char>, at: Option<usize>) -> (r: bool)
    ensures
        r == spec_valid(input@, pos_view(at)),
{
    match at {
        Some(p) => p <= input.len(),
        None => false,
    }
}

/// The position `at`, if it lies behind `from` and in the input.
pub fn guard(input: &Vec<char>, from: Option<usize>, at: Option<usize>) -> (r: Option<usize>)
    ensures
        pos_view(r) == spec_guard(input@, pos_view(from), pos_view(at)),
        r is Some ==> r == at,
{
    match (from, at) {
        (Some(p), Some(q)) => if p < q && q <= input.len() {
            at
        } else {
            None
        },
        _ => None,
    }
}

/// The position `at`, if it does not lie before `from` and lies in the
/// input.
pub fn hold(input: &Vec<char>, from: Option<usize>, at: Option<usize>) -> (r: Option<usize>)
    ensures
        pos_view(r) == spec_hold(input@, pos_view(from), pos_view(at)),
        r is Some ==> r == at,
{
    match (from, at) {
        (Some(p), Some(q)) => if p <= q && q <= input.len() {
            at
        } else {
            None
        },
        _ => None,
    }
}

/// Where an optional part ends that was tried at `at`.
pub fn opt(at: Option<usize>, part: Option<usize>) -> (r: Option<usize>)
    ensures
        pos_view(r) == spec_opt(pos_view(at), pos_view(part)),
{
    if part.is_some() {
        part
    } else {
        at
    }
}

/// Where a negative lookahead ends that was tried at `at`.
pub fn not(at: Option<usize>, part: Option<usize>) -> (r: Option<usize>)
    ensures
        pos_view(r) == spec_not(pos_view(at), pos_view(part)),
{
    if part.is_some() {
        None
    } else {
        at
    }
}

/// Matches the text at the position.
pub fn lit(input: &Vec<char>, at: Option<usize>, text: &str) -> (r: Option<usize>)
    ensures
        pos_view(r) == spec_lit(input@, pos_view(at), text@),
{
    match at {
        Some(p) => {
            let n = text.unicode_len();
            if p > input.len() || n > input.len() - p {
                return None;
            }
            let mut i: usize = 0;
            while i < n
                invariant
                    i <= n,
                    n == text@.len(),
                    p + n <= input.len(),
                    at == Some(p),
                    input@.subrange(p as int, p + i) == text@.subrange(0, i as int),
                decreases n - i,
            {
                if input[p + i] != text.get_char(i) {
                    proof {
                        assert(input@.subrange(p as int, p + n)[i as int] == input@[p + i]);
                    }
                    return None;
                }
                proof {
                    assert(input@.subrange(p as int, p + i + 1) =~= input@.subrange(
                        p as int,
                        p + i,
                    ).push(input@[p + i]));
                    assert(text@.subrange(0, i + 1) =~= text@.subrange(0, i as int).push(
                        text@[i as int],
                    ));
                }
                i = i + 1;
            }
            proof {
                assert(text@.subrange(0, n as int) =~= text@);
            }
            Some(p + n)
        },
        None => None,
    }
}

/// Matches one character out of `set`.
pub fn one_of(input: &Vec<char>, at: Option<usize>, set: &str) -> (r: Option<usize>)
    ensures
        pos_view(r) == spec_one_of(input@, pos_view(at), set@),
{
    match at {
        Some(p) => {
            if p >= input.len() {
                return None;
            }
            let c = input[p];
            let n = set.unicode_len();
            let mut i: usize = 0;
            while i < n
                invariant
                    i <= n,
                    n == set@.len(),
                    at == Some(p),
                    p < input.len(),
                    c == input@[p as int],
                    forall|j: int| 0 <= j < i ==> set@[j] != c,
                decreases n - i,
            {
                if set.get_char(i) == c {
                    proof {
                        assert(set@[i as int] == c);
                    }
                    return Some(p + 1);
                }
                i = i + 1;
            }
            None
        },
        None => None,
    }
}

/// Matches one character from `lo` to `hi`, both included.
pub fn range(input: &Vec<char>, at: Option<usize>, lo: char, hi: char) -> (r: Option<usize>)
    ensures
        pos_view(r) == spec_range(input@, pos_view(at), lo, hi),
{
    match at {
        Some(p) => if p < input.len() && lo as u32 <= input[p] as u32 && input[p] as u32 <= hi as u32 {
            Some(p + 1)
        } else {
            None
        },
        None => None,
    }
}

/// Matches any one character.
pub fn any(input: &Vec<char>, at: Option<usize>) -> (r: Option<usize>)
    ensures
        pos_view(r) == spec_any(input@, pos_view(at)),
{
    match at {
        Some(p) => if p < input.len() {
            Some(p + 1)
        } else {
            None
        },
        None => None,
    }
}

/// Matches the start of the input.
pub fn soi(input: &Vec<char>, at: Option<usize>) -> (r: Option<usize>)
    ensures
        pos_view(r) == spec_soi(input@, pos_view(at)),
{
    match at {
        Some(p) => if p == 0 {
            at
        } else {
            None
        },
        None => None,
    }
}

/// Matches the end of the input.
pub fn eoi(input: &Vec<char>, at: Option<usize>) -> (r: Option<usize>)
    ensures
        pos_view(r) == spec_eoi(input@, pos_view(at)),
{
    match at {
        Some(p) => if p == input.len() {
            at
        } else {
            None
        },
        None => None,
    }
}

/// Matches one character that can start an identifier.
pub fn xid_start(input: &Vec<char>, at: Option<usize>) -> (r: Option<usize>)
    ensures
        pos_view(r) == spec_xid_start(input@, pos_view(at)),
{
    match at {
        Some(p) => if p < input.len() && xid_start_char(input[p]) {
            Some(p + 1)
        } else {
            None
        },
        None => None,
    }
}

/// Matches one character that can continue an identifier.
pub fn xid_continue(input: &Vec<char>, at: Option<usize>) -> (r: Option<usize>)
    ensures
        pos_view(r) == spec_xid_continue(input@, pos_view(at)),
{
    match at {
        Some(p) => if p < input.len() && xid_continue_char(input[p]) {
            Some(p + 1)
        } else {
            None
        },
        None => None,
    }
}

/// What a rule that ends at `end`, or fails, makes of a state: behind the
/// match the same input and atomicity, and after a failure the state as
/// it was.
pub open spec fn rule_outcome(s: RuleState, r: RuleResult, end: Option<int>) -> bool {
    match r {
        Ok(t) => end == Some(t.position as int) && t.input == s.input && t.atomicity == s.atomicity,
        Err(t) => end is None && t == s,
    }
}

impl RuleState {
    /// The state at the start of an input, where comments and white space
    /// are skipped.
    pub fn new(input: Vec<char>) -> (r: RuleState)
        ensures
            r.input == input,
            r.position == 0,
            r.atomicity == Atomicity::NonAtomic,
    {
        RuleState { input, position: 0, atomicity: Atomicity::NonAtomic }
    }

    /// The state behind a match that ends at `end`, or the state as it
    /// is where there is no match.
    pub fn finish(self, end: Option<usize>) -> (r: RuleResult)
        ensures
            rule_outcome(self, r, pos_view(end)),
    {
        match end {
            Some(position) => Ok(
                RuleState { input: self.input, position, atomicity: self.atomicity },
            ),
            None => Err(self),
        }
    }

    /// How many characters are behind.
    pub fn position(&self) -> (r: usize)
        ensures
            r == self.position,
    {
        self.position
    }

    /// What stands between the parts of a rule.
    pub fn atomicity(&self) -> (r: Atomicity)
        ensures
            r == self.atomicity,
    {
        self.atomicity
    }
}

} // verus!
