//! Operators that decorate an expression.

use vstd::prelude::*;
use vstd::string::StrSliceExecFns;
use crate::counter::FieldCounter;

verus! {

/// A prefix or suffix modifier of an expression.
#[derive(Clone, Copy, Debug, PartialEq, Eq, Structural)]
pub enum YggdrasilOperator {
    /// `e?`: zero or one.
    Optional,
    /// `e*`: any number.
    Repeats,
    /// `e+`: at least one.
    Repeat1,
    /// `e{min, max}`: a bounded number.
    RepeatsBetween { min: u32, max: u32 },
    /// `&e`: positive lookahead.
    Positive,
    /// `!e`: negative lookahead, which captures nothing.
    Negative,
    /// `^e`: asks for the enclosed references to be tagged, or not.
    Remark,
    /// `*e`: the value is stored by reference.
    Recursive,
    /// The value is stored in a box.
    Boxing,
}

/// The operator that a prefix sign stands for, if it is one.
pub open spec fn spec_prefix(o: Seq<char>) -> Option<YggdrasilOperator> {
    if o =~= seq!['!'] {
        Some(YggdrasilOperator::Negative)
    } else if o =~= seq!['&'] {
        Some(YggdrasilOperator::Positive)
    } else if o =~= seq!['^'] {
        Some(YggdrasilOperator::Remark)
    } else if o =~= seq!['*'] {
        Some(YggdrasilOperator::Recursive)
    } else {
        None
    }
}

/// The operator that a suffix sign stands for, if it is one.
pub open spec fn spec_suffix(o: Seq<char>) -> Option<YggdrasilOperator> {
    if o =~= seq!['?'] {
        Some(YggdrasilOperator::Optional)
    } else if o =~= seq!['+'] {
        Some(YggdrasilOperator::Repeat1)
    } else if o =~= seq!['*'] {
        Some(YggdrasilOperator::Repeats)
    } else {
        None
    }
}

/// The accumulated counter of an operator chain, applied left to right
/// to a field that is captured once.
pub open spec fn spec_chain_counter(ops: Seq<YggdrasilOperator>) -> FieldCounter
    decreases ops.len(),
{
    if ops.len() == 0 {
        FieldCounter::One
    } else {
        spec_chain_counter(ops.drop_last()).spec_mul(ops.last().spec_counter())
    }
}

impl YggdrasilOperator {
    /// What the operator does to the counter of a field below it.
    pub open spec fn spec_counter(self) -> FieldCounter {
        match self {
            YggdrasilOperator::Optional => FieldCounter::Optional,
            YggdrasilOperator::Repeats => FieldCounter::Many,
            YggdrasilOperator::Repeat1 => FieldCounter::Many,
            YggdrasilOperator::RepeatsBetween { .. } => FieldCounter::Many,
            YggdrasilOperator::Negative => FieldCounter::Never,
            YggdrasilOperator::Positive => FieldCounter::One,
            YggdrasilOperator::Remark => FieldCounter::One,
            YggdrasilOperator::Recursive => FieldCounter::One,
            YggdrasilOperator::Boxing => FieldCounter::One,
        }
    }

    /// Reads one sign as a prefix operator, if it is one.
    pub fn try_prefix(o: &str) -> (r: Option<YggdrasilOperator>)
        ensures
            r == spec_prefix(o@),
    {
        if o.unicode_len() != 1 {
            return None;
        }
        let c = o.get_char(0);
        if c == '!' {
            Some(YggdrasilOperator::Negative)
        } else if c == '&' {
            Some(YggdrasilOperator::Positive)
        } else if c == '^' {
            Some(YggdrasilOperator::Remark)
        } else if c == '*' {
            Some(YggdrasilOperator::Recursive)
        } else {
            None
        }
    }

    /// Reads one sign as a suffix operator, if it is one.
    pub fn try_suffix(o: &str) -> (r: Option<YggdrasilOperator>)
        ensures
            r == spec_suffix(o@),
    {
        if o.unicode_len() != 1 {
            return None;
        }
        let c = o.get_char(0);
        if c == '?' {
            Some(YggdrasilOperator::Optional)
        } else if c == '+' {
            Some(YggdrasilOperator::Repeat1)
        } else if c == '*' {
            Some(YggdrasilOperator::Repeats)
        } else {
            None
        }
    }

    /// The operator of a prefix sign: `!`, `&`, `^` or `*`.
    pub fn prefix(o: &str) -> (r: YggdrasilOperator)
        requires
            spec_prefix(o@) is Some,
        ensures
            Some(r) == spec_prefix(o@),
    {
        match YggdrasilOperator::try_prefix(o) {
            Some(op) => op,
            None => YggdrasilOperator::Recursive,
        }
    }

    /// The operator of a suffix sign: `?`, `+` or `*`.
    pub fn suffix(o: &str) -> (r: YggdrasilOperator)
        requires
            spec_suffix(o@) is Some,
        ensures
            Some(r) == spec_suffix(o@),
    {
        match YggdrasilOperator::try_suffix(o) {
            Some(op) => op,
            None => YggdrasilOperator::Repeats,
        }
    }

    /// What the operator does to the counter of a field below it.
    pub fn counter(&self) -> (r: FieldCounter)
        ensures
            r == self.spec_counter(),
    {
        match self {
            YggdrasilOperator::Optional => FieldCounter::Optional,
            YggdrasilOperator::Repeats => FieldCounter::Many,
            YggdrasilOperator::Repeat1 => FieldCounter::Many,
            YggdrasilOperator::RepeatsBetween { .. } => FieldCounter::Many,
            YggdrasilOperator::Negative => FieldCounter::Never,
            YggdrasilOperator::Positive => FieldCounter::One,
            YggdrasilOperator::Remark => FieldCounter::One,
            YggdrasilOperator::Recursive => FieldCounter::One,
            YggdrasilOperator::Boxing => FieldCounter::One,
        }
    }
}

/// The accumulated counter of an operator chain.
pub fn chain_counter(ops: &Vec<YggdrasilOperator>) -> (r: FieldCounter)
    ensures
        r == spec_chain_counter(ops@),
{
    let mut out = FieldCounter::One;
    let mut i: usize = 0;
    while i < ops.len()
        invariant
            i <= ops.len(),
            out == spec_chain_counter(ops@.take(i as int)),
        decreases ops.len() - i,
    {
        proof {
            assert(ops@.take(i + 1).drop_last() =~= ops@.take(i as int));
        }
        out = out.mul(ops[i].counter());
        i = i + 1;
    }
    proof {
        assert(ops@.take(i as int) =~= ops@);
    }
    out
}

/// A chain holding a negative lookahead captures nothing, whatever else
/// it holds.
pub proof fn lemma_chain_with_negative(ops: Seq<YggdrasilOperator>, i: int)
    requires
        0 <= i < ops.len(),
        ops[i] == YggdrasilOperator::Negative,
    ensures
        spec_chain_counter(ops) == FieldCounter::Never,
    decreases ops.len(),
{
    if i < ops.len() - 1 {
        lemma_chain_with_negative(ops.drop_last(), i);
    }
}

/// A chain of one operator has the counter of that operator: `Many` for a
/// single `*` or `+`, `Optional` for a single `?`.
pub proof fn lemma_chain_single(op: YggdrasilOperator)
    ensures
        spec_chain_counter(seq![op]) == op.spec_counter(),
{
    assert(seq![op].drop_last() =~= Seq::<YggdrasilOperator>::empty());
    assert(spec_chain_counter(seq![op].drop_last()) == FieldCounter::One);
}

} // verus!
