//! The cardinality lattice attached to every inferred field.

use vstd::prelude::*;

verus! {

/// How many times a field can be populated in one syntax-tree node.
#[derive(Clone, Copy, Debug, PartialEq, Eq, Structural)]
pub enum FieldCounter {
    /// The field cannot appear.
    Never,
    /// Zero or one occurrence.
    Optional,
    /// Exactly one occurrence.
    One,
    /// Any number of occurrences, zero included.
    Many,
}

impl FieldCounter {
    /// The counter of a field captured on both sides of a sequence.
    ///
    /// `Never` absorbs. Two captures that are both certain keep the strict
    /// requirement `One`; as soon as one side may be absent or repeated the
    /// field is a list.
    pub open spec fn spec_and(self, rhs: FieldCounter) -> FieldCounter {
        if self == FieldCounter::Never || rhs == FieldCounter::Never {
            FieldCounter::Never
        } else if self == FieldCounter::One && rhs == FieldCounter::One {
            FieldCounter::One
        } else {
            FieldCounter::Many
        }
    }

    /// The counter of a field captured by two alternatives: the weaker of
    /// the two, where `Never` beside a field that can appear makes the field
    /// at most optional.
    pub open spec fn spec_or(self, rhs: FieldCounter) -> FieldCounter {
        if self == rhs {
            self
        } else if self == FieldCounter::Many || rhs == FieldCounter::Many {
            FieldCounter::Many
        } else {
            FieldCounter::Optional
        }
    }

    /// The counter of a field under one more operator.
    ///
    /// `Never` absorbs, then `Many`, then `Optional`; `One` is neutral.
    pub open spec fn spec_mul(self, rhs: FieldCounter) -> FieldCounter {
        if self == FieldCounter::Never || rhs == FieldCounter::Never {
            FieldCounter::Never
        } else if self == FieldCounter::Many || rhs == FieldCounter::Many {
            FieldCounter::Many
        } else if self == FieldCounter::Optional || rhs == FieldCounter::Optional {
            FieldCounter::Optional
        } else {
            FieldCounter::One
        }
    }

    /// The counter that a field has in an alternative beside one that does
    /// not capture it.
    pub open spec fn spec_or_absent(self) -> FieldCounter {
        self.spec_or(FieldCounter::Never)
    }

    /// Combines the counters of one field across a sequence.
    pub fn and(self, rhs: FieldCounter) -> (r: FieldCounter)
        ensures
            r == self.spec_and(rhs),
    {
        match (self, rhs) {
            (FieldCounter::Never, _) => FieldCounter::Never,
            (_, FieldCounter::Never) => FieldCounter::Never,
            (FieldCounter::One, FieldCounter::One) => FieldCounter::One,
            _ => FieldCounter::Many,
        }
    }

    /// Combines the counters of one field across two alternatives.
    pub fn or(self, rhs: FieldCounter) -> (r: FieldCounter)
        ensures
            r == self.spec_or(rhs),
    {
        match (self, rhs) {
            (FieldCounter::Never, FieldCounter::Never) => FieldCounter::Never,
            (FieldCounter::One, FieldCounter::One) => FieldCounter::One,
            (FieldCounter::Many, _) => FieldCounter::Many,
            (_, FieldCounter::Many) => FieldCounter::Many,
            _ => FieldCounter::Optional,
        }
    }

    /// Composes a counter with the contribution of one more operator.
    pub fn mul(self, rhs: FieldCounter) -> (r: FieldCounter)
        ensures
            r == self.spec_mul(rhs),
    {
        match (self, rhs) {
            (FieldCounter::Never, _) => FieldCounter::Never,
            (_, FieldCounter::Never) => FieldCounter::Never,
            (FieldCounter::Many, _) => FieldCounter::Many,
            (_, FieldCounter::Many) => FieldCounter::Many,
            (FieldCounter::Optional, _) => FieldCounter::Optional,
            (_, FieldCounter::Optional) => FieldCounter::Optional,
            _ => FieldCounter::One,
        }
    }

    /// The counter of a field that only one of two alternatives captures.
    pub fn or_absent(self) -> (r: FieldCounter)
        ensures
            r == self.spec_or_absent(),
    {
        self.or(FieldCounter::Never)
    }
}

/// An alternative beside itself changes nothing: `a | a == a`.
pub proof fn lemma_or_idempotent(a: FieldCounter)
    ensures
        a.spec_or(a) == a,
{
}

/// Alternatives can be swapped, and nested either way.
pub proof fn lemma_or_commutative_associative(a: FieldCounter, b: FieldCounter, c: FieldCounter)
    ensures
        a.spec_or(b) == b.spec_or(a),
        a.spec_or(b).spec_or(c) == a.spec_or(b.spec_or(c)),
{
}

/// An alternative never narrows: the weaker counter wins, so that with
/// `One`, `Optional` gives `Optional`, and with either of them `Many` gives
/// `Many`.
pub proof fn lemma_or_widens(a: FieldCounter)
    ensures
        FieldCounter::One.spec_or(FieldCounter::Optional) == FieldCounter::Optional,
        FieldCounter::One.spec_or(FieldCounter::Many) == FieldCounter::Many,
        FieldCounter::Optional.spec_or(FieldCounter::Many) == FieldCounter::Many,
        a.spec_or(FieldCounter::Many) == FieldCounter::Many,
        FieldCounter::Many.spec_or(a) == FieldCounter::Many,
{
}

/// In a sequence `Never` absorbs on either side: `a & Never == Never`.
pub proof fn lemma_and_never(a: FieldCounter)
    ensures
        a.spec_and(FieldCounter::Never) == FieldCounter::Never,
        FieldCounter::Never.spec_and(a) == FieldCounter::Never,
{
}

/// Sequences can be swapped, and nested either way.
pub proof fn lemma_and_commutative_associative(a: FieldCounter, b: FieldCounter, c: FieldCounter)
    ensures
        a.spec_and(b) == b.spec_and(a),
        a.spec_and(b).spec_and(c) == a.spec_and(b.spec_and(c)),
{
}

/// Under repetition `Never` is absorbing, `One` is neutral, and `Many`
/// absorbs everything but `Never`.
pub proof fn lemma_mul_laws(a: FieldCounter)
    ensures
        FieldCounter::Never.spec_mul(a) == FieldCounter::Never,
        a.spec_mul(FieldCounter::Never) == FieldCounter::Never,
        FieldCounter::One.spec_mul(a) == a,
        a.spec_mul(FieldCounter::One) == a,
        a != FieldCounter::Never ==> a.spec_mul(FieldCounter::Many) == FieldCounter::Many,
        FieldCounter::One.spec_mul(FieldCounter::Optional) == FieldCounter::Optional,
{
}

/// Repetition can be swapped, and nested either way.
pub proof fn lemma_mul_commutative_associative(a: FieldCounter, b: FieldCounter, c: FieldCounter)
    ensures
        a.spec_mul(b) == b.spec_mul(a),
        a.spec_mul(b).spec_mul(c) == a.spec_mul(b.spec_mul(c)),
{
}

} // verus!
