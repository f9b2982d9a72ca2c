//! The structural combinators of expressions: sequence, alternation and
//! the decomposition of an n-ary node.

use vstd::prelude::*;
use std::ops::Range;
use crate::expression::{
    expressions_view, lemma_view_children, ChoiceExpression, ConcatExpression, ExpressionKind,
    ExpressionKindView, ExpressionView, UnaryExpression, YggdrasilExpression,
};
use crate::operator::YggdrasilOperator;

verus! {

/// The alternatives that an expression brings into a choice: the branches
/// of a bare choice, else the expression itself. A choice without branches
/// has nothing to bring and stays one item.
pub open spec fn choice_items(e: ExpressionView) -> Seq<ExpressionView> {
    match e.body {
        ExpressionKindView::Choice(branches) => if e.is_bare() && branches.len() > 0 {
            branches
        } else {
            seq![e]
        },
        _ => seq![e],
    }
}

/// The items that an expression brings into a sequence: the items of a
/// bare sequence, else the expression itself.
pub open spec fn concat_items(e: ExpressionView) -> Seq<ExpressionView> {
    match e.body {
        ExpressionKindView::Concat(sequence) => if e.is_bare() && sequence.len() > 0 {
            sequence
        } else {
            seq![e]
        },
        _ => seq![e],
    }
}

/// `lhs | rhs`: one bare choice over the alternatives of both sides.
pub open spec fn spec_or(lhs: ExpressionView, rhs: ExpressionView) -> ExpressionView {
    ExpressionView::bare(
        ExpressionKindView::Choice(choice_items(lhs) + choice_items(rhs)),
        Range { start: lhs.range.start, end: rhs.range.end },
    )
}

/// `lhs ~ rhs`: one bare sequence over the items of both sides.
pub open spec fn spec_and(lhs: ExpressionView, rhs: ExpressionView) -> ExpressionView {
    ExpressionView::bare(
        ExpressionKindView::Concat(concat_items(lhs) + concat_items(rhs)),
        Range { start: lhs.range.start, end: rhs.range.end },
    )
}

/// All the alternatives that a list of expressions brings into a choice.
pub open spec fn flatten_choice(items: Seq<ExpressionView>) -> Seq<ExpressionView>
    decreases items.len(),
{
    if items.len() == 0 {
        Seq::empty()
    } else {
        flatten_choice(items.drop_last()) + choice_items(items.last())
    }
}

/// All the items that a list of expressions brings into a sequence.
pub open spec fn flatten_concat(items: Seq<ExpressionView>) -> Seq<ExpressionView>
    decreases items.len(),
{
    if items.len() == 0 {
        Seq::empty()
    } else {
        flatten_concat(items.drop_last()) + concat_items(items.last())
    }
}

/// `items[0] | items[1] | ..`, folded from the left.
pub open spec fn or_fold_left(items: Seq<ExpressionView>) -> ExpressionView
    recommends
        items.len() > 0,
    decreases items.len(),
{
    if items.len() <= 1 {
        items[0]
    } else {
        spec_or(or_fold_left(items.drop_last()), items.last())
    }
}

/// `items[0] | (items[1] | ..)`, folded from the right.
pub open spec fn or_fold_right(items: Seq<ExpressionView>) -> ExpressionView
    recommends
        items.len() > 0,
    decreases items.len(),
{
    if items.len() <= 1 {
        items[0]
    } else {
        spec_or(items[0], or_fold_right(items.drop_first()))
    }
}

/// `items[0] ~ items[1] ~ ..`, folded from the left.
pub open spec fn and_fold_left(items: Seq<ExpressionView>) -> ExpressionView
    recommends
        items.len() > 0,
    decreases items.len(),
{
    if items.len() <= 1 {
        items[0]
    } else {
        spec_and(and_fold_left(items.drop_last()), items.last())
    }
}

/// `items[0] ~ (items[1] ~ ..)`, folded from the right.
pub open spec fn and_fold_right(items: Seq<ExpressionView>) -> ExpressionView
    recommends
        items.len() > 0,
    decreases items.len(),
{
    if items.len() <= 1 {
        items[0]
    } else {
        spec_and(items[0], and_fold_right(items.drop_first()))
    }
}

/// Alternation is associative.
pub proof fn lemma_or_associative(a: ExpressionView, b: ExpressionView, c: ExpressionView)
    ensures
        spec_or(spec_or(a, b), c) == spec_or(a, spec_or(b, c)),
{
    let x = choice_items(a);
    let y = choice_items(b);
    let z = choice_items(c);
    assert(choice_items(spec_or(a, b)) == x + y);
    assert(choice_items(spec_or(b, c)) == y + z);
    assert((x + y) + z =~= x + (y + z));
}

/// Sequencing is associative.
pub proof fn lemma_and_associative(a: ExpressionView, b: ExpressionView, c: ExpressionView)
    ensures
        spec_and(spec_and(a, b), c) == spec_and(a, spec_and(b, c)),
{
    let x = concat_items(a);
    let y = concat_items(b);
    let z = concat_items(c);
    assert(concat_items(spec_and(a, b)) == x + y);
    assert(concat_items(spec_and(b, c)) == y + z);
    assert((x + y) + z =~= x + (y + z));
}

/// A single expression brings its own alternatives.
pub proof fn lemma_flatten_choice_one(items: Seq<ExpressionView>)
    requires
        items.len() == 1,
    ensures
        flatten_choice(items) == choice_items(items[0]),
{
    assert(items.drop_last() =~= Seq::<ExpressionView>::empty());
    assert(flatten_choice(items.drop_last()) =~= Seq::<ExpressionView>::empty());
    assert(flatten_choice(items) =~= choice_items(items[0]));
}

/// A single expression brings its own items.
pub proof fn lemma_flatten_concat_one(items: Seq<ExpressionView>)
    requires
        items.len() == 1,
    ensures
        flatten_concat(items) == concat_items(items[0]),
{
    assert(items.drop_last() =~= Seq::<ExpressionView>::empty());
    assert(flatten_concat(items.drop_last()) =~= Seq::<ExpressionView>::empty());
    assert(flatten_concat(items) =~= concat_items(items[0]));
}

/// Every expression brings at least one alternative.
pub proof fn lemma_flatten_choice_len(items: Seq<ExpressionView>)
    ensures
        flatten_choice(items).len() >= items.len(),
    decreases items.len(),
{
    if items.len() > 0 {
        lemma_flatten_choice_len(items.drop_last());
    }
}

/// Every expression brings at least one item.
pub proof fn lemma_flatten_concat_len(items: Seq<ExpressionView>)
    ensures
        flatten_concat(items).len() >= items.len(),
    decreases items.len(),
{
    if items.len() > 0 {
        lemma_flatten_concat_len(items.drop_last());
    }
}

/// Flattening can be taken from the front as well as from the back.
pub proof fn lemma_flatten_choice_front(items: Seq<ExpressionView>)
    requires
        items.len() > 0,
    ensures
        flatten_choice(items) == choice_items(items[0]) + flatten_choice(items.drop_first()),
    decreases items.len(),
{
    if items.len() == 1 {
        lemma_flatten_choice_one(items);
        assert(items.drop_first() =~= Seq::<ExpressionView>::empty());
        assert(flatten_choice(items) =~= choice_items(items[0]) + flatten_choice(
            items.drop_first(),
        ));
    } else {
        lemma_flatten_choice_front(items.drop_last());
        assert(items.drop_last().drop_first() =~= items.drop_first().drop_last());
        assert(items.drop_first().last() == items.last());
        assert(items.drop_last()[0] == items[0]);
        assert(flatten_choice(items) =~= choice_items(items[0]) + flatten_choice(
            items.drop_first(),
        ));
    }
}

/// Flattening can be taken from the front as well as from the back.
pub proof fn lemma_flatten_concat_front(items: Seq<ExpressionView>)
    requires
        items.len() > 0,
    ensures
        flatten_concat(items) == concat_items(items[0]) + flatten_concat(items.drop_first()),
    decreases items.len(),
{
    if items.len() == 1 {
        lemma_flatten_concat_one(items);
        assert(items.drop_first() =~= Seq::<ExpressionView>::empty());
        assert(flatten_concat(items) =~= concat_items(items[0]) + flatten_concat(
            items.drop_first(),
        ));
    } else {
        lemma_flatten_concat_front(items.drop_last());
        assert(items.drop_last().drop_first() =~= items.drop_first().drop_last());
        assert(items.drop_first().last() == items.last());
        assert(items.drop_last()[0] == items[0]);
        assert(flatten_concat(items) =~= concat_items(items[0]) + flatten_concat(
            items.drop_first(),
        ));
    }
}

/// A left fold of two or more expressions is the bare choice over all
/// their alternatives.
pub proof fn lemma_or_fold_left(items: Seq<ExpressionView>)
    requires
        items.len() >= 2,
    ensures
        or_fold_left(items) == ExpressionView::bare(
            ExpressionKindView::Choice(flatten_choice(items)),
            Range { start: items[0].range.start, end: items.last().range.end },
        ),
    decreases items.len(),
{
    let front = items.drop_last();
    if items.len() == 2 {
        lemma_flatten_choice_one(front);
    } else {
        lemma_or_fold_left(front);
        lemma_flatten_choice_len(front);
        assert(choice_items(or_fold_left(front)) == flatten_choice(front));
    }
}

/// A right fold of two or more expressions is the bare choice over all
/// their alternatives.
pub proof fn lemma_or_fold_right(items: Seq<ExpressionView>)
    requires
        items.len() >= 2,
    ensures
        or_fold_right(items) == ExpressionView::bare(
            ExpressionKindView::Choice(flatten_choice(items)),
            Range { start: items[0].range.start, end: items.last().range.end },
        ),
    decreases items.len(),
{
    let back = items.drop_first();
    lemma_flatten_choice_front(items);
    if items.len() == 2 {
        lemma_flatten_choice_one(back);
    } else {
        lemma_or_fold_right(back);
        lemma_flatten_choice_len(back);
        assert(choice_items(or_fold_right(back)) == flatten_choice(back));
    }
}

/// A left fold of two or more expressions is the bare sequence over all
/// their items.
pub proof fn lemma_and_fold_left(items: Seq<ExpressionView>)
    requires
        items.len() >= 2,
    ensures
        and_fold_left(items) == ExpressionView::bare(
            ExpressionKindView::Concat(flatten_concat(items)),
            Range { start: items[0].range.start, end: items.last().range.end },
        ),
    decreases items.len(),
{
    let front = items.drop_last();
    if items.len() == 2 {
        lemma_flatten_concat_one(front);
    } else {
        lemma_and_fold_left(front);
        lemma_flatten_concat_len(front);
        assert(concat_items(and_fold_left(front)) == flatten_concat(front));
    }
}

/// A right fold of two or more expressions is the bare sequence over all
/// their items.
pub proof fn lemma_and_fold_right(items: Seq<ExpressionView>)
    requires
        items.len() >= 2,
    ensures
        and_fold_right(items) == ExpressionView::bare(
            ExpressionKindView::Concat(flatten_concat(items)),
            Range { start: items[0].range.start, end: items.last().range.end },
        ),
    decreases items.len(),
{
    let back = items.drop_first();
    lemma_flatten_concat_front(items);
    if items.len() == 2 {
        lemma_flatten_concat_one(back);
    } else {
        lemma_and_fold_right(back);
        lemma_flatten_concat_len(back);
        assert(concat_items(and_fold_right(back)) == flatten_concat(back));
    }
}

/// Folding a list of alternatives from the left or from the right gives
/// the same flattened choice.
pub proof fn lemma_or_fold_order(items: Seq<ExpressionView>)
    requires
        items.len() > 0,
    ensures
        or_fold_left(items) == or_fold_right(items),
{
    if items.len() >= 2 {
        lemma_or_fold_left(items);
        lemma_or_fold_right(items);
    }
}

/// Folding a list of items from the left or from the right gives the same
/// flattened sequence.
pub proof fn lemma_and_fold_order(items: Seq<ExpressionView>)
    requires
        items.len() > 0,
    ensures
        and_fold_left(items) == and_fold_right(items),
{
    if items.len() >= 2 {
        lemma_and_fold_left(items);
        lemma_and_fold_right(items);
    }
}

impl YggdrasilExpression {
    /// A fresh node without annotations.
    pub fn new(body: ExpressionKind, range: Range<usize>) -> (r: YggdrasilExpression)
        ensures
            r.body == body,
            r.range == range,
            r.tag is None,
            r.node_tag is None,
            r.ty is None,
            !r.remark,
            r@.is_bare(),
    {
        YggdrasilExpression { body, tag: None, node_tag: None, ty: None, remark: false, range }
    }

    /// Whether the node carries no annotation of its own.
    pub fn is_bare(&self) -> (r: bool)
        ensures
            r == self@.is_bare(),
    {
        self.tag.is_none() && self.node_tag.is_none() && self.ty.is_none() && !self.remark
    }

    /// The alternatives that this expression brings into a choice.
    pub fn into_choice_items(self) -> (r: Vec<YggdrasilExpression>)
        ensures
            expressions_view(r@) == choice_items(self@),
    {
        let flat = self.is_bare() && match &self.body {
            ExpressionKind::Choice(c) => c.branches.len() > 0,
            _ => false,
        };
        proof {
            lemma_view_children(self);
        }
        if flat {
            match self.body {
                ExpressionKind::Choice(c) => c.branches,
                _ => Vec::new(),
            }
        } else {
            let ghost v = self@;
            let mut out: Vec<YggdrasilExpression> = Vec::new();
            out.push(self);
            proof {
                assert(expressions_view(out@) =~= seq![v]);
            }
            out
        }
    }

    /// The items that this expression brings into a sequence.
    pub fn into_concat_items(self) -> (r: Vec<YggdrasilExpression>)
        ensures
            expressions_view(r@) == concat_items(self@),
    {
        let flat = self.is_bare() && match &self.body {
            ExpressionKind::Concat(c) => c.sequence.len() > 0,
            _ => false,
        };
        proof {
            lemma_view_children(self);
        }
        if flat {
            match self.body {
                ExpressionKind::Concat(c) => c.sequence,
                _ => Vec::new(),
            }
        } else {
            let ghost v = self@;
            let mut out: Vec<YggdrasilExpression> = Vec::new();
            out.push(self);
            proof {
                assert(expressions_view(out@) =~= seq![v]);
            }
            out
        }
    }

    /// `self | rhs`: builds one choice, or extends the choice that either
    /// side already is, in place of nesting binary pairs.
    pub fn or(self, rhs: YggdrasilExpression) -> (r: YggdrasilExpression)
        ensures
            r@ == spec_or(self@, rhs@),
    {
        let start = self.range.start;
        let end = rhs.range.end;
        let ghost l = self@;
        let ghost rv = rhs@;
        let mut branches = self.into_choice_items();
        let mut more = rhs.into_choice_items();
        let ghost a = branches@;
        let ghost b = more@;
        branches.append(&mut more);
        let out = YggdrasilExpression::new(
            ExpressionKind::Choice(ChoiceExpression { branches }),
            Range { start, end },
        );
        proof {
            lemma_view_children(out);
            assert(expressions_view(a + b) =~= expressions_view(a) + expressions_view(b));
        }
        out
    }

    /// `self ~ rhs`: builds one sequence, or extends the sequence that
    /// either side already is, in place of nesting binary pairs.
    pub fn and(self, rhs: YggdrasilExpression) -> (r: YggdrasilExpression)
        ensures
            r@ == spec_and(self@, rhs@),
    {
        let start = self.range.start;
        let end = rhs.range.end;
        let mut sequence = self.into_concat_items();
        let mut more = rhs.into_concat_items();
        let ghost a = sequence@;
        let ghost b = more@;
        sequence.append(&mut more);
        let out = YggdrasilExpression::new(
            ExpressionKind::Concat(ConcatExpression { sequence }),
            Range { start, end },
        );
        proof {
            lemma_view_children(out);
            assert(expressions_view(a + b) =~= expressions_view(a) + expressions_view(b));
        }
        out
    }
}

impl YggdrasilExpression {
    /// `base` under one operator: a fresh node over the range of `base`.
    pub fn unary(base: YggdrasilExpression, operator: YggdrasilOperator) -> (r:
        YggdrasilExpression)
        ensures
            r@ == ExpressionView::bare(
                ExpressionKindView::Unary(Box::new(base@), seq![operator]),
                base.range,
            ),
    {
        let range = Range { start: base.range.start, end: base.range.end };
        let mut operators: Vec<YggdrasilOperator> = Vec::new();
        operators.push(operator);
        proof {
            assert(operators@ =~= seq![operator]);
        }
        YggdrasilExpression::new(
            ExpressionKind::Unary(UnaryExpression { base: Box::new(base), operators }),
            range,
        )
    }

    /// The terms of a class body as one expression: the terms and-folded
    /// from the first on, and nothing for no term.
    pub fn concat_all(terms: &Vec<YggdrasilExpression>) -> (r: Option<YggdrasilExpression>)
        ensures
            r is None <==> terms@.len() == 0,
            r matches Some(e) ==> e@ == and_fold_left(expressions_view(terms@)),
    {
        if terms.len() == 0 {
            return None;
        }
        let ghost all = expressions_view(terms@);
        let mut out = terms[0].clone();
        let mut i: usize = 1;
        proof {
            assert(all.take(1)[0] == all[0]);
        }
        while i < terms.len()
            invariant
                1 <= i <= terms.len(),
                all == expressions_view(terms@),
                out@ == and_fold_left(all.take(i as int)),
            decreases terms.len() - i,
        {
            proof {
                assert(all.take(i + 1).drop_last() =~= all.take(i as int));
                assert(all.take(i + 1).last() == all[i as int]);
            }
            out = out.and(terms[i].clone());
            i = i + 1;
        }
        proof {
            assert(all.take(i as int) =~= all);
        }
        Some(out)
    }

    /// The alternatives of a pattern as one expression: the alternatives
    /// or-folded from the first on, and nothing for no alternative.
    pub fn choice_all(terms: &Vec<YggdrasilExpression>) -> (r: Option<YggdrasilExpression>)
        ensures
            r is None <==> terms@.len() == 0,
            r matches Some(e) ==> e@ == or_fold_left(expressions_view(terms@)),
    {
        if terms.len() == 0 {
            return None;
        }
        let ghost all = expressions_view(terms@);
        let mut out = terms[0].clone();
        let mut i: usize = 1;
        proof {
            assert(all.take(1)[0] == all[0]);
        }
        while i < terms.len()
            invariant
                1 <= i <= terms.len(),
                all == expressions_view(terms@),
                out@ == or_fold_left(all.take(i as int)),
            decreases terms.len() - i,
        {
            proof {
                assert(all.take(i + 1).drop_last() =~= all.take(i as int));
                assert(all.take(i + 1).last() == all[i as int]);
            }
            out = out.or(terms[i].clone());
            i = i + 1;
        }
        proof {
            assert(all.take(i as int) =~= all);
        }
        Some(out)
    }
}

/// The first item of a list and the items after it.
fn split_items(items: &Vec<YggdrasilExpression>) -> (r: (
    YggdrasilExpression,
    Vec<YggdrasilExpression>,
))
    requires
        items.len() > 0,
    ensures
        r.0@ == items[0]@,
        expressions_view(r.1@) == expressions_view(items@).drop_first(),
{
    let head = items[0].clone();
    let mut rest: Vec<YggdrasilExpression> = Vec::new();
    let mut i: usize = 1;
    while i < items.len()
        invariant
            1 <= i <= items.len(),
            rest@.len() == i - 1,
            forall|j: int| 0 <= j < i - 1 ==> rest@[j]@ == items@[j + 1]@,
        decreases items.len() - i,
    {
        rest.push(items[i].clone());
        i = i + 1;
    }
    proof {
        assert(expressions_view(rest@) =~= expressions_view(items@).drop_first());
    }
    (head, rest)
}

impl ChoiceExpression {
    /// The first branch and the branches after it: what a fold over the
    /// choice starts from and goes through.
    pub fn split(&self) -> (r: (YggdrasilExpression, Vec<YggdrasilExpression>))
        requires
            self.branches.len() > 0,
        ensures
            r.0@ == self.branches[0]@,
            expressions_view(r.1@) == expressions_view(self.branches@).drop_first(),
    {
        split_items(&self.branches)
    }
}

impl ConcatExpression {
    /// The first item and the items after it: what a fold over the
    /// sequence starts from and goes through.
    pub fn split(&self) -> (r: (YggdrasilExpression, Vec<YggdrasilExpression>))
        requires
            self.sequence.len() > 0,
        ensures
            r.0@ == self.sequence[0]@,
            expressions_view(r.1@) == expressions_view(self.sequence@).drop_first(),
    {
        split_items(&self.sequence)
    }
}

} // verus!
