//! Refinement: the pass that brings every rule body to its flattened,
//! canonical shape.

use vstd::prelude::*;
use std::ops::Range;
use crate::algebra::{
    choice_items, concat_items, flatten_choice, flatten_concat, lemma_flatten_choice_len,
    lemma_flatten_choice_one, lemma_flatten_concat_len, lemma_flatten_concat_one,
};
use crate::errors::{errors_view, ErrorView, Validation, YggdrasilError};
use crate::grammar::{GrammarInfo, GrammarView};
use crate::optimize::{run_rule_pass, spec_rule_pass, CodeOptimizer, RulePass};
use crate::rule::{GrammarRule, RuleView};
use crate::expression::{
    clone_identifier, clone_operators, expressions_view, lemma_view_children, ChoiceExpression,
    ConcatExpression, ExpressionKind, ExpressionKindView, ExpressionView, UnaryExpression,
    YggdrasilExpression,
};

verus! {

/// The refined form of an expression.
///
/// Children are refined first. A choice then takes in the branches of
/// every bare choice among its branches, and a sequence the items of every
/// bare sequence among its items; a bare node around a single child gives
/// way to that child. The operators of a unary node stay as they are, and
/// so does every annotation of a node that stays.
pub open spec fn spec_refine(e: ExpressionView) -> ExpressionView
    decreases e,
{
    match e.body {
        ExpressionKindView::Choice(branches) => {
            if branches.len() == 0 {
                e
            } else if branches.len() == 1 && e.is_bare() {
                refine_each(branches)[0]
            } else {
                ExpressionView {
                    body: ExpressionKindView::Choice(flatten_choice(refine_each(branches))),
                    ..e
                }
            }
        },
        ExpressionKindView::Concat(sequence) => {
            if sequence.len() == 0 {
                e
            } else if sequence.len() == 1 && e.is_bare() {
                refine_each(sequence)[0]
            } else {
                ExpressionView {
                    body: ExpressionKindView::Concat(flatten_concat(refine_each(sequence))),
                    ..e
                }
            }
        },
        ExpressionKindView::Unary(base, operators) => ExpressionView {
            body: ExpressionKindView::Unary(Box::new(spec_refine(*base)), operators),
            ..e
        },
        _ => e,
    }
}

/// The refined forms of a list of expressions, item by item.
pub open spec fn refine_each(items: Seq<ExpressionView>) -> Seq<ExpressionView>
    decreases items,
{
    Seq::new(
        items.len(),
        |i: int|
            if 0 <= i < items.len() {
                spec_refine(items[i])
            } else {
                arbitrary()
            },
    )
}

/// An expression that a choice holds as one alternative.
pub open spec fn is_choice_atom(e: ExpressionView) -> bool {
    choice_items(e) == seq![e]
}

/// An expression that a sequence holds as one item.
pub open spec fn is_concat_atom(e: ExpressionView) -> bool {
    concat_items(e) == seq![e]
}

/// The canonical shape: below every choice no bare choice is left that
/// has branches, below every sequence no bare sequence that has items, and
/// no bare node stands around a single child.
pub open spec fn is_refined(e: ExpressionView) -> bool
    decreases e,
{
    match e.body {
        ExpressionKindView::Choice(branches) => {
            &&& !(branches.len() == 1 && e.is_bare())
            &&& forall|i: int|
                0 <= i < branches.len() ==> is_refined(#[trigger] branches[i]) && is_choice_atom(
                    branches[i],
                )
        },
        ExpressionKindView::Concat(sequence) => {
            &&& !(sequence.len() == 1 && e.is_bare())
            &&& forall|i: int|
                0 <= i < sequence.len() ==> is_refined(#[trigger] sequence[i]) && is_concat_atom(
                    sequence[i],
                )
        },
        ExpressionKindView::Unary(base, operators) => is_refined(*base),
        _ => true,
    }
}

proof fn lemma_choice_items_of_refined(e: ExpressionView)
    requires
        is_refined(e),
    ensures
        forall|i: int|
            0 <= i < choice_items(e).len() ==> is_refined(#[trigger] choice_items(e)[i])
                && is_choice_atom(choice_items(e)[i]),
{
}

proof fn lemma_concat_items_of_refined(e: ExpressionView)
    requires
        is_refined(e),
    ensures
        forall|i: int|
            0 <= i < concat_items(e).len() ==> is_refined(#[trigger] concat_items(e)[i])
                && is_concat_atom(concat_items(e)[i]),
{
}

proof fn lemma_flatten_choice_of_refined(items: Seq<ExpressionView>)
    requires
        forall|i: int| 0 <= i < items.len() ==> is_refined(#[trigger] items[i]),
    ensures
        forall|i: int|
            0 <= i < flatten_choice(items).len() ==> is_refined(#[trigger] flatten_choice(items)[i])
                && is_choice_atom(flatten_choice(items)[i]),
    decreases items.len(),
{
    if items.len() > 0 {
        let front = flatten_choice(items.drop_last());
        let back = choice_items(items.last());
        lemma_flatten_choice_of_refined(items.drop_last());
        lemma_choice_items_of_refined(items.last());
        assert forall|i: int| 0 <= i < flatten_choice(items).len() implies is_refined(
            #[trigger] flatten_choice(items)[i],
        ) && is_choice_atom(flatten_choice(items)[i]) by {
            if i < front.len() {
                assert(flatten_choice(items)[i] == front[i]);
            } else {
                assert(flatten_choice(items)[i] == back[i - front.len()]);
            }
        }
    }
}

proof fn lemma_flatten_concat_of_refined(items: Seq<ExpressionView>)
    requires
        forall|i: int| 0 <= i < items.len() ==> is_refined(#[trigger] items[i]),
    ensures
        forall|i: int|
            0 <= i < flatten_concat(items).len() ==> is_refined(#[trigger] flatten_concat(items)[i])
                && is_concat_atom(flatten_concat(items)[i]),
    decreases items.len(),
{
    if items.len() > 0 {
        let front = flatten_concat(items.drop_last());
        let back = concat_items(items.last());
        lemma_flatten_concat_of_refined(items.drop_last());
        lemma_concat_items_of_refined(items.last());
        assert forall|i: int| 0 <= i < flatten_concat(items).len() implies is_refined(
            #[trigger] flatten_concat(items)[i],
        ) && is_concat_atom(flatten_concat(items)[i]) by {
            if i < front.len() {
                assert(flatten_concat(items)[i] == front[i]);
            } else {
                assert(flatten_concat(items)[i] == back[i - front.len()]);
            }
        }
    }
}

proof fn lemma_flatten_choice_of_atoms(items: Seq<ExpressionView>)
    requires
        forall|i: int| 0 <= i < items.len() ==> is_choice_atom(#[trigger] items[i]),
    ensures
        flatten_choice(items) == items,
    decreases items.len(),
{
    if items.len() > 0 {
        lemma_flatten_choice_of_atoms(items.drop_last());
        assert(items.drop_last() + seq![items.last()] =~= items);
    } else {
        assert(flatten_choice(items) =~= items);
    }
}

proof fn lemma_flatten_concat_of_atoms(items: Seq<ExpressionView>)
    requires
        forall|i: int| 0 <= i < items.len() ==> is_concat_atom(#[trigger] items[i]),
    ensures
        flatten_concat(items) == items,
    decreases items.len(),
{
    if items.len() > 0 {
        lemma_flatten_concat_of_atoms(items.drop_last());
        assert(items.drop_last() + seq![items.last()] =~= items);
    } else {
        assert(flatten_concat(items) =~= items);
    }
}

/// Refinement reaches the canonical shape.
pub proof fn lemma_refine_is_refined(e: ExpressionView)
    ensures
        is_refined(spec_refine(e)),
    decreases e,
{
    match e.body {
        ExpressionKindView::Choice(branches) => {
            let refined = refine_each(branches);
            assert forall|i: int| 0 <= i < branches.len() implies is_refined(
                #[trigger] refined[i],
            ) by {
                lemma_refine_is_refined(branches[i]);
            }
            if branches.len() > 0 {
                if !(branches.len() == 1 && e.is_bare()) {
                    lemma_flatten_choice_of_refined(refined);
                    lemma_flatten_choice_len(refined);
                }
            }
        },
        ExpressionKindView::Concat(sequence) => {
            let refined = refine_each(sequence);
            assert forall|i: int| 0 <= i < sequence.len() implies is_refined(
                #[trigger] refined[i],
            ) by {
                lemma_refine_is_refined(sequence[i]);
            }
            if sequence.len() > 0 {
                if !(sequence.len() == 1 && e.is_bare()) {
                    lemma_flatten_concat_of_refined(refined);
                    lemma_flatten_concat_len(refined);
                }
            }
        },
        ExpressionKindView::Unary(base, operators) => {
            lemma_refine_is_refined(*base);
        },
        _ => {},
    }
}

/// Refinement leaves an expression of the canonical shape as it is.
pub proof fn lemma_refined_is_fixed(e: ExpressionView)
    requires
        is_refined(e),
    ensures
        spec_refine(e) == e,
    decreases e,
{
    match e.body {
        ExpressionKindView::Choice(branches) => {
            assert forall|i: int| 0 <= i < branches.len() implies #[trigger] refine_each(
                branches,
            )[i] == branches[i] by {
                lemma_refined_is_fixed(branches[i]);
            }
            assert(refine_each(branches) =~= branches);
            lemma_flatten_choice_of_atoms(branches);
        },
        ExpressionKindView::Concat(sequence) => {
            assert forall|i: int| 0 <= i < sequence.len() implies #[trigger] refine_each(
                sequence,
            )[i] == sequence[i] by {
                lemma_refined_is_fixed(sequence[i]);
            }
            assert(refine_each(sequence) =~= sequence);
            lemma_flatten_concat_of_atoms(sequence);
        },
        ExpressionKindView::Unary(base, operators) => {
            lemma_refined_is_fixed(*base);
        },
        _ => {},
    }
}

/// Refinement is idempotent: refining twice gives what refining once
/// gives, for every expression tree.
pub proof fn lemma_refine_idempotent(e: ExpressionView)
    ensures
        spec_refine(spec_refine(e)) == spec_refine(e),
{
    lemma_refine_is_refined(e);
    lemma_refined_is_fixed(spec_refine(e));
}

/// A sequence directly inside a bare sequence is taken in, and a choice
/// directly inside a bare choice: `(a ~ b) ~ c` becomes the sequence of
/// `a`, `b`, `c`, and `a | (b | c)` the choice of `a`, `b`, `c`, where
/// `a`, `b` and `c` are of canonical shape and stand on their own.
pub proof fn lemma_refine_flattens(
    a: ExpressionView,
    b: ExpressionView,
    c: ExpressionView,
    inner: Range<usize>,
    outer: Range<usize>,
)
    requires
        is_refined(a),
        is_refined(b),
        is_refined(c),
    ensures
        is_concat_atom(a) && is_concat_atom(b) && is_concat_atom(c) ==> spec_refine(
            ExpressionView::bare(
                ExpressionKindView::Concat(
                    seq![ExpressionView::bare(ExpressionKindView::Concat(seq![a, b]), inner), c],
                ),
                outer,
            ),
        ) == ExpressionView::bare(ExpressionKindView::Concat(seq![a, b, c]), outer),
        is_choice_atom(a) && is_choice_atom(b) && is_choice_atom(c) ==> spec_refine(
            ExpressionView::bare(
                ExpressionKindView::Choice(
                    seq![a, ExpressionView::bare(ExpressionKindView::Choice(seq![b, c]), inner)],
                ),
                outer,
            ),
        ) == ExpressionView::bare(ExpressionKindView::Choice(seq![a, b, c]), outer),
{
    lemma_refined_is_fixed(a);
    lemma_refined_is_fixed(b);
    lemma_refined_is_fixed(c);
    if is_concat_atom(a) && is_concat_atom(b) && is_concat_atom(c) {
        let pair = ExpressionView::bare(ExpressionKindView::Concat(seq![a, b]), inner);
        let whole = ExpressionView::bare(ExpressionKindView::Concat(seq![pair, c]), outer);
        assert(refine_each(seq![a, b]) =~= seq![a, b]);
        lemma_flatten_concat_of_atoms(seq![a, b]);
        assert(spec_refine(pair) == pair);
        let refined = refine_each(seq![pair, c]);
        assert(refined =~= seq![pair, c]);
        assert(refined.drop_last() =~= seq![pair]);
        lemma_flatten_concat_one(seq![pair]);
        assert(flatten_concat(refined) =~= seq![a, b, c]);
    }
    if is_choice_atom(a) && is_choice_atom(b) && is_choice_atom(c) {
        let pair = ExpressionView::bare(ExpressionKindView::Choice(seq![b, c]), inner);
        let whole = ExpressionView::bare(ExpressionKindView::Choice(seq![a, pair]), outer);
        assert(refine_each(seq![b, c]) =~= seq![b, c]);
        lemma_flatten_choice_of_atoms(seq![b, c]);
        assert(spec_refine(pair) == pair);
        let refined = refine_each(seq![a, pair]);
        assert(refined =~= seq![a, pair]);
        assert(refined.drop_last() =~= seq![a]);
        lemma_flatten_choice_one(seq![a]);
        assert(flatten_choice(refined) =~= seq![a, b, c]);
    }
}

/// What refinement makes of one rule: the body is refined, and nothing
/// is reported.
pub open spec fn spec_refine_rule(rule: RuleView) -> (RuleView, Seq<ErrorView>) {
    match rule.body {
        Some(body) => (rule.with_body(Some(spec_refine(body))), Seq::empty()),
        None => (rule, Seq::empty()),
    }
}

/// The pass that refines every rule body.
#[derive(Debug, PartialEq, Eq)]
pub struct RefineRules {}

impl Default for RefineRules {
    fn default() -> (r: Self) {
        RefineRules {  }
    }
}

impl RulePass for RefineRules {
    open spec fn spec_rule(&self, grammar: GrammarView, rule: RuleView) -> (RuleView, Seq<ErrorView>) {
        spec_refine_rule(rule)
    }

    fn pass_rule(&self, grammar: &GrammarInfo, rule: &GrammarRule) -> (r: (
        GrammarRule,
        Vec<YggdrasilError>,
    )) {
        let errors: Vec<YggdrasilError> = Vec::new();
        proof {
            assert(errors_view(errors@) =~= Seq::<ErrorView>::empty());
        }
        match &rule.body {
            Some(body) => (rule.with_body(Some(self.refine_node(body))), errors),
            None => (rule.clone(), errors),
        }
    }
}

impl CodeOptimizer for RefineRules {
    open spec fn spec_optimize(&self, info: GrammarView) -> (GrammarView, Seq<ErrorView>) {
        spec_rule_pass(*self, info)
    }

    fn optimize(&mut self, info: &GrammarInfo) -> (r: Validation<GrammarInfo>) {
        run_rule_pass(&*self, info)
    }
}

impl RefineRules {
    /// The refined form of one expression tree.
    pub fn refine_node(&self, node: &YggdrasilExpression) -> (r: YggdrasilExpression)
        ensures
            r@ == spec_refine(node@),
        decreases node,
    {
        proof {
            lemma_view_children(*node);
        }
        match &node.body {
            ExpressionKind::Choice(v) => {
                let n = v.branches.len();
                if n == 0 {
                    return node.clone();
                }
                let ghost refined = refine_each(expressions_view(v.branches@));
                let mut head = self.refine_node(&v.branches[0]);
                proof {
                    lemma_flatten_choice_one(refined.take(1));
                }
                let mut i: usize = 1;
                while i < n
                    invariant
                        1 <= i <= n,
                        n == v.branches.len(),
                        node.body matches ExpressionKind::Choice(c) && c.branches == v.branches,
                        refined == refine_each(expressions_view(v.branches@)),
                        choice_items(head@) == flatten_choice(refined.take(i as int)),
                        i == 1 ==> head@ == refined[0],
                    decreases n - i,
                {
                    let term = self.refine_node(&v.branches[i]);
                    proof {
                        assert(refined.take(i + 1).drop_last() =~= refined.take(i as int));
                        lemma_flatten_choice_len(refined.take(i as int));
                    }
                    head = head.or(term);
                    i = i + 1;
                }
                proof {
                    assert(refined.take(n as int) =~= refined);
                }
                if n == 1 && node.is_bare() {
                    head
                } else {
                    let out = YggdrasilExpression {
                        body: ExpressionKind::Choice(
                            ChoiceExpression { branches: head.into_choice_items() },
                        ),
                        tag: clone_identifier(&node.tag),
                        node_tag: clone_identifier(&node.node_tag),
                        ty: clone_identifier(&node.ty),
                        remark: node.remark,
                        range: Range { start: node.range.start, end: node.range.end },
                    };
                    proof {
                        lemma_view_children(out);
                    }
                    out
                }
            },
            ExpressionKind::Concat(v) => {
                let n = v.sequence.len();
                if n == 0 {
                    return node.clone();
                }
                let ghost refined = refine_each(expressions_view(v.sequence@));
                let mut head = self.refine_node(&v.sequence[0]);
                proof {
                    lemma_flatten_concat_one(refined.take(1));
                }
                let mut i: usize = 1;
                while i < n
                    invariant
                        1 <= i <= n,
                        n == v.sequence.len(),
                        node.body matches ExpressionKind::Concat(c) && c.sequence == v.sequence,
                        refined == refine_each(expressions_view(v.sequence@)),
                        concat_items(head@) == flatten_concat(refined.take(i as int)),
                        i == 1 ==> head@ == refined[0],
                    decreases n - i,
                {
                    let term = self.refine_node(&v.sequence[i]);
                    proof {
                        assert(refined.take(i + 1).drop_last() =~= refined.take(i as int));
                        lemma_flatten_concat_len(refined.take(i as int));
                    }
                    head = head.and(term);
                    i = i + 1;
                }
                proof {
                    assert(refined.take(n as int) =~= refined);
                }
                if n == 1 && node.is_bare() {
                    head
                } else {
                    let out = YggdrasilExpression {
                        body: ExpressionKind::Concat(
                            ConcatExpression { sequence: head.into_concat_items() },
                        ),
                        tag: clone_identifier(&node.tag),
                        node_tag: clone_identifier(&node.node_tag),
                        ty: clone_identifier(&node.ty),
                        remark: node.remark,
                        range: Range { start: node.range.start, end: node.range.end },
                    };
                    proof {
                        lemma_view_children(out);
                    }
                    out
                }
            },
            ExpressionKind::Unary(v) => {
                let base = self.refine_node(&*v.base);
                YggdrasilExpression {
                    body: ExpressionKind::Unary(
                        UnaryExpression {
                            base: Box::new(base),
                            operators: clone_operators(&v.operators),
                        },
                    ),
                    tag: clone_identifier(&node.tag),
                    node_tag: clone_identifier(&node.node_tag),
                    ty: clone_identifier(&node.ty),
                    remark: node.remark,
                    range: Range { start: node.range.start, end: node.range.end },
                }
            },
            _ => node.clone(),
        }
    }
}

} // verus!
