//! Character-set fusion: the pass that merges neighbouring character
//! classes among the branches of a choice into one set.

use vstd::prelude::*;
use std::ops::Range;
use crate::errors::{errors_view, ErrorView, Validation, YggdrasilError};
use crate::expression::{
    clone_identifier, clone_operators, clone_ranges, expressions_view, lemma_view_children,
    ChoiceExpression, ConcatExpression, ExpressionKind, ExpressionKindView, ExpressionView,
    UnaryExpression, YggdrasilExpression,
};
use crate::grammar::{GrammarInfo, GrammarView};
use crate::optimize::{run_rule_pass, spec_rule_pass, CodeOptimizer, RulePass};
use crate::rule::{GrammarRule, RuleView};

verus! {

/// Whether `c` lies in the inclusive range from `lo` to `hi`.
pub open spec fn in_range(c: char, lo: char, hi: char) -> bool {
    lo as u32 <= c as u32 <= hi as u32
}

/// The characters of one inclusive range.
pub open spec fn range_members(lo: char, hi: char) -> Set<char> {
    Set::new(|c: char| in_range(c, lo, hi))
}

/// The characters of a list of inclusive ranges.
pub open spec fn ranges_members(ranges: Seq<(char, char)>) -> Set<char>
    decreases ranges.len(),
{
    if ranges.len() == 0 {
        Set::empty()
    } else {
        ranges_members(ranges.drop_last()).union(range_members(ranges.last().0, ranges.last().1))
    }
}

/// The ranges of two character classes together: those of the first,
/// then those of the second.
pub open spec fn fused_ranges(a: Seq<(char, char)>, b: Seq<(char, char)>) -> Seq<(char, char)> {
    a + b
}

/// A list of ranges after another holds the characters of both.
pub proof fn lemma_ranges_members_add(a: Seq<(char, char)>, b: Seq<(char, char)>)
    ensures
        ranges_members(a + b) == ranges_members(a).union(ranges_members(b)),
    decreases b.len(),
{
    if b.len() == 0 {
        assert(a + b =~= a);
        assert(ranges_members(a).union(ranges_members(b)) =~= ranges_members(a));
    } else {
        lemma_ranges_members_add(a, b.drop_last());
        assert((a + b).drop_last() =~= a + b.drop_last());
        assert((a + b).last() == b.last());
        assert(ranges_members(a + b) =~= ranges_members(a).union(ranges_members(b)));
    }
}

/// The ranges of the characters of two lists of ranges together.
pub fn fuse_ranges(a: &Vec<(char, char)>, b: &Vec<(char, char)>) -> (r: Vec<(char, char)>)
    ensures
        r@ == fused_ranges(a@, b@),
        ranges_members(r@) == ranges_members(a@).union(ranges_members(b@)),
{
    let mut out = clone_ranges(a);
    let mut more = clone_ranges(b);
    out.append(&mut more);
    proof {
        lemma_ranges_members_add(a@, b@);
    }
    out
}

/// A bare character class: a range or a set of characters without
/// annotations.
pub open spec fn is_charset(e: ExpressionView) -> bool {
    e.is_bare() && (e.body is CharacterRange || e.body is CharacterSet)
}

/// The ranges of a character class.
pub open spec fn item_ranges(e: ExpressionView) -> Seq<(char, char)> {
    match e.body {
        ExpressionKindView::CharacterRange(lo, hi) => seq![(lo, hi)],
        ExpressionKindView::CharacterSet(ranges) => ranges,
        _ => Seq::empty(),
    }
}

/// Two neighbouring character classes as one set, from the start of the
/// first to the end of the second.
pub open spec fn fuse_pair(a: ExpressionView, b: ExpressionView) -> ExpressionView {
    ExpressionView::bare(
        ExpressionKindView::CharacterSet(fused_ranges(item_ranges(a), item_ranges(b))),
        Range { start: a.range.start, end: b.range.end },
    )
}

/// The branches of a choice with every run of neighbouring bare character
/// classes fused into one set; every other branch stays in its place.
pub open spec fn fuse_branches(branches: Seq<ExpressionView>) -> Seq<ExpressionView>
    decreases branches.len(),
{
    if branches.len() == 0 {
        Seq::empty()
    } else {
        let before = fuse_branches(branches.drop_last());
        let next = branches.last();
        if before.len() > 0 && is_charset(before.last()) && is_charset(next) {
            before.drop_last().push(fuse_pair(before.last(), next))
        } else {
            before.push(next)
        }
    }
}

/// The expression after fusion: children first, then the branches of
/// every choice.
pub open spec fn spec_fuse(e: ExpressionView) -> ExpressionView
    decreases e,
{
    match e.body {
        ExpressionKindView::Choice(branches) => ExpressionView {
            body: ExpressionKindView::Choice(fuse_branches(fuse_each(branches))),
            ..e
        },
        ExpressionKindView::Concat(sequence) => ExpressionView {
            body: ExpressionKindView::Concat(fuse_each(sequence)),
            ..e
        },
        ExpressionKindView::Unary(base, operators) => ExpressionView {
            body: ExpressionKindView::Unary(Box::new(spec_fuse(*base)), operators),
            ..e
        },
        _ => e,
    }
}

/// Fusion on a list of expressions.
pub open spec fn fuse_each(items: Seq<ExpressionView>) -> Seq<ExpressionView>
    decreases items,
{
    Seq::new(
        items.len(),
        |i: int|
            if 0 <= i < items.len() {
                spec_fuse(items[i])
            } else {
                arbitrary()
            },
    )
}

/// What fusion makes of one rule.
pub open spec fn spec_fuse_rule(rule: RuleView) -> (RuleView, Seq<ErrorView>) {
    match rule.body {
        Some(body) => (rule.with_body(Some(spec_fuse(body))), Seq::empty()),
        None => (rule, Seq::empty()),
    }
}

/// Fusion never adds a branch, and leaves alone a choice in which no two
/// neighbours are both bare character classes.
pub proof fn lemma_fuse_branches(branches: Seq<ExpressionView>)
    ensures
        fuse_branches(branches).len() <= branches.len(),
        branches.len() > 0 ==> fuse_branches(branches).len() > 0,
        (forall|i: int|
            0 <= i < branches.len() - 1 ==> !(is_charset(#[trigger] branches[i]) && is_charset(
                branches[i + 1],
            ))) ==> fuse_branches(branches) == branches,
    decreases branches.len(),
{
    if branches.len() > 0 {
        let front = branches.drop_last();
        lemma_fuse_branches(front);
        if forall|i: int|
            0 <= i < branches.len() - 1 ==> !(is_charset(#[trigger] branches[i]) && is_charset(
                branches[i + 1],
            )) {
            assert forall|i: int| 0 <= i < front.len() - 1 implies !(is_charset(
                #[trigger] front[i],
            ) && is_charset(front[i + 1])) by {
                assert(front[i] == branches[i]);
                assert(front[i + 1] == branches[i + 1]);
            }
            if front.len() > 0 {
                assert(front.last() == branches[branches.len() - 2]);
            }
            assert(front.push(branches.last()) =~= branches);
        }
    } else {
        assert(fuse_branches(branches) =~= branches);
    }
}

/// The set in place of two character classes matches a character if and
/// only if one of the two does.
pub proof fn lemma_fuse_pair_members(a: ExpressionView, b: ExpressionView, c: char)
    ensures
        ranges_members(item_ranges(fuse_pair(a, b))).contains(c) <==> ranges_members(
            item_ranges(a),
        ).contains(c) || ranges_members(item_ranges(b)).contains(c),
{
    lemma_ranges_members_add(item_ranges(a), item_ranges(b));
}

/// The ranges of a character class.
fn ranges_of(e: &YggdrasilExpression) -> (r: Vec<(char, char)>)
    requires
        is_charset(e@),
    ensures
        r@ == item_ranges(e@),
{
    match &e.body {
        ExpressionKind::CharacterRange(lo, hi) => {
            let mut out: Vec<(char, char)> = Vec::new();
            out.push((*lo, *hi));
            proof {
                assert(out@ =~= seq![(*lo, *hi)]);
            }
            out
        },
        ExpressionKind::CharacterSet(ranges) => clone_ranges(ranges),
        _ => Vec::new(),
    }
}

/// Whether the expression is a bare character class.
fn is_charset_node(e: &YggdrasilExpression) -> (r: bool)
    ensures
        r == is_charset(e@),
{
    e.is_bare() && match &e.body {
        ExpressionKind::CharacterRange(_, _) => true,
        ExpressionKind::CharacterSet(_) => true,
        _ => false,
    }
}

/// The pass that fuses character classes.
#[derive(Debug, PartialEq, Eq)]
pub struct FuseCharset {}

impl FuseCharset {
    /// The pass.
    pub fn new() -> (r: FuseCharset) {
        FuseCharset {  }
    }

    /// The branches with every run of neighbouring bare character classes
    /// fused into one set.
    pub fn fuse_items(&self, branches: &Vec<YggdrasilExpression>) -> (r: Vec<YggdrasilExpression>)
        ensures
            expressions_view(r@) == fuse_branches(expressions_view(branches@)),
    {
        let ghost all = expressions_view(branches@);
        let mut out: Vec<YggdrasilExpression> = Vec::new();
        let mut i: usize = 0;
        proof {
            assert(all.take(0) =~= Seq::<ExpressionView>::empty());
            assert(expressions_view(out@) =~= fuse_branches(all.take(0)));
        }
        while i < branches.len()
            invariant
                i <= branches.len(),
                all == expressions_view(branches@),
                expressions_view(out@) == fuse_branches(all.take(i as int)),
            decreases branches.len() - i,
        {
            let ghost o0 = out@;
            let next = branches[i].clone();
            proof {
                assert(all.take(i + 1).drop_last() =~= all.take(i as int));
                assert(all.take(i + 1).last() == all[i as int]);
            }
            let fusable = out.len() > 0 && is_charset_node(&out[out.len() - 1]) && is_charset_node(
                &next,
            );
            if fusable {
                let last = out.pop().unwrap();
                let ranges = fuse_ranges(&ranges_of(&last), &ranges_of(&next));
                let merged = YggdrasilExpression::new(
                    ExpressionKind::CharacterSet(ranges),
                    Range { start: last.range.start, end: next.range.end },
                );
                out.push(merged);
                proof {
                    assert(expressions_view(out@) =~= expressions_view(o0).drop_last().push(
                        fuse_pair(last@, next@),
                    ));
                }
            } else {
                out.push(next);
                proof {
                    assert(expressions_view(out@) =~= expressions_view(o0).push(next@));
                }
            }
            i = i + 1;
        }
        proof {
            assert(all.take(i as int) =~= all);
        }
        out
    }

    /// The choice with every run of neighbouring bare character classes
    /// among its branches fused into one set. Nothing is reported.
    pub fn fuse_choice(&mut self, choice: &ChoiceExpression) -> (r: Validation<ChoiceExpression>)
        ensures
            r matches Validation::Success { value, diagnostics } && expressions_view(value.branches@)
                == fuse_branches(expressions_view(choice.branches@)) && diagnostics@.len() == 0,
    {
        let fused = self.fuse_items(&choice.branches);
        Validation::Success { value: ChoiceExpression { branches: fused }, diagnostics: Vec::new() }
    }

    /// The expression after fusion.
    pub fn fuse_node(&self, node: &YggdrasilExpression) -> (r: YggdrasilExpression)
        ensures
            r@ == spec_fuse(node@),
        decreases node,
    {
        proof {
            lemma_view_children(*node);
        }
        let body = match &node.body {
            ExpressionKind::Choice(v) => {
                let items = self.fuse_nodes(&v.branches);
                ExpressionKind::Choice(ChoiceExpression { branches: self.fuse_items(&items) })
            },
            ExpressionKind::Concat(v) => ExpressionKind::Concat(
                ConcatExpression { sequence: self.fuse_nodes(&v.sequence) },
            ),
            ExpressionKind::Unary(v) => ExpressionKind::Unary(
                UnaryExpression {
                    base: Box::new(self.fuse_node(&*v.base)),
                    operators: clone_operators(&v.operators),
                },
            ),
            _ => {
                return node.clone();
            },
        };
        let out = YggdrasilExpression {
            body,
            tag: clone_identifier(&node.tag),
            node_tag: clone_identifier(&node.node_tag),
            ty: clone_identifier(&node.ty),
            remark: node.remark,
            range: Range { start: node.range.start, end: node.range.end },
        };
        proof {
            lemma_view_children(out);
        }
        out
    }

    /// Fusion on a list of expressions.
    pub fn fuse_nodes(&self, items: &Vec<YggdrasilExpression>) -> (r: Vec<YggdrasilExpression>)
        ensures
            expressions_view(r@) == fuse_each(expressions_view(items@)),
        decreases items,
    {
        let mut out: Vec<YggdrasilExpression> = Vec::new();
        let mut i: usize = 0;
        while i < items.len()
            invariant
                i <= items.len(),
                out@.len() == i,
                forall|j: int| 0 <= j < i ==> out@[j]@ == spec_fuse(items@[j]@),
            decreases items.len() - i,
        {
            let item = self.fuse_node(&items[i]);
            out.push(item);
            i = i + 1;
        }
        proof {
            assert(expressions_view(out@) =~= fuse_each(expressions_view(items@)));
        }
        out
    }
}

impl RulePass for FuseCharset {
    open spec fn spec_rule(&self, grammar: GrammarView, rule: RuleView) -> (RuleView, Seq<ErrorView>) {
        spec_fuse_rule(rule)
    }

    fn pass_rule(&self, grammar: &GrammarInfo, rule: &GrammarRule) -> (r: (
        GrammarRule,
        Vec<YggdrasilError>,
    )) {
        let errors: Vec<YggdrasilError> = Vec::new();
        proof {
            assert(errors_view(errors@) =~= Seq::<ErrorView>::empty());
        }
        match &rule.body {
            Some(body) => (rule.with_body(Some(self.fuse_node(body))), errors),
            None => (rule.clone(), errors),
        }
    }
}

impl CodeOptimizer for FuseCharset {
    open spec fn spec_optimize(&self, info: GrammarView) -> (GrammarView, Seq<ErrorView>) {
        spec_rule_pass(*self, info)
    }

    fn optimize(&mut self, info: &GrammarInfo) -> (r: Validation<GrammarInfo>) {
        run_rule_pass(&*self, info)
    }
}

} // verus!
