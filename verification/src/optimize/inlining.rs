//! Inlining: the pass that puts the body of an inline rule where the rule
//! is called.

use vstd::prelude::*;
use std::ops::Range;
use crate::errors::{errors_view, ErrorView, Validation, YggdrasilError};
use crate::expression::{
    clone_identifier, clone_operators, expressions_view, lemma_view_children, ChoiceExpression,
    ConcatExpression, ExpressionKind, ExpressionKindView, ExpressionView, UnaryExpression,
    YggdrasilExpression,
};
use crate::grammar::{GrammarInfo, GrammarView};
use crate::optimize::{run_rule_pass, spec_rule_pass, CodeOptimizer, RulePass};
use crate::rule::{GrammarRule, RuleView};

verus! {

/// The body that takes the place of a reference: that of the rule it
/// names, where the grammar declares the rule with a body and either the
/// reference or the rule asks for inlining.
pub open spec fn inline_target(g: GrammarView, e: ExpressionView) -> Option<ExpressionView> {
    match e.body {
        ExpressionKindView::Rule(reference) => match g.rule_index(reference.name) {
            Some(i) => if reference.inline || g.rules[i].1.auto_inline {
                g.rules[i].1.body
            } else {
                None
            },
            None => None,
        },
        _ => None,
    }
}

/// The expression after inlining, one level deep: what is put in is the
/// body as the grammar has it, and is not visited again.
pub open spec fn spec_inline(g: GrammarView, e: ExpressionView) -> ExpressionView
    decreases e,
{
    match e.body {
        ExpressionKindView::Choice(branches) => ExpressionView {
            body: ExpressionKindView::Choice(inline_each(g, branches)),
            ..e
        },
        ExpressionKindView::Concat(sequence) => ExpressionView {
            body: ExpressionKindView::Concat(inline_each(g, sequence)),
            ..e
        },
        ExpressionKindView::Unary(base, operators) => ExpressionView {
            body: ExpressionKindView::Unary(Box::new(spec_inline(g, *base)), operators),
            ..e
        },
        ExpressionKindView::Rule(reference) => match inline_target(g, e) {
            Some(body) => body,
            None => e,
        },
        _ => e,
    }
}

/// Inlining on a list of expressions.
pub open spec fn inline_each(g: GrammarView, items: Seq<ExpressionView>) -> Seq<ExpressionView>
    decreases items,
{
    Seq::new(
        items.len(),
        |i: int|
            if 0 <= i < items.len() {
                spec_inline(g, items[i])
            } else {
                arbitrary()
            },
    )
}

/// What inlining makes of one rule of a grammar.
pub open spec fn spec_inline_rule(g: GrammarView, rule: RuleView) -> (RuleView, Seq<ErrorView>) {
    match rule.body {
        Some(body) => (rule.with_body(Some(spec_inline(g, body))), Seq::empty()),
        None => (rule, Seq::empty()),
    }
}

/// The pass that inlines rules.
#[derive(Debug, PartialEq, Eq)]
pub struct InlineRule {}

impl InlineRule {
    /// The pass.
    pub fn new() -> (r: InlineRule) {
        InlineRule {  }
    }

    /// The expression after inlining against the rules of `grammar`.
    pub fn inline_node(&self, grammar: &GrammarInfo, node: &YggdrasilExpression) -> (r:
        YggdrasilExpression)
        ensures
            r@ == spec_inline(grammar@, node@),
        decreases node,
    {
        proof {
            lemma_view_children(*node);
        }
        let body = match &node.body {
            ExpressionKind::Choice(v) => ExpressionKind::Choice(
                ChoiceExpression { branches: self.inline_nodes(grammar, &v.branches) },
            ),
            ExpressionKind::Concat(v) => ExpressionKind::Concat(
                ConcatExpression { sequence: self.inline_nodes(grammar, &v.sequence) },
            ),
            ExpressionKind::Unary(v) => ExpressionKind::Unary(
                UnaryExpression {
                    base: Box::new(self.inline_node(grammar, &*v.base)),
                    operators: clone_operators(&v.operators),
                },
            ),
            ExpressionKind::Rule(v) => {
                match grammar.get_rule(v.name.as_str()) {
                    Some(rule) => {
                        if v.inline || rule.auto_inline {
                            match &rule.body {
                                Some(body) => {
                                    return body.clone();
                                },
                                None => {},
                            }
                        }
                    },
                    None => {},
                }
                return node.clone();
            },
            _ => {
                return node.clone();
            },
        };
        let out = YggdrasilExpression {
            body,
            tag: clone_identifier(&node.tag),
            node_tag: clone_identifier(&node.node_tag),
            ty: clone_identifier(&node.ty),
            remark: node.remark,
            range: Range { start: node.range.start, end: node.range.end },
        };
        proof {
            lemma_view_children(out);
        }
        out
    }

    /// Inlining on a list of expressions.
    pub fn inline_nodes(&self, grammar: &GrammarInfo, items: &Vec<YggdrasilExpression>) -> (r: Vec<
        YggdrasilExpression,
    >)
        ensures
            expressions_view(r@) == inline_each(grammar@, expressions_view(items@)),
        decreases items,
    {
        let mut out: Vec<YggdrasilExpression> = Vec::new();
        let mut i: usize = 0;
        while i < items.len()
            invariant
                i <= items.len(),
                out@.len() == i,
                forall|j: int| 0 <= j < i ==> out@[j]@ == spec_inline(grammar@, items@[j]@),
            decreases items.len() - i,
        {
            let item = self.inline_node(grammar, &items[i]);
            out.push(item);
            i = i + 1;
        }
        proof {
            assert(expressions_view(out@) =~= inline_each(grammar@, expressions_view(items@)));
        }
        out
    }
}

impl RulePass for InlineRule {
    open spec fn spec_rule(&self, grammar: GrammarView, rule: RuleView) -> (RuleView, Seq<ErrorView>) {
        spec_inline_rule(grammar, rule)
    }

    fn pass_rule(&self, grammar: &GrammarInfo, rule: &GrammarRule) -> (r: (
        GrammarRule,
        Vec<YggdrasilError>,
    )) {
        let errors: Vec<YggdrasilError> = Vec::new();
        proof {
            assert(errors_view(errors@) =~= Seq::<ErrorView>::empty());
        }
        match &rule.body {
            Some(body) => (rule.with_body(Some(self.inline_node(grammar, body))), errors),
            None => (rule.clone(), errors),
        }
    }
}

impl CodeOptimizer for InlineRule {
    open spec fn spec_optimize(&self, info: GrammarView) -> (GrammarView, Seq<ErrorView>) {
        spec_rule_pass(*self, info)
    }

    fn optimize(&mut self, info: &GrammarInfo) -> (r: Validation<GrammarInfo>) {
        run_rule_pass(&*self, info)
    }
}

} // verus!
