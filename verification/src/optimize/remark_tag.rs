//! Tag propagation: the pass that gives every rule reference in scope the
//! name of its rule as a tag.

use vstd::prelude::*;
use std::ops::Range;
use crate::errors::{
    conflicting_field_error, errors_view, missing_branch_tag_error, ErrorView, Validation,
    YggdrasilError,
};
use crate::sequence::join;
use crate::expression::{
    clone_identifier, clone_operators, expressions_view, lemma_view_children, ChoiceExpression,
    ConcatExpression, ExpressionKind, ExpressionKindView, ExpressionView, IdentifierView,
    UnaryExpression, YggdrasilExpression, YggdrasilIdentifier,
};
use crate::grammar::{GrammarInfo, GrammarView};
use crate::optimize::{run_rule_pass, spec_rule_pass, CodeOptimizer, RulePass};
use crate::rule::{body_view, union_branches, GrammarRule, GrammarRuleKind, RuleView};

verus! {

/// The scope in which the children of a node are visited: the scope of
/// the node, flipped where the node carries a remark.
pub open spec fn remark_scope(e: ExpressionView, scope: bool) -> bool {
    if e.remark {
        !scope
    } else {
        scope
    }
}

/// The expression after tag propagation in the given scope.
///
/// The remark of every node is consumed. A rule reference that is visited
/// in scope and has no tag gets the name of its rule as its tag; a tag
/// that is there stays. Terminals are left alone.
pub open spec fn spec_remark(e: ExpressionView, scope: bool) -> ExpressionView
    decreases e,
{
    let mark = remark_scope(e, scope);
    match e.body {
        ExpressionKindView::Concat(sequence) => ExpressionView {
            body: ExpressionKindView::Concat(remark_each(sequence, mark)),
            remark: false,
            ..e
        },
        ExpressionKindView::Choice(branches) => ExpressionView {
            body: ExpressionKindView::Choice(remark_each(branches, mark)),
            remark: false,
            ..e
        },
        ExpressionKindView::Unary(base, operators) => ExpressionView {
            body: ExpressionKindView::Unary(Box::new(spec_remark(*base, mark)), operators),
            remark: false,
            ..e
        },
        ExpressionKindView::Rule(reference) => ExpressionView {
            tag: if mark && e.tag is None {
                Some(IdentifierView { text: reference.name, range: e.range })
            } else {
                e.tag
            },
            remark: false,
            ..e
        },
        _ => ExpressionView { remark: false, ..e },
    }
}

/// Tag propagation on a list of expressions, in one scope.
pub open spec fn remark_each(items: Seq<ExpressionView>, scope: bool) -> Seq<ExpressionView>
    decreases items,
{
    Seq::new(
        items.len(),
        |i: int|
            if 0 <= i < items.len() {
                spec_remark(items[i], scope)
            } else {
                arbitrary()
            },
    )
}

/// The errors of the alternatives that carry no variant name, in their
/// order.
pub open spec fn untagged_errors(rule: Seq<char>, branches: Seq<ExpressionView>) -> Seq<ErrorView>
    decreases branches.len(),
{
    if branches.len() == 0 {
        Seq::empty()
    } else {
        untagged_errors(rule, branches.drop_last()) + (if branches.last().node_tag is None {
            seq![missing_branch_tag_error(rule, branches.last().range)]
        } else {
            Seq::empty()
        })
    }
}

/// One capture: a field name, the rule that it is bound to, and the place
/// of the reference.
pub struct BindingView {
    pub field: Seq<char>,
    pub rule: Seq<char>,
    pub range: Range<usize>,
}

/// The captures of an expression, in the order of the text: one for each
/// tagged rule reference.
pub open spec fn bindings(e: ExpressionView) -> Seq<BindingView>
    decreases e,
{
    match e.body {
        ExpressionKindView::Choice(branches) => join(bindings_each(branches)),
        ExpressionKindView::Concat(sequence) => join(bindings_each(sequence)),
        ExpressionKindView::Unary(base, operators) => bindings(*base),
        ExpressionKindView::Rule(reference) => match e.tag {
            Some(tag) => seq![BindingView { field: tag.text, rule: reference.name, range: e.range }],
            None => Seq::empty(),
        },
        _ => Seq::empty(),
    }
}

/// The captures of each expression of a list.
pub open spec fn bindings_each(items: Seq<ExpressionView>) -> Seq<Seq<BindingView>>
    decreases items,
{
    Seq::new(
        items.len(),
        |i: int|
            if 0 <= i < items.len() {
                bindings(items[i])
            } else {
                arbitrary()
            },
    )
}

/// Whether an earlier capture binds the same field to another rule.
pub open spec fn clashes(before: Seq<BindingView>, b: BindingView) -> bool {
    exists|j: int|
        0 <= j < before.len() && (#[trigger] before[j]).field == b.field && before[j].rule != b.rule
}

/// The errors of the captures that bind a field to another rule than an
/// earlier capture of the same field, in the order of the captures.
pub open spec fn conflict_errors(all: Seq<BindingView>) -> Seq<ErrorView>
    decreases all.len(),
{
    if all.len() == 0 {
        Seq::empty()
    } else {
        conflict_errors(all.drop_last()) + (if clashes(all.drop_last(), all.last()) {
            seq![conflicting_field_error(all.last().field, all.last().range)]
        } else {
            Seq::empty()
        })
    }
}

/// What tag propagation makes of one rule: the body is visited in scope.
/// Then, in a union rule, every top-level alternative that carries no
/// variant name is reported, and in a class rule every capture that binds
/// a field to a rule of another type than an earlier capture.
pub open spec fn spec_remark_rule(rule: RuleView) -> (RuleView, Seq<ErrorView>) {
    match rule.body {
        Some(body) => {
            let tagged = spec_remark(body, true);
            (
                rule.with_body(Some(tagged)),
                match rule.kind {
                    GrammarRuleKind::Union => untagged_errors(
                        rule.name.text,
                        union_branches(tagged),
                    ),
                    GrammarRuleKind::Class => conflict_errors(bindings(tagged)),
                    GrammarRuleKind::Climb => Seq::empty(),
                },
            )
        },
        None => (rule, Seq::empty()),
    }
}

/// One capture.
pub struct Binding {
    pub field: String,
    pub rule: String,
    pub range: Range<usize>,
}

impl View for Binding {
    type V = BindingView;

    open spec fn view(&self) -> BindingView {
        BindingView { field: self.field@, rule: self.rule@, range: self.range }
    }
}

/// The models of a list of captures, one by one.
pub open spec fn bindings_view(all: Seq<Binding>) -> Seq<BindingView> {
    Seq::new(all.len(), |i: int| all[i]@)
}

/// A tag that the author wrote is never overwritten, and every remark is
/// consumed.
pub proof fn lemma_remark_keeps_tags(e: ExpressionView, scope: bool)
    ensures
        e.tag is Some ==> spec_remark(e, scope).tag == e.tag,
        !spec_remark(e, scope).remark,
        spec_remark(e, scope).node_tag == e.node_tag,
        spec_remark(e, scope).range == e.range,
{
}

/// A rule reference visited in scope has a tag afterwards: its own, or
/// else the name of its rule. Out of scope it is left as it was.
pub proof fn lemma_remark_reference(e: ExpressionView, scope: bool)
    requires
        e.body is Rule,
    ensures
        remark_scope(e, scope) && e.tag is None ==> spec_remark(e, scope).tag == Some(
            IdentifierView { text: e.body->Rule_0.name, range: e.range },
        ),
        !remark_scope(e, scope) ==> spec_remark(e, scope).tag == e.tag,
        spec_remark(e, scope).body == e.body,
{
}

/// Below a sequence or a choice that carries a remark, the direct
/// children are visited in the flipped scope: with the scope off outside,
/// every direct rule reference that has no tag and no remark of its own
/// gets the name of its rule as its tag.
pub proof fn lemma_remark_group(e: ExpressionView, scope: bool, i: int)
    requires
        e.remark,
        e.body is Concat || e.body is Choice,
        0 <= i < group_items(e).len(),
    ensures
        group_items(spec_remark(e, scope)).len() == group_items(e).len(),
        group_items(spec_remark(e, scope))[i] == spec_remark(group_items(e)[i], !scope),
        !scope && group_items(e)[i].body is Rule && !group_items(e)[i].remark && group_items(
            e,
        )[i].tag is None ==> group_items(spec_remark(e, scope))[i].tag == Some(
            IdentifierView {
                text: group_items(e)[i].body->Rule_0.name,
                range: group_items(e)[i].range,
            },
        ),
{
    let items = group_items(e);
    let after = remark_each(items, !scope);
    assert(after.len() == items.len());
    assert(after[i] == spec_remark(items[i], !scope));
    assert(group_items(spec_remark(e, scope)) == after);
}

/// Two remarks cancel: a rule reference with a remark of its own, directly
/// below a group with a remark, is visited in the scope outside the group.
pub proof fn lemma_remark_twice(e: ExpressionView, scope: bool, i: int)
    requires
        e.remark,
        e.body is Concat || e.body is Choice,
        0 <= i < group_items(e).len(),
        group_items(e)[i].remark,
        group_items(e)[i].body is Rule,
        group_items(e)[i].tag is None,
    ensures
        group_items(spec_remark(e, scope))[i].tag is Some == scope,
{
    let items = group_items(e);
    let after = remark_each(items, !scope);
    assert(after.len() == items.len());
    assert(after[i] == spec_remark(items[i], !scope));
    assert(group_items(spec_remark(e, scope)) == after);
}

/// The children of a sequence or of a choice.
pub open spec fn group_items(e: ExpressionView) -> Seq<ExpressionView> {
    match e.body {
        ExpressionKindView::Concat(sequence) => sequence,
        ExpressionKindView::Choice(branches) => branches,
        _ => Seq::empty(),
    }
}

/// Automatically insert tags.
#[derive(Debug, PartialEq, Eq)]
pub struct RemarkTags {}

impl RemarkTags {
    /// The pass.
    pub fn new() -> (r: RemarkTags) {
        RemarkTags {  }
    }

    /// The expression after tag propagation in the given scope.
    pub fn remarked(&self, expr: &YggdrasilExpression, scope: bool) -> (r: YggdrasilExpression)
        ensures
            r@ == spec_remark(expr@, scope),
        decreases expr,
    {
        let mark = if expr.remark {
            !scope
        } else {
            scope
        };
        proof {
            lemma_view_children(*expr);
        }
        let mut tag = clone_identifier(&expr.tag);
        let body = match &expr.body {
            ExpressionKind::Concat(v) => {
                let sequence = self.remarked_each(&v.sequence, mark);
                ExpressionKind::Concat(ConcatExpression { sequence })
            },
            ExpressionKind::Choice(v) => {
                let branches = self.remarked_each(&v.branches, mark);
                ExpressionKind::Choice(ChoiceExpression { branches })
            },
            ExpressionKind::Unary(v) => {
                let base = self.remarked(&*v.base, mark);
                ExpressionKind::Unary(
                    UnaryExpression { base: Box::new(base), operators: clone_operators(&v.operators) },
                )
            },
            ExpressionKind::Rule(v) => {
                if mark && expr.tag.is_none() {
                    tag = Some(
                        YggdrasilIdentifier {
                            text: v.name.clone(),
                            range: Range { start: expr.range.start, end: expr.range.end },
                        },
                    );
                }
                ExpressionKind::Rule(v.clone())
            },
            ExpressionKind::Text(s) => ExpressionKind::Text(s.clone()),
            ExpressionKind::CharacterAny => ExpressionKind::CharacterAny,
            ExpressionKind::CharacterRange(lo, hi) => ExpressionKind::CharacterRange(*lo, *hi),
            ExpressionKind::CharacterSet(ranges) => ExpressionKind::CharacterSet(
                crate::expression::clone_ranges(ranges),
            ),
            ExpressionKind::Integer(s) => ExpressionKind::Integer(s.clone()),
            ExpressionKind::Boolean(b) => ExpressionKind::Boolean(*b),
            ExpressionKind::Regex(s) => ExpressionKind::Regex(s.clone()),
            ExpressionKind::Ignored => ExpressionKind::Ignored,
        };
        let out = YggdrasilExpression {
            body,
            tag,
            node_tag: clone_identifier(&expr.node_tag),
            ty: clone_identifier(&expr.ty),
            remark: false,
            range: Range { start: expr.range.start, end: expr.range.end },
        };
        proof {
            lemma_view_children(out);
        }
        out
    }

    /// Tag propagation on a list of expressions, in one scope.
    pub fn remarked_each(&self, items: &Vec<YggdrasilExpression>, scope: bool) -> (r: Vec<
        YggdrasilExpression,
    >)
        ensures
            expressions_view(r@) == remark_each(expressions_view(items@), scope),
        decreases items,
    {
        let mut out: Vec<YggdrasilExpression> = Vec::new();
        let mut i: usize = 0;
        while i < items.len()
            invariant
                i <= items.len(),
                out@.len() == i,
                forall|j: int| 0 <= j < i ==> out@[j]@ == spec_remark(items@[j]@, scope),
            decreases items.len() - i,
        {
            let item = self.remarked(&items[i], scope);
            out.push(item);
            i = i + 1;
        }
        proof {
            assert(expressions_view(out@) =~= remark_each(expressions_view(items@), scope));
        }
        out
    }

    /// Tag propagation in place.
    pub fn remark(&self, expr: &mut YggdrasilExpression, scope: bool)
        ensures
            final(expr)@ == spec_remark(old(expr)@, scope),
    {
        let out = self.remarked(expr, scope);
        *expr = out;
    }

    /// Adds the captures of an expression.
    pub fn captures(&self, node: &YggdrasilExpression, all: &mut Vec<Binding>)
        ensures
            bindings_view(final(all)@) == bindings_view(old(all)@) + bindings(node@),
        decreases node,
    {
        proof {
            lemma_view_children(*node);
            assert(bindings_view(all@) + Seq::<BindingView>::empty() =~= bindings_view(all@));
        }
        match &node.body {
            ExpressionKind::Choice(v) => self.captures_each(&v.branches, all),
            ExpressionKind::Concat(v) => self.captures_each(&v.sequence, all),
            ExpressionKind::Unary(v) => self.captures(&*v.base, all),
            ExpressionKind::Rule(v) => match &node.tag {
                Some(tag) => {
                    let ghost before = all@;
                    all.push(
                        Binding {
                            field: tag.text.clone(),
                            rule: v.name.clone(),
                            range: Range { start: node.range.start, end: node.range.end },
                        },
                    );
                    proof {
                        assert(bindings_view(all@) =~= bindings_view(before) + bindings(node@));
                    }
                },
                None => {},
            },
            _ => {},
        }
    }

    /// Adds the captures of the expressions of a list.
    pub fn captures_each(&self, items: &Vec<YggdrasilExpression>, all: &mut Vec<Binding>)
        ensures
            bindings_view(final(all)@) == bindings_view(old(all)@) + join(
                bindings_each(expressions_view(items@)),
            ),
        decreases items,
    {
        let ghost parts = bindings_each(expressions_view(items@));
        let ghost start = bindings_view(all@);
        let mut i: usize = 0;
        proof {
            assert(parts.take(0) =~= Seq::<Seq<BindingView>>::empty());
            assert(start + join(parts.take(0)) =~= start);
        }
        while i < items.len()
            invariant
                i <= items.len(),
                parts == bindings_each(expressions_view(items@)),
                bindings_view(all@) == start + join(parts.take(i as int)),
            decreases items.len() - i,
        {
            self.captures(&items[i], all);
            proof {
                assert(parts.take(i + 1).drop_last() =~= parts.take(i as int));
                assert(parts.take(i + 1).last() == parts[i as int]);
                assert(bindings_view(all@) =~= start + join(parts.take(i + 1)));
            }
            i = i + 1;
        }
        proof {
            assert(parts.take(i as int) =~= parts);
        }
    }

    /// The errors of the captures that bind a field to another rule than
    /// an earlier capture of the same field.
    pub fn conflicts(&self, all: &Vec<Binding>) -> (r: Vec<YggdrasilError>)
        ensures
            errors_view(r@) == conflict_errors(bindings_view(all@)),
    {
        let mut errors: Vec<YggdrasilError> = Vec::new();
        let ghost views = bindings_view(all@);
        let mut i: usize = 0;
        proof {
            assert(views.take(0) =~= Seq::<BindingView>::empty());
            assert(errors_view(errors@) =~= conflict_errors(views.take(0)));
        }
        while i < all.len()
            invariant
                i <= all.len(),
                views == bindings_view(all@),
                errors_view(errors@) == conflict_errors(views.take(i as int)),
            decreases all.len() - i,
        {
            let mut clash = false;
            let mut j: usize = 0;
            while j < i
                invariant
                    j <= i < all.len(),
                    views == bindings_view(all@),
                    clash == clashes(views.take(j as int), views[i as int]),
                decreases i - j,
            {
                proof {
                    let before = views.take(j as int);
                    let after = views.take(j + 1);
                    assert(after.drop_last() =~= before);
                    assert(after.last() == views[j as int]);
                    if clashes(before, views[i as int]) {
                        let k = choose|k: int|
                            0 <= k < before.len() && (#[trigger] before[k]).field == views[i as int].field
                                && before[k].rule != views[i as int].rule;
                        assert(after[k] == before[k]);
                    }
                    if clashes(after, views[i as int]) && !clashes(before, views[i as int]) {
                        let k = choose|k: int|
                            0 <= k < after.len() && (#[trigger] after[k]).field == views[i as int].field
                                && after[k].rule != views[i as int].rule;
                        if k < j {
                            assert(before[k] == after[k]);
                        }
                    }
                }
                if all[j].field == all[i].field && all[j].rule != all[i].rule {
                    clash = true;
                    proof {
                        assert(views.take(j + 1)[j as int] == views[j as int]);
                    }
                }
                j = j + 1;
            }
            proof {
                assert(views.take(i + 1).drop_last() =~= views.take(i as int));
                assert(views.take(i + 1).last() == views[i as int]);
            }
            if clash {
                let ghost before = errors@;
                errors.push(YggdrasilError::conflicting_field(&all[i].field, &all[i].range));
                proof {
                    assert(errors_view(errors@) =~= errors_view(before) + seq![
                        conflicting_field_error(views[i as int].field, views[i as int].range),
                    ]);
                }
            } else {
                proof {
                    assert(errors_view(errors@) + Seq::<ErrorView>::empty() =~= errors_view(errors@));
                }
            }
            i = i + 1;
        }
        proof {
            assert(views.take(i as int) =~= views);
        }
        errors
    }

    fn untagged(&self, name: &String, branches: &Vec<YggdrasilExpression>) -> (r: Vec<
        YggdrasilError,
    >)
        ensures
            errors_view(r@) == untagged_errors(name@, expressions_view(branches@)),
    {
        let mut errors: Vec<YggdrasilError> = Vec::new();
        let ghost all = expressions_view(branches@);
        let mut i: usize = 0;
        proof {
            assert(all.take(0) =~= Seq::<ExpressionView>::empty());
            assert(errors_view(errors@) =~= untagged_errors(name@, all.take(0)));
        }
        while i < branches.len()
            invariant
                i <= branches.len(),
                all == expressions_view(branches@),
                errors_view(errors@) == untagged_errors(name@, all.take(i as int)),
            decreases branches.len() - i,
        {
            proof {
                assert(all.take(i + 1).drop_last() =~= all.take(i as int));
                assert(all.take(i + 1).last() == all[i as int]);
            }
            if branches[i].node_tag.is_none() {
                let ghost before = errors@;
                errors.push(YggdrasilError::missing_branch_tag(name, &branches[i].range));
                proof {
                    assert(errors_view(errors@) =~= errors_view(before) + seq![
                        missing_branch_tag_error(name@, all[i as int].range),
                    ]);
                }
            } else {
                proof {
                    assert(errors_view(errors@) =~= errors_view(errors@) + Seq::<ErrorView>::empty());
                }
            }
            i = i + 1;
        }
        proof {
            assert(all.take(i as int) =~= all);
        }
        errors
    }
}

impl RulePass for RemarkTags {
    open spec fn spec_rule(&self, grammar: GrammarView, rule: RuleView) -> (RuleView, Seq<ErrorView>) {
        spec_remark_rule(rule)
    }

    fn pass_rule(&self, grammar: &GrammarInfo, rule: &GrammarRule) -> (r: (
        GrammarRule,
        Vec<YggdrasilError>,
    )) {
        match &rule.body {
            None => {
                let errors: Vec<YggdrasilError> = Vec::new();
                proof {
                    assert(errors_view(errors@) =~= Seq::<ErrorView>::empty());
                }
                (rule.clone(), errors)
            },
            Some(body) => {
                let tagged = self.remarked(body, true);
                let errors = match rule.kind {
                    GrammarRuleKind::Union => {
                        proof {
                            lemma_view_children(tagged);
                        }
                        match &tagged.body {
                            ExpressionKind::Choice(many) => self.untagged(
                                &rule.name.text,
                                &many.branches,
                            ),
                            _ => {
                                let mut errors: Vec<YggdrasilError> = Vec::new();
                                proof {
                                    let one = seq![tagged@];
                                    assert(one.drop_last() =~= Seq::<ExpressionView>::empty());
                                    assert(untagged_errors(rule.name.text@, one.drop_last())
                                        =~= Seq::<ErrorView>::empty());
                                }
                                if tagged.node_tag.is_none() {
                                    errors.push(
                                        YggdrasilError::missing_branch_tag(
                                            &rule.name.text,
                                            &tagged.range,
                                        ),
                                    );
                                }
                                proof {
                                    assert(errors_view(errors@) =~= untagged_errors(
                                        rule.name.text@,
                                        seq![tagged@],
                                    ));
                                }
                                errors
                            },
                        }
                    },
                    GrammarRuleKind::Class => {
                        let mut all: Vec<Binding> = Vec::new();
                        proof {
                            assert(bindings_view(all@) =~= Seq::<BindingView>::empty());
                        }
                        self.captures(&tagged, &mut all);
                        proof {
                            assert(Seq::<BindingView>::empty() + bindings(tagged@) =~= bindings(
                                tagged@,
                            ));
                        }
                        self.conflicts(&all)
                    },
                    GrammarRuleKind::Climb => {
                        let errors: Vec<YggdrasilError> = Vec::new();
                        proof {
                            assert(errors_view(errors@) =~= Seq::<ErrorView>::empty());
                        }
                        errors
                    },
                };
                (rule.with_body(Some(tagged)), errors)
            },
        }
    }
}

impl CodeOptimizer for RemarkTags {
    open spec fn spec_optimize(&self, info: GrammarView) -> (GrammarView, Seq<ErrorView>) {
        spec_rule_pass(*self, info)
    }

    fn optimize(&mut self, info: &GrammarInfo) -> (r: Validation<GrammarInfo>) {
        run_rule_pass(&*self, info)
    }
}

} // verus!
