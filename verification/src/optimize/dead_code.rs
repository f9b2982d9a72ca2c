//! Dead-code elimination: the pass that resolves every rule reference and
//! drops the rules that nothing reaches.

use vstd::prelude::*;
use std::ops::Range;
use indexmap::IndexMap;
use crate::errors::{errors_view, undeclared_rule_error, ErrorView, Validation, YggdrasilError};
use crate::expression::{
    clone_identifier, clone_operators, expressions_view, lemma_view_children, ChoiceExpression,
    ConcatExpression, ExpressionKind, ExpressionKindView, ExpressionView, UnaryExpression,
    YggdrasilExpression,
};
use crate::grammar::{
    entries_view, key_index, lemma_key_index_view, rule_entries, rule_position, rules_get_index,
    rules_insert, rules_len, rules_new, strings_view, GrammarInfo, GrammarView,
};
use crate::optimize::{run_rule_pass, spec_rule_pass, CodeOptimizer, RulePass};
use crate::rule::{GrammarRule, RuleView};
use crate::sequence::{join, lemma_join_empty};

verus! {

/// The expression with every reference to an undeclared rule replaced by
/// a node that matches nothing and keeps the annotations.
pub open spec fn spec_resolve(g: GrammarView, e: ExpressionView) -> ExpressionView
    decreases e,
{
    match e.body {
        ExpressionKindView::Choice(branches) => ExpressionView {
            body: ExpressionKindView::Choice(resolve_each(g, branches)),
            ..e
        },
        ExpressionKindView::Concat(sequence) => ExpressionView {
            body: ExpressionKindView::Concat(resolve_each(g, sequence)),
            ..e
        },
        ExpressionKindView::Unary(base, operators) => ExpressionView {
            body: ExpressionKindView::Unary(Box::new(spec_resolve(g, *base)), operators),
            ..e
        },
        ExpressionKindView::Rule(reference) => if g.declares(reference.name) {
            e
        } else {
            ExpressionView { body: ExpressionKindView::Ignored, ..e }
        },
        _ => e,
    }
}

/// Resolution on a list of expressions.
pub open spec fn resolve_each(g: GrammarView, items: Seq<ExpressionView>) -> Seq<ExpressionView>
    decreases items,
{
    Seq::new(
        items.len(),
        |i: int|
            if 0 <= i < items.len() {
                spec_resolve(g, items[i])
            } else {
                arbitrary()
            },
    )
}

/// The errors of the references to undeclared rules in an expression: one
/// for each such reference, in the order of the text.
pub open spec fn undeclared(g: GrammarView, e: ExpressionView) -> Seq<ErrorView>
    decreases e,
{
    match e.body {
        ExpressionKindView::Choice(branches) => join(undeclared_each(g, branches)),
        ExpressionKindView::Concat(sequence) => join(undeclared_each(g, sequence)),
        ExpressionKindView::Unary(base, operators) => undeclared(g, *base),
        ExpressionKindView::Rule(reference) => if g.declares(reference.name) {
            Seq::empty()
        } else {
            seq![undeclared_rule_error(reference.name, e.range)]
        },
        _ => Seq::empty(),
    }
}

/// The errors of each expression of a list.
pub open spec fn undeclared_each(g: GrammarView, items: Seq<ExpressionView>) -> Seq<Seq<ErrorView>>
    decreases items,
{
    Seq::new(
        items.len(),
        |i: int|
            if 0 <= i < items.len() {
                undeclared(g, items[i])
            } else {
                arbitrary()
            },
    )
}

/// The names of the rules that an expression refers to, in the order of
/// the text.
pub open spec fn references(e: ExpressionView) -> Seq<Seq<char>>
    decreases e,
{
    match e.body {
        ExpressionKindView::Choice(branches) => join(references_each(branches)),
        ExpressionKindView::Concat(sequence) => join(references_each(sequence)),
        ExpressionKindView::Unary(base, operators) => references(*base),
        ExpressionKindView::Rule(reference) => seq![reference.name],
        _ => Seq::empty(),
    }
}

/// The names that each expression of a list refers to.
pub open spec fn references_each(items: Seq<ExpressionView>) -> Seq<Seq<Seq<char>>>
    decreases items,
{
    Seq::new(
        items.len(),
        |i: int|
            if 0 <= i < items.len() {
                references(items[i])
            } else {
                arbitrary()
            },
    )
}

/// The names that the body of a rule refers to.
pub open spec fn rule_references(rule: RuleView) -> Seq<Seq<char>> {
    match rule.body {
        Some(body) => references(body),
        None => Seq::empty(),
    }
}

/// Whether one of the first rules of a grammar is an entry.
pub open spec fn has_entry(rules: Seq<(Seq<char>, RuleView)>, upto: int) -> bool
    decreases upto,
{
    if upto <= 0 {
        false
    } else {
        has_entry(rules, upto - 1) || rules[upto - 1].1.entry
    }
}

/// The marks with one more mark on every declared rule that one of the
/// names refers to.
pub open spec fn spec_mark(
    marks: Seq<bool>,
    rules: Seq<(Seq<char>, RuleView)>,
    names: Seq<Seq<char>>,
) -> Seq<bool>
    decreases names.len(),
{
    if names.len() == 0 {
        marks
    } else {
        let before = spec_mark(marks, rules, names.drop_last());
        match rule_position(rules, names.last()) {
            Some(j) => if 0 <= j < before.len() {
                before.update(j, true)
            } else {
                before
            },
            None => before,
        }
    }
}

/// One sweep over the first rules, in their order: every rule that
/// carries a mark when its turn comes marks the rules that its body refers
/// to.
pub open spec fn spec_sweep(marks: Seq<bool>, rules: Seq<(Seq<char>, RuleView)>, upto: int) -> Seq<
    bool,
>
    decreases upto,
{
    if upto <= 0 {
        marks
    } else {
        let before = spec_sweep(marks, rules, upto - 1);
        if upto - 1 < before.len() && before[upto - 1] {
            spec_mark(before, rules, rule_references(rules[upto - 1].1))
        } else {
            before
        }
    }
}

/// So many sweeps over all rules, one after the other.
pub open spec fn spec_rounds(marks: Seq<bool>, rules: Seq<(Seq<char>, RuleView)>, rounds: int) -> Seq<
    bool,
>
    decreases rounds,
{
    if rounds <= 0 {
        marks
    } else {
        spec_sweep(spec_rounds(marks, rules, rounds - 1), rules, rules.len() as int)
    }
}

/// The marks of the entries.
pub open spec fn entry_marks(rules: Seq<(Seq<char>, RuleView)>) -> Seq<bool> {
    Seq::new(rules.len(), |i: int| rules[i].1.entry)
}

/// The rules that are reached from the entries: the marks of the entries
/// after as many sweeps as there are rules, so that a mark has the time to
/// travel along every chain of references.
pub open spec fn reached(rules: Seq<(Seq<char>, RuleView)>) -> Seq<bool> {
    spec_rounds(entry_marks(rules), rules, rules.len() as int)
}

/// Whether a rule stays: in a grammar without entry every rule stays, in a
/// grammar with entries the rules that are reached from an entry.
pub open spec fn is_live(g: GrammarView, i: int) -> bool {
    !has_entry(g.rules, g.rules.len() as int) || reached(g.rules)[i]
}

/// The rules among the first ones that stay, in their order.
pub open spec fn live_rules(g: GrammarView, upto: int) -> Seq<(Seq<char>, RuleView)>
    decreases upto,
{
    if upto <= 0 {
        Seq::empty()
    } else if is_live(g, upto - 1) {
        live_rules(g, upto - 1).push(g.rules[upto - 1])
    } else {
        live_rules(g, upto - 1)
    }
}

/// The grammar without the rules that nothing reaches.
pub open spec fn spec_prune(g: GrammarView) -> GrammarView {
    g.with_rules(live_rules(g, g.rules.len() as int))
}

/// Marking keeps the number of marks and takes no mark away.
pub proof fn lemma_mark_grows(
    marks: Seq<bool>,
    rules: Seq<(Seq<char>, RuleView)>,
    names: Seq<Seq<char>>,
)
    ensures
        spec_mark(marks, rules, names).len() == marks.len(),
        forall|i: int| 0 <= i < marks.len() && marks[i] ==> #[trigger] spec_mark(marks, rules, names)[i],
    decreases names.len(),
{
    if names.len() > 0 {
        lemma_mark_grows(marks, rules, names.drop_last());
    }
}

/// A sweep keeps the number of marks and takes no mark away.
pub proof fn lemma_sweep_grows(marks: Seq<bool>, rules: Seq<(Seq<char>, RuleView)>, upto: int)
    ensures
        spec_sweep(marks, rules, upto).len() == marks.len(),
        forall|i: int| 0 <= i < marks.len() && marks[i] ==> #[trigger] spec_sweep(marks, rules, upto)[i],
    decreases upto,
{
    if upto > 0 {
        lemma_sweep_grows(marks, rules, upto - 1);
        let before = spec_sweep(marks, rules, upto - 1);
        lemma_mark_grows(before, rules, rule_references(rules[upto - 1].1));
    }
}

/// Sweeps keep the number of marks and take no mark away.
pub proof fn lemma_rounds_grow(marks: Seq<bool>, rules: Seq<(Seq<char>, RuleView)>, rounds: int)
    ensures
        spec_rounds(marks, rules, rounds).len() == marks.len(),
        forall|i: int|
            0 <= i < marks.len() && marks[i] ==> #[trigger] spec_rounds(marks, rules, rounds)[i],
    decreases rounds,
{
    if rounds > 0 {
        lemma_rounds_grow(marks, rules, rounds - 1);
        lemma_sweep_grows(spec_rounds(marks, rules, rounds - 1), rules, rules.len() as int);
    }
}

/// Every entry stays, whatever else goes.
pub proof fn lemma_entries_stay(g: GrammarView, i: int)
    requires
        0 <= i < g.rules.len(),
        g.rules[i].1.entry,
    ensures
        is_live(g, i),
{
    lemma_rounds_grow(entry_marks(g.rules), g.rules, g.rules.len() as int);
}

/// What resolution makes of one rule of a grammar.
pub open spec fn spec_resolve_rule(g: GrammarView, rule: RuleView) -> (RuleView, Seq<ErrorView>) {
    match rule.body {
        Some(body) => (rule.with_body(Some(spec_resolve(g, body))), undeclared(g, body)),
        None => (rule, Seq::empty()),
    }
}

/// A reference to a rule that the grammar does not declare gives exactly
/// one error, at the place of the reference, and a reference to a declared
/// rule gives none.
pub proof fn lemma_undeclared_reference(g: GrammarView, e: ExpressionView)
    requires
        e.body is Rule,
    ensures
        !g.declares(e.body->Rule_0.name) ==> undeclared(g, e) == seq![
            undeclared_rule_error(e.body->Rule_0.name, e.range),
        ],
        g.declares(e.body->Rule_0.name) ==> undeclared(g, e).len() == 0,
{
}

/// After resolution no reference to an undeclared rule is left: the same
/// reference is never reported twice.
pub proof fn lemma_resolve_clears(g: GrammarView, e: ExpressionView)
    ensures
        undeclared(g, spec_resolve(g, e)) == Seq::<ErrorView>::empty(),
    decreases e,
{
    match e.body {
        ExpressionKindView::Choice(branches) => {
            let parts = undeclared_each(g, resolve_each(g, branches));
            assert forall|i: int| 0 <= i < parts.len() implies (#[trigger] parts[i]).len() == 0 by {
                lemma_resolve_clears(g, branches[i]);
            }
            lemma_join_empty(parts);
        },
        ExpressionKindView::Concat(sequence) => {
            let parts = undeclared_each(g, resolve_each(g, sequence));
            assert forall|i: int| 0 <= i < parts.len() implies (#[trigger] parts[i]).len() == 0 by {
                lemma_resolve_clears(g, sequence[i]);
            }
            lemma_join_empty(parts);
        },
        ExpressionKindView::Unary(base, operators) => {
            lemma_resolve_clears(g, *base);
        },
        _ => {},
    }
}

/// Every rule that stays was a rule of the grammar, and a grammar without
/// entries loses no rule.
pub proof fn lemma_live_rules(g: GrammarView, upto: int)
    requires
        0 <= upto <= g.rules.len(),
    ensures
        live_rules(g, upto).len() <= upto,
        forall|k: int|
            0 <= k < live_rules(g, upto).len() ==> exists|j: int|
                0 <= j < upto && g.rules[j] == #[trigger] live_rules(g, upto)[k],
        !has_entry(g.rules, g.rules.len() as int) ==> live_rules(g, upto) == g.rules.take(upto),
    decreases upto,
{
    if upto > 0 {
        lemma_live_rules(g, upto - 1);
        let before = live_rules(g, upto - 1);
        assert forall|k: int| 0 <= k < live_rules(g, upto).len() implies exists|j: int|
            0 <= j < upto && g.rules[j] == #[trigger] live_rules(g, upto)[k] by {
            if k < before.len() {
                let j = choose|j: int| 0 <= j < upto - 1 && g.rules[j] == before[k];
                assert(g.rules[j] == live_rules(g, upto)[k]);
            } else {
                assert(g.rules[upto - 1] == live_rules(g, upto)[k]);
            }
        }
        if !has_entry(g.rules, g.rules.len() as int) {
            assert(g.rules.take(upto - 1).push(g.rules[upto - 1]) =~= g.rules.take(upto));
        }
    } else {
        assert(g.rules.take(0) =~= Seq::<(Seq<char>, RuleView)>::empty());
    }
}

/// The pass that resolves references and drops dead rules.
#[derive(Debug, PartialEq, Eq)]
pub struct DeadCodeEliminator {}

impl DeadCodeEliminator {
    /// The pass.
    pub fn new() -> (r: DeadCodeEliminator) {
        DeadCodeEliminator {  }
    }

    /// Resolves the references of one expression against the rules of
    /// `grammar`, and adds an error for each undeclared one.
    pub fn resolve(
        &self,
        grammar: &GrammarInfo,
        node: &YggdrasilExpression,
        errors: &mut Vec<YggdrasilError>,
    ) -> (r: YggdrasilExpression)
        ensures
            r@ == spec_resolve(grammar@, node@),
            errors_view(final(errors)@) == errors_view(old(errors)@) + undeclared(grammar@, node@),
        decreases node,
    {
        proof {
            lemma_view_children(*node);
            assert(errors_view(errors@) + Seq::<ErrorView>::empty() =~= errors_view(errors@));
        }
        let body = match &node.body {
            ExpressionKind::Choice(v) => ExpressionKind::Choice(
                ChoiceExpression { branches: self.resolve_nodes(grammar, &v.branches, errors) },
            ),
            ExpressionKind::Concat(v) => ExpressionKind::Concat(
                ConcatExpression { sequence: self.resolve_nodes(grammar, &v.sequence, errors) },
            ),
            ExpressionKind::Unary(v) => ExpressionKind::Unary(
                UnaryExpression {
                    base: Box::new(self.resolve(grammar, &*v.base, errors)),
                    operators: clone_operators(&v.operators),
                },
            ),
            ExpressionKind::Rule(v) => {
                if grammar.declares(v.name.as_str()) {
                    return node.clone();
                }
                let ghost before = errors@;
                errors.push(YggdrasilError::undeclared_rule(&v.name, &node.range));
                proof {
                    assert(errors_view(errors@) =~= errors_view(before) + seq![
                        undeclared_rule_error(v.name@, node.range),
                    ]);
                }
                ExpressionKind::Ignored
            },
            _ => {
                return node.clone();
            },
        };
        let out = YggdrasilExpression {
            body,
            tag: clone_identifier(&node.tag),
            node_tag: clone_identifier(&node.node_tag),
            ty: clone_identifier(&node.ty),
            remark: node.remark,
            range: Range { start: node.range.start, end: node.range.end },
        };
        proof {
            lemma_view_children(out);
        }
        out
    }

    /// Resolution on a list of expressions.
    pub fn resolve_nodes(
        &self,
        grammar: &GrammarInfo,
        items: &Vec<YggdrasilExpression>,
        errors: &mut Vec<YggdrasilError>,
    ) -> (r: Vec<YggdrasilExpression>)
        ensures
            expressions_view(r@) == resolve_each(grammar@, expressions_view(items@)),
            errors_view(final(errors)@) == errors_view(old(errors)@) + join(
                undeclared_each(grammar@, expressions_view(items@)),
            ),
        decreases items,
    {
        let mut out: Vec<YggdrasilExpression> = Vec::new();
        let ghost parts = undeclared_each(grammar@, expressions_view(items@));
        let ghost start = errors_view(errors@);
        let mut i: usize = 0;
        proof {
            assert(parts.take(0) =~= Seq::<Seq<ErrorView>>::empty());
            assert(start + join(parts.take(0)) =~= start);
        }
        while i < items.len()
            invariant
                i <= items.len(),
                out@.len() == i,
                parts == undeclared_each(grammar@, expressions_view(items@)),
                forall|j: int| 0 <= j < i ==> out@[j]@ == spec_resolve(grammar@, items@[j]@),
                errors_view(errors@) == start + join(parts.take(i as int)),
            decreases items.len() - i,
        {
            let item = self.resolve(grammar, &items[i], errors);
            out.push(item);
            proof {
                assert(parts.take(i + 1).drop_last() =~= parts.take(i as int));
                assert(parts.take(i + 1).last() == parts[i as int]);
                assert(errors_view(errors@) =~= start + join(parts.take(i + 1)));
            }
            i = i + 1;
        }
        proof {
            assert(parts.take(i as int) =~= parts);
            assert(expressions_view(out@) =~= resolve_each(grammar@, expressions_view(items@)));
        }
        out
    }

    /// Adds the names that an expression refers to.
    pub fn collect(&self, node: &YggdrasilExpression, names: &mut Vec<String>)
        ensures
            strings_view(final(names)@) == strings_view(old(names)@) + references(node@),
        decreases node,
    {
        proof {
            lemma_view_children(*node);
            assert(strings_view(names@) + Seq::<Seq<char>>::empty() =~= strings_view(names@));
        }
        match &node.body {
            ExpressionKind::Choice(v) => self.collect_each(&v.branches, names),
            ExpressionKind::Concat(v) => self.collect_each(&v.sequence, names),
            ExpressionKind::Unary(v) => self.collect(&*v.base, names),
            ExpressionKind::Rule(v) => {
                let ghost before = names@;
                names.push(v.name.clone());
                proof {
                    assert(strings_view(names@) =~= strings_view(before) + seq![v.name@]);
                }
            },
            _ => {},
        }
    }

    /// Adds the names that the expressions of a list refer to.
    pub fn collect_each(&self, items: &Vec<YggdrasilExpression>, names: &mut Vec<String>)
        ensures
            strings_view(final(names)@) == strings_view(old(names)@) + join(
                references_each(expressions_view(items@)),
            ),
        decreases items,
    {
        let ghost parts = references_each(expressions_view(items@));
        let ghost start = strings_view(names@);
        let mut i: usize = 0;
        proof {
            assert(parts.take(0) =~= Seq::<Seq<Seq<char>>>::empty());
            assert(start + join(parts.take(0)) =~= start);
        }
        while i < items.len()
            invariant
                i <= items.len(),
                parts == references_each(expressions_view(items@)),
                strings_view(names@) == start + join(parts.take(i as int)),
            decreases items.len() - i,
        {
            self.collect(&items[i], names);
            proof {
                assert(parts.take(i + 1).drop_last() =~= parts.take(i as int));
                assert(parts.take(i + 1).last() == parts[i as int]);
                assert(strings_view(names@) =~= start + join(parts.take(i + 1)));
            }
            i = i + 1;
        }
        proof {
            assert(parts.take(i as int) =~= parts);
        }
    }

    /// Marks every declared rule that one of the names refers to.
    pub fn mark(&self, info: &GrammarInfo, names: &Vec<String>, marks: &mut Vec<bool>)
        requires
            old(marks)@.len() == info@.rules.len(),
        ensures
            final(marks)@ == spec_mark(old(marks)@, info@.rules, strings_view(names@)),
            final(marks)@.len() == old(marks)@.len(),
    {
        let ghost all = strings_view(names@);
        let ghost start = marks@;
        let mut i: usize = 0;
        proof {
            assert(all.take(0) =~= Seq::<Seq<char>>::empty());
        }
        while i < names.len()
            invariant
                i <= names.len(),
                all == strings_view(names@),
                marks@.len() == info@.rules.len(),
                marks@ == spec_mark(start, info@.rules, all.take(i as int)),
            decreases names.len() - i,
        {
            proof {
                assert(all.take(i + 1).drop_last() =~= all.take(i as int));
                assert(all.take(i + 1).last() == all[i as int]);
            }
            match info.rule_index(names[i].as_str()) {
                Some(j) => {
                    marks.set(j, true);
                },
                None => {},
            }
            i = i + 1;
        }
        proof {
            assert(all.take(i as int) =~= all);
        }
    }

    /// The grammar without the rules that nothing reaches.
    pub fn prune(&self, info: &GrammarInfo) -> (r: GrammarInfo)
        ensures
            r@ == spec_prune(info@),
    {
        let n = rules_len(&info.rules);
        let mut names: Vec<Vec<String>> = Vec::new();
        let mut marks: Vec<bool> = Vec::new();
        let mut any_entry = false;
        let mut i: usize = 0;
        while i < n
            invariant
                i <= n,
                n == rule_entries(info.rules).len(),
                names@.len() == i,
                marks@.len() == i,
                forall|j: int|
                    0 <= j < i ==> strings_view((#[trigger] names@[j])@) == rule_references(
                        info@.rules[j].1,
                    ),
                forall|j: int| 0 <= j < i ==> #[trigger] marks@[j] == info@.rules[j].1.entry,
                any_entry == has_entry(info@.rules, i as int),
            decreases n - i,
        {
            let mut found: Vec<String> = Vec::new();
            let mut entry = false;
            proof {
                assert(strings_view(found@) =~= Seq::<Seq<char>>::empty());
            }
            match rules_get_index(&info.rules, i) {
                Some((_, rule)) => {
                    entry = rule.entry;
                    match &rule.body {
                        Some(body) => {
                            self.collect(body, &mut found);
                            proof {
                                assert(Seq::<Seq<char>>::empty() + references(body@) =~= references(
                                    body@,
                                ));
                            }
                        },
                        None => {},
                    }
                },
                None => {},
            }
            if entry {
                any_entry = true;
            }
            names.push(found);
            marks.push(entry);
            i = i + 1;
        }
        proof {
            assert(marks@ =~= entry_marks(info@.rules));
        }
        let mut round: usize = 0;
        while round < n
            invariant
                round <= n,
                n == info@.rules.len(),
                names@.len() == n,
                marks@.len() == n,
                forall|j: int|
                    0 <= j < n ==> strings_view((#[trigger] names@[j])@) == rule_references(
                        info@.rules[j].1,
                    ),
                marks@ == spec_rounds(entry_marks(info@.rules), info@.rules, round as int),
            decreases n - round,
        {
            let ghost before = marks@;
            let mut k: usize = 0;
            while k < n
                invariant
                    k <= n,
                    n == info@.rules.len(),
                    names@.len() == n,
                    marks@.len() == n,
                    before.len() == n,
                    forall|j: int|
                        0 <= j < n ==> strings_view((#[trigger] names@[j])@) == rule_references(
                            info@.rules[j].1,
                        ),
                    marks@ == spec_sweep(before, info@.rules, k as int),
                decreases n - k,
            {
                if marks[k] {
                    self.mark(info, &names[k], &mut marks);
                }
                k = k + 1;
            }
            round = round + 1;
        }
        let mut rules: IndexMap<String, GrammarRule> = rules_new();
        let mut k: usize = 0;
        let ghost mut origin: Seq<int> = Seq::empty();
        proof {
            assert(entries_view(rule_entries(rules)) =~= live_rules(info@, 0));
        }
        while k < n
            invariant
                k <= n,
                n == rule_entries(info.rules).len(),
                marks@ == reached(info@.rules),
                marks@.len() == n,
                any_entry == has_entry(info@.rules, n as int),
                entries_view(rule_entries(rules)) == live_rules(info@, k as int),
                origin.len() == rule_entries(rules).len(),
                forall|j: int|
                    0 <= j < origin.len() ==> 0 <= #[trigger] origin[j] < k && rule_entries(
                        rules,
                    )[j].0 == rule_entries(info.rules)[origin[j]].0,
            decreases n - k,
        {
            let ghost before = rule_entries(rules);
            match rules_get_index(&info.rules, k) {
                Some((key, rule)) => {
                    let keep = !any_entry || marks[k];
                    if keep {
                        proof {
                            lemma_key_index_view(before, key@);
                            if key_index(before, key@) is Some {
                                let j = key_index(before, key@).unwrap();
                                assert(before[j].0 == rule_entries(info.rules)[origin[j]].0);
                            }
                        }
                        rules_insert(&mut rules, key.clone(), rule.clone());
                        proof {
                            origin = origin.push(k as int);
                            assert(entries_view(rule_entries(rules)) =~= live_rules(
                                info@,
                                k as int,
                            ).push(info@.rules[k as int]));
                        }
                    }
                },
                None => {},
            }
            k = k + 1;
        }
        info.with_rules(rules)
    }
}

impl RulePass for DeadCodeEliminator {
    open spec fn spec_rule(&self, grammar: GrammarView, rule: RuleView) -> (RuleView, Seq<ErrorView>) {
        spec_resolve_rule(grammar, rule)
    }

    fn pass_rule(&self, grammar: &GrammarInfo, rule: &GrammarRule) -> (r: (
        GrammarRule,
        Vec<YggdrasilError>,
    )) {
        let mut errors: Vec<YggdrasilError> = Vec::new();
        proof {
            assert(errors_view(errors@) =~= Seq::<ErrorView>::empty());
        }
        match &rule.body {
            Some(body) => {
                let resolved = self.resolve(grammar, body, &mut errors);
                proof {
                    assert(Seq::<ErrorView>::empty() + undeclared(grammar@, body@) =~= undeclared(
                        grammar@,
                        body@,
                    ));
                }
                (rule.with_body(Some(resolved)), errors)
            },
            None => (rule.clone(), errors),
        }
    }
}

impl CodeOptimizer for DeadCodeEliminator {
    open spec fn spec_optimize(&self, info: GrammarView) -> (GrammarView, Seq<ErrorView>) {
        (spec_prune(spec_rule_pass(*self, info).0), spec_rule_pass(*self, info).1)
    }

    fn optimize(&mut self, info: &GrammarInfo) -> (r: Validation<GrammarInfo>) {
        match run_rule_pass(&*self, info) {
            Validation::Success { value, diagnostics } => Validation::Success {
                value: self.prune(&value),
                diagnostics,
            },
            Validation::Failure { fatal, diagnostics } => Validation::Failure { fatal, diagnostics },
        }
    }
}

} // verus!
