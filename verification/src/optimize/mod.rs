//! The passes over a grammar, and the pipeline that runs them.

use vstd::prelude::*;
use indexmap::IndexMap;
use crate::errors::{errors_view, ErrorView, Validation, YggdrasilError};
use crate::grammar::{
    entries_view, key_index, lemma_key_index_view, rule_entries, rules_get_index, rules_insert,
    rules_len, rules_new, GrammarInfo, GrammarView,
};
use crate::rule::{GrammarRule, RuleView};

pub mod dead_code;
pub mod fuse_charset;
pub mod inlining;
pub mod pipeline;
pub mod refine_rules;
pub mod remark_tag;

verus! {

/// A pass over a grammar: from a grammar to a new grammar and the
/// diagnostics met on the way. The grammar that is handed in stays as it
/// is.
pub trait CodeOptimizer {
    /// What the pass makes of a grammar.
    spec fn spec_optimize(&self, info: GrammarView) -> (GrammarView, Seq<ErrorView>);

    /// Runs the pass. It always succeeds: what is wrong in the grammar is
    /// reported in the diagnostics, beside a grammar that later passes can
    /// go on with.
    fn optimize(&mut self, info: &GrammarInfo) -> (r: Validation<GrammarInfo>)
        ensures
            r matches Validation::Success { value, diagnostics } && (value@, errors_view(diagnostics@))
                == old(self).spec_optimize(info@),
    ;
}

/// What makes something of a grammar: code, a diagram, a document.
pub trait CodeGenerator<T> {
    /// What the generator may make of a grammar.
    spec fn generates(&self, info: GrammarView, out: Validation<T>) -> bool;

    /// Makes its output of a grammar.
    fn generate(&mut self, info: &GrammarInfo) -> (r: Validation<T>)
        ensures
            old(self).generates(info@, r),
    ;
}

impl GrammarInfo {
    /// Hands the grammar to a generator, and hands on what the generator
    /// makes of it.
    pub fn codegen<T, G: CodeGenerator<T>>(&self, pass: G) -> (r: Validation<T>)
        ensures
            pass.generates(self@, r),
    {
        let mut pass = pass;
        pass.generate(self)
    }
}

/// A pass that works rule by rule.
pub trait RulePass {
    /// What the pass makes of one rule of a grammar.
    spec fn spec_rule(&self, grammar: GrammarView, rule: RuleView) -> (RuleView, Seq<ErrorView>);

    /// Runs the pass on one rule.
    fn pass_rule(&self, grammar: &GrammarInfo, rule: &GrammarRule) -> (r: (
        GrammarRule,
        Vec<YggdrasilError>,
    ))
        ensures
            (r.0@, errors_view(r.1@)) == self.spec_rule(grammar@, rule@),
    ;
}

/// The rules of a grammar after a rule pass: each under its old name, in
/// the old order.
pub open spec fn pass_rules<P: RulePass>(pass: P, grammar: GrammarView) -> Seq<(Seq<char>, RuleView)> {
    Seq::new(
        grammar.rules.len(),
        |i: int| (grammar.rules[i].0, pass.spec_rule(grammar, grammar.rules[i].1).0),
    )
}

/// The diagnostics of a rule pass over the first rules of a grammar, in
/// the order of the rules.
pub open spec fn pass_diagnostics<P: RulePass>(pass: P, grammar: GrammarView, upto: int) -> Seq<
    ErrorView,
>
    decreases upto,
{
    if upto <= 0 {
        Seq::empty()
    } else {
        pass_diagnostics(pass, grammar, upto - 1) + pass.spec_rule(
            grammar,
            grammar.rules[upto - 1].1,
        ).1
    }
}

/// What a rule pass makes of a grammar.
pub open spec fn spec_rule_pass<P: RulePass>(pass: P, grammar: GrammarView) -> (
    GrammarView,
    Seq<ErrorView>,
) {
    (
        grammar.with_rules(pass_rules(pass, grammar)),
        pass_diagnostics(pass, grammar, grammar.rules.len() as int),
    )
}

/// Adds the diagnostics of `more` to `all`.
pub fn append_diagnostics(all: &mut Vec<YggdrasilError>, more: Vec<YggdrasilError>)
    ensures
        errors_view(final(all)@) == errors_view(old(all)@) + errors_view(more@),
{
    let mut more = more;
    let ghost a = all@;
    let ghost b = more@;
    all.append(&mut more);
    proof {
        assert(errors_view(a + b) =~= errors_view(a) + errors_view(b));
    }
}

/// Runs a rule pass over every rule of a grammar, in the order of the
/// rules.
pub fn run_rule_pass<P: RulePass>(pass: &P, info: &GrammarInfo) -> (r: Validation<GrammarInfo>)
    ensures
        r matches Validation::Success { value, diagnostics } && (value@, errors_view(diagnostics@))
            == spec_rule_pass(*pass, info@),
{
    let mut rules: IndexMap<String, GrammarRule> = rules_new();
    let mut errors: Vec<YggdrasilError> = Vec::new();
    let n = rules_len(&info.rules);
    let mut i: usize = 0;
    proof {
        assert(errors_view(errors@) =~= Seq::<ErrorView>::empty());
        assert(entries_view(rule_entries(rules)) =~= pass_rules(*pass, info@).take(0));
    }
    while i < n
        invariant
            i <= n,
            n == rule_entries(info.rules).len(),
            entries_view(rule_entries(rules)) == pass_rules(*pass, info@).take(i as int),
            errors_view(errors@) == pass_diagnostics(*pass, info@, i as int),
        decreases n - i,
    {
        let ghost before = rule_entries(rules);
        match rules_get_index(&info.rules, i) {
            Some((key, rule)) => {
                proof {
                    lemma_key_index_view(before, key@);
                    if key_index(before, key@) is Some {
                        let j = key_index(before, key@).unwrap();
                        assert(entries_view(before)[j].0 == key@);
                        assert(pass_rules(*pass, info@).take(i as int)[j].0 == rule_entries(
                            info.rules,
                        )[j].0);
                    }
                }
                let (new_rule, more) = pass.pass_rule(info, rule);
                rules_insert(&mut rules, key.clone(), new_rule);
                append_diagnostics(&mut errors, more);
                proof {
                    assert(entries_view(rule_entries(rules)) =~= pass_rules(*pass, info@).take(
                        i + 1,
                    ));
                }
            },
            None => {},
        }
        i = i + 1;
    }
    proof {
        assert(pass_rules(*pass, info@).take(n as int) =~= pass_rules(*pass, info@));
    }
    Validation::Success { value: info.with_rules(rules), diagnostics: errors }
}

} // verus!
