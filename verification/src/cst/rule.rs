//! The names of the rules, and the entry of the recogniser.

use vstd::prelude::*;
use crate::cst::parse::{
    assign_kind, assign_statement, block, comment_doc, comment_m_l, comment_s_l, data,
    empty_statement, eos, expr, fragment, fragment_statement, grammar, grammar_statement,
    ignore_statement, import_statement, integer, list, macro_arg, macro_call, macro_define,
    macro_kv, prefix, program, regex_range, slice, special, statement, string, suffix, symbol,
    symbol_alias, symbol_path, COMMENT, IGNORE, NEWLINE, WHITESPACE,
};
use crate::cst::state::{rule_outcome, Atomicity, RuleResult, RuleState};
use crate::cst::syntax::{
    spec_COMMENT, spec_IGNORE, spec_NEWLINE, spec_WHITESPACE, spec_assign_kind,
    spec_assign_statement, spec_block, spec_comment_doc, spec_comment_m_l, spec_comment_s_l,
    spec_data, spec_empty_statement, spec_eos, spec_expr, spec_fragment, spec_fragment_statement,
    spec_grammar, spec_grammar_statement, spec_ignore_statement, spec_import_statement,
    spec_integer, spec_list, spec_macro_arg, spec_macro_call, spec_macro_define, spec_macro_kv,
    spec_prefix, spec_program, spec_regex_range, spec_slice, spec_special, spec_statement,
    spec_string, spec_suffix, spec_symbol, spec_symbol_alias, spec_symbol_path,
};

verus! {

/// The names of the rules.
#[allow(non_camel_case_types)]
#[derive(Clone, Copy, Debug, PartialEq, Eq, Structural)]
pub enum Rule {
    program,
    statement,
    empty_statement,
    eos,
    grammar_statement,
    grammar,
    fragment_statement,
    fragment,
    mark_branch,
    mark_type,
    import_statement,
    import,
    ignore_statement,
    ignore,
    assign_statement,
    assign_kind,
    expr,
    __rec_expr_left,
    __rec_expr_rest,
    BRANCH,
    branch_tag,
    prefix,
    suffix,
    data,
    list,
    slice,
    regex_range,
    macro_call,
    macro_define,
    macro_kv,
    macro_arg,
    block,
    string,
    integer,
    special,
    comment_doc,
    comment_s_l,
    comment_m_l,
    id_path,
    SYMBOL,
    WHITESPACE,
    NEWLINE,
    COMMENT,
    symbol_alias,
    __rec_expr,
    __rec_expr_concat,
    choice,
    __rec_choice,
    __rec_expr_choice,
    IGNORE,
    UNMARKED,
    UNNAMED,
    EOI,
}

/// The recogniser with its entry.
#[derive(Clone, Copy, Debug, PartialEq, Eq, Structural)]
pub struct CSTBuilder {}

/// Where the rule ends when it is tried at the start of the text, for the
/// rules that a run can start with.
pub open spec fn spec_parse(rule: Rule, s: Seq<char>) -> Option<Option<int>> {
    match rule {
        Rule::program => Some(spec_program(s, Some(0int), Atomicity::NonAtomic)),
        Rule::statement => Some(spec_statement(s, Some(0int), Atomicity::NonAtomic)),
        Rule::empty_statement => Some(spec_empty_statement(s, Some(0int))),
        Rule::eos => Some(spec_eos(s, Some(0int))),
        Rule::grammar_statement => Some(spec_grammar_statement(s, Some(0int), Atomicity::NonAtomic)),
        Rule::grammar => Some(spec_grammar(s, Some(0int))),
        Rule::fragment_statement => Some(spec_fragment_statement(s, Some(0int), Atomicity::NonAtomic)),
        Rule::fragment => Some(spec_fragment(s, Some(0int))),
        Rule::import_statement => Some(spec_import_statement(s, Some(0int), Atomicity::NonAtomic)),
        Rule::ignore_statement => Some(spec_ignore_statement(s, Some(0int), Atomicity::NonAtomic)),
        Rule::assign_statement => Some(spec_assign_statement(s, Some(0int), Atomicity::NonAtomic)),
        Rule::assign_kind => Some(spec_assign_kind(s, Some(0int))),
        Rule::expr => Some(spec_expr(s, Some(0int), Atomicity::NonAtomic)),
        Rule::prefix => Some(spec_prefix(s, Some(0int))),
        Rule::suffix => Some(spec_suffix(s, Some(0int))),
        Rule::data => Some(spec_data(s, Some(0int), Atomicity::NonAtomic)),
        Rule::list => Some(spec_list(s, Some(0int), Atomicity::NonAtomic)),
        Rule::slice => Some(spec_slice(s, Some(0int), Atomicity::NonAtomic)),
        Rule::regex_range => Some(spec_regex_range(s, Some(0int))),
        Rule::macro_call => Some(spec_macro_call(s, Some(0int), Atomicity::NonAtomic)),
        Rule::macro_define => Some(spec_macro_define(s, Some(0int), Atomicity::NonAtomic)),
        Rule::macro_kv => Some(spec_macro_kv(s, Some(0int), Atomicity::NonAtomic)),
        Rule::macro_arg => Some(spec_macro_arg(s, Some(0int), Atomicity::NonAtomic)),
        Rule::block => Some(spec_block(s, Some(0int), Atomicity::NonAtomic)),
        Rule::string => Some(spec_string(s, Some(0int))),
        Rule::integer => Some(spec_integer(s, Some(0int))),
        Rule::special => Some(spec_special(s, Some(0int))),
        Rule::comment_doc => Some(spec_comment_doc(s, Some(0int))),
        Rule::comment_s_l => Some(spec_comment_s_l(s, Some(0int))),
        Rule::comment_m_l => Some(spec_comment_m_l(s, Some(0int))),
        Rule::COMMENT => Some(spec_COMMENT(s, Some(0int))),
        Rule::id_path => Some(spec_symbol_path(s, Some(0int), Atomicity::NonAtomic)),
        Rule::symbol_alias => Some(spec_symbol_alias(s, Some(0int), Atomicity::NonAtomic)),
        Rule::SYMBOL => Some(spec_symbol(s, Some(0int))),
        Rule::IGNORE => Some(spec_IGNORE(s, Some(0int))),
        Rule::WHITESPACE => Some(spec_WHITESPACE(s, Some(0int))),
        Rule::NEWLINE => Some(spec_NEWLINE(s, Some(0int))),
        _ => None,
    }
}

/// A recogniser that tries a rule at the start of a text.
pub trait YggdrasilParser {
    /// The names of its rules.
    type Rule;

    /// Where the rule ends when it is tried at the start of the text, for
    /// the rules that a run can start with.
    spec fn ends(rule: Self::Rule, input: Seq<char>) -> Option<Option<int>>;

    /// Tries one rule at the start of a text, where comments and white
    /// space are skipped: behind a match the state stands where the rule
    /// ends, after a failure it stands at the start, and there is no
    /// result for a rule that a run cannot start with.
    fn parse(rule: Self::Rule, input: Vec<char>) -> (r: Option<RuleResult>)
        ensures
            match r {
                Some(outcome) => Self::ends(rule, input@) matches Some(end) && rule_outcome(
                    RuleState { input, position: 0, atomicity: Atomicity::NonAtomic },
                    outcome,
                    end,
                ),
                None => Self::ends(rule, input@) is None,
            },
    ;
}

impl YggdrasilParser for CSTBuilder {
    type Rule = Rule;

    open spec fn ends(rule: Rule, input: Seq<char>) -> Option<Option<int>> {
        spec_parse(rule, input)
    }

    fn parse(rule: Rule, input: Vec<char>) -> (r: Option<RuleResult>) {
        CSTBuilder::parse(rule, input)
    }
}

impl CSTBuilder {
    /// Tries one rule at the start of a text, with comments and white
    /// space skipped between the parts of the rule. There is no result
    /// for a rule that a run cannot start with.
    pub fn parse(rule: Rule, input: Vec<char>) -> (r: Option<RuleResult>)
        ensures
            match r {
                Some(outcome) => spec_parse(rule, input@) matches Some(end) && rule_outcome(
                    RuleState { input, position: 0, atomicity: Atomicity::NonAtomic },
                    outcome,
                    end,
                ),
                None => spec_parse(rule, input@) is None,
            },
    {
        let state = RuleState::new(input);
        match rule {
            Rule::program => Some(program(state)),
            Rule::statement => Some(statement(state)),
            Rule::empty_statement => Some(empty_statement(state)),
            Rule::eos => Some(eos(state)),
            Rule::grammar_statement => Some(grammar_statement(state)),
            Rule::grammar => Some(grammar(state)),
            Rule::fragment_statement => Some(fragment_statement(state)),
            Rule::fragment => Some(fragment(state)),
            Rule::import_statement => Some(import_statement(state)),
            Rule::ignore_statement => Some(ignore_statement(state)),
            Rule::assign_statement => Some(assign_statement(state)),
            Rule::assign_kind => Some(assign_kind(state)),
            Rule::expr => Some(expr(state)),
            Rule::prefix => Some(prefix(state)),
            Rule::suffix => Some(suffix(state)),
            Rule::data => Some(data(state)),
            Rule::list => Some(list(state)),
            Rule::slice => Some(slice(state)),
            Rule::regex_range => Some(regex_range(state)),
            Rule::macro_call => Some(macro_call(state)),
            Rule::macro_define => Some(macro_define(state)),
            Rule::macro_kv => Some(macro_kv(state)),
            Rule::macro_arg => Some(macro_arg(state)),
            Rule::block => Some(block(state)),
            Rule::string => Some(string(state)),
            Rule::integer => Some(integer(state)),
            Rule::special => Some(special(state)),
            Rule::comment_doc => Some(comment_doc(state)),
            Rule::comment_s_l => Some(comment_s_l(state)),
            Rule::comment_m_l => Some(comment_m_l(state)),
            Rule::COMMENT => Some(COMMENT(state)),
            Rule::id_path => Some(symbol_path(state)),
            Rule::symbol_alias => Some(symbol_alias(state)),
            Rule::SYMBOL => Some(symbol(state)),
            Rule::IGNORE => Some(IGNORE(state)),
            Rule::WHITESPACE => Some(WHITESPACE(state)),
            Rule::NEWLINE => Some(NEWLINE(state)),
            _ => None,
        }
    }
}

} // verus!
