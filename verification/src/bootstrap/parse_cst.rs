//! The bootstrap recogniser, rule by rule, and its entry.

use vstd::prelude::*;
use crate::bootstrap::regex::regex;
use crate::bootstrap::syntax::{
    spec_parse_white_space, spec_comment_rest, spec_parse_comment, spec_ignore_item,
    spec_builtin_ignore, spec_builtin_any, spec_parse_kw_grammar, spec_parse_kw_import,
    spec_parse_kw_class, spec_parse_kw_union, spec_parse_kw_group, spec_parse_kw_climb,
    spec_parse_kw_macro, spec_parse_identifier, spec_parse_boolean, spec_parse_regex,
    spec_parse_string, spec_parse_right_associativity, spec_parse_atomic, spec_parse_prefix,
    spec_parse_suffix, spec_parse_infix, spec_prefixes, spec_suffixes, spec_parse_term,
    spec_infix_term, spec_infix_terms, spec_parse_expression, spec_keyword, spec_modifier,
    spec_next_modifier, spec_more_modifiers, spec_parse_modifiers, spec_path_step,
    spec_path_steps, spec_parse_namepath, spec_free_step, spec_free_steps,
    spec_parse_namepath_free, spec_parse_branch_tag, spec_parse_union_branch, spec_next_branch,
    spec_more_branches, spec_parse_union_block, spec_parse_union_statements, spec_expressions,
    spec_parse_class_block, spec_parse_class_statements, spec_parse_group_pair,
    spec_group_pairs, spec_parse_group_block, spec_parse_group_statements,
    spec_parse_grammar_block, spec_parse_grammar_statements, spec_parse_statement,
    spec_next_statement, spec_more_statements, spec_parse_root,
};
use crate::cst::state::{
    any, guard, lit, not, opt, pos_view, spec_measure, spec_valid, valid,
};

verus! {

/// The names of the rules of the bootstrap grammar.
#[allow(non_camel_case_types)]
#[derive(Clone, Copy, Debug, PartialEq, Eq, Structural)]
pub enum BootstrapRule {
    Root,
    Statement,
    GrammarStatements,
    GrammarBlock,
    ClassStatements,
    ClassBlock,
    UnionStatements,
    UnionBlock,
    UnionBranch,
    BranchTag,
    RightAssociativity,
    GroupStatements,
    GroupBlock,
    GroupPair,
    Expression,
    Term,
    Infix,
    Prefix,
    Suffix,
    Atomic,
    String,
    Regex,
    NamepathFree,
    Namepath,
    Identifier,
    Boolean,
    Modifiers,
    KW_GRAMMAR,
    KW_IMPORT,
    KW_CLASS,
    KW_UNION,
    KW_GROUP,
    KW_CLIMB,
    KW_MACRO,
    WhiteSpace,
    Comment,
    IgnoreText,
    IgnoreRegex,
}

/// Where the rule ends when it is tried at the start of the text. The
/// two kinds of ignored token are no rules that a run can start with.
pub open spec fn spec_parse_cst(s: Seq<char>, rule: BootstrapRule) -> Option<Option<int>> {
    match rule {
        BootstrapRule::Root => Some(spec_parse_root(s, Some(0int))),
        BootstrapRule::Statement => Some(spec_parse_statement(s, Some(0int))),
        BootstrapRule::GrammarStatements => Some(spec_parse_grammar_statements(s, Some(0int))),
        BootstrapRule::GrammarBlock => Some(spec_parse_grammar_block(s, Some(0int))),
        BootstrapRule::ClassStatements => Some(spec_parse_class_statements(s, Some(0int))),
        BootstrapRule::ClassBlock => Some(spec_parse_class_block(s, Some(0int))),
        BootstrapRule::UnionStatements => Some(spec_parse_union_statements(s, Some(0int))),
        BootstrapRule::UnionBlock => Some(spec_parse_union_block(s, Some(0int))),
        BootstrapRule::UnionBranch => Some(spec_parse_union_branch(s, Some(0int))),
        BootstrapRule::BranchTag => Some(spec_parse_branch_tag(s, Some(0int))),
        BootstrapRule::RightAssociativity => Some(spec_parse_right_associativity(s, Some(0int))),
        BootstrapRule::GroupStatements => Some(spec_parse_group_statements(s, Some(0int))),
        BootstrapRule::GroupBlock => Some(spec_parse_group_block(s, Some(0int))),
        BootstrapRule::GroupPair => Some(spec_parse_group_pair(s, Some(0int))),
        BootstrapRule::Expression => Some(spec_parse_expression(s, Some(0int))),
        BootstrapRule::Term => Some(spec_parse_term(s, Some(0int))),
        BootstrapRule::Infix => Some(spec_parse_infix(s, Some(0int))),
        BootstrapRule::Prefix => Some(spec_parse_prefix(s, Some(0int))),
        BootstrapRule::Suffix => Some(spec_parse_suffix(s, Some(0int))),
        BootstrapRule::Atomic => Some(spec_parse_atomic(s, Some(0int))),
        BootstrapRule::String => Some(spec_parse_string(s, Some(0int))),
        BootstrapRule::Regex => Some(spec_parse_regex(s, Some(0int))),
        BootstrapRule::NamepathFree => Some(spec_parse_namepath_free(s, Some(0int))),
        BootstrapRule::Namepath => Some(spec_parse_namepath(s, Some(0int))),
        BootstrapRule::Identifier => Some(spec_parse_identifier(s, Some(0int))),
        BootstrapRule::Boolean => Some(spec_parse_boolean(s, Some(0int))),
        BootstrapRule::Modifiers => Some(spec_parse_modifiers(s, Some(0int))),
        BootstrapRule::KW_GRAMMAR => Some(spec_parse_kw_grammar(s, Some(0int))),
        BootstrapRule::KW_IMPORT => Some(spec_parse_kw_import(s, Some(0int))),
        BootstrapRule::KW_CLASS => Some(spec_parse_kw_class(s, Some(0int))),
        BootstrapRule::KW_UNION => Some(spec_parse_kw_union(s, Some(0int))),
        BootstrapRule::KW_GROUP => Some(spec_parse_kw_group(s, Some(0int))),
        BootstrapRule::KW_CLIMB => Some(spec_parse_kw_climb(s, Some(0int))),
        BootstrapRule::KW_MACRO => Some(spec_parse_kw_macro(s, Some(0int))),
        BootstrapRule::WhiteSpace => Some(spec_parse_white_space(s, Some(0int))),
        BootstrapRule::Comment => Some(spec_parse_comment(s, Some(0int))),
        _ => None,
    }
}

/// Tries one rule at the start of a text: the position behind the match,
/// or nothing where the rule fails. There is no result for the two kinds
/// of ignored token.
pub fn parse_cst(input: &Vec<char>, rule: BootstrapRule) -> (r: Option<Option<usize>>)
    ensures
        match r {
            Some(end) => spec_parse_cst(input@, rule) == Some(pos_view(end)),
            None => spec_parse_cst(input@, rule) is None,
        },
{
    match rule {
        BootstrapRule::Root => Some(parse_root(input, Some(0))),
        BootstrapRule::Statement => Some(parse_statement(input, Some(0))),
        BootstrapRule::GrammarStatements => Some(parse_grammar_statements(input, Some(0))),
        BootstrapRule::GrammarBlock => Some(parse_grammar_block(input, Some(0))),
        BootstrapRule::ClassStatements => Some(parse_class_statements(input, Some(0))),
        BootstrapRule::ClassBlock => Some(parse_class_block(input, Some(0))),
        BootstrapRule::UnionStatements => Some(parse_union_statements(input, Some(0))),
        BootstrapRule::UnionBlock => Some(parse_union_block(input, Some(0))),
        BootstrapRule::UnionBranch => Some(parse_union_branch(input, Some(0))),
        BootstrapRule::BranchTag => Some(parse_branch_tag(input, Some(0))),
        BootstrapRule::RightAssociativity => Some(parse_right_associativity(input, Some(0))),
        BootstrapRule::GroupStatements => Some(parse_group_statements(input, Some(0))),
        BootstrapRule::GroupBlock => Some(parse_group_block(input, Some(0))),
        BootstrapRule::GroupPair => Some(parse_group_pair(input, Some(0))),
        BootstrapRule::Expression => Some(parse_expression(input, Some(0))),
        BootstrapRule::Term => Some(parse_term(input, Some(0))),
        BootstrapRule::Infix => Some(parse_infix(input, Some(0))),
        BootstrapRule::Prefix => Some(parse_prefix(input, Some(0))),
        BootstrapRule::Suffix => Some(parse_suffix(input, Some(0))),
        BootstrapRule::Atomic => Some(parse_atomic(input, Some(0))),
        BootstrapRule::String => Some(parse_string(input, Some(0))),
        BootstrapRule::Regex => Some(parse_regex(input, Some(0))),
        BootstrapRule::NamepathFree => Some(parse_namepath_free(input, Some(0))),
        BootstrapRule::Namepath => Some(parse_namepath(input, Some(0))),
        BootstrapRule::Identifier => Some(parse_identifier(input, Some(0))),
        BootstrapRule::Boolean => Some(parse_boolean(input, Some(0))),
        BootstrapRule::Modifiers => Some(parse_modifiers(input, Some(0))),
        BootstrapRule::KW_GRAMMAR => Some(parse_kw_grammar(input, Some(0))),
        BootstrapRule::KW_IMPORT => Some(parse_kw_import(input, Some(0))),
        BootstrapRule::KW_CLASS => Some(parse_kw_class(input, Some(0))),
        BootstrapRule::KW_UNION => Some(parse_kw_union(input, Some(0))),
        BootstrapRule::KW_GROUP => Some(parse_kw_group(input, Some(0))),
        BootstrapRule::KW_CLIMB => Some(parse_kw_climb(input, Some(0))),
        BootstrapRule::KW_MACRO => Some(parse_kw_macro(input, Some(0))),
        BootstrapRule::WhiteSpace => Some(parse_white_space(input, Some(0))),
        BootstrapRule::Comment => Some(parse_comment(input, Some(0))),
        _ => None,
    }
}

/// A run of white space.
///
/// `parse_white_space = /^(\p{White_Space}+)/`
pub fn parse_white_space(input: &Vec<char>, at: Option<usize>) -> (r: Option<usize>)
    ensures
        pos_view(r) == spec_parse_white_space(input@, pos_view(at)),
{
    proof {
        reveal(spec_parse_white_space);
    }
    regex(input, at, "^(\\p{White_Space}+)")
}

/// The rest of the line.
///
/// `comment_rest = /^([^\n\r]*)/`
pub fn comment_rest(input: &Vec<char>, at: Option<usize>) -> (r: Option<usize>)
    ensures
        pos_view(r) == spec_comment_rest(input@, pos_view(at)),
{
    proof {
        reveal(spec_comment_rest);
    }
    regex(input, at, "^([^\\n\\r]*)")
}

/// A comment to the end of the line, after `//` or after `#`.
///
/// `parse_comment = ("//" comment_rest) | ("#" comment_rest)`
pub fn parse_comment(input: &Vec<char>, at: Option<usize>) -> (r: Option<usize>)
    ensures
        pos_view(r) == spec_parse_comment(input@, pos_view(at)),
{
    proof {
        reveal(spec_parse_comment);
    }
    let p1 = lit(input, at, "//");
    let p2 = comment_rest(input, p1);
    let p4 = if p2.is_some() {
        p2
    } else {
        let p3 = lit(input, at, "#");
        comment_rest(input, p3)
    };
    p4
}

/// One piece of what is ignored: white space or a comment.
///
/// `ignore_item = parse_white_space | parse_comment`
pub fn ignore_item(input: &Vec<char>, at: Option<usize>) -> (r: Option<usize>)
    ensures
        pos_view(r) == spec_ignore_item(input@, pos_view(at)),
{
    proof {
        reveal(spec_ignore_item);
    }
    let p1 = parse_white_space(input, at);
    let p2 = if p1.is_some() {
        p1
    } else {
        parse_comment(input, at)
    };
    p2
}

/// Everything that is ignored between the parts of a rule.
///
/// `(ignore_item)*`: the repetition ends where an item fails or matches
/// nothing.
pub fn builtin_ignore(input: &Vec<char>, at: Option<usize>) -> (r: Option<usize>)
    ensures
        pos_view(r) == spec_builtin_ignore(input@, pos_view(at)),
{
    if !valid(input, at) {
        proof {
            reveal_with_fuel(spec_builtin_ignore, 1);
        }
        return None;
    }
    let mut cur = at;
    loop
        invariant
            spec_valid(input@, pos_view(cur)),
            spec_builtin_ignore(input@, pos_view(cur)) == spec_builtin_ignore(input@, pos_view(at)),
        decreases spec_measure(input@, pos_view(cur)),
    {
        proof {
            reveal_with_fuel(spec_builtin_ignore, 1);
        }
        let next = guard(input, cur, ignore_item(input, cur));
        if next.is_none() {
            return cur;
        }
        cur = next;
    }
}

/// Any one character.
///
/// `builtin_any = ANY`
pub fn builtin_any(input: &Vec<char>, at: Option<usize>) -> (r: Option<usize>)
    ensures
        pos_view(r) == spec_builtin_any(input@, pos_view(at)),
{
    proof {
        reveal(spec_builtin_any);
    }
    any(input, at)
}

/// The keyword of a grammar.
///
/// `parse_kw_grammar = /^(grammar)/`
pub fn parse_kw_grammar(input: &Vec<char>, at: Option<usize>) -> (r: Option<usize>)
    ensures
        pos_view(r) == spec_parse_kw_grammar(input@, pos_view(at)),
{
    proof {
        reveal(spec_parse_kw_grammar);
    }
    regex(input, at, "^(grammar)")
}

/// The keyword of an import.
///
/// `parse_kw_import = /^(using|import|use)/`
pub fn parse_kw_import(input: &Vec<char>, at: Option<usize>) -> (r: Option<usize>)
    ensures
        pos_view(r) == spec_parse_kw_import(input@, pos_view(at)),
{
    proof {
        reveal(spec_parse_kw_import);
    }
    regex(input, at, "^(using|import|use)")
}

/// The keyword of a class.
///
/// `parse_kw_class = /^(class|struct)/`
pub fn parse_kw_class(input: &Vec<char>, at: Option<usize>) -> (r: Option<usize>)
    ensures
        pos_view(r) == spec_parse_kw_class(input@, pos_view(at)),
{
    proof {
        reveal(spec_parse_kw_class);
    }
    regex(input, at, "^(class|struct)")
}

/// The keyword of a union.
///
/// `parse_kw_union = /^(union|enum)/`
pub fn parse_kw_union(input: &Vec<char>, at: Option<usize>) -> (r: Option<usize>)
    ensures
        pos_view(r) == spec_parse_kw_union(input@, pos_view(at)),
{
    proof {
        reveal(spec_parse_kw_union);
    }
    regex(input, at, "^(union|enum)")
}

/// The keyword of a group.
///
/// `parse_kw_group = /^(group|token)/`
pub fn parse_kw_group(input: &Vec<char>, at: Option<usize>) -> (r: Option<usize>)
    ensures
        pos_view(r) == spec_parse_kw_group(input@, pos_view(at)),
{
    proof {
        reveal(spec_parse_kw_group);
    }
    regex(input, at, "^(group|token)")
}

/// The keyword of a climb.
///
/// `parse_kw_climb = /^(climb)/`
pub fn parse_kw_climb(input: &Vec<char>, at: Option<usize>) -> (r: Option<usize>)
    ensures
        pos_view(r) == spec_parse_kw_climb(input@, pos_view(at)),
{
    proof {
        reveal(spec_parse_kw_climb);
    }
    regex(input, at, "^(climb)")
}

/// The keyword of a macro.
///
/// `parse_kw_macro = /^(macro|def|function|func|fun|fn)/`
pub fn parse_kw_macro(input: &Vec<char>, at: Option<usize>) -> (r: Option<usize>)
    ensures
        pos_view(r) == spec_parse_kw_macro(input@, pos_view(at)),
{
    proof {
        reveal(spec_parse_kw_macro);
    }
    regex(input, at, "^(macro|def|function|func|fun|fn)")
}

/// An identifier.
///
/// `parse_identifier = /^([_\p{XID_start}]\p{XID_continue}*)/`
pub fn parse_identifier(input: &Vec<char>, at: Option<usize>) -> (r: Option<usize>)
    ensures
        pos_view(r) == spec_parse_identifier(input@, pos_view(at)),
{
    proof {
        reveal(spec_parse_identifier);
    }
    regex(input, at, "^([_\\p{XID_start}]\\p{XID_continue}*)")
}

/// A truth value.
///
/// `parse_boolean = "true" | "false"`
pub fn parse_boolean(input: &Vec<char>, at: Option<usize>) -> (r: Option<usize>)
    ensures
        pos_view(r) == spec_parse_boolean(input@, pos_view(at)),
{
    proof {
        reveal(spec_parse_boolean);
    }
    let p1 = lit(input, at, "true");
    let p2 = if p1.is_some() {
        p1
    } else {
        lit(input, at, "false")
    };
    p2
}

/// The sign of a regular expression.
///
/// `parse_regex = "/"`
pub fn parse_regex(input: &Vec<char>, at: Option<usize>) -> (r: Option<usize>)
    ensures
        pos_view(r) == spec_parse_regex(input@, pos_view(at)),
{
    proof {
        reveal(spec_parse_regex);
    }
    lit(input, at, "/")
}

/// An empty text in single or in double quotes.
///
/// `parse_string = ("'" "'") | ("\"" "\"")`
pub fn parse_string(input: &Vec<char>, at: Option<usize>) -> (r: Option<usize>)
    ensures
        pos_view(r) == spec_parse_string(input@, pos_view(at)),
{
    proof {
        reveal(spec_parse_string);
    }
    let p1 = lit(input, at, "'");
    let p2 = lit(input, p1, "'");
    let p4 = if p2.is_some() {
        p2
    } else {
        let p3 = lit(input, at, "\"");
        lit(input, p3, "\"")
    };
    p4
}

/// The sign of right associativity.
///
/// `parse_right_associativity = ">"`
pub fn parse_right_associativity(input: &Vec<char>, at: Option<usize>) -> (r: Option<usize>)
    ensures
        pos_view(r) == spec_parse_right_associativity(input@, pos_view(at)),
{
    proof {
        reveal(spec_parse_right_associativity);
    }
    lit(input, at, ">")
}

/// An atom: an identifier or a truth value.
///
/// `parse_atomic = parse_identifier | parse_boolean`
pub fn parse_atomic(input: &Vec<char>, at: Option<usize>) -> (r: Option<usize>)
    ensures
        pos_view(r) == spec_parse_atomic(input@, pos_view(at)),
{
    proof {
        reveal(spec_parse_atomic);
    }
    let p1 = parse_identifier(input, at);
    let p2 = if p1.is_some() {
        p1
    } else {
        parse_boolean(input, at)
    };
    p2
}

/// One prefix sign.
///
/// `parse_prefix = "!" | "&" | "^"`
pub fn parse_prefix(input: &Vec<char>, at: Option<usize>) -> (r: Option<usize>)
    ensures
        pos_view(r) == spec_parse_prefix(input@, pos_view(at)),
{
    proof {
        reveal(spec_parse_prefix);
    }
    let p1 = lit(input, at, "!");
    let p2 = if p1.is_some() {
        p1
    } else {
        lit(input, at, "&")
    };
    let p3 = if p2.is_some() {
        p2
    } else {
        lit(input, at, "^")
    };
    p3
}

/// One suffix sign.
///
/// `parse_suffix = "?" | "*" | "+"`
pub fn parse_suffix(input: &Vec<char>, at: Option<usize>) -> (r: Option<usize>)
    ensures
        pos_view(r) == spec_parse_suffix(input@, pos_view(at)),
{
    proof {
        reveal(spec_parse_suffix);
    }
    let p1 = lit(input, at, "?");
    let p2 = if p1.is_some() {
        p1
    } else {
        lit(input, at, "*")
    };
    let p3 = if p2.is_some() {
        p2
    } else {
        lit(input, at, "+")
    };
    p3
}

/// What stands between two terms.
///
/// `parse_infix = builtin_ignore | (builtin_ignore "~" builtin_ignore)`
pub fn parse_infix(input: &Vec<char>, at: Option<usize>) -> (r: Option<usize>)
    ensures
        pos_view(r) == spec_parse_infix(input@, pos_view(at)),
{
    proof {
        reveal(spec_parse_infix);
    }
    let p1 = builtin_ignore(input, at);
    let p4 = if p1.is_some() {
        p1
    } else {
        let p2 = builtin_ignore(input, at);
        let p3 = lit(input, p2, "~");
        builtin_ignore(input, p3)
    };
    p4
}

/// The prefix signs of a term.
///
/// `(parse_prefix)*`: the repetition ends where an item fails or matches
/// nothing.
pub fn prefixes(input: &Vec<char>, at: Option<usize>) -> (r: Option<usize>)
    ensures
        pos_view(r) == spec_prefixes(input@, pos_view(at)),
{
    if !valid(input, at) {
        proof {
            reveal_with_fuel(spec_prefixes, 1);
        }
        return None;
    }
    let mut cur = at;
    loop
        invariant
            spec_valid(input@, pos_view(cur)),
            spec_prefixes(input@, pos_view(cur)) == spec_prefixes(input@, pos_view(at)),
        decreases spec_measure(input@, pos_view(cur)),
    {
        proof {
            reveal_with_fuel(spec_prefixes, 1);
        }
        let next = guard(input, cur, parse_prefix(input, cur));
        if next.is_none() {
            return cur;
        }
        cur = next;
    }
}

/// The suffix signs of a term.
///
/// `(parse_suffix)*`: the repetition ends where an item fails or matches
/// nothing.
pub fn suffixes(input: &Vec<char>, at: Option<usize>) -> (r: Option<usize>)
    ensures
        pos_view(r) == spec_suffixes(input@, pos_view(at)),
{
    if !valid(input, at) {
        proof {
            reveal_with_fuel(spec_suffixes, 1);
        }
        return None;
    }
    let mut cur = at;
    loop
        invariant
            spec_valid(input@, pos_view(cur)),
            spec_suffixes(input@, pos_view(cur)) == spec_suffixes(input@, pos_view(at)),
        decreases spec_measure(input@, pos_view(cur)),
    {
        proof {
            reveal_with_fuel(spec_suffixes, 1);
        }
        let next = guard(input, cur, parse_suffix(input, cur));
        if next.is_none() {
            return cur;
        }
        cur = next;
    }
}

/// A term: an atom between its prefix and suffix signs.
///
/// `parse_term = (parse_prefix)* builtin_ignore builtin_ignore builtin_ignore parse_atomic builtin_ignore builtin_ignore builtin_ignore (parse_suffix)*`
pub fn parse_term(input: &Vec<char>, at: Option<usize>) -> (r: Option<usize>)
    ensures
        pos_view(r) == spec_parse_term(input@, pos_view(at)),
{
    proof {
        reveal(spec_parse_term);
    }
    let p1 = prefixes(input, at);
    let p2 = builtin_ignore(input, p1);
    let p3 = builtin_ignore(input, p2);
    let p4 = builtin_ignore(input, p3);
    let p5 = parse_atomic(input, p4);
    let p6 = builtin_ignore(input, p5);
    let p7 = builtin_ignore(input, p6);
    let p8 = builtin_ignore(input, p7);
    suffixes(input, p8)
}

/// One more term of an expression.
///
/// `infix_term = parse_infix parse_term`
pub fn infix_term(input: &Vec<char>, at: Option<usize>) -> (r: Option<usize>)
    ensures
        pos_view(r) == spec_infix_term(input@, pos_view(at)),
{
    proof {
        reveal(spec_infix_term);
    }
    let p1 = parse_infix(input, at);
    parse_term(input, p1)
}

/// The further terms of an expression.
///
/// `(infix_term)*`: the repetition ends where an item fails or matches
/// nothing.
pub fn infix_terms(input: &Vec<char>, at: Option<usize>) -> (r: Option<usize>)
    ensures
        pos_view(r) == spec_infix_terms(input@, pos_view(at)),
{
    if !valid(input, at) {
        proof {
            reveal_with_fuel(spec_infix_terms, 1);
        }
        return None;
    }
    let mut cur = at;
    loop
        invariant
            spec_valid(input@, pos_view(cur)),
            spec_infix_terms(input@, pos_view(cur)) == spec_infix_terms(input@, pos_view(at)),
        decreases spec_measure(input@, pos_view(cur)),
    {
        proof {
            reveal_with_fuel(spec_infix_terms, 1);
        }
        let next = guard(input, cur, infix_term(input, cur));
        if next.is_none() {
            return cur;
        }
        cur = next;
    }
}

/// An expression: terms in a row.
///
/// `parse_expression = parse_term (infix_term)*`
pub fn parse_expression(input: &Vec<char>, at: Option<usize>) -> (r: Option<usize>)
    ensures
        pos_view(r) == spec_parse_expression(input@, pos_view(at)),
{
    proof {
        reveal(spec_parse_expression);
    }
    let p1 = parse_term(input, at);
    infix_terms(input, p1)
}

/// A keyword that begins a definition.
///
/// `keyword = parse_kw_class | parse_kw_union | parse_kw_group | parse_kw_macro | parse_kw_climb`
pub fn keyword(input: &Vec<char>, at: Option<usize>) -> (r: Option<usize>)
    ensures
        pos_view(r) == spec_keyword(input@, pos_view(at)),
{
    proof {
        reveal(spec_keyword);
    }
    let p1 = parse_kw_class(input, at);
    let p2 = if p1.is_some() {
        p1
    } else {
        parse_kw_union(input, at)
    };
    let p3 = if p2.is_some() {
        p2
    } else {
        parse_kw_group(input, at)
    };
    let p4 = if p3.is_some() {
        p3
    } else {
        parse_kw_macro(input, at)
    };
    let p5 = if p4.is_some() {
        p4
    } else {
        parse_kw_climb(input, at)
    };
    p5
}

/// An identifier where no keyword begins.
///
/// `modifier = !keyword parse_identifier`
pub fn modifier(input: &Vec<char>, at: Option<usize>) -> (r: Option<usize>)
    ensures
        pos_view(r) == spec_modifier(input@, pos_view(at)),
{
    proof {
        reveal(spec_modifier);
    }
    let p1 = not(at, keyword(input, at));
    parse_identifier(input, p1)
}

/// What is ignored, then one more modifier.
///
/// `next_modifier = builtin_ignore modifier`
pub fn next_modifier(input: &Vec<char>, at: Option<usize>) -> (r: Option<usize>)
    ensures
        pos_view(r) == spec_next_modifier(input@, pos_view(at)),
{
    proof {
        reveal(spec_next_modifier);
    }
    let p1 = builtin_ignore(input, at);
    modifier(input, p1)
}

/// The further modifiers of a definition.
///
/// `(next_modifier)*`: the repetition ends where an item fails or matches
/// nothing.
pub fn more_modifiers(input: &Vec<char>, at: Option<usize>) -> (r: Option<usize>)
    ensures
        pos_view(r) == spec_more_modifiers(input@, pos_view(at)),
{
    if !valid(input, at) {
        proof {
            reveal_with_fuel(spec_more_modifiers, 1);
        }
        return None;
    }
    let mut cur = at;
    loop
        invariant
            spec_valid(input@, pos_view(cur)),
            spec_more_modifiers(input@, pos_view(cur)) == spec_more_modifiers(input@, pos_view(at)),
        decreases spec_measure(input@, pos_view(cur)),
    {
        proof {
            reveal_with_fuel(spec_more_modifiers, 1);
        }
        let next = guard(input, cur, next_modifier(input, cur));
        if next.is_none() {
            return cur;
        }
        cur = next;
    }
}

/// The modifiers before the keyword of a definition.
///
/// `parse_modifiers = modifier (next_modifier)*`
pub fn parse_modifiers(input: &Vec<char>, at: Option<usize>) -> (r: Option<usize>)
    ensures
        pos_view(r) == spec_parse_modifiers(input@, pos_view(at)),
{
    proof {
        reveal(spec_parse_modifiers);
    }
    let p1 = modifier(input, at);
    more_modifiers(input, p1)
}

/// One more identifier of a path, after `::`.
///
/// `path_step = "::" builtin_ignore parse_identifier`
pub fn path_step(input: &Vec<char>, at: Option<usize>) -> (r: Option<usize>)
    ensures
        pos_view(r) == spec_path_step(input@, pos_view(at)),
{
    proof {
        reveal(spec_path_step);
    }
    let p1 = lit(input, at, "::");
    let p2 = builtin_ignore(input, p1);
    parse_identifier(input, p2)
}

/// The further identifiers of a path.
///
/// `(path_step)*`: the repetition ends where an item fails or matches
/// nothing.
pub fn path_steps(input: &Vec<char>, at: Option<usize>) -> (r: Option<usize>)
    ensures
        pos_view(r) == spec_path_steps(input@, pos_view(at)),
{
    if !valid(input, at) {
        proof {
            reveal_with_fuel(spec_path_steps, 1);
        }
        return None;
    }
    let mut cur = at;
    loop
        invariant
            spec_valid(input@, pos_view(cur)),
            spec_path_steps(input@, pos_view(cur)) == spec_path_steps(input@, pos_view(at)),
        decreases spec_measure(input@, pos_view(cur)),
    {
        proof {
            reveal_with_fuel(spec_path_steps, 1);
        }
        let next = guard(input, cur, path_step(input, cur));
        if next.is_none() {
            return cur;
        }
        cur = next;
    }
}

/// A path of identifiers between `::`.
///
/// `parse_namepath = parse_identifier builtin_ignore (path_step)*`
pub fn parse_namepath(input: &Vec<char>, at: Option<usize>) -> (r: Option<usize>)
    ensures
        pos_view(r) == spec_parse_namepath(input@, pos_view(at)),
{
    proof {
        reveal(spec_parse_namepath);
    }
    let p1 = parse_identifier(input, at);
    let p2 = builtin_ignore(input, p1);
    path_steps(input, p2)
}

/// One more identifier of a path, after `.` or `::`.
///
/// `free_step = ("." | "::") builtin_ignore parse_identifier`
pub fn free_step(input: &Vec<char>, at: Option<usize>) -> (r: Option<usize>)
    ensures
        pos_view(r) == spec_free_step(input@, pos_view(at)),
{
    proof {
        reveal(spec_free_step);
    }
    let p1 = lit(input, at, ".");
    let p2 = if p1.is_some() {
        p1
    } else {
        lit(input, at, "::")
    };
    let p3 = p2;
    let p4 = builtin_ignore(input, p3);
    parse_identifier(input, p4)
}

/// The further identifiers of a free path.
///
/// `(free_step)*`: the repetition ends where an item fails or matches
/// nothing.
pub fn free_steps(input: &Vec<char>, at: Option<usize>) -> (r: Option<usize>)
    ensures
        pos_view(r) == spec_free_steps(input@, pos_view(at)),
{
    if !valid(input, at) {
        proof {
            reveal_with_fuel(spec_free_steps, 1);
        }
        return None;
    }
    let mut cur = at;
    loop
        invariant
            spec_valid(input@, pos_view(cur)),
            spec_free_steps(input@, pos_view(cur)) == spec_free_steps(input@, pos_view(at)),
        decreases spec_measure(input@, pos_view(cur)),
    {
        proof {
            reveal_with_fuel(spec_free_steps, 1);
        }
        let next = guard(input, cur, free_step(input, cur));
        if next.is_none() {
            return cur;
        }
        cur = next;
    }
}

/// A path of identifiers between `.` or `::`.
///
/// `parse_namepath_free = parse_identifier builtin_ignore (free_step)*`
pub fn parse_namepath_free(input: &Vec<char>, at: Option<usize>) -> (r: Option<usize>)
    ensures
        pos_view(r) == spec_parse_namepath_free(input@, pos_view(at)),
{
    proof {
        reveal(spec_parse_namepath_free);
    }
    let p1 = parse_identifier(input, at);
    let p2 = builtin_ignore(input, p1);
    free_steps(input, p2)
}

/// The name of a union branch: `#name`, right associative or not.
///
/// `parse_branch_tag = "#" parse_identifier (parse_right_associativity)?`
pub fn parse_branch_tag(input: &Vec<char>, at: Option<usize>) -> (r: Option<usize>)
    ensures
        pos_view(r) == spec_parse_branch_tag(input@, pos_view(at)),
{
    proof {
        reveal(spec_parse_branch_tag);
    }
    let p1 = lit(input, at, "#");
    let p2 = parse_identifier(input, p1);
    opt(p2, parse_right_associativity(input, p2))
}

/// One branch of a union.
///
/// `parse_union_branch = "|" builtin_ignore parse_expression builtin_ignore (parse_branch_tag)?`
pub fn parse_union_branch(input: &Vec<char>, at: Option<usize>) -> (r: Option<usize>)
    ensures
        pos_view(r) == spec_parse_union_branch(input@, pos_view(at)),
{
    proof {
        reveal(spec_parse_union_branch);
    }
    let p1 = lit(input, at, "|");
    let p2 = builtin_ignore(input, p1);
    let p3 = parse_expression(input, p2);
    let p4 = builtin_ignore(input, p3);
    opt(p4, parse_branch_tag(input, p4))
}

/// What is ignored, then one more branch.
///
/// `next_branch = builtin_ignore builtin_ignore parse_union_branch`
pub fn next_branch(input: &Vec<char>, at: Option<usize>) -> (r: Option<usize>)
    ensures
        pos_view(r) == spec_next_branch(input@, pos_view(at)),
{
    proof {
        reveal(spec_next_branch);
    }
    let p1 = builtin_ignore(input, at);
    let p2 = builtin_ignore(input, p1);
    parse_union_branch(input, p2)
}

/// The further branches of a union.
///
/// `(next_branch)*`: the repetition ends where an item fails or matches
/// nothing.
pub fn more_branches(input: &Vec<char>, at: Option<usize>) -> (r: Option<usize>)
    ensures
        pos_view(r) == spec_more_branches(input@, pos_view(at)),
{
    if !valid(input, at) {
        proof {
            reveal_with_fuel(spec_more_branches, 1);
        }
        return None;
    }
    let mut cur = at;
    loop
        invariant
            spec_valid(input@, pos_view(cur)),
            spec_more_branches(input@, pos_view(cur)) == spec_more_branches(input@, pos_view(at)),
        decreases spec_measure(input@, pos_view(cur)),
    {
        proof {
            reveal_with_fuel(spec_more_branches, 1);
        }
        let next = guard(input, cur, next_branch(input, cur));
        if next.is_none() {
            return cur;
        }
        cur = next;
    }
}

/// The branches of a union between braces.
///
/// `parse_union_block = "{" builtin_ignore parse_union_branch builtin_ignore (next_branch)* builtin_ignore "}"`
pub fn parse_union_block(input: &Vec<char>, at: Option<usize>) -> (r: Option<usize>)
    ensures
        pos_view(r) == spec_parse_union_block(input@, pos_view(at)),
{
    proof {
        reveal(spec_parse_union_block);
    }
    let p1 = lit(input, at, "{");
    let p2 = builtin_ignore(input, p1);
    let p3 = parse_union_branch(input, p2);
    let p4 = builtin_ignore(input, p3);
    let p5 = more_branches(input, p4);
    let p6 = builtin_ignore(input, p5);
    lit(input, p6, "}")
}

/// The definition of a union.
///
/// `parse_union_statements = parse_modifiers builtin_ignore parse_kw_union builtin_ignore parse_identifier builtin_ignore parse_union_block`
pub fn parse_union_statements(input: &Vec<char>, at: Option<usize>) -> (r: Option<usize>)
    ensures
        pos_view(r) == spec_parse_union_statements(input@, pos_view(at)),
{
    proof {
        reveal(spec_parse_union_statements);
    }
    let p1 = parse_modifiers(input, at);
    let p2 = builtin_ignore(input, p1);
    let p3 = parse_kw_union(input, p2);
    let p4 = builtin_ignore(input, p3);
    let p5 = parse_identifier(input, p4);
    let p6 = builtin_ignore(input, p5);
    parse_union_block(input, p6)
}

/// The expressions of a class.
///
/// `(parse_expression)*`: the repetition ends where an item fails or matches
/// nothing.
pub fn expressions(input: &Vec<char>, at: Option<usize>) -> (r: Option<usize>)
    ensures
        pos_view(r) == spec_expressions(input@, pos_view(at)),
{
    if !valid(input, at) {
        proof {
            reveal_with_fuel(spec_expressions, 1);
        }
        return None;
    }
    let mut cur = at;
    loop
        invariant
            spec_valid(input@, pos_view(cur)),
            spec_expressions(input@, pos_view(cur)) == spec_expressions(input@, pos_view(at)),
        decreases spec_measure(input@, pos_view(cur)),
    {
        proof {
            reveal_with_fuel(spec_expressions, 1);
        }
        let next = guard(input, cur, parse_expression(input, cur));
        if next.is_none() {
            return cur;
        }
        cur = next;
    }
}

/// The expressions of a class between braces.
///
/// `parse_class_block = "{" builtin_ignore (parse_expression)* builtin_ignore "}"`
pub fn parse_class_block(input: &Vec<char>, at: Option<usize>) -> (r: Option<usize>)
    ensures
        pos_view(r) == spec_parse_class_block(input@, pos_view(at)),
{
    proof {
        reveal(spec_parse_class_block);
    }
    let p1 = lit(input, at, "{");
    let p2 = builtin_ignore(input, p1);
    let p3 = expressions(input, p2);
    let p4 = builtin_ignore(input, p3);
    lit(input, p4, "}")
}

/// The definition of a class.
///
/// `parse_class_statements = parse_modifiers builtin_ignore parse_kw_class builtin_ignore parse_identifier builtin_ignore parse_class_block`
pub fn parse_class_statements(input: &Vec<char>, at: Option<usize>) -> (r: Option<usize>)
    ensures
        pos_view(r) == spec_parse_class_statements(input@, pos_view(at)),
{
    proof {
        reveal(spec_parse_class_statements);
    }
    let p1 = parse_modifiers(input, at);
    let p2 = builtin_ignore(input, p1);
    let p3 = parse_kw_class(input, p2);
    let p4 = builtin_ignore(input, p3);
    let p5 = parse_identifier(input, p4);
    let p6 = builtin_ignore(input, p5);
    parse_class_block(input, p6)
}

/// One token of a group: `name: atom`.
///
/// `parse_group_pair = parse_identifier builtin_ignore ":" builtin_ignore parse_atomic`
pub fn parse_group_pair(input: &Vec<char>, at: Option<usize>) -> (r: Option<usize>)
    ensures
        pos_view(r) == spec_parse_group_pair(input@, pos_view(at)),
{
    proof {
        reveal(spec_parse_group_pair);
    }
    let p1 = parse_identifier(input, at);
    let p2 = builtin_ignore(input, p1);
    let p3 = lit(input, p2, ":");
    let p4 = builtin_ignore(input, p3);
    parse_atomic(input, p4)
}

/// The tokens of a group.
///
/// `(parse_group_pair)*`: the repetition ends where an item fails or matches
/// nothing.
pub fn group_pairs(input: &Vec<char>, at: Option<usize>) -> (r: Option<usize>)
    ensures
        pos_view(r) == spec_group_pairs(input@, pos_view(at)),
{
    if !valid(input, at) {
        proof {
            reveal_with_fuel(spec_group_pairs, 1);
        }
        return None;
    }
    let mut cur = at;
    loop
        invariant
            spec_valid(input@, pos_view(cur)),
            spec_group_pairs(input@, pos_view(cur)) == spec_group_pairs(input@, pos_view(at)),
        decreases spec_measure(input@, pos_view(cur)),
    {
        proof {
            reveal_with_fuel(spec_group_pairs, 1);
        }
        let next = guard(input, cur, parse_group_pair(input, cur));
        if next.is_none() {
            return cur;
        }
        cur = next;
    }
}

/// The tokens of a group between braces.
///
/// `parse_group_block = "{" builtin_ignore (parse_group_pair)* builtin_ignore "}"`
pub fn parse_group_block(input: &Vec<char>, at: Option<usize>) -> (r: Option<usize>)
    ensures
        pos_view(r) == spec_parse_group_block(input@, pos_view(at)),
{
    proof {
        reveal(spec_parse_group_block);
    }
    let p1 = lit(input, at, "{");
    let p2 = builtin_ignore(input, p1);
    let p3 = group_pairs(input, p2);
    let p4 = builtin_ignore(input, p3);
    lit(input, p4, "}")
}

/// The definition of a group.
///
/// `parse_group_statements = parse_modifiers builtin_ignore parse_kw_group builtin_ignore (parse_identifier)? builtin_ignore parse_group_block`
pub fn parse_group_statements(input: &Vec<char>, at: Option<usize>) -> (r: Option<usize>)
    ensures
        pos_view(r) == spec_parse_group_statements(input@, pos_view(at)),
{
    proof {
        reveal(spec_parse_group_statements);
    }
    let p1 = parse_modifiers(input, at);
    let p2 = builtin_ignore(input, p1);
    let p3 = parse_kw_group(input, p2);
    let p4 = builtin_ignore(input, p3);
    let p5 = opt(p4, parse_identifier(input, p4));
    let p6 = builtin_ignore(input, p5);
    parse_group_block(input, p6)
}

/// The empty body of a grammar.
///
/// `parse_grammar_block = "{" builtin_ignore "}"`
pub fn parse_grammar_block(input: &Vec<char>, at: Option<usize>) -> (r: Option<usize>)
    ensures
        pos_view(r) == spec_parse_grammar_block(input@, pos_view(at)),
{
    proof {
        reveal(spec_parse_grammar_block);
    }
    let p1 = lit(input, at, "{");
    let p2 = builtin_ignore(input, p1);
    lit(input, p2, "}")
}

/// The header of a grammar.
///
/// `parse_grammar_statements = parse_kw_grammar builtin_ignore parse_identifier builtin_ignore parse_grammar_block`
pub fn parse_grammar_statements(input: &Vec<char>, at: Option<usize>) -> (r: Option<usize>)
    ensures
        pos_view(r) == spec_parse_grammar_statements(input@, pos_view(at)),
{
    proof {
        reveal(spec_parse_grammar_statements);
    }
    let p1 = parse_kw_grammar(input, at);
    let p2 = builtin_ignore(input, p1);
    let p3 = parse_identifier(input, p2);
    let p4 = builtin_ignore(input, p3);
    parse_grammar_block(input, p4)
}

/// One statement.
///
/// `parse_statement = parse_grammar_statements | parse_class_statements | parse_union_statements | parse_group_statements`
pub fn parse_statement(input: &Vec<char>, at: Option<usize>) -> (r: Option<usize>)
    ensures
        pos_view(r) == spec_parse_statement(input@, pos_view(at)),
{
    proof {
        reveal(spec_parse_statement);
    }
    let p1 = parse_grammar_statements(input, at);
    let p2 = if p1.is_some() {
        p1
    } else {
        parse_class_statements(input, at)
    };
    let p3 = if p2.is_some() {
        p2
    } else {
        parse_union_statements(input, at)
    };
    let p4 = if p3.is_some() {
        p3
    } else {
        parse_group_statements(input, at)
    };
    p4
}

/// What is ignored, then one more statement.
///
/// `next_statement = builtin_ignore parse_statement`
pub fn next_statement(input: &Vec<char>, at: Option<usize>) -> (r: Option<usize>)
    ensures
        pos_view(r) == spec_next_statement(input@, pos_view(at)),
{
    proof {
        reveal(spec_next_statement);
    }
    let p1 = builtin_ignore(input, at);
    parse_statement(input, p1)
}

/// The further statements of a grammar file.
///
/// `(next_statement)*`: the repetition ends where an item fails or matches
/// nothing.
pub fn more_statements(input: &Vec<char>, at: Option<usize>) -> (r: Option<usize>)
    ensures
        pos_view(r) == spec_more_statements(input@, pos_view(at)),
{
    if !valid(input, at) {
        proof {
            reveal_with_fuel(spec_more_statements, 1);
        }
        return None;
    }
    let mut cur = at;
    loop
        invariant
            spec_valid(input@, pos_view(cur)),
            spec_more_statements(input@, pos_view(cur)) == spec_more_statements(input@, pos_view(at)),
        decreases spec_measure(input@, pos_view(cur)),
    {
        proof {
            reveal_with_fuel(spec_more_statements, 1);
        }
        let next = guard(input, cur, next_statement(input, cur));
        if next.is_none() {
            return cur;
        }
        cur = next;
    }
}

/// A grammar file: statements in a row.
///
/// `parse_root = parse_statement (next_statement)*`
pub fn parse_root(input: &Vec<char>, at: Option<usize>) -> (r: Option<usize>)
    ensures
        pos_view(r) == spec_parse_root(input@, pos_view(at)),
{
    proof {
        reveal(spec_parse_root);
    }
    let p1 = parse_statement(input, at);
    more_statements(input, p1)
}

} // verus!
