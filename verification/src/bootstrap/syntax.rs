//! The bootstrap grammar, rule by rule: where a rule ends when it is
//! tried at a position of the input, if it matches there.
//!
//! Every rule is a function from a position to a position, and both may
//! be missing: a rule that is tried where the steps before it have
//! failed fails too. A repetition goes on only behind an item that has
//! matched something, so that it always ends. The tokens are regular
//! expressions, matched by `regex_automata`.

use vstd::prelude::*;
use crate::bootstrap::regex::spec_regex;
use crate::cst::state::{
    spec_any, spec_first, spec_guard, spec_lit, spec_measure, spec_not, spec_opt, spec_valid,
};

verus! {

/// A run of white space.
///
/// `parse_white_space = /^(\p{White_Space}+)/`
#[verifier::opaque]
pub open spec fn spec_parse_white_space(s: Seq<char>, at: Option<int>) -> Option<int>
{
    spec_regex(s, at, "^(\\p{White_Space}+)"@)
}

/// The rest of the line.
///
/// `comment_rest = /^([^\n\r]*)/`
#[verifier::opaque]
pub open spec fn spec_comment_rest(s: Seq<char>, at: Option<int>) -> Option<int>
{
    spec_regex(s, at, "^([^\\n\\r]*)"@)
}

/// A comment to the end of the line, after `//` or after `#`.
///
/// `parse_comment = ("//" comment_rest) | ("#" comment_rest)`
#[verifier::opaque]
pub open spec fn spec_parse_comment(s: Seq<char>, at: Option<int>) -> Option<int>
{
    let p1 = spec_lit(s, at, "//"@);
    let p2 = spec_comment_rest(s, p1);
    let p3 = spec_lit(s, at, "#"@);
    let p4 = spec_comment_rest(s, p3);
    spec_first(p2, p4)
}

/// One piece of what is ignored: white space or a comment.
///
/// `ignore_item = parse_white_space | parse_comment`
#[verifier::opaque]
pub open spec fn spec_ignore_item(s: Seq<char>, at: Option<int>) -> Option<int>
{
    spec_first(spec_parse_white_space(s, at), spec_parse_comment(s, at))
}

/// Everything that is ignored between the parts of a rule.
///
/// `(ignore_item)*`: the repetition ends where an item fails or matches
/// nothing.
#[verifier::opaque]
pub open spec fn spec_builtin_ignore(s: Seq<char>, at: Option<int>) -> Option<int>
    decreases spec_measure(s, at),
{
    if !spec_valid(s, at) {
        None
    } else {
        let next = spec_guard(s, at, spec_ignore_item(s, at));
        if next is Some {
            spec_builtin_ignore(s, next)
        } else {
            at
        }
    }
}

/// Any one character.
///
/// `builtin_any = ANY`
#[verifier::opaque]
pub open spec fn spec_builtin_any(s: Seq<char>, at: Option<int>) -> Option<int>
{
    spec_any(s, at)
}

/// The keyword of a grammar.
///
/// `parse_kw_grammar = /^(grammar)/`
#[verifier::opaque]
pub open spec fn spec_parse_kw_grammar(s: Seq<char>, at: Option<int>) -> Option<int>
{
    spec_regex(s, at, "^(grammar)"@)
}

/// The keyword of an import.
///
/// `parse_kw_import = /^(using|import|use)/`
#[verifier::opaque]
pub open spec fn spec_parse_kw_import(s: Seq<char>, at: Option<int>) -> Option<int>
{
    spec_regex(s, at, "^(using|import|use)"@)
}

/// The keyword of a class.
///
/// `parse_kw_class = /^(class|struct)/`
#[verifier::opaque]
pub open spec fn spec_parse_kw_class(s: Seq<char>, at: Option<int>) -> Option<int>
{
    spec_regex(s, at, "^(class|struct)"@)
}

/// The keyword of a union.
///
/// `parse_kw_union = /^(union|enum)/`
#[verifier::opaque]
pub open spec fn spec_parse_kw_union(s: Seq<char>, at: Option<int>) -> Option<int>
{
    spec_regex(s, at, "^(union|enum)"@)
}

/// The keyword of a group.
///
/// `parse_kw_group = /^(group|token)/`
#[verifier::opaque]
pub open spec fn spec_parse_kw_group(s: Seq<char>, at: Option<int>) -> Option<int>
{
    spec_regex(s, at, "^(group|token)"@)
}

/// The keyword of a climb.
///
/// `parse_kw_climb = /^(climb)/`
#[verifier::opaque]
pub open spec fn spec_parse_kw_climb(s: Seq<char>, at: Option<int>) -> Option<int>
{
    spec_regex(s, at, "^(climb)"@)
}

/// The keyword of a macro.
///
/// `parse_kw_macro = /^(macro|def|function|func|fun|fn)/`
#[verifier::opaque]
pub open spec fn spec_parse_kw_macro(s: Seq<char>, at: Option<int>) -> Option<int>
{
    spec_regex(s, at, "^(macro|def|function|func|fun|fn)"@)
}

/// An identifier.
///
/// `parse_identifier = /^([_\p{XID_start}]\p{XID_continue}*)/`
#[verifier::opaque]
pub open spec fn spec_parse_identifier(s: Seq<char>, at: Option<int>) -> Option<int>
{
    spec_regex(s, at, "^([_\\p{XID_start}]\\p{XID_continue}*)"@)
}

/// A truth value.
///
/// `parse_boolean = "true" | "false"`
#[verifier::opaque]
pub open spec fn spec_parse_boolean(s: Seq<char>, at: Option<int>) -> Option<int>
{
    spec_first(spec_lit(s, at, "true"@), spec_lit(s, at, "false"@))
}

/// The sign of a regular expression.
///
/// `parse_regex = "/"`
#[verifier::opaque]
pub open spec fn spec_parse_regex(s: Seq<char>, at: Option<int>) -> Option<int>
{
    spec_lit(s, at, "/"@)
}

/// An empty text in single or in double quotes.
///
/// `parse_string = ("'" "'") | ("\"" "\"")`
#[verifier::opaque]
pub open spec fn spec_parse_string(s: Seq<char>, at: Option<int>) -> Option<int>
{
    let p1 = spec_lit(s, at, "'"@);
    let p2 = spec_lit(s, p1, "'"@);
    let p3 = spec_lit(s, at, "\""@);
    let p4 = spec_lit(s, p3, "\""@);
    spec_first(p2, p4)
}

/// The sign of right associativity.
///
/// `parse_right_associativity = ">"`
#[verifier::opaque]
pub open spec fn spec_parse_right_associativity(s: Seq<char>, at: Option<int>) -> Option<int>
{
    spec_lit(s, at, ">"@)
}

/// An atom: an identifier or a truth value.
///
/// `parse_atomic = parse_identifier | parse_boolean`
#[verifier::opaque]
pub open spec fn spec_parse_atomic(s: Seq<char>, at: Option<int>) -> Option<int>
{
    spec_first(spec_parse_identifier(s, at), spec_parse_boolean(s, at))
}

/// One prefix sign.
///
/// `parse_prefix = "!" | "&" | "^"`
#[verifier::opaque]
pub open spec fn spec_parse_prefix(s: Seq<char>, at: Option<int>) -> Option<int>
{
    spec_first(spec_lit(s, at, "!"@), spec_first(spec_lit(s, at, "&"@), spec_lit(s, at, "^"@)))
}

/// One suffix sign.
///
/// `parse_suffix = "?" | "*" | "+"`
#[verifier::opaque]
pub open spec fn spec_parse_suffix(s: Seq<char>, at: Option<int>) -> Option<int>
{
    spec_first(spec_lit(s, at, "?"@), spec_first(spec_lit(s, at, "*"@), spec_lit(s, at, "+"@)))
}

/// What stands between two terms.
///
/// `parse_infix = builtin_ignore | (builtin_ignore "~" builtin_ignore)`
#[verifier::opaque]
pub open spec fn spec_parse_infix(s: Seq<char>, at: Option<int>) -> Option<int>
{
    let p1 = spec_builtin_ignore(s, at);
    let p2 = spec_lit(s, p1, "~"@);
    let p3 = spec_builtin_ignore(s, p2);
    spec_first(spec_builtin_ignore(s, at), p3)
}

/// The prefix signs of a term.
///
/// `(parse_prefix)*`: the repetition ends where an item fails or matches
/// nothing.
#[verifier::opaque]
pub open spec fn spec_prefixes(s: Seq<char>, at: Option<int>) -> Option<int>
    decreases spec_measure(s, at),
{
    if !spec_valid(s, at) {
        None
    } else {
        let next = spec_guard(s, at, spec_parse_prefix(s, at));
        if next is Some {
            spec_prefixes(s, next)
        } else {
            at
        }
    }
}

/// The suffix signs of a term.
///
/// `(parse_suffix)*`: the repetition ends where an item fails or matches
/// nothing.
#[verifier::opaque]
pub open spec fn spec_suffixes(s: Seq<char>, at: Option<int>) -> Option<int>
    decreases spec_measure(s, at),
{
    if !spec_valid(s, at) {
        None
    } else {
        let next = spec_guard(s, at, spec_parse_suffix(s, at));
        if next is Some {
            spec_suffixes(s, next)
        } else {
            at
        }
    }
}

/// A term: an atom between its prefix and suffix signs.
///
/// `parse_term = (parse_prefix)* builtin_ignore builtin_ignore builtin_ignore parse_atomic builtin_ignore builtin_ignore builtin_ignore (parse_suffix)*`
#[verifier::opaque]
pub open spec fn spec_parse_term(s: Seq<char>, at: Option<int>) -> Option<int>
{
    let p1 = spec_prefixes(s, at);
    let p2 = spec_builtin_ignore(s, p1);
    let p3 = spec_builtin_ignore(s, p2);
    let p4 = spec_builtin_ignore(s, p3);
    let p5 = spec_parse_atomic(s, p4);
    let p6 = spec_builtin_ignore(s, p5);
    let p7 = spec_builtin_ignore(s, p6);
    let p8 = spec_builtin_ignore(s, p7);
    spec_suffixes(s, p8)
}

/// One more term of an expression.
///
/// `infix_term = parse_infix parse_term`
#[verifier::opaque]
pub open spec fn spec_infix_term(s: Seq<char>, at: Option<int>) -> Option<int>
{
    let p1 = spec_parse_infix(s, at);
    spec_parse_term(s, p1)
}

/// The further terms of an expression.
///
/// `(infix_term)*`: the repetition ends where an item fails or matches
/// nothing.
#[verifier::opaque]
pub open spec fn spec_infix_terms(s: Seq<char>, at: Option<int>) -> Option<int>
    decreases spec_measure(s, at),
{
    if !spec_valid(s, at) {
        None
    } else {
        let next = spec_guard(s, at, spec_infix_term(s, at));
        if next is Some {
            spec_infix_terms(s, next)
        } else {
            at
        }
    }
}

/// An expression: terms in a row.
///
/// `parse_expression = parse_term (infix_term)*`
#[verifier::opaque]
pub open spec fn spec_parse_expression(s: Seq<char>, at: Option<int>) -> Option<int>
{
    let p1 = spec_parse_term(s, at);
    spec_infix_terms(s, p1)
}

/// A keyword that begins a definition.
///
/// `keyword = parse_kw_class | parse_kw_union | parse_kw_group | parse_kw_macro | parse_kw_climb`
#[verifier::opaque]
pub open spec fn spec_keyword(s: Seq<char>, at: Option<int>) -> Option<int>
{
    spec_first(spec_parse_kw_class(s, at), spec_first(spec_parse_kw_union(s, at), spec_first(spec_parse_kw_group(s, at), spec_first(spec_parse_kw_macro(s, at), spec_parse_kw_climb(s, at)))))
}

/// An identifier where no keyword begins.
///
/// `modifier = !keyword parse_identifier`
#[verifier::opaque]
pub open spec fn spec_modifier(s: Seq<char>, at: Option<int>) -> Option<int>
{
    let p1 = spec_not(at, spec_keyword(s, at));
    spec_parse_identifier(s, p1)
}

/// What is ignored, then one more modifier.
///
/// `next_modifier = builtin_ignore modifier`
#[verifier::opaque]
pub open spec fn spec_next_modifier(s: Seq<char>, at: Option<int>) -> Option<int>
{
    let p1 = spec_builtin_ignore(s, at);
    spec_modifier(s, p1)
}

/// The further modifiers of a definition.
///
/// `(next_modifier)*`: the repetition ends where an item fails or matches
/// nothing.
#[verifier::opaque]
pub open spec fn spec_more_modifiers(s: Seq<char>, at: Option<int>) -> Option<int>
    decreases spec_measure(s, at),
{
    if !spec_valid(s, at) {
        None
    } else {
        let next = spec_guard(s, at, spec_next_modifier(s, at));
        if next is Some {
            spec_more_modifiers(s, next)
        } else {
            at
        }
    }
}

/// The modifiers before the keyword of a definition.
///
/// `parse_modifiers = modifier (next_modifier)*`
#[verifier::opaque]
pub open spec fn spec_parse_modifiers(s: Seq<char>, at: Option<int>) -> Option<int>
{
    let p1 = spec_modifier(s, at);
    spec_more_modifiers(s, p1)
}

/// One more identifier of a path, after `::`.
///
/// `path_step = "::" builtin_ignore parse_identifier`
#[verifier::opaque]
pub open spec fn spec_path_step(s: Seq<char>, at: Option<int>) -> Option<int>
{
    let p1 = spec_lit(s, at, "::"@);
    let p2 = spec_builtin_ignore(s, p1);
    spec_parse_identifier(s, p2)
}

/// The further identifiers of a path.
///
/// `(path_step)*`: the repetition ends where an item fails or matches
/// nothing.
#[verifier::opaque]
pub open spec fn spec_path_steps(s: Seq<char>, at: Option<int>) -> Option<int>
    decreases spec_measure(s, at),
{
    if !spec_valid(s, at) {
        None
    } else {
        let next = spec_guard(s, at, spec_path_step(s, at));
        if next is Some {
            spec_path_steps(s, next)
        } else {
            at
        }
    }
}

/// A path of identifiers between `::`.
///
/// `parse_namepath = parse_identifier builtin_ignore (path_step)*`
#[verifier::opaque]
pub open spec fn spec_parse_namepath(s: Seq<char>, at: Option<int>) -> Option<int>
{
    let p1 = spec_parse_identifier(s, at);
    let p2 = spec_builtin_ignore(s, p1);
    spec_path_steps(s, p2)
}

/// One more identifier of a path, after `.` or `::`.
///
/// `free_step = ("." | "::") builtin_ignore parse_identifier`
#[verifier::opaque]
pub open spec fn spec_free_step(s: Seq<char>, at: Option<int>) -> Option<int>
{
    let p1 = spec_first(spec_lit(s, at, "."@), spec_lit(s, at, "::"@));
    let p2 = spec_builtin_ignore(s, p1);
    spec_parse_identifier(s, p2)
}

/// The further identifiers of a free path.
///
/// `(free_step)*`: the repetition ends where an item fails or matches
/// nothing.
#[verifier::opaque]
pub open spec fn spec_free_steps(s: Seq<char>, at: Option<int>) -> Option<int>
    decreases spec_measure(s, at),
{
    if !spec_valid(s, at) {
        None
    } else {
        let next = spec_guard(s, at, spec_free_step(s, at));
        if next is Some {
            spec_free_steps(s, next)
        } else {
            at
        }
    }
}

/// A path of identifiers between `.` or `::`.
///
/// `parse_namepath_free = parse_identifier builtin_ignore (free_step)*`
#[verifier::opaque]
pub open spec fn spec_parse_namepath_free(s: Seq<char>, at: Option<int>) -> Option<int>
{
    let p1 = spec_parse_identifier(s, at);
    let p2 = spec_builtin_ignore(s, p1);
    spec_free_steps(s, p2)
}

/// The name of a union branch: `#name`, right associative or not.
///
/// `parse_branch_tag = "#" parse_identifier (parse_right_associativity)?`
#[verifier::opaque]
pub open spec fn spec_parse_branch_tag(s: Seq<char>, at: Option<int>) -> Option<int>
{
    let p1 = spec_lit(s, at, "#"@);
    let p2 = spec_parse_identifier(s, p1);
    spec_opt(p2, spec_parse_right_associativity(s, p2))
}

/// One branch of a union.
///
/// `parse_union_branch = "|" builtin_ignore parse_expression builtin_ignore (parse_branch_tag)?`
#[verifier::opaque]
pub open spec fn spec_parse_union_branch(s: Seq<char>, at: Option<int>) -> Option<int>
{
    let p1 = spec_lit(s, at, "|"@);
    let p2 = spec_builtin_ignore(s, p1);
    let p3 = spec_parse_expression(s, p2);
    let p4 = spec_builtin_ignore(s, p3);
    spec_opt(p4, spec_parse_branch_tag(s, p4))
}

/// What is ignored, then one more branch.
///
/// `next_branch = builtin_ignore builtin_ignore parse_union_branch`
#[verifier::opaque]
pub open spec fn spec_next_branch(s: Seq<char>, at: Option<int>) -> Option<int>
{
    let p1 = spec_builtin_ignore(s, at);
    let p2 = spec_builtin_ignore(s, p1);
    spec_parse_union_branch(s, p2)
}

/// The further branches of a union.
///
/// `(next_branch)*`: the repetition ends where an item fails or matches
/// nothing.
#[verifier::opaque]
pub open spec fn spec_more_branches(s: Seq<char>, at: Option<int>) -> Option<int>
    decreases spec_measure(s, at),
{
    if !spec_valid(s, at) {
        None
    } else {
        let next = spec_guard(s, at, spec_next_branch(s, at));
        if next is Some {
            spec_more_branches(s, next)
        } else {
            at
        }
    }
}

/// The branches of a union between braces.
///
/// `parse_union_block = "{" builtin_ignore parse_union_branch builtin_ignore (next_branch)* builtin_ignore "}"`
#[verifier::opaque]
pub open spec fn spec_parse_union_block(s: Seq<char>, at: Option<int>) -> Option<int>
{
    let p1 = spec_lit(s, at, "{"@);
    let p2 = spec_builtin_ignore(s, p1);
    let p3 = spec_parse_union_branch(s, p2);
    let p4 = spec_builtin_ignore(s, p3);
    let p5 = spec_more_branches(s, p4);
    let p6 = spec_builtin_ignore(s, p5);
    spec_lit(s, p6, "}"@)
}

/// The definition of a union.
///
/// `parse_union_statements = parse_modifiers builtin_ignore parse_kw_union builtin_ignore parse_identifier builtin_ignore parse_union_block`
#[verifier::opaque]
pub open spec fn spec_parse_union_statements(s: Seq<char>, at: Option<int>) -> Option<int>
{
    let p1 = spec_parse_modifiers(s, at);
    let p2 = spec_builtin_ignore(s, p1);
    let p3 = spec_parse_kw_union(s, p2);
    let p4 = spec_builtin_ignore(s, p3);
    let p5 = spec_parse_identifier(s, p4);
    let p6 = spec_builtin_ignore(s, p5);
    spec_parse_union_block(s, p6)
}

/// The expressions of a class.
///
/// `(parse_expression)*`: the repetition ends where an item fails or matches
/// nothing.
#[verifier::opaque]
pub open spec fn spec_expressions(s: Seq<char>, at: Option<int>) -> Option<int>
    decreases spec_measure(s, at),
{
    if !spec_valid(s, at) {
        None
    } else {
        let next = spec_guard(s, at, spec_parse_expression(s, at));
        if next is Some {
            spec_expressions(s, next)
        } else {
            at
        }
    }
}

/// The expressions of a class between braces.
///
/// `parse_class_block = "{" builtin_ignore (parse_expression)* builtin_ignore "}"`
#[verifier::opaque]
pub open spec fn spec_parse_class_block(s: Seq<char>, at: Option<int>) -> Option<int>
{
    let p1 = spec_lit(s, at, "{"@);
    let p2 = spec_builtin_ignore(s, p1);
    let p3 = spec_expressions(s, p2);
    let p4 = spec_builtin_ignore(s, p3);
    spec_lit(s, p4, "}"@)
}

/// The definition of a class.
///
/// `parse_class_statements = parse_modifiers builtin_ignore parse_kw_class builtin_ignore parse_identifier builtin_ignore parse_class_block`
#[verifier::opaque]
pub open spec fn spec_parse_class_statements(s: Seq<char>, at: Option<int>) -> Option<int>
{
    let p1 = spec_parse_modifiers(s, at);
    let p2 = spec_builtin_ignore(s, p1);
    let p3 = spec_parse_kw_class(s, p2);
    let p4 = spec_builtin_ignore(s, p3);
    let p5 = spec_parse_identifier(s, p4);
    let p6 = spec_builtin_ignore(s, p5);
    spec_parse_class_block(s, p6)
}

/// One token of a group: `name: atom`.
///
/// `parse_group_pair = parse_identifier builtin_ignore ":" builtin_ignore parse_atomic`
#[verifier::opaque]
pub open spec fn spec_parse_group_pair(s: Seq<char>, at: Option<int>) -> Option<int>
{
    let p1 = spec_parse_identifier(s, at);
    let p2 = spec_builtin_ignore(s, p1);
    let p3 = spec_lit(s, p2, ":"@);
    let p4 = spec_builtin_ignore(s, p3);
    spec_parse_atomic(s, p4)
}

/// The tokens of a group.
///
/// `(parse_group_pair)*`: the repetition ends where an item fails or matches
/// nothing.
#[verifier::opaque]
pub open spec fn spec_group_pairs(s: Seq<char>, at: Option<int>) -> Option<int>
    decreases spec_measure(s, at),
{
    if !spec_valid(s, at) {
        None
    } else {
        let next = spec_guard(s, at, spec_parse_group_pair(s, at));
        if next is Some {
            spec_group_pairs(s, next)
        } else {
            at
        }
    }
}

/// The tokens of a group between braces.
///
/// `parse_group_block = "{" builtin_ignore (parse_group_pair)* builtin_ignore "}"`
#[verifier::opaque]
pub open spec fn spec_parse_group_block(s: Seq<char>, at: Option<int>) -> Option<int>
{
    let p1 = spec_lit(s, at, "{"@);
    let p2 = spec_builtin_ignore(s, p1);
    let p3 = spec_group_pairs(s, p2);
    let p4 = spec_builtin_ignore(s, p3);
    spec_lit(s, p4, "}"@)
}

/// The definition of a group.
///
/// `parse_group_statements = parse_modifiers builtin_ignore parse_kw_group builtin_ignore (parse_identifier)? builtin_ignore parse_group_block`
#[verifier::opaque]
pub open spec fn spec_parse_group_statements(s: Seq<char>, at: Option<int>) -> Option<int>
{
    let p1 = spec_parse_modifiers(s, at);
    let p2 = spec_builtin_ignore(s, p1);
    let p3 = spec_parse_kw_group(s, p2);
    let p4 = spec_builtin_ignore(s, p3);
    let p5 = spec_opt(p4, spec_parse_identifier(s, p4));
    let p6 = spec_builtin_ignore(s, p5);
    spec_parse_group_block(s, p6)
}

/// The empty body of a grammar.
///
/// `parse_grammar_block = "{" builtin_ignore "}"`
#[verifier::opaque]
pub open spec fn spec_parse_grammar_block(s: Seq<char>, at: Option<int>) -> Option<int>
{
    let p1 = spec_lit(s, at, "{"@);
    let p2 = spec_builtin_ignore(s, p1);
    spec_lit(s, p2, "}"@)
}

/// The header of a grammar.
///
/// `parse_grammar_statements = parse_kw_grammar builtin_ignore parse_identifier builtin_ignore parse_grammar_block`
#[verifier::opaque]
pub open spec fn spec_parse_grammar_statements(s: Seq<char>, at: Option<int>) -> Option<int>
{
    let p1 = spec_parse_kw_grammar(s, at);
    let p2 = spec_builtin_ignore(s, p1);
    let p3 = spec_parse_identifier(s, p2);
    let p4 = spec_builtin_ignore(s, p3);
    spec_parse_grammar_block(s, p4)
}

/// One statement.
///
/// `parse_statement = parse_grammar_statements | parse_class_statements | parse_union_statements | parse_group_statements`
#[verifier::opaque]
pub open spec fn spec_parse_statement(s: Seq<char>, at: Option<int>) -> Option<int>
{
    spec_first(spec_parse_grammar_statements(s, at), spec_first(spec_parse_class_statements(s, at), spec_first(spec_parse_union_statements(s, at), spec_parse_group_statements(s, at))))
}

/// What is ignored, then one more statement.
///
/// `next_statement = builtin_ignore parse_statement`
#[verifier::opaque]
pub open spec fn spec_next_statement(s: Seq<char>, at: Option<int>) -> Option<int>
{
    let p1 = spec_builtin_ignore(s, at);
    spec_parse_statement(s, p1)
}

/// The further statements of a grammar file.
///
/// `(next_statement)*`: the repetition ends where an item fails or matches
/// nothing.
#[verifier::opaque]
pub open spec fn spec_more_statements(s: Seq<char>, at: Option<int>) -> Option<int>
    decreases spec_measure(s, at),
{
    if !spec_valid(s, at) {
        None
    } else {
        let next = spec_guard(s, at, spec_next_statement(s, at));
        if next is Some {
            spec_more_statements(s, next)
        } else {
            at
        }
    }
}

/// A grammar file: statements in a row.
///
/// `parse_root = parse_statement (next_statement)*`
#[verifier::opaque]
pub open spec fn spec_parse_root(s: Seq<char>, at: Option<int>) -> Option<int>
{
    let p1 = spec_parse_statement(s, at);
    spec_more_statements(s, p1)
}

} // verus!
