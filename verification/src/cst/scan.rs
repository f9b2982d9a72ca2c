//! The recogniser, rule by rule: each function tries one rule at a
//! position of the input and gives the position behind the match.

use vstd::prelude::*;
use crate::cst::state::{
    any, eoi, guard, hold, lit, not, one_of, opt, pos_view, range, soi, spec_measure,
    spec_valid, valid, xid_continue, xid_start, Atomicity,
};
use crate::cst::syntax::{
    spec_ANY, spec_EOI, spec_SOI, spec_ASCII_DIGIT, spec_ASCII_NONZERO_DIGIT, spec_XID_CONTINUE,
    spec_XID_START, spec_blank, spec_blanks, spec_WHITESPACE, spec_line_end, spec_line_ends,
    spec_NEWLINE, spec_line_char, spec_line_rest, spec_comment_doc, spec_comment_s_l,
    spec_comment_m_l, spec_comment_part, spec_comment_body, spec_COMMENT, spec_IGNORE,
    spec_ignored, spec_SKIP, spec_eos, spec_empty_statement, spec_grammar, spec_fragment,
    spec_prefix, spec_suffix, spec_special, spec_symbol_rest, spec_symbol, spec_digit_more,
    spec_digits, spec_integer, spec_range_char, spec_range_body, spec_regex_range,
    spec_single_char, spec_single_body, spec_double_char, spec_double_body, spec_string,
    spec_kind_sign, spec_kind_signs, spec_assign_kind, spec_mark_branch, spec_mark_type,
    spec_path_next, spec_path_more, spec_path_tail, spec_symbol_path, spec_symbol_alias,
    spec_slice, spec_fragment_statement, spec_strings_next, spec_strings_more,
    spec_strings_tail, spec_strings_rest, spec_strings_items, spec_strings_list,
    spec_symbols_next, spec_symbols_more, spec_symbols_tail, spec_symbols_rest,
    spec_symbols_items, spec_symbols_list, spec_aliases_next, spec_aliases_more,
    spec_aliases_tail, spec_aliases_rest, spec_aliases_items, spec_aliases_list,
    spec_grammar_statement, spec_import_statement, spec_ignore_statement, spec_list,
    spec_macro_call, spec_data, spec___aux_expr_priority, spec___aux_expr_mark,
    spec___aux_expr_prefix, spec___rec_expr_left, spec_branch_mark, spec___rec_expr_rest,
    spec_expr_more, spec_expr_tail, spec_expr, spec_macro_kv, spec_datas_next, spec_datas_more,
    spec_datas_tail, spec_datas_rest, spec_datas_items, spec_datas_list, spec_kvs_next,
    spec_kvs_more, spec_kvs_tail, spec_kvs_rest, spec_kvs_items, spec_kvs_list, spec_macro_arg,
    spec_args_next, spec_args_more, spec_args_tail, spec_args_rest, spec_args_items,
    spec_args_list, spec_block, spec_macro_define, spec_assign_statement, spec_statement,
    spec_statement_more, spec_statement_tail, spec_program,
};

verus! {

/// Any one character.
///
/// `ANY = ANY`
#[allow(non_snake_case)]
pub fn ANY_at(input: &Vec<char>, at: Option<usize>) -> (r: Option<usize>)
    ensures
        pos_view(r) == spec_ANY(input@, pos_view(at)),
{
    proof {
        reveal(spec_ANY);
    }
    any(input, at)
}

/// The end of the input.
///
/// `EOI = EOI`
#[allow(non_snake_case)]
pub fn EOI_at(input: &Vec<char>, at: Option<usize>) -> (r: Option<usize>)
    ensures
        pos_view(r) == spec_EOI(input@, pos_view(at)),
{
    proof {
        reveal(spec_EOI);
    }
    eoi(input, at)
}

/// The start of the input.
///
/// `SOI = SOI`
#[allow(non_snake_case)]
pub fn SOI_at(input: &Vec<char>, at: Option<usize>) -> (r: Option<usize>)
    ensures
        pos_view(r) == spec_SOI(input@, pos_view(at)),
{
    proof {
        reveal(spec_SOI);
    }
    soi(input, at)
}

/// One decimal digit.
///
/// `ASCII_DIGIT = '0'..'9'`
#[allow(non_snake_case)]
pub fn ASCII_DIGIT_at(input: &Vec<char>, at: Option<usize>) -> (r: Option<usize>)
    ensures
        pos_view(r) == spec_ASCII_DIGIT(input@, pos_view(at)),
{
    proof {
        reveal(spec_ASCII_DIGIT);
    }
    range(input, at, '0', '9')
}

/// One decimal digit but zero.
///
/// `ASCII_NONZERO_DIGIT = '1'..'9'`
#[allow(non_snake_case)]
pub fn ASCII_NONZERO_DIGIT_at(input: &Vec<char>, at: Option<usize>) -> (r: Option<usize>)
    ensures
        pos_view(r) == spec_ASCII_NONZERO_DIGIT(input@, pos_view(at)),
{
    proof {
        reveal(spec_ASCII_NONZERO_DIGIT);
    }
    range(input, at, '1', '9')
}

/// One character that can continue an identifier.
///
/// `XID_CONTINUE = XID_CONTINUE`
#[allow(non_snake_case)]
pub fn XID_CONTINUE_at(input: &Vec<char>, at: Option<usize>) -> (r: Option<usize>)
    ensures
        pos_view(r) == spec_XID_CONTINUE(input@, pos_view(at)),
{
    proof {
        reveal(spec_XID_CONTINUE);
    }
    xid_continue(input, at)
}

/// One character that can start an identifier.
///
/// `XID_START = XID_START`
#[allow(non_snake_case)]
pub fn XID_START_at(input: &Vec<char>, at: Option<usize>) -> (r: Option<usize>)
    ensures
        pos_view(r) == spec_XID_START(input@, pos_view(at)),
{
    proof {
        reveal(spec_XID_START);
    }
    xid_start(input, at)
}

/// A space or a tab.
///
/// `blank = " " | "\t"`
pub fn blank_at(input: &Vec<char>, at: Option<usize>) -> (r: Option<usize>)
    ensures
        pos_view(r) == spec_blank(input@, pos_view(at)),
{
    proof {
        reveal(spec_blank);
    }
    let p1 = lit(input, at, " ");
    let p2 = if p1.is_some() {
        p1
    } else {
        lit(input, at, "\t")
    };
    p2
}

/// Spaces and tabs.
///
/// `(blank)*`: the repetition ends where an item fails or matches
/// nothing.
pub fn blanks_at(input: &Vec<char>, at: Option<usize>) -> (r: Option<usize>)
    ensures
        pos_view(r) == spec_blanks(input@, pos_view(at)),
{
    proof {
        reveal_with_fuel(spec_blanks, 1);
    }
    if !valid(input, at) {
        return None;
    }
    let mut cur = at;
    loop
        invariant
            spec_valid(input@, pos_view(cur)),
            spec_measure(input@, pos_view(cur)) <= spec_measure(input@, pos_view(at)),
            spec_blanks(input@, pos_view(cur)) == spec_blanks(input@, pos_view(at)),
        decreases spec_measure(input@, pos_view(cur)),
    {
        proof {
            reveal_with_fuel(spec_blanks, 1);
        }
        let next = guard(input, cur, blank_at(input, cur));
        if next.is_none() {
            return cur;
        }
        cur = next;
    }
}

/// A run of spaces and tabs.
///
/// `WHITESPACE = blank (blank)*`
#[allow(non_snake_case)]
pub fn WHITESPACE_at(input: &Vec<char>, at: Option<usize>) -> (r: Option<usize>)
    ensures
        pos_view(r) == spec_WHITESPACE(input@, pos_view(at)),
{
    proof {
        reveal(spec_WHITESPACE);
    }
    let p1 = blank_at(input, at);
    blanks_at(input, p1)
}

/// One end of line.
///
/// `line_end = "\r\n" | "\r" | "\n"`
pub fn line_end_at(input: &Vec<char>, at: Option<usize>) -> (r: Option<usize>)
    ensures
        pos_view(r) == spec_line_end(input@, pos_view(at)),
{
    proof {
        reveal(spec_line_end);
    }
    let p1 = lit(input, at, "\r\n");
    let p2 = if p1.is_some() {
        p1
    } else {
        lit(input, at, "\r")
    };
    let p3 = if p2.is_some() {
        p2
    } else {
        lit(input, at, "\n")
    };
    p3
}

/// Ends of line.
///
/// `(line_end)*`: the repetition ends where an item fails or matches
/// nothing.
pub fn line_ends_at(input: &Vec<char>, at: Option<usize>) -> (r: Option<usize>)
    ensures
        pos_view(r) == spec_line_ends(input@, pos_view(at)),
{
    proof {
        reveal_with_fuel(spec_line_ends, 1);
    }
    if !valid(input, at) {
        return None;
    }
    let mut cur = at;
    loop
        invariant
            spec_valid(input@, pos_view(cur)),
            spec_measure(input@, pos_view(cur)) <= spec_measure(input@, pos_view(at)),
            spec_line_ends(input@, pos_view(cur)) == spec_line_ends(input@, pos_view(at)),
        decreases spec_measure(input@, pos_view(cur)),
    {
        proof {
            reveal_with_fuel(spec_line_ends, 1);
        }
        let next = guard(input, cur, line_end_at(input, cur));
        if next.is_none() {
            return cur;
        }
        cur = next;
    }
}

/// A run of ends of line.
///
/// `NEWLINE = line_end (line_end)*`
#[allow(non_snake_case)]
pub fn NEWLINE_at(input: &Vec<char>, at: Option<usize>) -> (r: Option<usize>)
    ensures
        pos_view(r) == spec_NEWLINE(input@, pos_view(at)),
{
    proof {
        reveal(spec_NEWLINE);
    }
    let p1 = line_end_at(input, at);
    line_ends_at(input, p1)
}

/// One character that does not end the line.
///
/// `line_char = !NEWLINE ANY`
pub fn line_char_at(input: &Vec<char>, at: Option<usize>) -> (r: Option<usize>)
    ensures
        pos_view(r) == spec_line_char(input@, pos_view(at)),
{
    proof {
        reveal(spec_line_char);
    }
    let p1 = not(at, NEWLINE_at(input, at));
    any(input, p1)
}

/// The rest of the line.
///
/// `(line_char)*`: the repetition ends where an item fails or matches
/// nothing.
pub fn line_rest_at(input: &Vec<char>, at: Option<usize>) -> (r: Option<usize>)
    ensures
        pos_view(r) == spec_line_rest(input@, pos_view(at)),
{
    proof {
        reveal_with_fuel(spec_line_rest, 1);
    }
    if !valid(input, at) {
        return None;
    }
    let mut cur = at;
    loop
        invariant
            spec_valid(input@, pos_view(cur)),
            spec_measure(input@, pos_view(cur)) <= spec_measure(input@, pos_view(at)),
            spec_line_rest(input@, pos_view(cur)) == spec_line_rest(input@, pos_view(at)),
        decreases spec_measure(input@, pos_view(cur)),
    {
        proof {
            reveal_with_fuel(spec_line_rest, 1);
        }
        let next = guard(input, cur, line_char_at(input, cur));
        if next.is_none() {
            return cur;
        }
        cur = next;
    }
}

/// A documentation comment, to the end of the line.
///
/// `comment_doc = "///" (line_char)*`
pub fn comment_doc_at(input: &Vec<char>, at: Option<usize>) -> (r: Option<usize>)
    ensures
        pos_view(r) == spec_comment_doc(input@, pos_view(at)),
{
    proof {
        reveal(spec_comment_doc);
    }
    let p1 = lit(input, at, "///");
    line_rest_at(input, p1)
}

/// A comment to the end of the line.
///
/// `comment_s_l = "//" (line_char)*`
pub fn comment_s_l_at(input: &Vec<char>, at: Option<usize>) -> (r: Option<usize>)
    ensures
        pos_view(r) == spec_comment_s_l(input@, pos_view(at)),
{
    proof {
        reveal(spec_comment_s_l);
    }
    let p1 = lit(input, at, "//");
    line_rest_at(input, p1)
}

/// A comment between `/*` and `*/`, in which such comments nest.
///
/// `comment_m_l = "/*" (comment_part)* "*/"`
#[verifier::spinoff_prover]
pub fn comment_m_l_at(input: &Vec<char>, at: Option<usize>) -> (r: Option<usize>)
    ensures
        pos_view(r) == spec_comment_m_l(input@, pos_view(at)),
    decreases spec_measure(input@, pos_view(at)), 1nat,
{
    proof {
        reveal_with_fuel(spec_comment_m_l, 1);
        reveal_with_fuel(spec_comment_body, 1);
    }
    if !valid(input, at) {
        return None;
    }
    let p1 = lit(input, at, "/*");
    let p2 = comment_body_at(input, guard(input, at, p1));
    lit(input, p2, "*/")
}

/// A nested comment, or one character that does not begin the end of the comment.
///
/// `comment_part = comment_m_l | (!"*/" ANY)`
#[verifier::spinoff_prover]
pub fn comment_part_at(input: &Vec<char>, at: Option<usize>) -> (r: Option<usize>)
    ensures
        pos_view(r) == spec_comment_part(input@, pos_view(at)),
    decreases spec_measure(input@, pos_view(at)), 2nat,
{
    proof {
        reveal_with_fuel(spec_comment_part, 1);
        reveal_with_fuel(spec_comment_m_l, 1);
    }
    if !valid(input, at) {
        return None;
    }
    let p1 = comment_m_l_at(input, at);
    let p3 = if p1.is_some() {
        p1
    } else {
        let p2 = not(at, lit(input, at, "*/"));
        any(input, p2)
    };
    p3
}

/// What stands inside a comment.
///
/// `(comment_part)*`: the repetition ends where an item fails or matches
/// nothing.
#[verifier::spinoff_prover]
pub fn comment_body_at(input: &Vec<char>, at: Option<usize>) -> (r: Option<usize>)
    ensures
        pos_view(r) == spec_comment_body(input@, pos_view(at)),
    decreases spec_measure(input@, pos_view(at)), 3nat,
{
    proof {
        reveal_with_fuel(spec_comment_body, 1);
        reveal_with_fuel(spec_comment_part, 1);
    }
    if !valid(input, at) {
        return None;
    }
    let mut cur = at;
    loop
        invariant
            spec_valid(input@, pos_view(cur)),
            spec_measure(input@, pos_view(cur)) <= spec_measure(input@, pos_view(at)),
            spec_comment_body(input@, pos_view(cur)) == spec_comment_body(input@, pos_view(at)),
        decreases spec_measure(input@, pos_view(cur)),
    {
        proof {
            reveal_with_fuel(spec_comment_body, 1);
            reveal_with_fuel(spec_comment_part, 1);
        }
        let next = guard(input, cur, comment_part_at(input, cur));
        if next.is_none() {
            return cur;
        }
        cur = next;
    }
}

/// A comment of either form.
///
/// `COMMENT = comment_s_l | comment_m_l`
#[allow(non_snake_case)]
pub fn COMMENT_at(input: &Vec<char>, at: Option<usize>) -> (r: Option<usize>)
    ensures
        pos_view(r) == spec_COMMENT(input@, pos_view(at)),
{
    proof {
        reveal(spec_COMMENT);
    }
    let p1 = comment_s_l_at(input, at);
    let p2 = if p1.is_some() {
        p1
    } else {
        comment_m_l_at(input, at)
    };
    p2
}

/// One piece of what is skipped: a comment, white space or ends of line.
///
/// `IGNORE = COMMENT | WHITESPACE | NEWLINE`
#[allow(non_snake_case)]
pub fn IGNORE_at(input: &Vec<char>, at: Option<usize>) -> (r: Option<usize>)
    ensures
        pos_view(r) == spec_IGNORE(input@, pos_view(at)),
{
    proof {
        reveal(spec_IGNORE);
    }
    let p1 = COMMENT_at(input, at);
    let p2 = if p1.is_some() {
        p1
    } else {
        WHITESPACE_at(input, at)
    };
    let p3 = if p2.is_some() {
        p2
    } else {
        NEWLINE_at(input, at)
    };
    p3
}

/// Everything that is skipped.
///
/// `(IGNORE)*`: the repetition ends where an item fails or matches
/// nothing.
pub fn ignored_at(input: &Vec<char>, at: Option<usize>) -> (r: Option<usize>)
    ensures
        pos_view(r) == spec_ignored(input@, pos_view(at)),
{
    proof {
        reveal_with_fuel(spec_ignored, 1);
    }
    if !valid(input, at) {
        return None;
    }
    let mut cur = at;
    loop
        invariant
            spec_valid(input@, pos_view(cur)),
            spec_measure(input@, pos_view(cur)) <= spec_measure(input@, pos_view(at)),
            spec_ignored(input@, pos_view(cur)) == spec_ignored(input@, pos_view(at)),
        decreases spec_measure(input@, pos_view(cur)),
    {
        proof {
            reveal_with_fuel(spec_ignored, 1);
        }
        let next = guard(input, cur, IGNORE_at(input, cur));
        if next.is_none() {
            return cur;
        }
        cur = next;
    }
}

/// What stands between the parts of a rule: everything that is skipped where the state is not atomic, and nothing where it is.
#[allow(non_snake_case)]
pub fn SKIP_at(input: &Vec<char>, at: Option<usize>, a: Atomicity) -> (r: Option<usize>)
    ensures
        pos_view(r) == spec_SKIP(input@, pos_view(at), a),
{
    proof {
        reveal(spec_SKIP);
    }
    match a {
        Atomicity::NonAtomic => ignored_at(input, at),
        _ => at,
    }
}

/// The end of a statement.
///
/// `eos = ";"`
pub fn eos_at(input: &Vec<char>, at: Option<usize>) -> (r: Option<usize>)
    ensures
        pos_view(r) == spec_eos(input@, pos_view(at)),
{
    proof {
        reveal(spec_eos);
    }
    lit(input, at, ";")
}

/// A statement that holds nothing.
///
/// `empty_statement = eos`
pub fn empty_statement_at(input: &Vec<char>, at: Option<usize>) -> (r: Option<usize>)
    ensures
        pos_view(r) == spec_empty_statement(input@, pos_view(at)),
{
    proof {
        reveal(spec_empty_statement);
    }
    eos_at(input, at)
}

/// The keyword of a grammar statement.
///
/// `grammar = "grammar!"`
pub fn grammar_at(input: &Vec<char>, at: Option<usize>) -> (r: Option<usize>)
    ensures
        pos_view(r) == spec_grammar(input@, pos_view(at)),
{
    proof {
        reveal(spec_grammar);
    }
    lit(input, at, "grammar!")
}

/// The keyword of a fragment statement.
///
/// `fragment = "fragment!"`
pub fn fragment_at(input: &Vec<char>, at: Option<usize>) -> (r: Option<usize>)
    ensures
        pos_view(r) == spec_fragment(input@, pos_view(at)),
{
    proof {
        reveal(spec_fragment);
    }
    lit(input, at, "fragment!")
}

/// One prefix sign.
///
/// `prefix = ('!' | '&' | '^' | '*' | '%')`
pub fn prefix_at(input: &Vec<char>, at: Option<usize>) -> (r: Option<usize>)
    ensures
        pos_view(r) == spec_prefix(input@, pos_view(at)),
{
    proof {
        reveal(spec_prefix);
    }
    one_of(input, at, "!&^*%")
}

/// One suffix sign.
///
/// `suffix = ('?' | '+' | '*')`
pub fn suffix_at(input: &Vec<char>, at: Option<usize>) -> (r: Option<usize>)
    ensures
        pos_view(r) == spec_suffix(input@, pos_view(at)),
{
    proof {
        reveal(spec_suffix);
    }
    one_of(input, at, "?+*")
}

/// One of the special values.
///
/// `special = "true" | "false" | "null"`
pub fn special_at(input: &Vec<char>, at: Option<usize>) -> (r: Option<usize>)
    ensures
        pos_view(r) == spec_special(input@, pos_view(at)),
{
    proof {
        reveal(spec_special);
    }
    let p1 = lit(input, at, "true");
    let p2 = if p1.is_some() {
        p1
    } else {
        lit(input, at, "false")
    };
    let p3 = if p2.is_some() {
        p2
    } else {
        lit(input, at, "null")
    };
    p3
}

/// The characters of an identifier after the first.
///
/// `(XID_CONTINUE)*`: the repetition ends where an item fails or matches
/// nothing.
pub fn symbol_rest_at(input: &Vec<char>, at: Option<usize>) -> (r: Option<usize>)
    ensures
        pos_view(r) == spec_symbol_rest(input@, pos_view(at)),
{
    proof {
        reveal_with_fuel(spec_symbol_rest, 1);
    }
    if !valid(input, at) {
        return None;
    }
    let mut cur = at;
    loop
        invariant
            spec_valid(input@, pos_view(cur)),
            spec_measure(input@, pos_view(cur)) <= spec_measure(input@, pos_view(at)),
            spec_symbol_rest(input@, pos_view(cur)) == spec_symbol_rest(input@, pos_view(at)),
        decreases spec_measure(input@, pos_view(cur)),
    {
        proof {
            reveal_with_fuel(spec_symbol_rest, 1);
        }
        let next = guard(input, cur, xid_continue(input, cur));
        if next.is_none() {
            return cur;
        }
        cur = next;
    }
}

/// An identifier.
///
/// `symbol = ("_" | XID_START) (XID_CONTINUE)*`
pub fn symbol_at(input: &Vec<char>, at: Option<usize>) -> (r: Option<usize>)
    ensures
        pos_view(r) == spec_symbol(input@, pos_view(at)),
{
    proof {
        reveal(spec_symbol);
    }
    let p1 = lit(input, at, "_");
    let p2 = if p1.is_some() {
        p1
    } else {
        xid_start(input, at)
    };
    let p3 = p2;
    symbol_rest_at(input, p3)
}

/// One more digit, after an underscore or not.
///
/// `digit_more = ("_")? ASCII_DIGIT`
pub fn digit_more_at(input: &Vec<char>, at: Option<usize>) -> (r: Option<usize>)
    ensures
        pos_view(r) == spec_digit_more(input@, pos_view(at)),
{
    proof {
        reveal(spec_digit_more);
    }
    let p1 = opt(at, lit(input, at, "_"));
    ASCII_DIGIT_at(input, p1)
}

/// The digits of a number after the first.
///
/// `(digit_more)*`: the repetition ends where an item fails or matches
/// nothing.
pub fn digits_at(input: &Vec<char>, at: Option<usize>) -> (r: Option<usize>)
    ensures
        pos_view(r) == spec_digits(input@, pos_view(at)),
{
    proof {
        reveal_with_fuel(spec_digits, 1);
    }
    if !valid(input, at) {
        return None;
    }
    let mut cur = at;
    loop
        invariant
            spec_valid(input@, pos_view(cur)),
            spec_measure(input@, pos_view(cur)) <= spec_measure(input@, pos_view(at)),
            spec_digits(input@, pos_view(cur)) == spec_digits(input@, pos_view(at)),
        decreases spec_measure(input@, pos_view(cur)),
    {
        proof {
            reveal_with_fuel(spec_digits, 1);
        }
        let next = guard(input, cur, digit_more_at(input, cur));
        if next.is_none() {
            return cur;
        }
        cur = next;
    }
}

/// An integer without sign.
///
/// `integer = "0" | (ASCII_NONZERO_DIGIT (digit_more)*)`
pub fn integer_at(input: &Vec<char>, at: Option<usize>) -> (r: Option<usize>)
    ensures
        pos_view(r) == spec_integer(input@, pos_view(at)),
{
    proof {
        reveal(spec_integer);
    }
    let p1 = lit(input, at, "0");
    let p3 = if p1.is_some() {
        p1
    } else {
        let p2 = ASCII_NONZERO_DIGIT_at(input, at);
        digits_at(input, p2)
    };
    p3
}

/// One character of a character class.
///
/// `range_char = (!"]" ANY) | ("\\" ANY)`
pub fn range_char_at(input: &Vec<char>, at: Option<usize>) -> (r: Option<usize>)
    ensures
        pos_view(r) == spec_range_char(input@, pos_view(at)),
{
    proof {
        reveal(spec_range_char);
    }
    let p1 = not(at, lit(input, at, "]"));
    let p2 = any(input, p1);
    let p4 = if p2.is_some() {
        p2
    } else {
        let p3 = lit(input, at, "\\");
        any(input, p3)
    };
    p4
}

/// What stands inside a character class.
///
/// `(range_char)*`: the repetition ends where an item fails or matches
/// nothing.
pub fn range_body_at(input: &Vec<char>, at: Option<usize>) -> (r: Option<usize>)
    ensures
        pos_view(r) == spec_range_body(input@, pos_view(at)),
{
    proof {
        reveal_with_fuel(spec_range_body, 1);
    }
    if !valid(input, at) {
        return None;
    }
    let mut cur = at;
    loop
        invariant
            spec_valid(input@, pos_view(cur)),
            spec_measure(input@, pos_view(cur)) <= spec_measure(input@, pos_view(at)),
            spec_range_body(input@, pos_view(cur)) == spec_range_body(input@, pos_view(at)),
        decreases spec_measure(input@, pos_view(cur)),
    {
        proof {
            reveal_with_fuel(spec_range_body, 1);
        }
        let next = guard(input, cur, range_char_at(input, cur));
        if next.is_none() {
            return cur;
        }
        cur = next;
    }
}

/// A character class between brackets.
///
/// `regex_range = "[" (range_char)* "]"`
pub fn regex_range_at(input: &Vec<char>, at: Option<usize>) -> (r: Option<usize>)
    ensures
        pos_view(r) == spec_regex_range(input@, pos_view(at)),
{
    proof {
        reveal(spec_regex_range);
    }
    let p1 = lit(input, at, "[");
    let p2 = range_body_at(input, p1);
    lit(input, p2, "]")
}

/// One character of a text in single quotes.
///
/// `single_char = (!"'" ANY) | ("\\" ANY)`
pub fn single_char_at(input: &Vec<char>, at: Option<usize>) -> (r: Option<usize>)
    ensures
        pos_view(r) == spec_single_char(input@, pos_view(at)),
{
    proof {
        reveal(spec_single_char);
    }
    let p1 = not(at, lit(input, at, "'"));
    let p2 = any(input, p1);
    let p4 = if p2.is_some() {
        p2
    } else {
        let p3 = lit(input, at, "\\");
        any(input, p3)
    };
    p4
}

/// What stands inside single quotes.
///
/// `(single_char)*`: the repetition ends where an item fails or matches
/// nothing.
pub fn single_body_at(input: &Vec<char>, at: Option<usize>) -> (r: Option<usize>)
    ensures
        pos_view(r) == spec_single_body(input@, pos_view(at)),
{
    proof {
        reveal_with_fuel(spec_single_body, 1);
    }
    if !valid(input, at) {
        return None;
    }
    let mut cur = at;
    loop
        invariant
            spec_valid(input@, pos_view(cur)),
            spec_measure(input@, pos_view(cur)) <= spec_measure(input@, pos_view(at)),
            spec_single_body(input@, pos_view(cur)) == spec_single_body(input@, pos_view(at)),
        decreases spec_measure(input@, pos_view(cur)),
    {
        proof {
            reveal_with_fuel(spec_single_body, 1);
        }
        let next = guard(input, cur, single_char_at(input, cur));
        if next.is_none() {
            return cur;
        }
        cur = next;
    }
}

/// One character of a text in double quotes.
///
/// `double_char = (!"\"" ANY) | ("\\" ANY)`
pub fn double_char_at(input: &Vec<char>, at: Option<usize>) -> (r: Option<usize>)
    ensures
        pos_view(r) == spec_double_char(input@, pos_view(at)),
{
    proof {
        reveal(spec_double_char);
    }
    let p1 = not(at, lit(input, at, "\""));
    let p2 = any(input, p1);
    let p4 = if p2.is_some() {
        p2
    } else {
        let p3 = lit(input, at, "\\");
        any(input, p3)
    };
    p4
}

/// What stands inside double quotes.
///
/// `(double_char)*`: the repetition ends where an item fails or matches
/// nothing.
pub fn double_body_at(input: &Vec<char>, at: Option<usize>) -> (r: Option<usize>)
    ensures
        pos_view(r) == spec_double_body(input@, pos_view(at)),
{
    proof {
        reveal_with_fuel(spec_double_body, 1);
    }
    if !valid(input, at) {
        return None;
    }
    let mut cur = at;
    loop
        invariant
            spec_valid(input@, pos_view(cur)),
            spec_measure(input@, pos_view(cur)) <= spec_measure(input@, pos_view(at)),
            spec_double_body(input@, pos_view(cur)) == spec_double_body(input@, pos_view(at)),
        decreases spec_measure(input@, pos_view(cur)),
    {
        proof {
            reveal_with_fuel(spec_double_body, 1);
        }
        let next = guard(input, cur, double_char_at(input, cur));
        if next.is_none() {
            return cur;
        }
        cur = next;
    }
}

/// A text in single or in double quotes.
///
/// `string = ("'" (single_char)* "'") | ("\"" (double_char)* "\"")`
pub fn string_at(input: &Vec<char>, at: Option<usize>) -> (r: Option<usize>)
    ensures
        pos_view(r) == spec_string(input@, pos_view(at)),
{
    proof {
        reveal(spec_string);
    }
    let p1 = lit(input, at, "'");
    let p2 = single_body_at(input, p1);
    let p3 = lit(input, p2, "'");
    let p6 = if p3.is_some() {
        p3
    } else {
        let p4 = lit(input, at, "\"");
        let p5 = double_body_at(input, p4);
        lit(input, p5, "\"")
    };
    p6
}

/// One sign before the equals sign.
///
/// `kind_sign = "^" | "_" | "@"`
pub fn kind_sign_at(input: &Vec<char>, at: Option<usize>) -> (r: Option<usize>)
    ensures
        pos_view(r) == spec_kind_sign(input@, pos_view(at)),
{
    proof {
        reveal(spec_kind_sign);
    }
    let p1 = lit(input, at, "^");
    let p2 = if p1.is_some() {
        p1
    } else {
        lit(input, at, "_")
    };
    let p3 = if p2.is_some() {
        p2
    } else {
        lit(input, at, "@")
    };
    p3
}

/// The signs before the equals sign.
///
/// `(kind_sign)*`: the repetition ends where an item fails or matches
/// nothing.
pub fn kind_signs_at(input: &Vec<char>, at: Option<usize>) -> (r: Option<usize>)
    ensures
        pos_view(r) == spec_kind_signs(input@, pos_view(at)),
{
    proof {
        reveal_with_fuel(spec_kind_signs, 1);
    }
    if !valid(input, at) {
        return None;
    }
    let mut cur = at;
    loop
        invariant
            spec_valid(input@, pos_view(cur)),
            spec_measure(input@, pos_view(cur)) <= spec_measure(input@, pos_view(at)),
            spec_kind_signs(input@, pos_view(cur)) == spec_kind_signs(input@, pos_view(at)),
        decreases spec_measure(input@, pos_view(cur)),
    {
        proof {
            reveal_with_fuel(spec_kind_signs, 1);
        }
        let next = guard(input, cur, kind_sign_at(input, cur));
        if next.is_none() {
            return cur;
        }
        cur = next;
    }
}

/// The equals sign of an assignment, after its signs.
///
/// `assign_kind = (kind_sign)* "="`
pub fn assign_kind_at(input: &Vec<char>, at: Option<usize>) -> (r: Option<usize>)
    ensures
        pos_view(r) == spec_assign_kind(input@, pos_view(at)),
{
    proof {
        reveal(spec_assign_kind);
    }
    let p1 = kind_signs_at(input, at);
    lit(input, p1, "=")
}

/// The name of a branch: `#name`, after `^` or `!` or neither.
///
/// `mark_branch = ("^" | "!")? "#" symbol`
pub fn mark_branch_at(input: &Vec<char>, at: Option<usize>) -> (r: Option<usize>)
    ensures
        pos_view(r) == spec_mark_branch(input@, pos_view(at)),
{
    proof {
        reveal(spec_mark_branch);
    }
    let p1 = lit(input, at, "^");
    let p2 = if p1.is_some() {
        p1
    } else {
        lit(input, at, "!")
    };
    let p3 = opt(at, p2);
    let p4 = lit(input, p3, "#");
    symbol_at(input, p4)
}

/// A type annotation: `: name`.
///
/// `mark_type = ":" ~ symbol`
pub fn mark_type_at(input: &Vec<char>, at: Option<usize>, a: Atomicity) -> (r: Option<usize>)
    ensures
        pos_view(r) == spec_mark_type(input@, pos_view(at), a),
{
    proof {
        reveal(spec_mark_type);
    }
    let p1 = lit(input, at, ":");
    let p2 = SKIP_at(input, p1, a);
    symbol_at(input, p2)
}

/// A separator and one more identifier.
///
/// `path_next = ("::" | ".") ~ symbol`
pub fn path_next_at(input: &Vec<char>, at: Option<usize>, a: Atomicity) -> (r: Option<usize>)
    ensures
        pos_view(r) == spec_path_next(input@, pos_view(at), a),
{
    proof {
        reveal(spec_path_next);
    }
    let p1 = lit(input, at, "::");
    let p2 = if p1.is_some() {
        p1
    } else {
        lit(input, at, ".")
    };
    let p3 = p2;
    let p4 = SKIP_at(input, p3, a);
    symbol_at(input, p4)
}

/// What is skipped, then a separator and one more identifier.
///
/// `path_more = path_next`
pub fn path_more_at(input: &Vec<char>, at: Option<usize>, a: Atomicity) -> (r: Option<usize>)
    ensures
        pos_view(r) == spec_path_more(input@, pos_view(at), a),
{
    proof {
        reveal(spec_path_more);
    }
    let p1 = SKIP_at(input, at, a);
    path_next_at(input, p1, a)
}

/// The further identifiers of a path.
///
/// `(path_more)*`: the repetition ends where an item fails or matches
/// nothing.
pub fn path_tail_at(input: &Vec<char>, at: Option<usize>, a: Atomicity) -> (r: Option<usize>)
    ensures
        pos_view(r) == spec_path_tail(input@, pos_view(at), a),
{
    proof {
        reveal_with_fuel(spec_path_tail, 1);
    }
    if !valid(input, at) {
        return None;
    }
    let mut cur = at;
    loop
        invariant
            spec_valid(input@, pos_view(cur)),
            spec_measure(input@, pos_view(cur)) <= spec_measure(input@, pos_view(at)),
            spec_path_tail(input@, pos_view(cur), a) == spec_path_tail(input@, pos_view(at), a),
        decreases spec_measure(input@, pos_view(cur)),
    {
        proof {
            reveal_with_fuel(spec_path_tail, 1);
        }
        let next = guard(input, cur, path_more_at(input, cur, a));
        if next.is_none() {
            return cur;
        }
        cur = next;
    }
}

/// A path of identifiers between `::` or `.`.
///
/// `symbol_path = symbol ~ (path_next (path_more)*)?`
pub fn symbol_path_at(input: &Vec<char>, at: Option<usize>, a: Atomicity) -> (r: Option<usize>)
    ensures
        pos_view(r) == spec_symbol_path(input@, pos_view(at), a),
{
    proof {
        reveal(spec_symbol_path);
    }
    let p1 = symbol_at(input, at);
    let p2 = SKIP_at(input, p1, a);
    let p3 = path_next_at(input, p2, a);
    let p4 = path_tail_at(input, p3, a);
    opt(p2, p4)
}

/// An identifier, `as` another or not.
///
/// `symbol_alias = symbol ~ ("as" ~ symbol)?`
pub fn symbol_alias_at(input: &Vec<char>, at: Option<usize>, a: Atomicity) -> (r: Option<usize>)
    ensures
        pos_view(r) == spec_symbol_alias(input@, pos_view(at), a),
{
    proof {
        reveal(spec_symbol_alias);
    }
    let p1 = symbol_at(input, at);
    let p2 = SKIP_at(input, p1, a);
    let p3 = lit(input, p2, "as");
    let p4 = SKIP_at(input, p3, a);
    let p5 = symbol_at(input, p4);
    opt(p2, p5)
}

/// A repetition between bounds: `{min, max}`.
///
/// `slice = "{" ~ integer ~ "," ~ integer ~ "}"`
pub fn slice_at(input: &Vec<char>, at: Option<usize>, a: Atomicity) -> (r: Option<usize>)
    ensures
        pos_view(r) == spec_slice(input@, pos_view(at), a),
{
    proof {
        reveal(spec_slice);
    }
    let p1 = lit(input, at, "{");
    let p2 = SKIP_at(input, p1, a);
    let p3 = integer_at(input, p2);
    let p4 = SKIP_at(input, p3, a);
    let p5 = lit(input, p4, ",");
    let p6 = SKIP_at(input, p5, a);
    let p7 = integer_at(input, p6);
    let p8 = SKIP_at(input, p7, a);
    lit(input, p8, "}")
}

/// A fragment statement.
///
/// `fragment_statement = fragment ~ symbol`
pub fn fragment_statement_at(input: &Vec<char>, at: Option<usize>, a: Atomicity) -> (r: Option<usize>)
    ensures
        pos_view(r) == spec_fragment_statement(input@, pos_view(at), a),
{
    proof {
        reveal(spec_fragment_statement);
    }
    let p1 = fragment_at(input, at);
    let p2 = SKIP_at(input, p1, a);
    symbol_at(input, p2)
}

/// A comma and one more text.
///
/// `strings_next = "," ~ string`
pub fn strings_next_at(input: &Vec<char>, at: Option<usize>, a: Atomicity) -> (r: Option<usize>)
    ensures
        pos_view(r) == spec_strings_next(input@, pos_view(at), a),
{
    proof {
        reveal(spec_strings_next);
    }
    let p1 = lit(input, at, ",");
    let p2 = SKIP_at(input, p1, a);
    string_at(input, p2)
}

/// What is skipped, then a comma and one more text.
///
/// `strings_more = strings_next`
pub fn strings_more_at(input: &Vec<char>, at: Option<usize>, a: Atomicity) -> (r: Option<usize>)
    ensures
        pos_view(r) == spec_strings_more(input@, pos_view(at), a),
{
    proof {
        reveal(spec_strings_more);
    }
    let p1 = SKIP_at(input, at, a);
    strings_next_at(input, p1, a)
}

/// The further texts of a list, each after a comma.
///
/// `(strings_more)*`: the repetition ends where an item fails or matches
/// nothing.
pub fn strings_tail_at(input: &Vec<char>, at: Option<usize>, a: Atomicity) -> (r: Option<usize>)
    ensures
        pos_view(r) == spec_strings_tail(input@, pos_view(at), a),
{
    proof {
        reveal_with_fuel(spec_strings_tail, 1);
    }
    if !valid(input, at) {
        return None;
    }
    let mut cur = at;
    loop
        invariant
            spec_valid(input@, pos_view(cur)),
            spec_measure(input@, pos_view(cur)) <= spec_measure(input@, pos_view(at)),
            spec_strings_tail(input@, pos_view(cur), a) == spec_strings_tail(input@, pos_view(at), a),
        decreases spec_measure(input@, pos_view(cur)),
    {
        proof {
            reveal_with_fuel(spec_strings_tail, 1);
        }
        let next = guard(input, cur, strings_more_at(input, cur, a));
        if next.is_none() {
            return cur;
        }
        cur = next;
    }
}

/// The texts of a list after the first.
///
/// `strings_rest = (strings_next (strings_more)*)?`
pub fn strings_rest_at(input: &Vec<char>, at: Option<usize>, a: Atomicity) -> (r: Option<usize>)
    ensures
        pos_view(r) == spec_strings_rest(input@, pos_view(at), a),
{
    proof {
        reveal(spec_strings_rest);
    }
    let p1 = strings_next_at(input, at, a);
    let p2 = strings_tail_at(input, p1, a);
    opt(at, p2)
}

/// The texts of a list between commas, which may end in a comma.
///
/// `strings_items = string ~ strings_rest ~ (",")?`
pub fn strings_items_at(input: &Vec<char>, at: Option<usize>, a: Atomicity) -> (r: Option<usize>)
    ensures
        pos_view(r) == spec_strings_items(input@, pos_view(at), a),
{
    proof {
        reveal(spec_strings_items);
    }
    let p1 = string_at(input, at);
    let p2 = SKIP_at(input, p1, a);
    let p3 = strings_rest_at(input, p2, a);
    let p4 = SKIP_at(input, p3, a);
    opt(p4, lit(input, p4, ","))
}

/// A list of texts between commas, which may be empty and may end in a comma.
///
/// `strings_list = (strings_items)?`
pub fn strings_list_at(input: &Vec<char>, at: Option<usize>, a: Atomicity) -> (r: Option<usize>)
    ensures
        pos_view(r) == spec_strings_list(input@, pos_view(at), a),
{
    proof {
        reveal(spec_strings_list);
    }
    opt(at, strings_items_at(input, at, a))
}

/// A comma and one more identifier.
///
/// `symbols_next = "," ~ symbol`
pub fn symbols_next_at(input: &Vec<char>, at: Option<usize>, a: Atomicity) -> (r: Option<usize>)
    ensures
        pos_view(r) == spec_symbols_next(input@, pos_view(at), a),
{
    proof {
        reveal(spec_symbols_next);
    }
    let p1 = lit(input, at, ",");
    let p2 = SKIP_at(input, p1, a);
    symbol_at(input, p2)
}

/// What is skipped, then a comma and one more identifier.
///
/// `symbols_more = symbols_next`
pub fn symbols_more_at(input: &Vec<char>, at: Option<usize>, a: Atomicity) -> (r: Option<usize>)
    ensures
        pos_view(r) == spec_symbols_more(input@, pos_view(at), a),
{
    proof {
        reveal(spec_symbols_more);
    }
    let p1 = SKIP_at(input, at, a);
    symbols_next_at(input, p1, a)
}

/// The further identifiers of a list, each after a comma.
///
/// `(symbols_more)*`: the repetition ends where an item fails or matches
/// nothing.
pub fn symbols_tail_at(input: &Vec<char>, at: Option<usize>, a: Atomicity) -> (r: Option<usize>)
    ensures
        pos_view(r) == spec_symbols_tail(input@, pos_view(at), a),
{
    proof {
        reveal_with_fuel(spec_symbols_tail, 1);
    }
    if !valid(input, at) {
        return None;
    }
    let mut cur = at;
    loop
        invariant
            spec_valid(input@, pos_view(cur)),
            spec_measure(input@, pos_view(cur)) <= spec_measure(input@, pos_view(at)),
            spec_symbols_tail(input@, pos_view(cur), a) == spec_symbols_tail(input@, pos_view(at), a),
        decreases spec_measure(input@, pos_view(cur)),
    {
        proof {
            reveal_with_fuel(spec_symbols_tail, 1);
        }
        let next = guard(input, cur, symbols_more_at(input, cur, a));
        if next.is_none() {
            return cur;
        }
        cur = next;
    }
}

/// The identifiers of a list after the first.
///
/// `symbols_rest = (symbols_next (symbols_more)*)?`
pub fn symbols_rest_at(input: &Vec<char>, at: Option<usize>, a: Atomicity) -> (r: Option<usize>)
    ensures
        pos_view(r) == spec_symbols_rest(input@, pos_view(at), a),
{
    proof {
        reveal(spec_symbols_rest);
    }
    let p1 = symbols_next_at(input, at, a);
    let p2 = symbols_tail_at(input, p1, a);
    opt(at, p2)
}

/// The identifiers of a list between commas, which may end in a comma.
///
/// `symbols_items = symbol ~ symbols_rest ~ (",")?`
pub fn symbols_items_at(input: &Vec<char>, at: Option<usize>, a: Atomicity) -> (r: Option<usize>)
    ensures
        pos_view(r) == spec_symbols_items(input@, pos_view(at), a),
{
    proof {
        reveal(spec_symbols_items);
    }
    let p1 = symbol_at(input, at);
    let p2 = SKIP_at(input, p1, a);
    let p3 = symbols_rest_at(input, p2, a);
    let p4 = SKIP_at(input, p3, a);
    opt(p4, lit(input, p4, ","))
}

/// A list of identifiers between commas, which may be empty and may end in a comma.
///
/// `symbols_list = (symbols_items)?`
pub fn symbols_list_at(input: &Vec<char>, at: Option<usize>, a: Atomicity) -> (r: Option<usize>)
    ensures
        pos_view(r) == spec_symbols_list(input@, pos_view(at), a),
{
    proof {
        reveal(spec_symbols_list);
    }
    opt(at, symbols_items_at(input, at, a))
}

/// A comma and one more alias.
///
/// `aliases_next = "," ~ symbol_alias`
pub fn aliases_next_at(input: &Vec<char>, at: Option<usize>, a: Atomicity) -> (r: Option<usize>)
    ensures
        pos_view(r) == spec_aliases_next(input@, pos_view(at), a),
{
    proof {
        reveal(spec_aliases_next);
    }
    let p1 = lit(input, at, ",");
    let p2 = SKIP_at(input, p1, a);
    symbol_alias_at(input, p2, a)
}

/// What is skipped, then a comma and one more alias.
///
/// `aliases_more = aliases_next`
pub fn aliases_more_at(input: &Vec<char>, at: Option<usize>, a: Atomicity) -> (r: Option<usize>)
    ensures
        pos_view(r) == spec_aliases_more(input@, pos_view(at), a),
{
    proof {
        reveal(spec_aliases_more);
    }
    let p1 = SKIP_at(input, at, a);
    aliases_next_at(input, p1, a)
}

/// The further aliass of a list, each after a comma.
///
/// `(aliases_more)*`: the repetition ends where an item fails or matches
/// nothing.
pub fn aliases_tail_at(input: &Vec<char>, at: Option<usize>, a: Atomicity) -> (r: Option<usize>)
    ensures
        pos_view(r) == spec_aliases_tail(input@, pos_view(at), a),
{
    proof {
        reveal_with_fuel(spec_aliases_tail, 1);
    }
    if !valid(input, at) {
        return None;
    }
    let mut cur = at;
    loop
        invariant
            spec_valid(input@, pos_view(cur)),
            spec_measure(input@, pos_view(cur)) <= spec_measure(input@, pos_view(at)),
            spec_aliases_tail(input@, pos_view(cur), a) == spec_aliases_tail(input@, pos_view(at), a),
        decreases spec_measure(input@, pos_view(cur)),
    {
        proof {
            reveal_with_fuel(spec_aliases_tail, 1);
        }
        let next = guard(input, cur, aliases_more_at(input, cur, a));
        if next.is_none() {
            return cur;
        }
        cur = next;
    }
}

/// The aliass of a list after the first.
///
/// `aliases_rest = (aliases_next (aliases_more)*)?`
pub fn aliases_rest_at(input: &Vec<char>, at: Option<usize>, a: Atomicity) -> (r: Option<usize>)
    ensures
        pos_view(r) == spec_aliases_rest(input@, pos_view(at), a),
{
    proof {
        reveal(spec_aliases_rest);
    }
    let p1 = aliases_next_at(input, at, a);
    let p2 = aliases_tail_at(input, p1, a);
    opt(at, p2)
}

/// The aliass of a list between commas, which may end in a comma.
///
/// `aliases_items = symbol_alias ~ aliases_rest ~ (",")?`
pub fn aliases_items_at(input: &Vec<char>, at: Option<usize>, a: Atomicity) -> (r: Option<usize>)
    ensures
        pos_view(r) == spec_aliases_items(input@, pos_view(at), a),
{
    proof {
        reveal(spec_aliases_items);
    }
    let p1 = symbol_alias_at(input, at, a);
    let p2 = SKIP_at(input, p1, a);
    let p3 = aliases_rest_at(input, p2, a);
    let p4 = SKIP_at(input, p3, a);
    opt(p4, lit(input, p4, ","))
}

/// A list of aliass between commas, which may be empty and may end in a comma.
///
/// `aliases_list = (aliases_items)?`
pub fn aliases_list_at(input: &Vec<char>, at: Option<usize>, a: Atomicity) -> (r: Option<usize>)
    ensures
        pos_view(r) == spec_aliases_list(input@, pos_view(at), a),
{
    proof {
        reveal(spec_aliases_list);
    }
    opt(at, aliases_items_at(input, at, a))
}

/// A grammar statement: the keyword, a name and the file extensions.
///
/// `grammar_statement = grammar ~ symbol ~ (string | ("{" ~ strings_list ~ "}"))`
pub fn grammar_statement_at(input: &Vec<char>, at: Option<usize>, a: Atomicity) -> (r: Option<usize>)
    ensures
        pos_view(r) == spec_grammar_statement(input@, pos_view(at), a),
{
    proof {
        reveal(spec_grammar_statement);
    }
    let p1 = grammar_at(input, at);
    let p2 = SKIP_at(input, p1, a);
    let p3 = symbol_at(input, p2);
    let p4 = SKIP_at(input, p3, a);
    let p5 = string_at(input, p4);
    let p10 = if p5.is_some() {
        p5
    } else {
        let p6 = lit(input, p4, "{");
        let p7 = SKIP_at(input, p6, a);
        let p8 = strings_list_at(input, p7, a);
        let p9 = SKIP_at(input, p8, a);
        lit(input, p9, "}")
    };
    p10
}

/// An import statement: the keyword and a path.
///
/// `import_statement = "import!" ~ (string | (string ~ "{" ~ aliases_list ~ "}"))`
pub fn import_statement_at(input: &Vec<char>, at: Option<usize>, a: Atomicity) -> (r: Option<usize>)
    ensures
        pos_view(r) == spec_import_statement(input@, pos_view(at), a),
{
    proof {
        reveal(spec_import_statement);
    }
    let p1 = lit(input, at, "import!");
    let p2 = SKIP_at(input, p1, a);
    let p3 = string_at(input, p2);
    let p10 = if p3.is_some() {
        p3
    } else {
        let p4 = string_at(input, p2);
        let p5 = SKIP_at(input, p4, a);
        let p6 = lit(input, p5, "{");
        let p7 = SKIP_at(input, p6, a);
        let p8 = aliases_list_at(input, p7, a);
        let p9 = SKIP_at(input, p8, a);
        lit(input, p9, "}")
    };
    p10
}

/// An ignore statement: the keyword and one rule or a list of rules.
///
/// `ignore_statement = "ignore!" ~ (symbol | ("{" ~ symbols_list ~ "}"))`
pub fn ignore_statement_at(input: &Vec<char>, at: Option<usize>, a: Atomicity) -> (r: Option<usize>)
    ensures
        pos_view(r) == spec_ignore_statement(input@, pos_view(at), a),
{
    proof {
        reveal(spec_ignore_statement);
    }
    let p1 = lit(input, at, "ignore!");
    let p2 = SKIP_at(input, p1, a);
    let p3 = symbol_at(input, p2);
    let p8 = if p3.is_some() {
        p3
    } else {
        let p4 = lit(input, p2, "{");
        let p5 = SKIP_at(input, p4, a);
        let p6 = symbols_list_at(input, p5, a);
        let p7 = SKIP_at(input, p6, a);
        lit(input, p7, "}")
    };
    p8
}

/// A list of data between braces.
///
/// `list = "{" ~ datas_list ~ "}"`
#[verifier::spinoff_prover]
pub fn list_at(input: &Vec<char>, at: Option<usize>, a: Atomicity) -> (r: Option<usize>)
    ensures
        pos_view(r) == spec_list(input@, pos_view(at), a),
    decreases spec_measure(input@, pos_view(at)), 3nat,
{
    proof {
        reveal_with_fuel(spec_list, 1);
        reveal_with_fuel(spec_datas_list, 1);
    }
    if !valid(input, at) {
        return None;
    }
    let p1 = lit(input, at, "{");
    let p2 = SKIP_at(input, p1, a);
    let p3 = datas_list_at(input, guard(input, at, p2), a);
    let p4 = SKIP_at(input, p3, a);
    lit(input, p4, "}")
}

/// A macro call: `@path(arguments)`.
///
/// `macro_call = "@" ~ symbol_path ~ "(" ~ kvs_list ~ ")"`
#[verifier::spinoff_prover]
pub fn macro_call_at(input: &Vec<char>, at: Option<usize>, a: Atomicity) -> (r: Option<usize>)
    ensures
        pos_view(r) == spec_macro_call(input@, pos_view(at), a),
    decreases spec_measure(input@, pos_view(at)), 3nat,
{
    proof {
        reveal_with_fuel(spec_macro_call, 1);
        reveal_with_fuel(spec_kvs_list, 1);
    }
    if !valid(input, at) {
        return None;
    }
    let p1 = lit(input, at, "@");
    let p2 = SKIP_at(input, p1, a);
    let p3 = symbol_path_at(input, p2, a);
    let p4 = SKIP_at(input, p3, a);
    let p5 = lit(input, p4, "(");
    let p6 = SKIP_at(input, p5, a);
    let p7 = kvs_list_at(input, guard(input, at, p6), a);
    let p8 = SKIP_at(input, p7, a);
    lit(input, p8, ")")
}

/// One datum: a macro call, a character class, a list, a path or an integer.
///
/// `data = macro_call | regex_range | list | symbol_path | integer`
#[verifier::spinoff_prover]
pub fn data_at(input: &Vec<char>, at: Option<usize>, a: Atomicity) -> (r: Option<usize>)
    ensures
        pos_view(r) == spec_data(input@, pos_view(at), a),
    decreases spec_measure(input@, pos_view(at)), 4nat,
{
    proof {
        reveal_with_fuel(spec_data, 1);
        reveal_with_fuel(spec_macro_call, 1);
        reveal_with_fuel(spec_list, 1);
    }
    if !valid(input, at) {
        return None;
    }
    let p1 = macro_call_at(input, at, a);
    let p2 = if p1.is_some() {
        p1
    } else {
        regex_range_at(input, at)
    };
    let p3 = if p2.is_some() {
        p2
    } else {
        list_at(input, at, a)
    };
    let p4 = if p3.is_some() {
        p3
    } else {
        symbol_path_at(input, at, a)
    };
    let p5 = if p4.is_some() {
        p4
    } else {
        integer_at(input, at)
    };
    p5
}

/// An expression between parentheses.
///
/// `__aux_expr_priority = "(" ~ ("|")? ~ expr ~ ")"`
#[allow(non_snake_case)]
#[verifier::spinoff_prover]
pub fn __aux_expr_priority_at(input: &Vec<char>, at: Option<usize>, a: Atomicity) -> (r: Option<usize>)
    ensures
        pos_view(r) == spec___aux_expr_priority(input@, pos_view(at), a),
    decreases spec_measure(input@, pos_view(at)), 4nat,
{
    proof {
        reveal_with_fuel(spec___aux_expr_priority, 1);
        reveal_with_fuel(spec_expr, 1);
    }
    if !valid(input, at) {
        return None;
    }
    let p1 = lit(input, at, "(");
    let p2 = SKIP_at(input, p1, a);
    let p3 = opt(p2, lit(input, p2, "|"));
    let p4 = SKIP_at(input, p3, a);
    let p5 = expr_at(input, guard(input, at, p4), a);
    let p6 = SKIP_at(input, p5, a);
    lit(input, p6, ")")
}

/// A marked expression: `name <- expression`.
///
/// `__aux_expr_mark = symbol ~ (mark_type)? ~ "<-" ~ expr`
#[allow(non_snake_case)]
#[verifier::spinoff_prover]
pub fn __aux_expr_mark_at(input: &Vec<char>, at: Option<usize>, a: Atomicity) -> (r: Option<usize>)
    ensures
        pos_view(r) == spec___aux_expr_mark(input@, pos_view(at), a),
    decreases spec_measure(input@, pos_view(at)), 4nat,
{
    proof {
        reveal_with_fuel(spec___aux_expr_mark, 1);
        reveal_with_fuel(spec_expr, 1);
    }
    if !valid(input, at) {
        return None;
    }
    let p1 = symbol_at(input, at);
    let p2 = SKIP_at(input, p1, a);
    let p3 = opt(p2, mark_type_at(input, p2, a));
    let p4 = SKIP_at(input, p3, a);
    let p5 = lit(input, p4, "<-");
    let p6 = SKIP_at(input, p5, a);
    expr_at(input, guard(input, at, p6), a)
}

/// An expression after a prefix sign.
///
/// `__aux_expr_prefix = prefix ~ expr`
#[allow(non_snake_case)]
#[verifier::spinoff_prover]
pub fn __aux_expr_prefix_at(input: &Vec<char>, at: Option<usize>, a: Atomicity) -> (r: Option<usize>)
    ensures
        pos_view(r) == spec___aux_expr_prefix(input@, pos_view(at), a),
    decreases spec_measure(input@, pos_view(at)), 4nat,
{
    proof {
        reveal_with_fuel(spec___aux_expr_prefix, 1);
        reveal_with_fuel(spec_expr, 1);
    }
    if !valid(input, at) {
        return None;
    }
    let p1 = prefix_at(input, at);
    let p2 = SKIP_at(input, p1, a);
    expr_at(input, guard(input, at, p2), a)
}

/// What an expression begins with.
///
/// `__rec_expr_left = __aux_expr_priority | __aux_expr_mark | __aux_expr_prefix | data`
#[allow(non_snake_case)]
#[verifier::spinoff_prover]
pub fn __rec_expr_left_at(input: &Vec<char>, at: Option<usize>, a: Atomicity) -> (r: Option<usize>)
    ensures
        pos_view(r) == spec___rec_expr_left(input@, pos_view(at), a),
    decreases spec_measure(input@, pos_view(at)), 5nat,
{
    proof {
        reveal_with_fuel(spec___rec_expr_left, 1);
        reveal_with_fuel(spec___aux_expr_priority, 1);
        reveal_with_fuel(spec___aux_expr_mark, 1);
        reveal_with_fuel(spec___aux_expr_prefix, 1);
        reveal_with_fuel(spec_data, 1);
    }
    if !valid(input, at) {
        return None;
    }
    let p1 = __aux_expr_priority_at(input, at, a);
    let p2 = if p1.is_some() {
        p1
    } else {
        __aux_expr_mark_at(input, at, a)
    };
    let p3 = if p2.is_some() {
        p2
    } else {
        __aux_expr_prefix_at(input, at, a)
    };
    let p4 = if p3.is_some() {
        p3
    } else {
        data_at(input, at, a)
    };
    p4
}

/// The name of a branch, with its type or not.
///
/// `branch_mark = mark_branch ~ (mark_type)?`
pub fn branch_mark_at(input: &Vec<char>, at: Option<usize>, a: Atomicity) -> (r: Option<usize>)
    ensures
        pos_view(r) == spec_branch_mark(input@, pos_view(at), a),
{
    proof {
        reveal(spec_branch_mark);
    }
    let p1 = mark_branch_at(input, at);
    let p2 = SKIP_at(input, p1, a);
    opt(p2, mark_type_at(input, p2, a))
}

/// What an expression goes on with: a sequence, a choice, a repetition between bounds or a suffix sign.
///
/// `__rec_expr_rest = ("~" ~ expr) | ((branch_mark)? ~ "|" ~ expr ~ (branch_mark)?) | slice | suffix`
#[allow(non_snake_case)]
#[verifier::spinoff_prover]
pub fn __rec_expr_rest_at(input: &Vec<char>, at: Option<usize>, a: Atomicity) -> (r: Option<usize>)
    ensures
        pos_view(r) == spec___rec_expr_rest(input@, pos_view(at), a),
    decreases spec_measure(input@, pos_view(at)), 6nat,
{
    proof {
        reveal_with_fuel(spec___rec_expr_rest, 1);
        reveal_with_fuel(spec_expr, 1);
    }
    if !valid(input, at) {
        return None;
    }
    let p1 = lit(input, at, "~");
    let p2 = SKIP_at(input, p1, a);
    let p3 = expr_at(input, guard(input, at, p2), a);
    let p10 = if p3.is_some() {
        p3
    } else {
        let p4 = opt(at, branch_mark_at(input, at, a));
        let p5 = SKIP_at(input, p4, a);
        let p6 = lit(input, p5, "|");
        let p7 = SKIP_at(input, p6, a);
        let p8 = expr_at(input, guard(input, at, p7), a);
        let p9 = SKIP_at(input, p8, a);
        opt(p9, branch_mark_at(input, p9, a))
    };
    let p11 = if p10.is_some() {
        p10
    } else {
        slice_at(input, at, a)
    };
    let p12 = if p11.is_some() {
        p11
    } else {
        suffix_at(input, at)
    };
    p12
}

/// What is skipped, then one more continuation.
///
/// `expr_more = __rec_expr_rest`
#[verifier::spinoff_prover]
pub fn expr_more_at(input: &Vec<char>, at: Option<usize>, a: Atomicity) -> (r: Option<usize>)
    ensures
        pos_view(r) == spec_expr_more(input@, pos_view(at), a),
    decreases spec_measure(input@, pos_view(at)), 7nat,
{
    proof {
        reveal_with_fuel(spec_expr_more, 1);
        reveal_with_fuel(spec___rec_expr_rest, 1);
    }
    if !valid(input, at) {
        return None;
    }
    let p1 = SKIP_at(input, at, a);
    __rec_expr_rest_at(input, hold(input, at, p1), a)
}

/// The further continuations of an expression.
///
/// `(expr_more)*`: the repetition ends where an item fails or matches
/// nothing.
#[verifier::spinoff_prover]
pub fn expr_tail_at(input: &Vec<char>, at: Option<usize>, a: Atomicity) -> (r: Option<usize>)
    ensures
        pos_view(r) == spec_expr_tail(input@, pos_view(at), a),
    decreases spec_measure(input@, pos_view(at)), 8nat,
{
    proof {
        reveal_with_fuel(spec_expr_tail, 1);
        reveal_with_fuel(spec_expr_more, 1);
    }
    if !valid(input, at) {
        return None;
    }
    let mut cur = at;
    loop
        invariant
            spec_valid(input@, pos_view(cur)),
            spec_measure(input@, pos_view(cur)) <= spec_measure(input@, pos_view(at)),
            spec_expr_tail(input@, pos_view(cur), a) == spec_expr_tail(input@, pos_view(at), a),
        decreases spec_measure(input@, pos_view(cur)),
    {
        proof {
            reveal_with_fuel(spec_expr_tail, 1);
            reveal_with_fuel(spec_expr_more, 1);
        }
        let next = guard(input, cur, expr_more_at(input, cur, a));
        if next.is_none() {
            return cur;
        }
        cur = next;
    }
}

/// An expression.
///
/// `expr = __rec_expr_left ~ (__rec_expr_rest (expr_more)*)?`
#[verifier::spinoff_prover]
pub fn expr_at(input: &Vec<char>, at: Option<usize>, a: Atomicity) -> (r: Option<usize>)
    ensures
        pos_view(r) == spec_expr(input@, pos_view(at), a),
    decreases spec_measure(input@, pos_view(at)), 9nat,
{
    proof {
        reveal_with_fuel(spec_expr, 1);
        reveal_with_fuel(spec___rec_expr_left, 1);
        reveal_with_fuel(spec___rec_expr_rest, 1);
        reveal_with_fuel(spec_expr_tail, 1);
    }
    if !valid(input, at) {
        return None;
    }
    let p1 = __rec_expr_left_at(input, at, a);
    let p2 = SKIP_at(input, p1, a);
    let p3 = __rec_expr_rest_at(input, hold(input, at, p2), a);
    let p4 = expr_tail_at(input, hold(input, at, p3), a);
    opt(p2, p4)
}

/// An argument of a macro call, with a name or without.
///
/// `macro_kv = (symbol ~ "=" ~ expr) | expr`
#[verifier::spinoff_prover]
pub fn macro_kv_at(input: &Vec<char>, at: Option<usize>, a: Atomicity) -> (r: Option<usize>)
    ensures
        pos_view(r) == spec_macro_kv(input@, pos_view(at), a),
    decreases spec_measure(input@, pos_view(at)), 10nat,
{
    proof {
        reveal_with_fuel(spec_macro_kv, 1);
        reveal_with_fuel(spec_expr, 1);
    }
    if !valid(input, at) {
        return None;
    }
    let p1 = symbol_at(input, at);
    let p2 = SKIP_at(input, p1, a);
    let p3 = lit(input, p2, "=");
    let p4 = SKIP_at(input, p3, a);
    let p5 = expr_at(input, guard(input, at, p4), a);
    let p6 = if p5.is_some() {
        p5
    } else {
        expr_at(input, at, a)
    };
    p6
}

/// A comma and one more datum.
///
/// `datas_next = "," ~ data`
#[verifier::spinoff_prover]
pub fn datas_next_at(input: &Vec<char>, at: Option<usize>, a: Atomicity) -> (r: Option<usize>)
    ensures
        pos_view(r) == spec_datas_next(input@, pos_view(at), a),
    decreases spec_measure(input@, pos_view(at)), 11nat,
{
    proof {
        reveal_with_fuel(spec_datas_next, 1);
        reveal_with_fuel(spec_data, 1);
    }
    if !valid(input, at) {
        return None;
    }
    let p1 = lit(input, at, ",");
    let p2 = SKIP_at(input, p1, a);
    data_at(input, hold(input, at, p2), a)
}

/// What is skipped, then a comma and one more datum.
///
/// `datas_more = datas_next`
#[verifier::spinoff_prover]
pub fn datas_more_at(input: &Vec<char>, at: Option<usize>, a: Atomicity) -> (r: Option<usize>)
    ensures
        pos_view(r) == spec_datas_more(input@, pos_view(at), a),
    decreases spec_measure(input@, pos_view(at)), 12nat,
{
    proof {
        reveal_with_fuel(spec_datas_more, 1);
        reveal_with_fuel(spec_datas_next, 1);
    }
    if !valid(input, at) {
        return None;
    }
    let p1 = SKIP_at(input, at, a);
    datas_next_at(input, hold(input, at, p1), a)
}

/// The further datums of a list, each after a comma.
///
/// `(datas_more)*`: the repetition ends where an item fails or matches
/// nothing.
#[verifier::spinoff_prover]
pub fn datas_tail_at(input: &Vec<char>, at: Option<usize>, a: Atomicity) -> (r: Option<usize>)
    ensures
        pos_view(r) == spec_datas_tail(input@, pos_view(at), a),
    decreases spec_measure(input@, pos_view(at)), 13nat,
{
    proof {
        reveal_with_fuel(spec_datas_tail, 1);
        reveal_with_fuel(spec_datas_more, 1);
    }
    if !valid(input, at) {
        return None;
    }
    let mut cur = at;
    loop
        invariant
            spec_valid(input@, pos_view(cur)),
            spec_measure(input@, pos_view(cur)) <= spec_measure(input@, pos_view(at)),
            spec_datas_tail(input@, pos_view(cur), a) == spec_datas_tail(input@, pos_view(at), a),
        decreases spec_measure(input@, pos_view(cur)),
    {
        proof {
            reveal_with_fuel(spec_datas_tail, 1);
            reveal_with_fuel(spec_datas_more, 1);
        }
        let next = guard(input, cur, datas_more_at(input, cur, a));
        if next.is_none() {
            return cur;
        }
        cur = next;
    }
}

/// The datums of a list after the first.
///
/// `datas_rest = (datas_next (datas_more)*)?`
#[verifier::spinoff_prover]
pub fn datas_rest_at(input: &Vec<char>, at: Option<usize>, a: Atomicity) -> (r: Option<usize>)
    ensures
        pos_view(r) == spec_datas_rest(input@, pos_view(at), a),
    decreases spec_measure(input@, pos_view(at)), 14nat,
{
    proof {
        reveal_with_fuel(spec_datas_rest, 1);
        reveal_with_fuel(spec_datas_next, 1);
        reveal_with_fuel(spec_datas_tail, 1);
    }
    if !valid(input, at) {
        return None;
    }
    let p1 = datas_next_at(input, at, a);
    let p2 = datas_tail_at(input, hold(input, at, p1), a);
    opt(at, p2)
}

/// The datums of a list between commas, which may end in a comma.
///
/// `datas_items = data ~ datas_rest ~ (",")?`
#[verifier::spinoff_prover]
pub fn datas_items_at(input: &Vec<char>, at: Option<usize>, a: Atomicity) -> (r: Option<usize>)
    ensures
        pos_view(r) == spec_datas_items(input@, pos_view(at), a),
    decreases spec_measure(input@, pos_view(at)), 15nat,
{
    proof {
        reveal_with_fuel(spec_datas_items, 1);
        reveal_with_fuel(spec_data, 1);
        reveal_with_fuel(spec_datas_rest, 1);
    }
    if !valid(input, at) {
        return None;
    }
    let p1 = data_at(input, at, a);
    let p2 = SKIP_at(input, p1, a);
    let p3 = datas_rest_at(input, hold(input, at, p2), a);
    let p4 = SKIP_at(input, p3, a);
    opt(p4, lit(input, p4, ","))
}

/// A list of datums between commas, which may be empty and may end in a comma.
///
/// `datas_list = (datas_items)?`
#[verifier::spinoff_prover]
pub fn datas_list_at(input: &Vec<char>, at: Option<usize>, a: Atomicity) -> (r: Option<usize>)
    ensures
        pos_view(r) == spec_datas_list(input@, pos_view(at), a),
    decreases spec_measure(input@, pos_view(at)), 16nat,
{
    proof {
        reveal_with_fuel(spec_datas_list, 1);
        reveal_with_fuel(spec_datas_items, 1);
    }
    if !valid(input, at) {
        return None;
    }
    opt(at, datas_items_at(input, at, a))
}

/// A comma and one more argument.
///
/// `kvs_next = "," ~ macro_kv`
#[verifier::spinoff_prover]
pub fn kvs_next_at(input: &Vec<char>, at: Option<usize>, a: Atomicity) -> (r: Option<usize>)
    ensures
        pos_view(r) == spec_kvs_next(input@, pos_view(at), a),
    decreases spec_measure(input@, pos_view(at)), 11nat,
{
    proof {
        reveal_with_fuel(spec_kvs_next, 1);
        reveal_with_fuel(spec_macro_kv, 1);
    }
    if !valid(input, at) {
        return None;
    }
    let p1 = lit(input, at, ",");
    let p2 = SKIP_at(input, p1, a);
    macro_kv_at(input, hold(input, at, p2), a)
}

/// What is skipped, then a comma and one more argument.
///
/// `kvs_more = kvs_next`
#[verifier::spinoff_prover]
pub fn kvs_more_at(input: &Vec<char>, at: Option<usize>, a: Atomicity) -> (r: Option<usize>)
    ensures
        pos_view(r) == spec_kvs_more(input@, pos_view(at), a),
    decreases spec_measure(input@, pos_view(at)), 12nat,
{
    proof {
        reveal_with_fuel(spec_kvs_more, 1);
        reveal_with_fuel(spec_kvs_next, 1);
    }
    if !valid(input, at) {
        return None;
    }
    let p1 = SKIP_at(input, at, a);
    kvs_next_at(input, hold(input, at, p1), a)
}

/// The further arguments of a list, each after a comma.
///
/// `(kvs_more)*`: the repetition ends where an item fails or matches
/// nothing.
#[verifier::spinoff_prover]
pub fn kvs_tail_at(input: &Vec<char>, at: Option<usize>, a: Atomicity) -> (r: Option<usize>)
    ensures
        pos_view(r) == spec_kvs_tail(input@, pos_view(at), a),
    decreases spec_measure(input@, pos_view(at)), 13nat,
{
    proof {
        reveal_with_fuel(spec_kvs_tail, 1);
        reveal_with_fuel(spec_kvs_more, 1);
    }
    if !valid(input, at) {
        return None;
    }
    let mut cur = at;
    loop
        invariant
            spec_valid(input@, pos_view(cur)),
            spec_measure(input@, pos_view(cur)) <= spec_measure(input@, pos_view(at)),
            spec_kvs_tail(input@, pos_view(cur), a) == spec_kvs_tail(input@, pos_view(at), a),
        decreases spec_measure(input@, pos_view(cur)),
    {
        proof {
            reveal_with_fuel(spec_kvs_tail, 1);
            reveal_with_fuel(spec_kvs_more, 1);
        }
        let next = guard(input, cur, kvs_more_at(input, cur, a));
        if next.is_none() {
            return cur;
        }
        cur = next;
    }
}

/// The arguments of a list after the first.
///
/// `kvs_rest = (kvs_next (kvs_more)*)?`
#[verifier::spinoff_prover]
pub fn kvs_rest_at(input: &Vec<char>, at: Option<usize>, a: Atomicity) -> (r: Option<usize>)
    ensures
        pos_view(r) == spec_kvs_rest(input@, pos_view(at), a),
    decreases spec_measure(input@, pos_view(at)), 14nat,
{
    proof {
        reveal_with_fuel(spec_kvs_rest, 1);
        reveal_with_fuel(spec_kvs_next, 1);
        reveal_with_fuel(spec_kvs_tail, 1);
    }
    if !valid(input, at) {
        return None;
    }
    let p1 = kvs_next_at(input, at, a);
    let p2 = kvs_tail_at(input, hold(input, at, p1), a);
    opt(at, p2)
}

/// The arguments of a list between commas, which may end in a comma.
///
/// `kvs_items = macro_kv ~ kvs_rest ~ (",")?`
#[verifier::spinoff_prover]
pub fn kvs_items_at(input: &Vec<char>, at: Option<usize>, a: Atomicity) -> (r: Option<usize>)
    ensures
        pos_view(r) == spec_kvs_items(input@, pos_view(at), a),
    decreases spec_measure(input@, pos_view(at)), 15nat,
{
    proof {
        reveal_with_fuel(spec_kvs_items, 1);
        reveal_with_fuel(spec_macro_kv, 1);
        reveal_with_fuel(spec_kvs_rest, 1);
    }
    if !valid(input, at) {
        return None;
    }
    let p1 = macro_kv_at(input, at, a);
    let p2 = SKIP_at(input, p1, a);
    let p3 = kvs_rest_at(input, hold(input, at, p2), a);
    let p4 = SKIP_at(input, p3, a);
    opt(p4, lit(input, p4, ","))
}

/// A list of arguments between commas, which may be empty and may end in a comma.
///
/// `kvs_list = (kvs_items)?`
#[verifier::spinoff_prover]
pub fn kvs_list_at(input: &Vec<char>, at: Option<usize>, a: Atomicity) -> (r: Option<usize>)
    ensures
        pos_view(r) == spec_kvs_list(input@, pos_view(at), a),
    decreases spec_measure(input@, pos_view(at)), 16nat,
{
    proof {
        reveal_with_fuel(spec_kvs_list, 1);
        reveal_with_fuel(spec_kvs_items, 1);
    }
    if !valid(input, at) {
        return None;
    }
    opt(at, kvs_items_at(input, at, a))
}

/// A parameter of a macro: a name, with a type and a default or without.
///
/// `macro_arg = symbol ~ (":" ~ symbol)? ~ ("=" ~ expr)?`
pub fn macro_arg_at(input: &Vec<char>, at: Option<usize>, a: Atomicity) -> (r: Option<usize>)
    ensures
        pos_view(r) == spec_macro_arg(input@, pos_view(at), a),
{
    proof {
        reveal(spec_macro_arg);
    }
    let p1 = symbol_at(input, at);
    let p2 = SKIP_at(input, p1, a);
    let p3 = lit(input, p2, ":");
    let p4 = SKIP_at(input, p3, a);
    let p5 = symbol_at(input, p4);
    let p6 = opt(p2, p5);
    let p7 = SKIP_at(input, p6, a);
    let p8 = lit(input, p7, "=");
    let p9 = SKIP_at(input, p8, a);
    let p10 = expr_at(input, p9, a);
    opt(p7, p10)
}

/// A comma and one more parameter.
///
/// `args_next = "," ~ macro_arg`
pub fn args_next_at(input: &Vec<char>, at: Option<usize>, a: Atomicity) -> (r: Option<usize>)
    ensures
        pos_view(r) == spec_args_next(input@, pos_view(at), a),
{
    proof {
        reveal(spec_args_next);
    }
    let p1 = lit(input, at, ",");
    let p2 = SKIP_at(input, p1, a);
    macro_arg_at(input, p2, a)
}

/// What is skipped, then a comma and one more parameter.
///
/// `args_more = args_next`
pub fn args_more_at(input: &Vec<char>, at: Option<usize>, a: Atomicity) -> (r: Option<usize>)
    ensures
        pos_view(r) == spec_args_more(input@, pos_view(at), a),
{
    proof {
        reveal(spec_args_more);
    }
    let p1 = SKIP_at(input, at, a);
    args_next_at(input, p1, a)
}

/// The further parameters of a list, each after a comma.
///
/// `(args_more)*`: the repetition ends where an item fails or matches
/// nothing.
pub fn args_tail_at(input: &Vec<char>, at: Option<usize>, a: Atomicity) -> (r: Option<usize>)
    ensures
        pos_view(r) == spec_args_tail(input@, pos_view(at), a),
{
    proof {
        reveal_with_fuel(spec_args_tail, 1);
    }
    if !valid(input, at) {
        return None;
    }
    let mut cur = at;
    loop
        invariant
            spec_valid(input@, pos_view(cur)),
            spec_measure(input@, pos_view(cur)) <= spec_measure(input@, pos_view(at)),
            spec_args_tail(input@, pos_view(cur), a) == spec_args_tail(input@, pos_view(at), a),
        decreases spec_measure(input@, pos_view(cur)),
    {
        proof {
            reveal_with_fuel(spec_args_tail, 1);
        }
        let next = guard(input, cur, args_more_at(input, cur, a));
        if next.is_none() {
            return cur;
        }
        cur = next;
    }
}

/// The parameters of a list after the first.
///
/// `args_rest = (args_next (args_more)*)?`
pub fn args_rest_at(input: &Vec<char>, at: Option<usize>, a: Atomicity) -> (r: Option<usize>)
    ensures
        pos_view(r) == spec_args_rest(input@, pos_view(at), a),
{
    proof {
        reveal(spec_args_rest);
    }
    let p1 = args_next_at(input, at, a);
    let p2 = args_tail_at(input, p1, a);
    opt(at, p2)
}

/// The parameters of a list between commas, which may end in a comma.
///
/// `args_items = macro_arg ~ args_rest ~ (",")?`
pub fn args_items_at(input: &Vec<char>, at: Option<usize>, a: Atomicity) -> (r: Option<usize>)
    ensures
        pos_view(r) == spec_args_items(input@, pos_view(at), a),
{
    proof {
        reveal(spec_args_items);
    }
    let p1 = macro_arg_at(input, at, a);
    let p2 = SKIP_at(input, p1, a);
    let p3 = args_rest_at(input, p2, a);
    let p4 = SKIP_at(input, p3, a);
    opt(p4, lit(input, p4, ","))
}

/// A list of parameters between commas, which may be empty and may end in a comma.
///
/// `args_list = (args_items)?`
pub fn args_list_at(input: &Vec<char>, at: Option<usize>, a: Atomicity) -> (r: Option<usize>)
    ensures
        pos_view(r) == spec_args_list(input@, pos_view(at), a),
{
    proof {
        reveal(spec_args_list);
    }
    opt(at, args_items_at(input, at, a))
}

/// The body of a macro.
///
/// `block = "{" ~ ("return")? ~ expr ~ "}"`
pub fn block_at(input: &Vec<char>, at: Option<usize>, a: Atomicity) -> (r: Option<usize>)
    ensures
        pos_view(r) == spec_block(input@, pos_view(at), a),
{
    proof {
        reveal(spec_block);
    }
    let p1 = lit(input, at, "{");
    let p2 = SKIP_at(input, p1, a);
    let p3 = opt(p2, lit(input, p2, "return"));
    let p4 = SKIP_at(input, p3, a);
    let p5 = expr_at(input, p4, a);
    let p6 = SKIP_at(input, p5, a);
    lit(input, p6, "}")
}

/// The definition of a macro.
///
/// `macro_define = "macro!" ~ symbol_path ~ "(" ~ args_list ~ ")" ~ block`
pub fn macro_define_at(input: &Vec<char>, at: Option<usize>, a: Atomicity) -> (r: Option<usize>)
    ensures
        pos_view(r) == spec_macro_define(input@, pos_view(at), a),
{
    proof {
        reveal(spec_macro_define);
    }
    let p1 = lit(input, at, "macro!");
    let p2 = SKIP_at(input, p1, a);
    let p3 = symbol_path_at(input, p2, a);
    let p4 = SKIP_at(input, p3, a);
    let p5 = lit(input, p4, "(");
    let p6 = SKIP_at(input, p5, a);
    let p7 = args_list_at(input, p6, a);
    let p8 = SKIP_at(input, p7, a);
    let p9 = lit(input, p8, ")");
    let p10 = SKIP_at(input, p9, a);
    block_at(input, p10, a)
}

/// An assignment: a name, the equals sign and an expression.
///
/// `assign_statement = symbol ~ assign_kind ~ ("|")? ~ expr`
pub fn assign_statement_at(input: &Vec<char>, at: Option<usize>, a: Atomicity) -> (r: Option<usize>)
    ensures
        pos_view(r) == spec_assign_statement(input@, pos_view(at), a),
{
    proof {
        reveal(spec_assign_statement);
    }
    let p1 = symbol_at(input, at);
    let p2 = SKIP_at(input, p1, a);
    let p3 = assign_kind_at(input, p2);
    let p4 = SKIP_at(input, p3, a);
    let p5 = opt(p4, lit(input, p4, "|"));
    let p6 = SKIP_at(input, p5, a);
    expr_at(input, p6, a)
}

/// One statement.
///
/// `statement = macro_call | macro_define | comment_doc | (grammar_statement ~ (eos)?) | (fragment_statement ~ (eos)?) | (ignore_statement ~ (eos)?) | (assign_statement ~ (eos)?) | empty_statement`
pub fn statement_at(input: &Vec<char>, at: Option<usize>, a: Atomicity) -> (r: Option<usize>)
    ensures
        pos_view(r) == spec_statement(input@, pos_view(at), a),
{
    proof {
        reveal(spec_statement);
    }
    let p1 = macro_call_at(input, at, a);
    let p2 = if p1.is_some() {
        p1
    } else {
        macro_define_at(input, at, a)
    };
    let p3 = if p2.is_some() {
        p2
    } else {
        comment_doc_at(input, at)
    };
    let p6 = if p3.is_some() {
        p3
    } else {
        let p4 = grammar_statement_at(input, at, a);
        let p5 = SKIP_at(input, p4, a);
        opt(p5, eos_at(input, p5))
    };
    let p9 = if p6.is_some() {
        p6
    } else {
        let p7 = fragment_statement_at(input, at, a);
        let p8 = SKIP_at(input, p7, a);
        opt(p8, eos_at(input, p8))
    };
    let p12 = if p9.is_some() {
        p9
    } else {
        let p10 = ignore_statement_at(input, at, a);
        let p11 = SKIP_at(input, p10, a);
        opt(p11, eos_at(input, p11))
    };
    let p15 = if p12.is_some() {
        p12
    } else {
        let p13 = assign_statement_at(input, at, a);
        let p14 = SKIP_at(input, p13, a);
        opt(p14, eos_at(input, p14))
    };
    let p16 = if p15.is_some() {
        p15
    } else {
        empty_statement_at(input, at)
    };
    p16
}

/// What is skipped, then one more statement.
///
/// `statement_more = statement`
pub fn statement_more_at(input: &Vec<char>, at: Option<usize>, a: Atomicity) -> (r: Option<usize>)
    ensures
        pos_view(r) == spec_statement_more(input@, pos_view(at), a),
{
    proof {
        reveal(spec_statement_more);
    }
    let p1 = SKIP_at(input, at, a);
    statement_at(input, p1, a)
}

/// The further statements of a program.
///
/// `(statement_more)*`: the repetition ends where an item fails or matches
/// nothing.
pub fn statement_tail_at(input: &Vec<char>, at: Option<usize>, a: Atomicity) -> (r: Option<usize>)
    ensures
        pos_view(r) == spec_statement_tail(input@, pos_view(at), a),
{
    proof {
        reveal_with_fuel(spec_statement_tail, 1);
    }
    if !valid(input, at) {
        return None;
    }
    let mut cur = at;
    loop
        invariant
            spec_valid(input@, pos_view(cur)),
            spec_measure(input@, pos_view(cur)) <= spec_measure(input@, pos_view(at)),
            spec_statement_tail(input@, pos_view(cur), a) == spec_statement_tail(input@, pos_view(at), a),
        decreases spec_measure(input@, pos_view(cur)),
    {
        proof {
            reveal_with_fuel(spec_statement_tail, 1);
        }
        let next = guard(input, cur, statement_more_at(input, cur, a));
        if next.is_none() {
            return cur;
        }
        cur = next;
    }
}

/// A whole program: statements from the start of the input to its end.
///
/// `program = SOI ~ (statement (statement_more)*)? ~ EOI`
pub fn program_at(input: &Vec<char>, at: Option<usize>, a: Atomicity) -> (r: Option<usize>)
    ensures
        pos_view(r) == spec_program(input@, pos_view(at), a),
{
    proof {
        reveal(spec_program);
    }
    let p1 = soi(input, at);
    let p2 = SKIP_at(input, p1, a);
    let p3 = statement_at(input, p2, a);
    let p4 = statement_tail_at(input, p3, a);
    let p5 = opt(p2, p4);
    let p6 = SKIP_at(input, p5, a);
    eoi(input, p6)
}

} // verus!
