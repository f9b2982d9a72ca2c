//! The grammar of the notation, rule by rule: where a rule ends when it
//! is tried at a position of the input, if it matches there.
//!
//! Every rule is a function from a position to a position, and both may
//! be missing: a rule that is tried where the steps before it have
//! failed fails too, so that the steps of a sequence stand one below the
//! other. `~` in the notation of a rule stands for what is skipped
//! between two parts.
//!
//! Two conditions make every rule end. A repetition goes on only behind
//! an item that has matched something. And a rule that can lead back to
//! itself hands on a position only in the input and not before its own
//! start, and calls itself only behind its own start. A rule of the
//! grammar never meets them: every item of a repetition and everything
//! before a rule calls itself consumes at least one character.

use vstd::prelude::*;
use crate::cst::state::{
    spec_any, spec_eoi, spec_first, spec_guard, spec_hold, spec_lit, spec_measure, spec_not,
    spec_one_of, spec_opt, spec_range, spec_soi, spec_valid, spec_xid_continue,
    spec_xid_start, Atomicity,
};

verus! {

/// Any one character.
///
/// `ANY = ANY`
#[verifier::opaque]
pub open spec fn spec_ANY(s: Seq<char>, at: Option<int>) -> Option<int>
{
    spec_any(s, at)
}

/// The end of the input.
///
/// `EOI = EOI`
#[verifier::opaque]
pub open spec fn spec_EOI(s: Seq<char>, at: Option<int>) -> Option<int>
{
    spec_eoi(s, at)
}

/// The start of the input.
///
/// `SOI = SOI`
#[verifier::opaque]
pub open spec fn spec_SOI(s: Seq<char>, at: Option<int>) -> Option<int>
{
    spec_soi(s, at)
}

/// One decimal digit.
///
/// `ASCII_DIGIT = '0'..'9'`
#[verifier::opaque]
pub open spec fn spec_ASCII_DIGIT(s: Seq<char>, at: Option<int>) -> Option<int>
{
    spec_range(s, at, '0', '9')
}

/// One decimal digit but zero.
///
/// `ASCII_NONZERO_DIGIT = '1'..'9'`
#[verifier::opaque]
pub open spec fn spec_ASCII_NONZERO_DIGIT(s: Seq<char>, at: Option<int>) -> Option<int>
{
    spec_range(s, at, '1', '9')
}

/// One character that can continue an identifier.
///
/// `XID_CONTINUE = XID_CONTINUE`
#[verifier::opaque]
pub open spec fn spec_XID_CONTINUE(s: Seq<char>, at: Option<int>) -> Option<int>
{
    spec_xid_continue(s, at)
}

/// One character that can start an identifier.
///
/// `XID_START = XID_START`
#[verifier::opaque]
pub open spec fn spec_XID_START(s: Seq<char>, at: Option<int>) -> Option<int>
{
    spec_xid_start(s, at)
}

/// A space or a tab.
///
/// `blank = " " | "\t"`
#[verifier::opaque]
pub open spec fn spec_blank(s: Seq<char>, at: Option<int>) -> Option<int>
{
    spec_first(spec_lit(s, at, " "@), spec_lit(s, at, "\t"@))
}

/// Spaces and tabs.
///
/// `(blank)*`: the repetition ends where an item fails or matches
/// nothing.
#[verifier::opaque]
pub open spec fn spec_blanks(s: Seq<char>, at: Option<int>) -> Option<int>
    decreases spec_measure(s, at), 0nat,
{
    if !spec_valid(s, at) {
        None
    } else {
        let next = spec_guard(s, at, spec_blank(s, at));
        if next is Some {
            spec_blanks(s, next)
        } else {
            at
        }
    }
}

/// A run of spaces and tabs.
///
/// `WHITESPACE = blank (blank)*`
#[verifier::opaque]
pub open spec fn spec_WHITESPACE(s: Seq<char>, at: Option<int>) -> Option<int>
{
    let p1 = spec_blank(s, at);
    spec_blanks(s, p1)
}

/// One end of line.
///
/// `line_end = "\r\n" | "\r" | "\n"`
#[verifier::opaque]
pub open spec fn spec_line_end(s: Seq<char>, at: Option<int>) -> Option<int>
{
    spec_first(spec_lit(s, at, "\r\n"@), spec_first(spec_lit(s, at, "\r"@), spec_lit(s, at, "\n"@)))
}

/// Ends of line.
///
/// `(line_end)*`: the repetition ends where an item fails or matches
/// nothing.
#[verifier::opaque]
pub open spec fn spec_line_ends(s: Seq<char>, at: Option<int>) -> Option<int>
    decreases spec_measure(s, at), 0nat,
{
    if !spec_valid(s, at) {
        None
    } else {
        let next = spec_guard(s, at, spec_line_end(s, at));
        if next is Some {
            spec_line_ends(s, next)
        } else {
            at
        }
    }
}

/// A run of ends of line.
///
/// `NEWLINE = line_end (line_end)*`
#[verifier::opaque]
pub open spec fn spec_NEWLINE(s: Seq<char>, at: Option<int>) -> Option<int>
{
    let p1 = spec_line_end(s, at);
    spec_line_ends(s, p1)
}

/// One character that does not end the line.
///
/// `line_char = !NEWLINE ANY`
#[verifier::opaque]
pub open spec fn spec_line_char(s: Seq<char>, at: Option<int>) -> Option<int>
{
    let p1 = spec_not(at, spec_NEWLINE(s, at));
    spec_any(s, p1)
}

/// The rest of the line.
///
/// `(line_char)*`: the repetition ends where an item fails or matches
/// nothing.
#[verifier::opaque]
pub open spec fn spec_line_rest(s: Seq<char>, at: Option<int>) -> Option<int>
    decreases spec_measure(s, at), 0nat,
{
    if !spec_valid(s, at) {
        None
    } else {
        let next = spec_guard(s, at, spec_line_char(s, at));
        if next is Some {
            spec_line_rest(s, next)
        } else {
            at
        }
    }
}

/// A documentation comment, to the end of the line.
///
/// `comment_doc = "///" (line_char)*`
#[verifier::opaque]
pub open spec fn spec_comment_doc(s: Seq<char>, at: Option<int>) -> Option<int>
{
    let p1 = spec_lit(s, at, "///"@);
    spec_line_rest(s, p1)
}

/// A comment to the end of the line.
///
/// `comment_s_l = "//" (line_char)*`
#[verifier::opaque]
pub open spec fn spec_comment_s_l(s: Seq<char>, at: Option<int>) -> Option<int>
{
    let p1 = spec_lit(s, at, "//"@);
    spec_line_rest(s, p1)
}

/// A comment between `/*` and `*/`, in which such comments nest.
///
/// `comment_m_l = "/*" (comment_part)* "*/"`
#[verifier::opaque]
pub open spec fn spec_comment_m_l(s: Seq<char>, at: Option<int>) -> Option<int>
    decreases spec_measure(s, at), 1nat,
{
    if !spec_valid(s, at) {
        None
    } else {
        let p1 = spec_lit(s, at, "/*"@);
        let p2 = spec_comment_body(s, spec_guard(s, at, p1));
        spec_lit(s, p2, "*/"@)
    }
}

/// A nested comment, or one character that does not begin the end of the comment.
///
/// `comment_part = comment_m_l | (!"*/" ANY)`
#[verifier::opaque]
pub open spec fn spec_comment_part(s: Seq<char>, at: Option<int>) -> Option<int>
    decreases spec_measure(s, at), 2nat,
{
    if !spec_valid(s, at) {
        None
    } else {
        let p1 = spec_not(at, spec_lit(s, at, "*/"@));
        let p2 = spec_any(s, p1);
        spec_first(spec_comment_m_l(s, at), p2)
    }
}

/// What stands inside a comment.
///
/// `(comment_part)*`: the repetition ends where an item fails or matches
/// nothing.
#[verifier::opaque]
pub open spec fn spec_comment_body(s: Seq<char>, at: Option<int>) -> Option<int>
    decreases spec_measure(s, at), 3nat,
{
    if !spec_valid(s, at) {
        None
    } else {
        let next = spec_guard(s, at, spec_comment_part(s, at));
        if next is Some {
            spec_comment_body(s, next)
        } else {
            at
        }
    }
}

/// A comment of either form.
///
/// `COMMENT = comment_s_l | comment_m_l`
#[verifier::opaque]
pub open spec fn spec_COMMENT(s: Seq<char>, at: Option<int>) -> Option<int>
{
    spec_first(spec_comment_s_l(s, at), spec_comment_m_l(s, at))
}

/// One piece of what is skipped: a comment, white space or ends of line.
///
/// `IGNORE = COMMENT | WHITESPACE | NEWLINE`
#[verifier::opaque]
pub open spec fn spec_IGNORE(s: Seq<char>, at: Option<int>) -> Option<int>
{
    spec_first(spec_COMMENT(s, at), spec_first(spec_WHITESPACE(s, at), spec_NEWLINE(s, at)))
}

/// Everything that is skipped.
///
/// `(IGNORE)*`: the repetition ends where an item fails or matches
/// nothing.
#[verifier::opaque]
pub open spec fn spec_ignored(s: Seq<char>, at: Option<int>) -> Option<int>
    decreases spec_measure(s, at), 0nat,
{
    if !spec_valid(s, at) {
        None
    } else {
        let next = spec_guard(s, at, spec_IGNORE(s, at));
        if next is Some {
            spec_ignored(s, next)
        } else {
            at
        }
    }
}

/// What stands between the parts of a rule: everything that is skipped where the state is not atomic, and nothing where it is.
#[verifier::opaque]
pub open spec fn spec_SKIP(s: Seq<char>, at: Option<int>, a: Atomicity) -> Option<int>
{
    if a == Atomicity::NonAtomic {
        spec_ignored(s, at)
    } else {
        at
    }
}

/// The end of a statement.
///
/// `eos = ";"`
#[verifier::opaque]
pub open spec fn spec_eos(s: Seq<char>, at: Option<int>) -> Option<int>
{
    spec_lit(s, at, ";"@)
}

/// A statement that holds nothing.
///
/// `empty_statement = eos`
#[verifier::opaque]
pub open spec fn spec_empty_statement(s: Seq<char>, at: Option<int>) -> Option<int>
{
    spec_eos(s, at)
}

/// The keyword of a grammar statement.
///
/// `grammar = "grammar!"`
#[verifier::opaque]
pub open spec fn spec_grammar(s: Seq<char>, at: Option<int>) -> Option<int>
{
    spec_lit(s, at, "grammar!"@)
}

/// The keyword of a fragment statement.
///
/// `fragment = "fragment!"`
#[verifier::opaque]
pub open spec fn spec_fragment(s: Seq<char>, at: Option<int>) -> Option<int>
{
    spec_lit(s, at, "fragment!"@)
}

/// One prefix sign.
///
/// `prefix = ('!' | '&' | '^' | '*' | '%')`
#[verifier::opaque]
pub open spec fn spec_prefix(s: Seq<char>, at: Option<int>) -> Option<int>
{
    spec_one_of(s, at, "!&^*%"@)
}

/// One suffix sign.
///
/// `suffix = ('?' | '+' | '*')`
#[verifier::opaque]
pub open spec fn spec_suffix(s: Seq<char>, at: Option<int>) -> Option<int>
{
    spec_one_of(s, at, "?+*"@)
}

/// One of the special values.
///
/// `special = "true" | "false" | "null"`
#[verifier::opaque]
pub open spec fn spec_special(s: Seq<char>, at: Option<int>) -> Option<int>
{
    spec_first(spec_lit(s, at, "true"@), spec_first(spec_lit(s, at, "false"@), spec_lit(s, at, "null"@)))
}

/// The characters of an identifier after the first.
///
/// `(XID_CONTINUE)*`: the repetition ends where an item fails or matches
/// nothing.
#[verifier::opaque]
pub open spec fn spec_symbol_rest(s: Seq<char>, at: Option<int>) -> Option<int>
    decreases spec_measure(s, at), 0nat,
{
    if !spec_valid(s, at) {
        None
    } else {
        let next = spec_guard(s, at, spec_xid_continue(s, at));
        if next is Some {
            spec_symbol_rest(s, next)
        } else {
            at
        }
    }
}

/// An identifier.
///
/// `symbol = ("_" | XID_START) (XID_CONTINUE)*`
#[verifier::opaque]
pub open spec fn spec_symbol(s: Seq<char>, at: Option<int>) -> Option<int>
{
    let p1 = spec_first(spec_lit(s, at, "_"@), spec_xid_start(s, at));
    spec_symbol_rest(s, p1)
}

/// One more digit, after an underscore or not.
///
/// `digit_more = ("_")? ASCII_DIGIT`
#[verifier::opaque]
pub open spec fn spec_digit_more(s: Seq<char>, at: Option<int>) -> Option<int>
{
    let p1 = spec_opt(at, spec_lit(s, at, "_"@));
    spec_ASCII_DIGIT(s, p1)
}

/// The digits of a number after the first.
///
/// `(digit_more)*`: the repetition ends where an item fails or matches
/// nothing.
#[verifier::opaque]
pub open spec fn spec_digits(s: Seq<char>, at: Option<int>) -> Option<int>
    decreases spec_measure(s, at), 0nat,
{
    if !spec_valid(s, at) {
        None
    } else {
        let next = spec_guard(s, at, spec_digit_more(s, at));
        if next is Some {
            spec_digits(s, next)
        } else {
            at
        }
    }
}

/// An integer without sign.
///
/// `integer = "0" | (ASCII_NONZERO_DIGIT (digit_more)*)`
#[verifier::opaque]
pub open spec fn spec_integer(s: Seq<char>, at: Option<int>) -> Option<int>
{
    let p1 = spec_ASCII_NONZERO_DIGIT(s, at);
    let p2 = spec_digits(s, p1);
    spec_first(spec_lit(s, at, "0"@), p2)
}

/// One character of a character class.
///
/// `range_char = (!"]" ANY) | ("\\" ANY)`
#[verifier::opaque]
pub open spec fn spec_range_char(s: Seq<char>, at: Option<int>) -> Option<int>
{
    let p1 = spec_not(at, spec_lit(s, at, "]"@));
    let p2 = spec_any(s, p1);
    let p3 = spec_lit(s, at, "\\"@);
    let p4 = spec_any(s, p3);
    spec_first(p2, p4)
}

/// What stands inside a character class.
///
/// `(range_char)*`: the repetition ends where an item fails or matches
/// nothing.
#[verifier::opaque]
pub open spec fn spec_range_body(s: Seq<char>, at: Option<int>) -> Option<int>
    decreases spec_measure(s, at), 0nat,
{
    if !spec_valid(s, at) {
        None
    } else {
        let next = spec_guard(s, at, spec_range_char(s, at));
        if next is Some {
            spec_range_body(s, next)
        } else {
            at
        }
    }
}

/// A character class between brackets.
///
/// `regex_range = "[" (range_char)* "]"`
#[verifier::opaque]
pub open spec fn spec_regex_range(s: Seq<char>, at: Option<int>) -> Option<int>
{
    let p1 = spec_lit(s, at, "["@);
    let p2 = spec_range_body(s, p1);
    spec_lit(s, p2, "]"@)
}

/// One character of a text in single quotes.
///
/// `single_char = (!"'" ANY) | ("\\" ANY)`
#[verifier::opaque]
pub open spec fn spec_single_char(s: Seq<char>, at: Option<int>) -> Option<int>
{
    let p1 = spec_not(at, spec_lit(s, at, "'"@));
    let p2 = spec_any(s, p1);
    let p3 = spec_lit(s, at, "\\"@);
    let p4 = spec_any(s, p3);
    spec_first(p2, p4)
}

/// What stands inside single quotes.
///
/// `(single_char)*`: the repetition ends where an item fails or matches
/// nothing.
#[verifier::opaque]
pub open spec fn spec_single_body(s: Seq<char>, at: Option<int>) -> Option<int>
    decreases spec_measure(s, at), 0nat,
{
    if !spec_valid(s, at) {
        None
    } else {
        let next = spec_guard(s, at, spec_single_char(s, at));
        if next is Some {
            spec_single_body(s, next)
        } else {
            at
        }
    }
}

/// One character of a text in double quotes.
///
/// `double_char = (!"\"" ANY) | ("\\" ANY)`
#[verifier::opaque]
pub open spec fn spec_double_char(s: Seq<char>, at: Option<int>) -> Option<int>
{
    let p1 = spec_not(at, spec_lit(s, at, "\""@));
    let p2 = spec_any(s, p1);
    let p3 = spec_lit(s, at, "\\"@);
    let p4 = spec_any(s, p3);
    spec_first(p2, p4)
}

/// What stands inside double quotes.
///
/// `(double_char)*`: the repetition ends where an item fails or matches
/// nothing.
#[verifier::opaque]
pub open spec fn spec_double_body(s: Seq<char>, at: Option<int>) -> Option<int>
    decreases spec_measure(s, at), 0nat,
{
    if !spec_valid(s, at) {
        None
    } else {
        let next = spec_guard(s, at, spec_double_char(s, at));
        if next is Some {
            spec_double_body(s, next)
        } else {
            at
        }
    }
}

/// A text in single or in double quotes.
///
/// `string = ("'" (single_char)* "'") | ("\"" (double_char)* "\"")`
#[verifier::opaque]
pub open spec fn spec_string(s: Seq<char>, at: Option<int>) -> Option<int>
{
    let p1 = spec_lit(s, at, "'"@);
    let p2 = spec_single_body(s, p1);
    let p3 = spec_lit(s, p2, "'"@);
    let p4 = spec_lit(s, at, "\""@);
    let p5 = spec_double_body(s, p4);
    let p6 = spec_lit(s, p5, "\""@);
    spec_first(p3, p6)
}

/// One sign before the equals sign.
///
/// `kind_sign = "^" | "_" | "@"`
#[verifier::opaque]
pub open spec fn spec_kind_sign(s: Seq<char>, at: Option<int>) -> Option<int>
{
    spec_first(spec_lit(s, at, "^"@), spec_first(spec_lit(s, at, "_"@), spec_lit(s, at, "@"@)))
}

/// The signs before the equals sign.
///
/// `(kind_sign)*`: the repetition ends where an item fails or matches
/// nothing.
#[verifier::opaque]
pub open spec fn spec_kind_signs(s: Seq<char>, at: Option<int>) -> Option<int>
    decreases spec_measure(s, at), 0nat,
{
    if !spec_valid(s, at) {
        None
    } else {
        let next = spec_guard(s, at, spec_kind_sign(s, at));
        if next is Some {
            spec_kind_signs(s, next)
        } else {
            at
        }
    }
}

/// The equals sign of an assignment, after its signs.
///
/// `assign_kind = (kind_sign)* "="`
#[verifier::opaque]
pub open spec fn spec_assign_kind(s: Seq<char>, at: Option<int>) -> Option<int>
{
    let p1 = spec_kind_signs(s, at);
    spec_lit(s, p1, "="@)
}

/// The name of a branch: `#name`, after `^` or `!` or neither.
///
/// `mark_branch = ("^" | "!")? "#" symbol`
#[verifier::opaque]
pub open spec fn spec_mark_branch(s: Seq<char>, at: Option<int>) -> Option<int>
{
    let p1 = spec_opt(at, spec_first(spec_lit(s, at, "^"@), spec_lit(s, at, "!"@)));
    let p2 = spec_lit(s, p1, "#"@);
    spec_symbol(s, p2)
}

/// A type annotation: `: name`.
///
/// `mark_type = ":" ~ symbol`
#[verifier::opaque]
pub open spec fn spec_mark_type(s: Seq<char>, at: Option<int>, a: Atomicity) -> Option<int>
{
    let p1 = spec_lit(s, at, ":"@);
    let p2 = spec_SKIP(s, p1, a);
    spec_symbol(s, p2)
}

/// A separator and one more identifier.
///
/// `path_next = ("::" | ".") ~ symbol`
#[verifier::opaque]
pub open spec fn spec_path_next(s: Seq<char>, at: Option<int>, a: Atomicity) -> Option<int>
{
    let p1 = spec_first(spec_lit(s, at, "::"@), spec_lit(s, at, "."@));
    let p2 = spec_SKIP(s, p1, a);
    spec_symbol(s, p2)
}

/// What is skipped, then a separator and one more identifier.
///
/// `path_more = path_next`
#[verifier::opaque]
pub open spec fn spec_path_more(s: Seq<char>, at: Option<int>, a: Atomicity) -> Option<int>
{
    let p1 = spec_SKIP(s, at, a);
    spec_path_next(s, p1, a)
}

/// The further identifiers of a path.
///
/// `(path_more)*`: the repetition ends where an item fails or matches
/// nothing.
#[verifier::opaque]
pub open spec fn spec_path_tail(s: Seq<char>, at: Option<int>, a: Atomicity) -> Option<int>
    decreases spec_measure(s, at), 0nat,
{
    if !spec_valid(s, at) {
        None
    } else {
        let next = spec_guard(s, at, spec_path_more(s, at, a));
        if next is Some {
            spec_path_tail(s, next, a)
        } else {
            at
        }
    }
}

/// A path of identifiers between `::` or `.`.
///
/// `symbol_path = symbol ~ (path_next (path_more)*)?`
#[verifier::opaque]
pub open spec fn spec_symbol_path(s: Seq<char>, at: Option<int>, a: Atomicity) -> Option<int>
{
    let p1 = spec_symbol(s, at);
    let p2 = spec_SKIP(s, p1, a);
    let p3 = spec_path_next(s, p2, a);
    let p4 = spec_path_tail(s, p3, a);
    spec_opt(p2, p4)
}

/// An identifier, `as` another or not.
///
/// `symbol_alias = symbol ~ ("as" ~ symbol)?`
#[verifier::opaque]
pub open spec fn spec_symbol_alias(s: Seq<char>, at: Option<int>, a: Atomicity) -> Option<int>
{
    let p1 = spec_symbol(s, at);
    let p2 = spec_SKIP(s, p1, a);
    let p3 = spec_lit(s, p2, "as"@);
    let p4 = spec_SKIP(s, p3, a);
    let p5 = spec_symbol(s, p4);
    spec_opt(p2, p5)
}

/// A repetition between bounds: `{min, max}`.
///
/// `slice = "{" ~ integer ~ "," ~ integer ~ "}"`
#[verifier::opaque]
pub open spec fn spec_slice(s: Seq<char>, at: Option<int>, a: Atomicity) -> Option<int>
{
    let p1 = spec_lit(s, at, "{"@);
    let p2 = spec_SKIP(s, p1, a);
    let p3 = spec_integer(s, p2);
    let p4 = spec_SKIP(s, p3, a);
    let p5 = spec_lit(s, p4, ","@);
    let p6 = spec_SKIP(s, p5, a);
    let p7 = spec_integer(s, p6);
    let p8 = spec_SKIP(s, p7, a);
    spec_lit(s, p8, "}"@)
}

/// A fragment statement.
///
/// `fragment_statement = fragment ~ symbol`
#[verifier::opaque]
pub open spec fn spec_fragment_statement(s: Seq<char>, at: Option<int>, a: Atomicity) -> Option<int>
{
    let p1 = spec_fragment(s, at);
    let p2 = spec_SKIP(s, p1, a);
    spec_symbol(s, p2)
}

/// A comma and one more text.
///
/// `strings_next = "," ~ string`
#[verifier::opaque]
pub open spec fn spec_strings_next(s: Seq<char>, at: Option<int>, a: Atomicity) -> Option<int>
{
    let p1 = spec_lit(s, at, ","@);
    let p2 = spec_SKIP(s, p1, a);
    spec_string(s, p2)
}

/// What is skipped, then a comma and one more text.
///
/// `strings_more = strings_next`
#[verifier::opaque]
pub open spec fn spec_strings_more(s: Seq<char>, at: Option<int>, a: Atomicity) -> Option<int>
{
    let p1 = spec_SKIP(s, at, a);
    spec_strings_next(s, p1, a)
}

/// The further texts of a list, each after a comma.
///
/// `(strings_more)*`: the repetition ends where an item fails or matches
/// nothing.
#[verifier::opaque]
pub open spec fn spec_strings_tail(s: Seq<char>, at: Option<int>, a: Atomicity) -> Option<int>
    decreases spec_measure(s, at), 0nat,
{
    if !spec_valid(s, at) {
        None
    } else {
        let next = spec_guard(s, at, spec_strings_more(s, at, a));
        if next is Some {
            spec_strings_tail(s, next, a)
        } else {
            at
        }
    }
}

/// The texts of a list after the first.
///
/// `strings_rest = (strings_next (strings_more)*)?`
#[verifier::opaque]
pub open spec fn spec_strings_rest(s: Seq<char>, at: Option<int>, a: Atomicity) -> Option<int>
{
    let p1 = spec_strings_next(s, at, a);
    let p2 = spec_strings_tail(s, p1, a);
    spec_opt(at, p2)
}

/// The texts of a list between commas, which may end in a comma.
///
/// `strings_items = string ~ strings_rest ~ (",")?`
#[verifier::opaque]
pub open spec fn spec_strings_items(s: Seq<char>, at: Option<int>, a: Atomicity) -> Option<int>
{
    let p1 = spec_string(s, at);
    let p2 = spec_SKIP(s, p1, a);
    let p3 = spec_strings_rest(s, p2, a);
    let p4 = spec_SKIP(s, p3, a);
    spec_opt(p4, spec_lit(s, p4, ","@))
}

/// A list of texts between commas, which may be empty and may end in a comma.
///
/// `strings_list = (strings_items)?`
#[verifier::opaque]
pub open spec fn spec_strings_list(s: Seq<char>, at: Option<int>, a: Atomicity) -> Option<int>
{
    spec_opt(at, spec_strings_items(s, at, a))
}

/// A comma and one more identifier.
///
/// `symbols_next = "," ~ symbol`
#[verifier::opaque]
pub open spec fn spec_symbols_next(s: Seq<char>, at: Option<int>, a: Atomicity) -> Option<int>
{
    let p1 = spec_lit(s, at, ","@);
    let p2 = spec_SKIP(s, p1, a);
    spec_symbol(s, p2)
}

/// What is skipped, then a comma and one more identifier.
///
/// `symbols_more = symbols_next`
#[verifier::opaque]
pub open spec fn spec_symbols_more(s: Seq<char>, at: Option<int>, a: Atomicity) -> Option<int>
{
    let p1 = spec_SKIP(s, at, a);
    spec_symbols_next(s, p1, a)
}

/// The further identifiers of a list, each after a comma.
///
/// `(symbols_more)*`: the repetition ends where an item fails or matches
/// nothing.
#[verifier::opaque]
pub open spec fn spec_symbols_tail(s: Seq<char>, at: Option<int>, a: Atomicity) -> Option<int>
    decreases spec_measure(s, at), 0nat,
{
    if !spec_valid(s, at) {
        None
    } else {
        let next = spec_guard(s, at, spec_symbols_more(s, at, a));
        if next is Some {
            spec_symbols_tail(s, next, a)
        } else {
            at
        }
    }
}

/// The identifiers of a list after the first.
///
/// `symbols_rest = (symbols_next (symbols_more)*)?`
#[verifier::opaque]
pub open spec fn spec_symbols_rest(s: Seq<char>, at: Option<int>, a: Atomicity) -> Option<int>
{
    let p1 = spec_symbols_next(s, at, a);
    let p2 = spec_symbols_tail(s, p1, a);
    spec_opt(at, p2)
}

/// The identifiers of a list between commas, which may end in a comma.
///
/// `symbols_items = symbol ~ symbols_rest ~ (",")?`
#[verifier::opaque]
pub open spec fn spec_symbols_items(s: Seq<char>, at: Option<int>, a: Atomicity) -> Option<int>
{
    let p1 = spec_symbol(s, at);
    let p2 = spec_SKIP(s, p1, a);
    let p3 = spec_symbols_rest(s, p2, a);
    let p4 = spec_SKIP(s, p3, a);
    spec_opt(p4, spec_lit(s, p4, ","@))
}

/// A list of identifiers between commas, which may be empty and may end in a comma.
///
/// `symbols_list = (symbols_items)?`
#[verifier::opaque]
pub open spec fn spec_symbols_list(s: Seq<char>, at: Option<int>, a: Atomicity) -> Option<int>
{
    spec_opt(at, spec_symbols_items(s, at, a))
}

/// A comma and one more alias.
///
/// `aliases_next = "," ~ symbol_alias`
#[verifier::opaque]
pub open spec fn spec_aliases_next(s: Seq<char>, at: Option<int>, a: Atomicity) -> Option<int>
{
    let p1 = spec_lit(s, at, ","@);
    let p2 = spec_SKIP(s, p1, a);
    spec_symbol_alias(s, p2, a)
}

/// What is skipped, then a comma and one more alias.
///
/// `aliases_more = aliases_next`
#[verifier::opaque]
pub open spec fn spec_aliases_more(s: Seq<char>, at: Option<int>, a: Atomicity) -> Option<int>
{
    let p1 = spec_SKIP(s, at, a);
    spec_aliases_next(s, p1, a)
}

/// The further aliass of a list, each after a comma.
///
/// `(aliases_more)*`: the repetition ends where an item fails or matches
/// nothing.
#[verifier::opaque]
pub open spec fn spec_aliases_tail(s: Seq<char>, at: Option<int>, a: Atomicity) -> Option<int>
    decreases spec_measure(s, at), 0nat,
{
    if !spec_valid(s, at) {
        None
    } else {
        let next = spec_guard(s, at, spec_aliases_more(s, at, a));
        if next is Some {
            spec_aliases_tail(s, next, a)
        } else {
            at
        }
    }
}

/// The aliass of a list after the first.
///
/// `aliases_rest = (aliases_next (aliases_more)*)?`
#[verifier::opaque]
pub open spec fn spec_aliases_rest(s: Seq<char>, at: Option<int>, a: Atomicity) -> Option<int>
{
    let p1 = spec_aliases_next(s, at, a);
    let p2 = spec_aliases_tail(s, p1, a);
    spec_opt(at, p2)
}

/// The aliass of a list between commas, which may end in a comma.
///
/// `aliases_items = symbol_alias ~ aliases_rest ~ (",")?`
#[verifier::opaque]
pub open spec fn spec_aliases_items(s: Seq<char>, at: Option<int>, a: Atomicity) -> Option<int>
{
    let p1 = spec_symbol_alias(s, at, a);
    let p2 = spec_SKIP(s, p1, a);
    let p3 = spec_aliases_rest(s, p2, a);
    let p4 = spec_SKIP(s, p3, a);
    spec_opt(p4, spec_lit(s, p4, ","@))
}

/// A list of aliass between commas, which may be empty and may end in a comma.
///
/// `aliases_list = (aliases_items)?`
#[verifier::opaque]
pub open spec fn spec_aliases_list(s: Seq<char>, at: Option<int>, a: Atomicity) -> Option<int>
{
    spec_opt(at, spec_aliases_items(s, at, a))
}

/// A grammar statement: the keyword, a name and the file extensions.
///
/// `grammar_statement = grammar ~ symbol ~ (string | ("{" ~ strings_list ~ "}"))`
#[verifier::opaque]
pub open spec fn spec_grammar_statement(s: Seq<char>, at: Option<int>, a: Atomicity) -> Option<int>
{
    let p1 = spec_grammar(s, at);
    let p2 = spec_SKIP(s, p1, a);
    let p3 = spec_symbol(s, p2);
    let p4 = spec_SKIP(s, p3, a);
    let p5 = spec_lit(s, p4, "{"@);
    let p6 = spec_SKIP(s, p5, a);
    let p7 = spec_strings_list(s, p6, a);
    let p8 = spec_SKIP(s, p7, a);
    let p9 = spec_lit(s, p8, "}"@);
    spec_first(spec_string(s, p4), p9)
}

/// An import statement: the keyword and a path.
///
/// `import_statement = "import!" ~ (string | (string ~ "{" ~ aliases_list ~ "}"))`
#[verifier::opaque]
pub open spec fn spec_import_statement(s: Seq<char>, at: Option<int>, a: Atomicity) -> Option<int>
{
    let p1 = spec_lit(s, at, "import!"@);
    let p2 = spec_SKIP(s, p1, a);
    let p3 = spec_string(s, p2);
    let p4 = spec_SKIP(s, p3, a);
    let p5 = spec_lit(s, p4, "{"@);
    let p6 = spec_SKIP(s, p5, a);
    let p7 = spec_aliases_list(s, p6, a);
    let p8 = spec_SKIP(s, p7, a);
    let p9 = spec_lit(s, p8, "}"@);
    spec_first(spec_string(s, p2), p9)
}

/// An ignore statement: the keyword and one rule or a list of rules.
///
/// `ignore_statement = "ignore!" ~ (symbol | ("{" ~ symbols_list ~ "}"))`
#[verifier::opaque]
pub open spec fn spec_ignore_statement(s: Seq<char>, at: Option<int>, a: Atomicity) -> Option<int>
{
    let p1 = spec_lit(s, at, "ignore!"@);
    let p2 = spec_SKIP(s, p1, a);
    let p3 = spec_lit(s, p2, "{"@);
    let p4 = spec_SKIP(s, p3, a);
    let p5 = spec_symbols_list(s, p4, a);
    let p6 = spec_SKIP(s, p5, a);
    let p7 = spec_lit(s, p6, "}"@);
    spec_first(spec_symbol(s, p2), p7)
}

/// A list of data between braces.
///
/// `list = "{" ~ datas_list ~ "}"`
#[verifier::opaque]
pub open spec fn spec_list(s: Seq<char>, at: Option<int>, a: Atomicity) -> Option<int>
    decreases spec_measure(s, at), 3nat,
{
    if !spec_valid(s, at) {
        None
    } else {
        let p1 = spec_lit(s, at, "{"@);
        let p2 = spec_SKIP(s, p1, a);
        let p3 = spec_datas_list(s, spec_guard(s, at, p2), a);
        let p4 = spec_SKIP(s, p3, a);
        spec_lit(s, p4, "}"@)
    }
}

/// A macro call: `@path(arguments)`.
///
/// `macro_call = "@" ~ symbol_path ~ "(" ~ kvs_list ~ ")"`
#[verifier::opaque]
pub open spec fn spec_macro_call(s: Seq<char>, at: Option<int>, a: Atomicity) -> Option<int>
    decreases spec_measure(s, at), 3nat,
{
    if !spec_valid(s, at) {
        None
    } else {
        let p1 = spec_lit(s, at, "@"@);
        let p2 = spec_SKIP(s, p1, a);
        let p3 = spec_symbol_path(s, p2, a);
        let p4 = spec_SKIP(s, p3, a);
        let p5 = spec_lit(s, p4, "("@);
        let p6 = spec_SKIP(s, p5, a);
        let p7 = spec_kvs_list(s, spec_guard(s, at, p6), a);
        let p8 = spec_SKIP(s, p7, a);
        spec_lit(s, p8, ")"@)
    }
}

/// One datum: a macro call, a character class, a list, a path or an integer.
///
/// `data = macro_call | regex_range | list | symbol_path | integer`
#[verifier::opaque]
pub open spec fn spec_data(s: Seq<char>, at: Option<int>, a: Atomicity) -> Option<int>
    decreases spec_measure(s, at), 4nat,
{
    if !spec_valid(s, at) {
        None
    } else {
        spec_first(spec_macro_call(s, at, a), spec_first(spec_regex_range(s, at), spec_first(spec_list(s, at, a), spec_first(spec_symbol_path(s, at, a), spec_integer(s, at)))))
    }
}

/// An expression between parentheses.
///
/// `__aux_expr_priority = "(" ~ ("|")? ~ expr ~ ")"`
#[verifier::opaque]
pub open spec fn spec___aux_expr_priority(s: Seq<char>, at: Option<int>, a: Atomicity) -> Option<int>
    decreases spec_measure(s, at), 4nat,
{
    if !spec_valid(s, at) {
        None
    } else {
        let p1 = spec_lit(s, at, "("@);
        let p2 = spec_SKIP(s, p1, a);
        let p3 = spec_opt(p2, spec_lit(s, p2, "|"@));
        let p4 = spec_SKIP(s, p3, a);
        let p5 = spec_expr(s, spec_guard(s, at, p4), a);
        let p6 = spec_SKIP(s, p5, a);
        spec_lit(s, p6, ")"@)
    }
}

/// A marked expression: `name <- expression`.
///
/// `__aux_expr_mark = symbol ~ (mark_type)? ~ "<-" ~ expr`
#[verifier::opaque]
pub open spec fn spec___aux_expr_mark(s: Seq<char>, at: Option<int>, a: Atomicity) -> Option<int>
    decreases spec_measure(s, at), 4nat,
{
    if !spec_valid(s, at) {
        None
    } else {
        let p1 = spec_symbol(s, at);
        let p2 = spec_SKIP(s, p1, a);
        let p3 = spec_opt(p2, spec_mark_type(s, p2, a));
        let p4 = spec_SKIP(s, p3, a);
        let p5 = spec_lit(s, p4, "<-"@);
        let p6 = spec_SKIP(s, p5, a);
        spec_expr(s, spec_guard(s, at, p6), a)
    }
}

/// An expression after a prefix sign.
///
/// `__aux_expr_prefix = prefix ~ expr`
#[verifier::opaque]
pub open spec fn spec___aux_expr_prefix(s: Seq<char>, at: Option<int>, a: Atomicity) -> Option<int>
    decreases spec_measure(s, at), 4nat,
{
    if !spec_valid(s, at) {
        None
    } else {
        let p1 = spec_prefix(s, at);
        let p2 = spec_SKIP(s, p1, a);
        spec_expr(s, spec_guard(s, at, p2), a)
    }
}

/// What an expression begins with.
///
/// `__rec_expr_left = __aux_expr_priority | __aux_expr_mark | __aux_expr_prefix | data`
#[verifier::opaque]
pub open spec fn spec___rec_expr_left(s: Seq<char>, at: Option<int>, a: Atomicity) -> Option<int>
    decreases spec_measure(s, at), 5nat,
{
    if !spec_valid(s, at) {
        None
    } else {
        spec_first(spec___aux_expr_priority(s, at, a), spec_first(spec___aux_expr_mark(s, at, a), spec_first(spec___aux_expr_prefix(s, at, a), spec_data(s, at, a))))
    }
}

/// The name of a branch, with its type or not.
///
/// `branch_mark = mark_branch ~ (mark_type)?`
#[verifier::opaque]
pub open spec fn spec_branch_mark(s: Seq<char>, at: Option<int>, a: Atomicity) -> Option<int>
{
    let p1 = spec_mark_branch(s, at);
    let p2 = spec_SKIP(s, p1, a);
    spec_opt(p2, spec_mark_type(s, p2, a))
}

/// What an expression goes on with: a sequence, a choice, a repetition between bounds or a suffix sign.
///
/// `__rec_expr_rest = ("~" ~ expr) | ((branch_mark)? ~ "|" ~ expr ~ (branch_mark)?) | slice | suffix`
#[verifier::opaque]
pub open spec fn spec___rec_expr_rest(s: Seq<char>, at: Option<int>, a: Atomicity) -> Option<int>
    decreases spec_measure(s, at), 6nat,
{
    if !spec_valid(s, at) {
        None
    } else {
        let p1 = spec_lit(s, at, "~"@);
        let p2 = spec_SKIP(s, p1, a);
        let p3 = spec_expr(s, spec_guard(s, at, p2), a);
        let p4 = spec_opt(at, spec_branch_mark(s, at, a));
        let p5 = spec_SKIP(s, p4, a);
        let p6 = spec_lit(s, p5, "|"@);
        let p7 = spec_SKIP(s, p6, a);
        let p8 = spec_expr(s, spec_guard(s, at, p7), a);
        let p9 = spec_SKIP(s, p8, a);
        let p10 = spec_opt(p9, spec_branch_mark(s, p9, a));
        spec_first(p3, spec_first(p10, spec_first(spec_slice(s, at, a), spec_suffix(s, at))))
    }
}

/// What is skipped, then one more continuation.
///
/// `expr_more = __rec_expr_rest`
#[verifier::opaque]
pub open spec fn spec_expr_more(s: Seq<char>, at: Option<int>, a: Atomicity) -> Option<int>
    decreases spec_measure(s, at), 7nat,
{
    if !spec_valid(s, at) {
        None
    } else {
        let p1 = spec_SKIP(s, at, a);
        spec___rec_expr_rest(s, spec_hold(s, at, p1), a)
    }
}

/// The further continuations of an expression.
///
/// `(expr_more)*`: the repetition ends where an item fails or matches
/// nothing.
#[verifier::opaque]
pub open spec fn spec_expr_tail(s: Seq<char>, at: Option<int>, a: Atomicity) -> Option<int>
    decreases spec_measure(s, at), 8nat,
{
    if !spec_valid(s, at) {
        None
    } else {
        let next = spec_guard(s, at, spec_expr_more(s, at, a));
        if next is Some {
            spec_expr_tail(s, next, a)
        } else {
            at
        }
    }
}

/// An expression.
///
/// `expr = __rec_expr_left ~ (__rec_expr_rest (expr_more)*)?`
#[verifier::opaque]
pub open spec fn spec_expr(s: Seq<char>, at: Option<int>, a: Atomicity) -> Option<int>
    decreases spec_measure(s, at), 9nat,
{
    if !spec_valid(s, at) {
        None
    } else {
        let p1 = spec___rec_expr_left(s, at, a);
        let p2 = spec_SKIP(s, p1, a);
        let p3 = spec___rec_expr_rest(s, spec_hold(s, at, p2), a);
        let p4 = spec_expr_tail(s, spec_hold(s, at, p3), a);
        spec_opt(p2, p4)
    }
}

/// An argument of a macro call, with a name or without.
///
/// `macro_kv = (symbol ~ "=" ~ expr) | expr`
#[verifier::opaque]
pub open spec fn spec_macro_kv(s: Seq<char>, at: Option<int>, a: Atomicity) -> Option<int>
    decreases spec_measure(s, at), 10nat,
{
    if !spec_valid(s, at) {
        None
    } else {
        let p1 = spec_symbol(s, at);
        let p2 = spec_SKIP(s, p1, a);
        let p3 = spec_lit(s, p2, "="@);
        let p4 = spec_SKIP(s, p3, a);
        let p5 = spec_expr(s, spec_guard(s, at, p4), a);
        spec_first(p5, spec_expr(s, at, a))
    }
}

/// A comma and one more datum.
///
/// `datas_next = "," ~ data`
#[verifier::opaque]
pub open spec fn spec_datas_next(s: Seq<char>, at: Option<int>, a: Atomicity) -> Option<int>
    decreases spec_measure(s, at), 11nat,
{
    if !spec_valid(s, at) {
        None
    } else {
        let p1 = spec_lit(s, at, ","@);
        let p2 = spec_SKIP(s, p1, a);
        spec_data(s, spec_hold(s, at, p2), a)
    }
}

/// What is skipped, then a comma and one more datum.
///
/// `datas_more = datas_next`
#[verifier::opaque]
pub open spec fn spec_datas_more(s: Seq<char>, at: Option<int>, a: Atomicity) -> Option<int>
    decreases spec_measure(s, at), 12nat,
{
    if !spec_valid(s, at) {
        None
    } else {
        let p1 = spec_SKIP(s, at, a);
        spec_datas_next(s, spec_hold(s, at, p1), a)
    }
}

/// The further datums of a list, each after a comma.
///
/// `(datas_more)*`: the repetition ends where an item fails or matches
/// nothing.
#[verifier::opaque]
pub open spec fn spec_datas_tail(s: Seq<char>, at: Option<int>, a: Atomicity) -> Option<int>
    decreases spec_measure(s, at), 13nat,
{
    if !spec_valid(s, at) {
        None
    } else {
        let next = spec_guard(s, at, spec_datas_more(s, at, a));
        if next is Some {
            spec_datas_tail(s, next, a)
        } else {
            at
        }
    }
}

/// The datums of a list after the first.
///
/// `datas_rest = (datas_next (datas_more)*)?`
#[verifier::opaque]
pub open spec fn spec_datas_rest(s: Seq<char>, at: Option<int>, a: Atomicity) -> Option<int>
    decreases spec_measure(s, at), 14nat,
{
    if !spec_valid(s, at) {
        None
    } else {
        let p1 = spec_datas_next(s, at, a);
        let p2 = spec_datas_tail(s, spec_hold(s, at, p1), a);
        spec_opt(at, p2)
    }
}

/// The datums of a list between commas, which may end in a comma.
///
/// `datas_items = data ~ datas_rest ~ (",")?`
#[verifier::opaque]
pub open spec fn spec_datas_items(s: Seq<char>, at: Option<int>, a: Atomicity) -> Option<int>
    decreases spec_measure(s, at), 15nat,
{
    if !spec_valid(s, at) {
        None
    } else {
        let p1 = spec_data(s, at, a);
        let p2 = spec_SKIP(s, p1, a);
        let p3 = spec_datas_rest(s, spec_hold(s, at, p2), a);
        let p4 = spec_SKIP(s, p3, a);
        spec_opt(p4, spec_lit(s, p4, ","@))
    }
}

/// A list of datums between commas, which may be empty and may end in a comma.
///
/// `datas_list = (datas_items)?`
#[verifier::opaque]
pub open spec fn spec_datas_list(s: Seq<char>, at: Option<int>, a: Atomicity) -> Option<int>
    decreases spec_measure(s, at), 16nat,
{
    if !spec_valid(s, at) {
        None
    } else {
        spec_opt(at, spec_datas_items(s, at, a))
    }
}

/// A comma and one more argument.
///
/// `kvs_next = "," ~ macro_kv`
#[verifier::opaque]
pub open spec fn spec_kvs_next(s: Seq<char>, at: Option<int>, a: Atomicity) -> Option<int>
    decreases spec_measure(s, at), 11nat,
{
    if !spec_valid(s, at) {
        None
    } else {
        let p1 = spec_lit(s, at, ","@);
        let p2 = spec_SKIP(s, p1, a);
        spec_macro_kv(s, spec_hold(s, at, p2), a)
    }
}

/// What is skipped, then a comma and one more argument.
///
/// `kvs_more = kvs_next`
#[verifier::opaque]
pub open spec fn spec_kvs_more(s: Seq<char>, at: Option<int>, a: Atomicity) -> Option<int>
    decreases spec_measure(s, at), 12nat,
{
    if !spec_valid(s, at) {
        None
    } else {
        let p1 = spec_SKIP(s, at, a);
        spec_kvs_next(s, spec_hold(s, at, p1), a)
    }
}

/// The further arguments of a list, each after a comma.
///
/// `(kvs_more)*`: the repetition ends where an item fails or matches
/// nothing.
#[verifier::opaque]
pub open spec fn spec_kvs_tail(s: Seq<char>, at: Option<int>, a: Atomicity) -> Option<int>
    decreases spec_measure(s, at), 13nat,
{
    if !spec_valid(s, at) {
        None
    } else {
        let next = spec_guard(s, at, spec_kvs_more(s, at, a));
        if next is Some {
            spec_kvs_tail(s, next, a)
        } else {
            at
        }
    }
}

/// The arguments of a list after the first.
///
/// `kvs_rest = (kvs_next (kvs_more)*)?`
#[verifier::opaque]
pub open spec fn spec_kvs_rest(s: Seq<char>, at: Option<int>, a: Atomicity) -> Option<int>
    decreases spec_measure(s, at), 14nat,
{
    if !spec_valid(s, at) {
        None
    } else {
        let p1 = spec_kvs_next(s, at, a);
        let p2 = spec_kvs_tail(s, spec_hold(s, at, p1), a);
        spec_opt(at, p2)
    }
}

/// The arguments of a list between commas, which may end in a comma.
///
/// `kvs_items = macro_kv ~ kvs_rest ~ (",")?`
#[verifier::opaque]
pub open spec fn spec_kvs_items(s: Seq<char>, at: Option<int>, a: Atomicity) -> Option<int>
    decreases spec_measure(s, at), 15nat,
{
    if !spec_valid(s, at) {
        None
    } else {
        let p1 = spec_macro_kv(s, at, a);
        let p2 = spec_SKIP(s, p1, a);
        let p3 = spec_kvs_rest(s, spec_hold(s, at, p2), a);
        let p4 = spec_SKIP(s, p3, a);
        spec_opt(p4, spec_lit(s, p4, ","@))
    }
}

/// A list of arguments between commas, which may be empty and may end in a comma.
///
/// `kvs_list = (kvs_items)?`
#[verifier::opaque]
pub open spec fn spec_kvs_list(s: Seq<char>, at: Option<int>, a: Atomicity) -> Option<int>
    decreases spec_measure(s, at), 16nat,
{
    if !spec_valid(s, at) {
        None
    } else {
        spec_opt(at, spec_kvs_items(s, at, a))
    }
}

/// A parameter of a macro: a name, with a type and a default or without.
///
/// `macro_arg = symbol ~ (":" ~ symbol)? ~ ("=" ~ expr)?`
#[verifier::opaque]
pub open spec fn spec_macro_arg(s: Seq<char>, at: Option<int>, a: Atomicity) -> Option<int>
{
    let p1 = spec_symbol(s, at);
    let p2 = spec_SKIP(s, p1, a);
    let p3 = spec_lit(s, p2, ":"@);
    let p4 = spec_SKIP(s, p3, a);
    let p5 = spec_symbol(s, p4);
    let p6 = spec_opt(p2, p5);
    let p7 = spec_SKIP(s, p6, a);
    let p8 = spec_lit(s, p7, "="@);
    let p9 = spec_SKIP(s, p8, a);
    let p10 = spec_expr(s, p9, a);
    spec_opt(p7, p10)
}

/// A comma and one more parameter.
///
/// `args_next = "," ~ macro_arg`
#[verifier::opaque]
pub open spec fn spec_args_next(s: Seq<char>, at: Option<int>, a: Atomicity) -> Option<int>
{
    let p1 = spec_lit(s, at, ","@);
    let p2 = spec_SKIP(s, p1, a);
    spec_macro_arg(s, p2, a)
}

/// What is skipped, then a comma and one more parameter.
///
/// `args_more = args_next`
#[verifier::opaque]
pub open spec fn spec_args_more(s: Seq<char>, at: Option<int>, a: Atomicity) -> Option<int>
{
    let p1 = spec_SKIP(s, at, a);
    spec_args_next(s, p1, a)
}

/// The further parameters of a list, each after a comma.
///
/// `(args_more)*`: the repetition ends where an item fails or matches
/// nothing.
#[verifier::opaque]
pub open spec fn spec_args_tail(s: Seq<char>, at: Option<int>, a: Atomicity) -> Option<int>
    decreases spec_measure(s, at), 0nat,
{
    if !spec_valid(s, at) {
        None
    } else {
        let next = spec_guard(s, at, spec_args_more(s, at, a));
        if next is Some {
            spec_args_tail(s, next, a)
        } else {
            at
        }
    }
}

/// The parameters of a list after the first.
///
/// `args_rest = (args_next (args_more)*)?`
#[verifier::opaque]
pub open spec fn spec_args_rest(s: Seq<char>, at: Option<int>, a: Atomicity) -> Option<int>
{
    let p1 = spec_args_next(s, at, a);
    let p2 = spec_args_tail(s, p1, a);
    spec_opt(at, p2)
}

/// The parameters of a list between commas, which may end in a comma.
///
/// `args_items = macro_arg ~ args_rest ~ (",")?`
#[verifier::opaque]
pub open spec fn spec_args_items(s: Seq<char>, at: Option<int>, a: Atomicity) -> Option<int>
{
    let p1 = spec_macro_arg(s, at, a);
    let p2 = spec_SKIP(s, p1, a);
    let p3 = spec_args_rest(s, p2, a);
    let p4 = spec_SKIP(s, p3, a);
    spec_opt(p4, spec_lit(s, p4, ","@))
}

/// A list of parameters between commas, which may be empty and may end in a comma.
///
/// `args_list = (args_items)?`
#[verifier::opaque]
pub open spec fn spec_args_list(s: Seq<char>, at: Option<int>, a: Atomicity) -> Option<int>
{
    spec_opt(at, spec_args_items(s, at, a))
}

/// The body of a macro.
///
/// `block = "{" ~ ("return")? ~ expr ~ "}"`
#[verifier::opaque]
pub open spec fn spec_block(s: Seq<char>, at: Option<int>, a: Atomicity) -> Option<int>
{
    let p1 = spec_lit(s, at, "{"@);
    let p2 = spec_SKIP(s, p1, a);
    let p3 = spec_opt(p2, spec_lit(s, p2, "return"@));
    let p4 = spec_SKIP(s, p3, a);
    let p5 = spec_expr(s, p4, a);
    let p6 = spec_SKIP(s, p5, a);
    spec_lit(s, p6, "}"@)
}

/// The definition of a macro.
///
/// `macro_define = "macro!" ~ symbol_path ~ "(" ~ args_list ~ ")" ~ block`
#[verifier::opaque]
pub open spec fn spec_macro_define(s: Seq<char>, at: Option<int>, a: Atomicity) -> Option<int>
{
    let p1 = spec_lit(s, at, "macro!"@);
    let p2 = spec_SKIP(s, p1, a);
    let p3 = spec_symbol_path(s, p2, a);
    let p4 = spec_SKIP(s, p3, a);
    let p5 = spec_lit(s, p4, "("@);
    let p6 = spec_SKIP(s, p5, a);
    let p7 = spec_args_list(s, p6, a);
    let p8 = spec_SKIP(s, p7, a);
    let p9 = spec_lit(s, p8, ")"@);
    let p10 = spec_SKIP(s, p9, a);
    spec_block(s, p10, a)
}

/// An assignment: a name, the equals sign and an expression.
///
/// `assign_statement = symbol ~ assign_kind ~ ("|")? ~ expr`
#[verifier::opaque]
pub open spec fn spec_assign_statement(s: Seq<char>, at: Option<int>, a: Atomicity) -> Option<int>
{
    let p1 = spec_symbol(s, at);
    let p2 = spec_SKIP(s, p1, a);
    let p3 = spec_assign_kind(s, p2);
    let p4 = spec_SKIP(s, p3, a);
    let p5 = spec_opt(p4, spec_lit(s, p4, "|"@));
    let p6 = spec_SKIP(s, p5, a);
    spec_expr(s, p6, a)
}

/// One statement.
///
/// `statement = macro_call | macro_define | comment_doc | (grammar_statement ~ (eos)?) | (fragment_statement ~ (eos)?) | (ignore_statement ~ (eos)?) | (assign_statement ~ (eos)?) | empty_statement`
#[verifier::opaque]
pub open spec fn spec_statement(s: Seq<char>, at: Option<int>, a: Atomicity) -> Option<int>
{
    let p1 = spec_grammar_statement(s, at, a);
    let p2 = spec_SKIP(s, p1, a);
    let p3 = spec_opt(p2, spec_eos(s, p2));
    let p4 = spec_fragment_statement(s, at, a);
    let p5 = spec_SKIP(s, p4, a);
    let p6 = spec_opt(p5, spec_eos(s, p5));
    let p7 = spec_ignore_statement(s, at, a);
    let p8 = spec_SKIP(s, p7, a);
    let p9 = spec_opt(p8, spec_eos(s, p8));
    let p10 = spec_assign_statement(s, at, a);
    let p11 = spec_SKIP(s, p10, a);
    let p12 = spec_opt(p11, spec_eos(s, p11));
    spec_first(spec_macro_call(s, at, a), spec_first(spec_macro_define(s, at, a), spec_first(spec_comment_doc(s, at), spec_first(p3, spec_first(p6, spec_first(p9, spec_first(p12, spec_empty_statement(s, at))))))))
}

/// What is skipped, then one more statement.
///
/// `statement_more = statement`
#[verifier::opaque]
pub open spec fn spec_statement_more(s: Seq<char>, at: Option<int>, a: Atomicity) -> Option<int>
{
    let p1 = spec_SKIP(s, at, a);
    spec_statement(s, p1, a)
}

/// The further statements of a program.
///
/// `(statement_more)*`: the repetition ends where an item fails or matches
/// nothing.
#[verifier::opaque]
pub open spec fn spec_statement_tail(s: Seq<char>, at: Option<int>, a: Atomicity) -> Option<int>
    decreases spec_measure(s, at), 0nat,
{
    if !spec_valid(s, at) {
        None
    } else {
        let next = spec_guard(s, at, spec_statement_more(s, at, a));
        if next is Some {
            spec_statement_tail(s, next, a)
        } else {
            at
        }
    }
}

/// A whole program: statements from the start of the input to its end.
///
/// `program = SOI ~ (statement (statement_more)*)? ~ EOI`
#[verifier::opaque]
pub open spec fn spec_program(s: Seq<char>, at: Option<int>, a: Atomicity) -> Option<int>
{
    let p1 = spec_soi(s, at);
    let p2 = spec_SKIP(s, p1, a);
    let p3 = spec_statement(s, p2, a);
    let p4 = spec_statement_tail(s, p3, a);
    let p5 = spec_opt(p2, p4);
    let p6 = spec_SKIP(s, p5, a);
    spec_eoi(s, p6)
}

} // verus!
