//! The rules of the grammar on a state: each function tries one rule
//! where the state stands.

use vstd::prelude::*;
use crate::cst::scan::{
    ANY_at, EOI_at, SOI_at, ASCII_DIGIT_at, ASCII_NONZERO_DIGIT_at, XID_CONTINUE_at,
    XID_START_at, WHITESPACE_at, NEWLINE_at, comment_doc_at, comment_s_l_at, comment_m_l_at,
    COMMENT_at, IGNORE_at, SKIP_at, eos_at, empty_statement_at, grammar_at, fragment_at,
    prefix_at, suffix_at, special_at, symbol_at, integer_at, regex_range_at, string_at,
    assign_kind_at, mark_branch_at, mark_type_at, symbol_path_at, symbol_alias_at, slice_at,
    fragment_statement_at, grammar_statement_at, import_statement_at, ignore_statement_at,
    list_at, macro_call_at, data_at, __aux_expr_priority_at, __aux_expr_mark_at,
    __aux_expr_prefix_at, __rec_expr_left_at, __rec_expr_rest_at, expr_at, macro_kv_at,
    macro_arg_at, block_at, macro_define_at, assign_statement_at, statement_at, program_at,
};
use crate::cst::state::{lit, rule_outcome, spec_lit, RuleResult, RuleState};
use crate::cst::syntax::{
    spec_ANY, spec_EOI, spec_SOI, spec_ASCII_DIGIT, spec_ASCII_NONZERO_DIGIT, spec_XID_CONTINUE,
    spec_XID_START, spec_WHITESPACE, spec_NEWLINE, spec_comment_doc, spec_comment_s_l,
    spec_comment_m_l, spec_COMMENT, spec_IGNORE, spec_SKIP, spec_eos, spec_empty_statement,
    spec_grammar, spec_fragment, spec_prefix, spec_suffix, spec_special, spec_symbol,
    spec_integer, spec_regex_range, spec_string, spec_assign_kind, spec_mark_branch,
    spec_mark_type, spec_symbol_path, spec_symbol_alias, spec_slice, spec_fragment_statement,
    spec_grammar_statement, spec_import_statement, spec_ignore_statement, spec_list,
    spec_macro_call, spec_data, spec___aux_expr_priority, spec___aux_expr_mark,
    spec___aux_expr_prefix, spec___rec_expr_left, spec___rec_expr_rest, spec_expr,
    spec_macro_kv, spec_macro_arg, spec_block, spec_macro_define, spec_assign_statement,
    spec_statement, spec_program,
};

verus! {

/// Any one character.
///
/// `ANY = ANY`
#[allow(non_snake_case)]
pub fn ANY(s: RuleState) -> (r: RuleResult)
    ensures
        rule_outcome(s, r, spec_ANY(s.input@, Some(s.position as int))),
{
    let end = ANY_at(&s.input, Some(s.position));
    s.finish(end)
}

/// The end of the input.
///
/// `EOI = EOI`
#[allow(non_snake_case)]
pub fn EOI(s: RuleState) -> (r: RuleResult)
    ensures
        rule_outcome(s, r, spec_EOI(s.input@, Some(s.position as int))),
{
    let end = EOI_at(&s.input, Some(s.position));
    s.finish(end)
}

/// The start of the input.
///
/// `SOI = SOI`
#[allow(non_snake_case)]
pub fn SOI(s: RuleState) -> (r: RuleResult)
    ensures
        rule_outcome(s, r, spec_SOI(s.input@, Some(s.position as int))),
{
    let end = SOI_at(&s.input, Some(s.position));
    s.finish(end)
}

/// One decimal digit.
///
/// `ASCII_DIGIT = '0'..'9'`
#[allow(non_snake_case)]
pub fn ASCII_DIGIT(s: RuleState) -> (r: RuleResult)
    ensures
        rule_outcome(s, r, spec_ASCII_DIGIT(s.input@, Some(s.position as int))),
{
    let end = ASCII_DIGIT_at(&s.input, Some(s.position));
    s.finish(end)
}

/// One decimal digit but zero.
///
/// `ASCII_NONZERO_DIGIT = '1'..'9'`
#[allow(non_snake_case)]
pub fn ASCII_NONZERO_DIGIT(s: RuleState) -> (r: RuleResult)
    ensures
        rule_outcome(s, r, spec_ASCII_NONZERO_DIGIT(s.input@, Some(s.position as int))),
{
    let end = ASCII_NONZERO_DIGIT_at(&s.input, Some(s.position));
    s.finish(end)
}

/// One character that can continue an identifier.
///
/// `XID_CONTINUE = XID_CONTINUE`
#[allow(non_snake_case)]
pub fn XID_CONTINUE(s: RuleState) -> (r: RuleResult)
    ensures
        rule_outcome(s, r, spec_XID_CONTINUE(s.input@, Some(s.position as int))),
{
    let end = XID_CONTINUE_at(&s.input, Some(s.position));
    s.finish(end)
}

/// One character that can start an identifier.
///
/// `XID_START = XID_START`
#[allow(non_snake_case)]
pub fn XID_START(s: RuleState) -> (r: RuleResult)
    ensures
        rule_outcome(s, r, spec_XID_START(s.input@, Some(s.position as int))),
{
    let end = XID_START_at(&s.input, Some(s.position));
    s.finish(end)
}

/// A run of spaces and tabs.
///
/// `WHITESPACE = blank (blank)*`
#[allow(non_snake_case)]
pub fn WHITESPACE(s: RuleState) -> (r: RuleResult)
    ensures
        rule_outcome(s, r, spec_WHITESPACE(s.input@, Some(s.position as int))),
{
    let end = WHITESPACE_at(&s.input, Some(s.position));
    s.finish(end)
}

/// A run of ends of line.
///
/// `NEWLINE = line_end (line_end)*`
#[allow(non_snake_case)]
pub fn NEWLINE(s: RuleState) -> (r: RuleResult)
    ensures
        rule_outcome(s, r, spec_NEWLINE(s.input@, Some(s.position as int))),
{
    let end = NEWLINE_at(&s.input, Some(s.position));
    s.finish(end)
}

/// A documentation comment, to the end of the line.
///
/// `comment_doc = "///" (line_char)*`
pub fn comment_doc(s: RuleState) -> (r: RuleResult)
    ensures
        rule_outcome(s, r, spec_comment_doc(s.input@, Some(s.position as int))),
{
    let end = comment_doc_at(&s.input, Some(s.position));
    s.finish(end)
}

/// A comment to the end of the line.
///
/// `comment_s_l = "//" (line_char)*`
pub fn comment_s_l(s: RuleState) -> (r: RuleResult)
    ensures
        rule_outcome(s, r, spec_comment_s_l(s.input@, Some(s.position as int))),
{
    let end = comment_s_l_at(&s.input, Some(s.position));
    s.finish(end)
}

/// A comment between `/*` and `*/`, in which such comments nest.
///
/// `comment_m_l = "/*" (comment_part)* "*/"`
pub fn comment_m_l(s: RuleState) -> (r: RuleResult)
    ensures
        rule_outcome(s, r, spec_comment_m_l(s.input@, Some(s.position as int))),
{
    let end = comment_m_l_at(&s.input, Some(s.position));
    s.finish(end)
}

/// A comment of either form.
///
/// `COMMENT = comment_s_l | comment_m_l`
#[allow(non_snake_case)]
pub fn COMMENT(s: RuleState) -> (r: RuleResult)
    ensures
        rule_outcome(s, r, spec_COMMENT(s.input@, Some(s.position as int))),
{
    let end = COMMENT_at(&s.input, Some(s.position));
    s.finish(end)
}

/// One piece of what is skipped: a comment, white space or ends of line.
///
/// `IGNORE = COMMENT | WHITESPACE | NEWLINE`
#[allow(non_snake_case)]
pub fn IGNORE(s: RuleState) -> (r: RuleResult)
    ensures
        rule_outcome(s, r, spec_IGNORE(s.input@, Some(s.position as int))),
{
    let end = IGNORE_at(&s.input, Some(s.position));
    s.finish(end)
}

/// What stands between the parts of a rule: everything that is skipped where the state is not atomic, and nothing where it is.
#[allow(non_snake_case)]
pub fn SKIP(s: RuleState) -> (r: RuleResult)
    ensures
        rule_outcome(s, r, spec_SKIP(s.input@, Some(s.position as int), s.atomicity)),
{
    let end = SKIP_at(&s.input, Some(s.position), s.atomicity);
    s.finish(end)
}

/// The end of a statement.
///
/// `eos = ";"`
pub fn eos(s: RuleState) -> (r: RuleResult)
    ensures
        rule_outcome(s, r, spec_eos(s.input@, Some(s.position as int))),
{
    let end = eos_at(&s.input, Some(s.position));
    s.finish(end)
}

/// A statement that holds nothing.
///
/// `empty_statement = eos`
pub fn empty_statement(s: RuleState) -> (r: RuleResult)
    ensures
        rule_outcome(s, r, spec_empty_statement(s.input@, Some(s.position as int))),
{
    let end = empty_statement_at(&s.input, Some(s.position));
    s.finish(end)
}

/// The keyword of a grammar statement.
///
/// `grammar = "grammar!"`
pub fn grammar(s: RuleState) -> (r: RuleResult)
    ensures
        rule_outcome(s, r, spec_grammar(s.input@, Some(s.position as int))),
{
    let end = grammar_at(&s.input, Some(s.position));
    s.finish(end)
}

/// The keyword of a fragment statement.
///
/// `fragment = "fragment!"`
pub fn fragment(s: RuleState) -> (r: RuleResult)
    ensures
        rule_outcome(s, r, spec_fragment(s.input@, Some(s.position as int))),
{
    let end = fragment_at(&s.input, Some(s.position));
    s.finish(end)
}

/// One prefix sign.
///
/// `prefix = ('!' | '&' | '^' | '*' | '%')`
pub fn prefix(s: RuleState) -> (r: RuleResult)
    ensures
        rule_outcome(s, r, spec_prefix(s.input@, Some(s.position as int))),
{
    let end = prefix_at(&s.input, Some(s.position));
    s.finish(end)
}

/// One suffix sign.
///
/// `suffix = ('?' | '+' | '*')`
pub fn suffix(s: RuleState) -> (r: RuleResult)
    ensures
        rule_outcome(s, r, spec_suffix(s.input@, Some(s.position as int))),
{
    let end = suffix_at(&s.input, Some(s.position));
    s.finish(end)
}

/// One of the special values.
///
/// `special = "true" | "false" | "null"`
pub fn special(s: RuleState) -> (r: RuleResult)
    ensures
        rule_outcome(s, r, spec_special(s.input@, Some(s.position as int))),
{
    let end = special_at(&s.input, Some(s.position));
    s.finish(end)
}

/// An identifier.
///
/// `symbol = ("_" | XID_START) (XID_CONTINUE)*`
pub fn symbol(s: RuleState) -> (r: RuleResult)
    ensures
        rule_outcome(s, r, spec_symbol(s.input@, Some(s.position as int))),
{
    let end = symbol_at(&s.input, Some(s.position));
    s.finish(end)
}

/// An integer without sign.
///
/// `integer = "0" | (ASCII_NONZERO_DIGIT (digit_more)*)`
pub fn integer(s: RuleState) -> (r: RuleResult)
    ensures
        rule_outcome(s, r, spec_integer(s.input@, Some(s.position as int))),
{
    let end = integer_at(&s.input, Some(s.position));
    s.finish(end)
}

/// A character class between brackets.
///
/// `regex_range = "[" (range_char)* "]"`
pub fn regex_range(s: RuleState) -> (r: RuleResult)
    ensures
        rule_outcome(s, r, spec_regex_range(s.input@, Some(s.position as int))),
{
    let end = regex_range_at(&s.input, Some(s.position));
    s.finish(end)
}

/// A text in single or in double quotes.
///
/// `string = ("'" (single_char)* "'") | ("\"" (double_char)* "\"")`
pub fn string(s: RuleState) -> (r: RuleResult)
    ensures
        rule_outcome(s, r, spec_string(s.input@, Some(s.position as int))),
{
    let end = string_at(&s.input, Some(s.position));
    s.finish(end)
}

/// The equals sign of an assignment, after its signs.
///
/// `assign_kind = (kind_sign)* "="`
pub fn assign_kind(s: RuleState) -> (r: RuleResult)
    ensures
        rule_outcome(s, r, spec_assign_kind(s.input@, Some(s.position as int))),
{
    let end = assign_kind_at(&s.input, Some(s.position));
    s.finish(end)
}

/// The name of a branch: `#name`, after `^` or `!` or neither.
///
/// `mark_branch = ("^" | "!")? "#" symbol`
pub fn mark_branch(s: RuleState) -> (r: RuleResult)
    ensures
        rule_outcome(s, r, spec_mark_branch(s.input@, Some(s.position as int))),
{
    let end = mark_branch_at(&s.input, Some(s.position));
    s.finish(end)
}

/// A type annotation: `: name`.
///
/// `mark_type = ":" ~ symbol`
pub fn mark_type(s: RuleState) -> (r: RuleResult)
    ensures
        rule_outcome(s, r, spec_mark_type(s.input@, Some(s.position as int), s.atomicity)),
{
    let end = mark_type_at(&s.input, Some(s.position), s.atomicity);
    s.finish(end)
}

/// A path of identifiers between `::` or `.`.
///
/// `symbol_path = symbol ~ (path_next (path_more)*)?`
pub fn symbol_path(s: RuleState) -> (r: RuleResult)
    ensures
        rule_outcome(s, r, spec_symbol_path(s.input@, Some(s.position as int), s.atomicity)),
{
    let end = symbol_path_at(&s.input, Some(s.position), s.atomicity);
    s.finish(end)
}

/// An identifier, `as` another or not.
///
/// `symbol_alias = symbol ~ ("as" ~ symbol)?`
pub fn symbol_alias(s: RuleState) -> (r: RuleResult)
    ensures
        rule_outcome(s, r, spec_symbol_alias(s.input@, Some(s.position as int), s.atomicity)),
{
    let end = symbol_alias_at(&s.input, Some(s.position), s.atomicity);
    s.finish(end)
}

/// A repetition between bounds: `{min, max}`.
///
/// `slice = "{" ~ integer ~ "," ~ integer ~ "}"`
pub fn slice(s: RuleState) -> (r: RuleResult)
    ensures
        rule_outcome(s, r, spec_slice(s.input@, Some(s.position as int), s.atomicity)),
{
    let end = slice_at(&s.input, Some(s.position), s.atomicity);
    s.finish(end)
}

/// A fragment statement.
///
/// `fragment_statement = fragment ~ symbol`
pub fn fragment_statement(s: RuleState) -> (r: RuleResult)
    ensures
        rule_outcome(s, r, spec_fragment_statement(s.input@, Some(s.position as int), s.atomicity)),
{
    let end = fragment_statement_at(&s.input, Some(s.position), s.atomicity);
    s.finish(end)
}

/// A grammar statement: the keyword, a name and the file extensions.
///
/// `grammar_statement = grammar ~ symbol ~ (string | ("{" ~ strings_list ~ "}"))`
pub fn grammar_statement(s: RuleState) -> (r: RuleResult)
    ensures
        rule_outcome(s, r, spec_grammar_statement(s.input@, Some(s.position as int), s.atomicity)),
{
    let end = grammar_statement_at(&s.input, Some(s.position), s.atomicity);
    s.finish(end)
}

/// A text that gets no name of its own.
#[allow(non_snake_case)]
pub fn UNNAMED(s: RuleState, input: &str) -> (r: RuleResult)
    ensures
        rule_outcome(s, r, spec_lit(s.input@, Some(s.position as int), input@)),
{
    let end = lit(&s.input, Some(s.position), input);
    s.finish(end)
}

/// An import statement: the keyword and a path.
///
/// `import_statement = "import!" ~ (string | (string ~ "{" ~ aliases_list ~ "}"))`
pub fn import_statement(s: RuleState) -> (r: RuleResult)
    ensures
        rule_outcome(s, r, spec_import_statement(s.input@, Some(s.position as int), s.atomicity)),
{
    let end = import_statement_at(&s.input, Some(s.position), s.atomicity);
    s.finish(end)
}

/// An ignore statement: the keyword and one rule or a list of rules.
///
/// `ignore_statement = "ignore!" ~ (symbol | ("{" ~ symbols_list ~ "}"))`
pub fn ignore_statement(s: RuleState) -> (r: RuleResult)
    ensures
        rule_outcome(s, r, spec_ignore_statement(s.input@, Some(s.position as int), s.atomicity)),
{
    let end = ignore_statement_at(&s.input, Some(s.position), s.atomicity);
    s.finish(end)
}

/// A list of data between braces.
///
/// `list = "{" ~ datas_list ~ "}"`
pub fn list(s: RuleState) -> (r: RuleResult)
    ensures
        rule_outcome(s, r, spec_list(s.input@, Some(s.position as int), s.atomicity)),
{
    let end = list_at(&s.input, Some(s.position), s.atomicity);
    s.finish(end)
}

/// A macro call: `@path(arguments)`.
///
/// `macro_call = "@" ~ symbol_path ~ "(" ~ kvs_list ~ ")"`
pub fn macro_call(s: RuleState) -> (r: RuleResult)
    ensures
        rule_outcome(s, r, spec_macro_call(s.input@, Some(s.position as int), s.atomicity)),
{
    let end = macro_call_at(&s.input, Some(s.position), s.atomicity);
    s.finish(end)
}

/// One datum: a macro call, a character class, a list, a path or an integer.
///
/// `data = macro_call | regex_range | list | symbol_path | integer`
pub fn data(s: RuleState) -> (r: RuleResult)
    ensures
        rule_outcome(s, r, spec_data(s.input@, Some(s.position as int), s.atomicity)),
{
    let end = data_at(&s.input, Some(s.position), s.atomicity);
    s.finish(end)
}

/// An expression between parentheses.
///
/// `__aux_expr_priority = "(" ~ ("|")? ~ expr ~ ")"`
#[allow(non_snake_case)]
pub fn __aux_expr_priority(s: RuleState) -> (r: RuleResult)
    ensures
        rule_outcome(s, r, spec___aux_expr_priority(s.input@, Some(s.position as int), s.atomicity)),
{
    let end = __aux_expr_priority_at(&s.input, Some(s.position), s.atomicity);
    s.finish(end)
}

/// A marked expression: `name <- expression`.
///
/// `__aux_expr_mark = symbol ~ (mark_type)? ~ "<-" ~ expr`
#[allow(non_snake_case)]
pub fn __aux_expr_mark(s: RuleState) -> (r: RuleResult)
    ensures
        rule_outcome(s, r, spec___aux_expr_mark(s.input@, Some(s.position as int), s.atomicity)),
{
    let end = __aux_expr_mark_at(&s.input, Some(s.position), s.atomicity);
    s.finish(end)
}

/// An expression after a prefix sign.
///
/// `__aux_expr_prefix = prefix ~ expr`
#[allow(non_snake_case)]
pub fn __aux_expr_prefix(s: RuleState) -> (r: RuleResult)
    ensures
        rule_outcome(s, r, spec___aux_expr_prefix(s.input@, Some(s.position as int), s.atomicity)),
{
    let end = __aux_expr_prefix_at(&s.input, Some(s.position), s.atomicity);
    s.finish(end)
}

/// What an expression begins with.
///
/// `__rec_expr_left = __aux_expr_priority | __aux_expr_mark | __aux_expr_prefix | data`
#[allow(non_snake_case)]
pub fn __rec_expr_left(s: RuleState) -> (r: RuleResult)
    ensures
        rule_outcome(s, r, spec___rec_expr_left(s.input@, Some(s.position as int), s.atomicity)),
{
    let end = __rec_expr_left_at(&s.input, Some(s.position), s.atomicity);
    s.finish(end)
}

/// What an expression goes on with: a sequence, a choice, a repetition between bounds or a suffix sign.
///
/// `__rec_expr_rest = ("~" ~ expr) | ((branch_mark)? ~ "|" ~ expr ~ (branch_mark)?) | slice | suffix`
#[allow(non_snake_case)]
pub fn __rec_expr_rest(s: RuleState) -> (r: RuleResult)
    ensures
        rule_outcome(s, r, spec___rec_expr_rest(s.input@, Some(s.position as int), s.atomicity)),
{
    let end = __rec_expr_rest_at(&s.input, Some(s.position), s.atomicity);
    s.finish(end)
}

/// An expression.
///
/// `expr = __rec_expr_left ~ (__rec_expr_rest (expr_more)*)?`
pub fn expr(s: RuleState) -> (r: RuleResult)
    ensures
        rule_outcome(s, r, spec_expr(s.input@, Some(s.position as int), s.atomicity)),
{
    let end = expr_at(&s.input, Some(s.position), s.atomicity);
    s.finish(end)
}

/// An argument of a macro call, with a name or without.
///
/// `macro_kv = (symbol ~ "=" ~ expr) | expr`
pub fn macro_kv(s: RuleState) -> (r: RuleResult)
    ensures
        rule_outcome(s, r, spec_macro_kv(s.input@, Some(s.position as int), s.atomicity)),
{
    let end = macro_kv_at(&s.input, Some(s.position), s.atomicity);
    s.finish(end)
}

/// A parameter of a macro: a name, with a type and a default or without.
///
/// `macro_arg = symbol ~ (":" ~ symbol)? ~ ("=" ~ expr)?`
pub fn macro_arg(s: RuleState) -> (r: RuleResult)
    ensures
        rule_outcome(s, r, spec_macro_arg(s.input@, Some(s.position as int), s.atomicity)),
{
    let end = macro_arg_at(&s.input, Some(s.position), s.atomicity);
    s.finish(end)
}

/// The body of a macro.
///
/// `block = "{" ~ ("return")? ~ expr ~ "}"`
pub fn block(s: RuleState) -> (r: RuleResult)
    ensures
        rule_outcome(s, r, spec_block(s.input@, Some(s.position as int), s.atomicity)),
{
    let end = block_at(&s.input, Some(s.position), s.atomicity);
    s.finish(end)
}

/// The definition of a macro.
///
/// `macro_define = "macro!" ~ symbol_path ~ "(" ~ args_list ~ ")" ~ block`
pub fn macro_define(s: RuleState) -> (r: RuleResult)
    ensures
        rule_outcome(s, r, spec_macro_define(s.input@, Some(s.position as int), s.atomicity)),
{
    let end = macro_define_at(&s.input, Some(s.position), s.atomicity);
    s.finish(end)
}

/// An assignment: a name, the equals sign and an expression.
///
/// `assign_statement = symbol ~ assign_kind ~ ("|")? ~ expr`
pub fn assign_statement(s: RuleState) -> (r: RuleResult)
    ensures
        rule_outcome(s, r, spec_assign_statement(s.input@, Some(s.position as int), s.atomicity)),
{
    let end = assign_statement_at(&s.input, Some(s.position), s.atomicity);
    s.finish(end)
}

/// One statement.
///
/// `statement = macro_call | macro_define | comment_doc | (grammar_statement ~ (eos)?) | (fragment_statement ~ (eos)?) | (ignore_statement ~ (eos)?) | (assign_statement ~ (eos)?) | empty_statement`
pub fn statement(s: RuleState) -> (r: RuleResult)
    ensures
        rule_outcome(s, r, spec_statement(s.input@, Some(s.position as int), s.atomicity)),
{
    let end = statement_at(&s.input, Some(s.position), s.atomicity);
    s.finish(end)
}

/// A whole program: statements from the start of the input to its end.
///
/// `program = SOI ~ (statement (statement_more)*)? ~ EOI`
pub fn program(s: RuleState) -> (r: RuleResult)
    ensures
        rule_outcome(s, r, spec_program(s.input@, Some(s.position as int), s.atomicity)),
{
    let end = program_at(&s.input, Some(s.position), s.atomicity);
    s.finish(end)
}

} // verus!
