use yggdrasil_ir::bootstrap::parse_cst::{
    builtin_any, builtin_ignore, parse_cst, parse_identifier, parse_modifiers, BootstrapRule,
};
use yggdrasil_ir::cst::parse::{
    assign_kind, assign_statement, comment_doc, comment_m_l, data, eos, expr,
    fragment_statement, grammar_statement, ignore_statement, import_statement, integer, list,
    macro_call, macro_define, mark_branch, prefix, program, regex_range, slice, special,
    statement, string, suffix, symbol, symbol_alias, symbol_path, ANY, COMMENT, EOI, IGNORE,
    NEWLINE, SKIP, SOI, UNNAMED, WHITESPACE,
};
use yggdrasil_ir::cst::rule::{CSTBuilder, Rule, YggdrasilParser};
use yggdrasil_ir::cst::state::{Atomicity, RuleResult, RuleState};

fn state(text: &str) -> RuleState {
    RuleState::new(text.chars().collect())
}

fn end(r: RuleResult) -> Option<usize> {
    match r {
        Ok(s) => Some(s.position),
        Err(_) => None,
    }
}

fn count(text: &str) -> usize {
    text.chars().count()
}

#[test]
fn grammar() {
    let input = r#"
grammar! ygg
grammar! ygg "*.ygg";
grammar! ygg { }
grammar! ygg {"*.ygg",};
fragment! ygg_ex;
"#;
    // the first statement has no extension and is no statement of this grammar
    let failed = program(state(input));
    assert_eq!(failed, Err(state(input)));
    let rest = r#"
grammar! ygg "*.ygg";
grammar! ygg { }
grammar! ygg {"*.ygg",};
fragment! ygg_ex;
"#;
    assert_eq!(end(program(state(rest))), Some(count(rest)));
    assert_eq!(end(grammar_statement(state("grammar! ygg \"*.ygg\""))), Some(20));
    assert_eq!(end(grammar_statement(state("grammar! ygg { }"))), Some(16));
    assert_eq!(end(grammar_statement(state("grammar! ygg {'a', \"b\" , 'c',}"))), Some(30));
    assert_eq!(end(grammar_statement(state("grammar! ygg"))), None);
    assert_eq!(end(fragment_statement(state("fragment! ygg_ex;"))), Some(16));
}

#[test]
fn ignore() {
    let input = r#"
ignore! a;
ignore! {a, b, c};
"#;
    assert_eq!(end(program(state(input))), Some(count(input)));
    assert_eq!(end(ignore_statement(state("ignore! a;"))), Some(9));
    assert_eq!(end(ignore_statement(state("ignore! {a, b, c};"))), Some(17));
    assert_eq!(end(ignore_statement(state("ignore! {}"))), Some(10));
    assert_eq!(end(ignore_statement(state("ignore! {a b}"))), None);
}

#[test]
fn import() {
    let input = r#"
import! ">root/"
import! "@root/" {a, b as c, d}
"#;
    // an import is a rule of its own and no statement of a program
    assert_eq!(end(program(state(input))), None);
    assert_eq!(end(import_statement(state("import! \">root/\""))), Some(16));
    // the path alone is the first alternative, and the first alternative wins
    assert_eq!(end(import_statement(state("import! \"@root/\" {a, b as c, d}"))), Some(16));
    assert_eq!(end(import_statement(state("import! root"))), None);
    assert_eq!(end(symbol_alias(state("b as c, d"))), Some(6));
}

#[test]
fn assign() {
    let input = r#"
x = a
x = | 1 ~ 2
x = a <- 2
"#;
    assert_eq!(end(program(state(input))), Some(count(input)));
    assert_eq!(end(assign_statement(state("x = a"))), Some(5));
    assert_eq!(end(assign_statement(state("x ^_@= | 1 ~ 2"))), Some(14));
    assert_eq!(end(assign_statement(state("x = a <- 2"))), Some(10));
    assert_eq!(end(assign_statement(state("x a"))), None);
    assert_eq!(end(assign_kind(state("^^="))), Some(3));
    assert_eq!(end(assign_kind(state("^^"))), None);
}

#[test]
fn a_failing_rule_leaves_the_state_as_it_was() {
    let s = RuleState {
        input: "x = ;".chars().collect(),
        position: 0,
        atomicity: Atomicity::NonAtomic,
    };
    let copy = RuleState {
        input: "x = ;".chars().collect(),
        position: 0,
        atomicity: Atomicity::NonAtomic,
    };
    assert_eq!(assign_statement(s), Err(copy));
}

#[test]
fn a_rule_starts_where_the_state_stands() {
    let s = RuleState { input: "ab;cd".chars().collect(), position: 2, atomicity: Atomicity::Atomic };
    let out = eos(s).unwrap();
    assert_eq!(out.position, 3);
    assert_eq!(out.atomicity, Atomicity::Atomic);
    assert_eq!(out.input, "ab;cd".chars().collect::<Vec<char>>());
    let beyond = RuleState {
        input: "ab".chars().collect(),
        position: 7,
        atomicity: Atomicity::NonAtomic,
    };
    assert!(program(beyond).is_err());
}

#[test]
fn skipping_depends_on_the_atomicity() {
    let text = "  // note\n x";
    assert_eq!(end(SKIP(state(text))), Some(11));
    let atomic = RuleState { input: text.chars().collect(), position: 0, atomicity: Atomicity::Atomic };
    assert_eq!(end(SKIP(atomic)), Some(0));
    let compound = RuleState {
        input: "x = a".chars().collect(),
        position: 0,
        atomicity: Atomicity::CompoundAtomic,
    };
    assert_eq!(end(assign_statement(compound)), None);
}

#[test]
fn lexical_rules() {
    assert_eq!(end(symbol(state("_ab1 c"))), Some(4));
    assert_eq!(end(symbol(state("été"))), Some(3));
    assert_eq!(end(symbol(state("1a"))), None);
    assert_eq!(end(integer(state("0123"))), Some(1));
    assert_eq!(end(integer(state("12_345_x"))), Some(6));
    assert_eq!(end(integer(state("x"))), None);
    assert_eq!(end(string(state("'a\"b' c"))), Some(5));
    assert_eq!(end(string(state("\"a'b\""))), Some(5));
    assert_eq!(end(string(state("'open"))), None);
    assert_eq!(end(regex_range(state("[a-z] x"))), Some(5));
    assert_eq!(end(regex_range(state("[a-z"))), None);
    assert_eq!(end(special(state("true"))), Some(4));
    assert_eq!(end(special(state("false"))), Some(5));
    assert_eq!(end(special(state("null"))), Some(4));
    assert_eq!(end(special(state("nil"))), None);
    assert_eq!(end(prefix(state("%"))), Some(1));
    assert_eq!(end(prefix(state("?"))), None);
    assert_eq!(end(suffix(state("?"))), Some(1));
    assert_eq!(end(suffix(state("!"))), None);
    assert_eq!(end(mark_branch(state("^#Name rest"))), Some(6));
    assert_eq!(end(mark_branch(state("#Name"))), Some(5));
    assert_eq!(end(mark_branch(state("Name"))), None);
    assert_eq!(end(WHITESPACE(state(" \t x"))), Some(3));
    assert_eq!(end(NEWLINE(state("\r\n\n\rx"))), Some(4));
    assert_eq!(end(ANY(state("嗨"))), Some(1));
    assert_eq!(end(ANY(state(""))), None);
    assert_eq!(end(SOI(state("a"))), Some(0));
    assert_eq!(end(EOI(state(""))), Some(0));
    assert_eq!(end(EOI(state("a"))), None);
    assert_eq!(end(UNNAMED(state("import! x"), "import!")), Some(7));
    assert_eq!(end(UNNAMED(state("import"), "import!")), None);
}

#[test]
fn comments() {
    assert_eq!(end(comment_doc(state("/// doc\nx"))), Some(7));
    assert_eq!(end(COMMENT(state("// c"))), Some(4));
    assert_eq!(end(comment_m_l(state("/* a /* b */ c */ d"))), Some(17));
    assert_eq!(end(comment_m_l(state("/* a /* b */ c"))), None);
    assert_eq!(end(IGNORE(state("/**/x"))), Some(4));
    assert_eq!(end(IGNORE(state("x"))), None);
}

#[test]
fn expressions() {
    assert_eq!(end(expr(state("a ~ b | c"))), Some(9));
    assert_eq!(end(expr(state("(a | b)* ~ c?"))), Some(13));
    assert_eq!(end(expr(state("!a ~ ^b"))), Some(7));
    assert_eq!(end(expr(state("a{1, 3}"))), Some(7));
    assert_eq!(end(expr(state("a #Tag | b #Other"))), Some(17));
    assert_eq!(end(expr(state("name: Type <- a.b::c"))), Some(20));
    assert_eq!(end(expr(state("| a"))), None);
    assert_eq!(end(expr(state("(a"))), None);
    assert_eq!(end(data(state("{a, [0-9], {1, 2}, @f(x)}"))), Some(25));
    assert_eq!(end(list(state("{ }"))), Some(3));
    assert_eq!(end(slice(state("{1,2}"))), Some(5));
    assert_eq!(end(slice(state("{1}"))), None);
    assert_eq!(end(symbol_path(state("a::b.c"))), Some(6));
    assert_eq!(end(macro_call(state("@a.b(x = 1, y)"))), Some(14));
    assert_eq!(end(macro_define(state("macro! f(a: T = 1, b) { return a ~ b }"))), Some(38));
    assert_eq!(end(statement(state("@f();"))), Some(4));
    assert_eq!(end(statement(state(";"))), Some(1));
}

#[test]
fn the_entry_tries_a_rule_at_the_start() {
    let text: Vec<char> = "x = a".chars().collect();
    assert_eq!(end(CSTBuilder::parse(Rule::program, text.clone()).unwrap()), Some(5));
    assert_eq!(end(CSTBuilder::parse(Rule::SYMBOL, text.clone()).unwrap()), Some(1));
    assert_eq!(end(CSTBuilder::parse(Rule::id_path, text.clone()).unwrap()), Some(2));
    assert_eq!(end(CSTBuilder::parse(Rule::integer, text.clone()).unwrap()), None);
    assert!(CSTBuilder::parse(Rule::BRANCH, text.clone()).is_none());
    assert!(CSTBuilder::parse(Rule::EOI, text).is_none());
}

#[test]
fn the_entry_through_the_trait() {
    let text: Vec<char> = "a::b ;".chars().collect();
    let found = <CSTBuilder as YggdrasilParser>::parse(Rule::id_path, text.clone()).unwrap();
    assert_eq!(end(found), Some(4));
    let failed = <CSTBuilder as YggdrasilParser>::parse(Rule::eos, text.clone()).unwrap();
    assert_eq!(failed, Err(RuleState::new(text.clone())));
    assert!(<CSTBuilder as YggdrasilParser>::parse(Rule::UNNAMED, text).is_none());
}

// ---- the bootstrap grammar --------------------------------------------------

fn chars(text: &str) -> Vec<char> {
    text.chars().collect()
}

#[test]
fn bootstrap_tokens() {
    assert_eq!(parse_cst(&chars("hello world"), BootstrapRule::Identifier), Some(Some(5)));
    assert_eq!(parse_cst(&chars("_été9 x"), BootstrapRule::Identifier), Some(Some(5)));
    assert_eq!(parse_cst(&chars("9x"), BootstrapRule::Identifier), Some(None));
    assert_eq!(parse_cst(&chars("struct X"), BootstrapRule::KW_CLASS), Some(Some(6)));
    assert_eq!(parse_cst(&chars("class X"), BootstrapRule::KW_CLASS), Some(Some(5)));
    assert_eq!(parse_cst(&chars("enum"), BootstrapRule::KW_UNION), Some(Some(4)));
    assert_eq!(parse_cst(&chars("token"), BootstrapRule::KW_GROUP), Some(Some(5)));
    assert_eq!(parse_cst(&chars("function"), BootstrapRule::KW_MACRO), Some(Some(8)));
    assert_eq!(parse_cst(&chars("fn"), BootstrapRule::KW_MACRO), Some(Some(2)));
    assert_eq!(parse_cst(&chars("using"), BootstrapRule::KW_IMPORT), Some(Some(5)));
    assert_eq!(parse_cst(&chars("climb"), BootstrapRule::KW_CLIMB), Some(Some(5)));
    assert_eq!(parse_cst(&chars("grammar"), BootstrapRule::KW_GRAMMAR), Some(Some(7)));
    assert_eq!(parse_cst(&chars("grammer"), BootstrapRule::KW_GRAMMAR), Some(None));
    assert_eq!(parse_cst(&chars("  \n x"), BootstrapRule::WhiteSpace), Some(Some(4)));
    assert_eq!(parse_cst(&chars("x"), BootstrapRule::WhiteSpace), Some(None));
    assert_eq!(parse_cst(&chars("// hi\nx"), BootstrapRule::Comment), Some(Some(5)));
    assert_eq!(parse_cst(&chars("# hi"), BootstrapRule::Comment), Some(Some(4)));
    assert_eq!(parse_cst(&chars("true"), BootstrapRule::Boolean), Some(Some(4)));
    assert_eq!(parse_cst(&chars("''"), BootstrapRule::String), Some(Some(2)));
    assert_eq!(parse_cst(&chars("/"), BootstrapRule::Regex), Some(Some(1)));
    assert_eq!(parse_cst(&chars("a:: b . c"), BootstrapRule::Namepath), Some(Some(5)));
    assert_eq!(parse_cst(&chars("a.b::c.d"), BootstrapRule::Namepath), Some(Some(1)));
    assert_eq!(parse_cst(&chars("a.b::c.d"), BootstrapRule::NamepathFree), Some(Some(8)));
    assert_eq!(parse_cst(&chars("#Tag>"), BootstrapRule::BranchTag), Some(Some(5)));
    assert_eq!(parse_cst(&chars("x"), BootstrapRule::IgnoreText), None);
    assert_eq!(parse_cst(&chars("x"), BootstrapRule::IgnoreRegex), None);
}

#[test]
fn bootstrap_statements() {
    let class = "public class A { a b? }";
    assert_eq!(parse_cst(&chars(class), BootstrapRule::Root), Some(Some(count(class))));
    assert_eq!(parse_cst(&chars("class A { a }"), BootstrapRule::Root), Some(None));
    // `#` begins a comment wherever something may be ignored
    let union = "pub union U { | a #A\n | !b* #B>\n }";
    assert_eq!(parse_cst(&chars(union), BootstrapRule::Statement), Some(Some(count(union))));
    assert_eq!(parse_cst(&chars("pub union U { | a #A }"), BootstrapRule::Statement), Some(None));
    assert_eq!(parse_cst(&chars("|a#A>"), BootstrapRule::UnionBranch), Some(Some(5)));
    let group = "x group { a: true }";
    assert_eq!(parse_cst(&chars(group), BootstrapRule::GroupStatements), Some(Some(count(group))));
    let grammar = "grammar g { }";
    assert_eq!(parse_cst(&chars(grammar), BootstrapRule::GrammarStatements), Some(Some(13)));
    let two = "grammar g {}\n// the class\npublic class A { a }";
    assert_eq!(parse_cst(&chars(two), BootstrapRule::Root), Some(Some(count(two))));
    assert_eq!(parse_cst(&chars("^!a+?"), BootstrapRule::Term), Some(Some(5)));
    assert_eq!(parse_cst(&chars("a b"), BootstrapRule::Expression), Some(Some(3)));
}

#[test]
fn bootstrap_rules_at_a_position() {
    let input = chars("ab  cd");
    assert_eq!(parse_identifier(&input, Some(4)), Some(6));
    assert_eq!(parse_identifier(&input, Some(2)), None);
    assert_eq!(parse_identifier(&input, None), None);
    assert_eq!(parse_identifier(&input, Some(9)), None);
    assert_eq!(builtin_ignore(&input, Some(2)), Some(4));
    assert_eq!(builtin_ignore(&input, Some(0)), Some(0));
    assert_eq!(builtin_any(&input, Some(5)), Some(6));
    assert_eq!(builtin_any(&input, Some(6)), None);
    assert_eq!(parse_modifiers(&chars("a b class"), Some(0)), Some(3));
}
