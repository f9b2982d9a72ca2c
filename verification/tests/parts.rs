use yggdrasil_ir::advance::{ParseAdvance, YState};
use yggdrasil_ir::codegen::{FieldCount, FieldDescriptor, RustCodegen};
use yggdrasil_ir::counter::FieldCounter;
use yggdrasil_ir::errors::{Validation, YggdrasilError, YggdrasilErrorKind};
use yggdrasil_ir::expression::{
    ChoiceExpression, ConcatExpression, ExpressionKind, RuleReference, UnaryExpression,
    YggdrasilExpression, YggdrasilIdentifier,
};
use yggdrasil_ir::fields::{FieldKind, YggdrasilField};
use yggdrasil_ir::hints::{
    duplicate_declaration_error, top_area_error, DiagnosticSeverity, GrammarState, HintItems,
    Position, TextRange, YGGRule,
};
use yggdrasil_ir::kinds::YggdrasilType;
use yggdrasil_ir::node::{CSTNode, NodeType};
use yggdrasil_ir::operator::YggdrasilOperator;
use yggdrasil_ir::rule::{GrammarAtomic, GrammarRuleKind};
use yggdrasil_ir::span::Span;
use yggdrasil_ir::text::same_text;
use yggdrasil_ir::translate::{
    ChoiceNode, DefineStatement, GrammarParser, Node, ProgramNode, StatementNode, StringItem,
    TermNode,
};

// ---- leaves -----------------------------------------------------------------

#[test]
fn a_reference_from_a_name() {
    assert_eq!(
        RuleReference::new("abc"),
        RuleReference { name: "abc".to_string(), boxed: false, inline: false }
    );
    assert_eq!(
        RuleReference::new("_abc"),
        RuleReference { name: "abc".to_string(), boxed: false, inline: true }
    );
    assert_eq!(RuleReference::new("__a_b").name, "a_b");
    assert_eq!(RuleReference::new("").name, "");
}

#[test]
fn a_leaf_from_a_name() {
    assert_eq!(ExpressionKind::rule("ANY"), ExpressionKind::CharacterAny);
    assert_eq!(
        ExpressionKind::rule("_ws"),
        ExpressionKind::Rule(RuleReference { name: "ws".to_string(), boxed: false, inline: true })
    );
    assert_eq!(ExpressionKind::string("lit".to_string()), ExpressionKind::Text("lit".to_string()));
}

#[test]
fn a_builtin_character_set() {
    match ExpressionKind::builtin("ASCII_Hex_Digit") {
        Some(ExpressionKind::CharacterSet(ranges)) => {
            assert_eq!(ranges, vec![('0', '9'), ('A', 'F'), ('a', 'f')]);
        }
        other => panic!("no character set: {:?}", other),
    }
    assert!(ExpressionKind::builtin("XID_Start").is_some());
    assert!(ExpressionKind::builtin("No_Such_Property").is_none());
}

#[test]
fn the_name_of_a_field_is_in_snake_case() {
    let f = YggdrasilField {
        bind: "HelloWorld".to_string(),
        kind: FieldKind::IgnoreText,
        count: FieldCounter::One,
    };
    assert_eq!(f.field_name(), "hello_world");
    assert_eq!(f.clone(), f);
}

#[test]
fn texts_compare() {
    assert!(same_text("ANY", "ANY"));
    assert!(!same_text("ANY", "any"));
}

// ---- spans ------------------------------------------------------------------

#[test]
fn a_span_lies_between_character_boundaries() {
    let both = Span::new("abcd", 1, 3).unwrap();
    assert_eq!(both.start_pos().pos(), 1);
    assert_eq!(both.end_pos().pos(), 3);
    let (from, to) = both.split();
    assert_eq!((from.pos(), to.pos()), (1, 3));
    let input = "Hello!";
    assert!(Span::new(input, 100, 0).is_none());
    assert!(Span::new(input, 0, input.len()).is_some());
    assert!(Span::new(input, 4, 2).is_none());
    assert!(Span::new(input, 0, 7).is_none());
    let wide = "d嗨";
    assert!(Span::new(wide, 1, 4).is_some());
    assert!(Span::new(wide, 1, 2).is_none());
    assert!(Span::new(wide, 2, 4).is_none());
    let span = Span::new(wide, 1, 4).unwrap();
    assert_eq!(span.start(), 1);
    assert_eq!(span.end(), 4);
    assert_eq!(span.as_str(), "嗨");
    assert_eq!(Span::new("abc", 1, 2).unwrap().as_str(), "b");
    assert_eq!(Span::new("abc", 3, 3).unwrap().as_str(), "");
}

#[test]
fn the_lines_of_a_span() {
    let input = "a\nb\nc";
    let span = Span::new(input, 2, 5).unwrap();
    let lines: Vec<&str> = span.lines().into_iter().map(|(s, e)| &input[s..e]).collect();
    assert_eq!(lines, vec!["b\n", "c"]);
    let inner = Span::new("one\ntwo\nthree", 5, 6).unwrap();
    assert_eq!(inner.lines(), vec![(4, 8)]);
    let at_end = Span::new("ab", 2, 2).unwrap();
    assert!(at_end.lines().is_empty());
}

// ---- nodes ------------------------------------------------------------------

#[test]
fn a_node_and_its_children() {
    let leaf = CSTNode::new(3);
    assert_eq!(leaf.get_id(), 3);
    assert_eq!(leaf.kind, 0);
    assert_eq!(leaf.get_range(), 0..0);
    let tree = CSTNode::new(1)
        .with_kind(YggdrasilType::Namespace)
        .with_range(0, 6)
        .with_nodes(vec![
            CSTNode::new(2).with_kind(YggdrasilType::Identifier).with_range(0, 1),
            CSTNode::new(3)
                .with_kind(YggdrasilType::Ignored)
                .with_nodes(vec![CSTNode::new(5)]),
            CSTNode::new(4).with_kind(YggdrasilType::Identifier).with_range(3, 6),
        ]);
    assert_eq!(tree.collect_ids(), vec![1, 2, 3, 5, 4]);
    assert_eq!(tree.get_range(), 0..6);
    assert!(tree.isa(&[YggdrasilType::Program, YggdrasilType::Namespace]));
    assert!(!tree.isa(&[YggdrasilType::Program]));
    assert!(!tree.isa::<YggdrasilType>(&[]));
    assert_eq!(tree.find(&[YggdrasilType::Namespace]).map(|n| n.get_id()), Some(2));
    assert_eq!(tree.find(&[YggdrasilType::Identifier]), None);
    assert_eq!(CSTNode::new(9).find(&[YggdrasilType::Program]), None);
    let names: Vec<usize> =
        tree.filter(&[YggdrasilType::Identifier]).iter().map(|n| n.get_id()).collect();
    assert_eq!(names, vec![2, 4]);
    assert_eq!(tree.nodes[2].view("a::bcd"), "bcd");
}

#[test]
fn the_numbers_of_the_kinds() {
    assert_eq!(YggdrasilType::Program.number(), 0);
    assert_eq!(YggdrasilType::Namespace.number(), 4);
    assert_eq!(YggdrasilType::Error.number(), -1);
    assert_eq!(YggdrasilType::IgnoredText.number(), -3);
    assert_eq!(YggdrasilType::from_number(3), Some(YggdrasilType::Identifier));
    assert_eq!(YggdrasilType::from_number(-2), Some(YggdrasilType::Ignored));
    assert_eq!(YggdrasilType::from_number(5), None);
    assert!(YggdrasilType::Ignored.is_ignored());
    assert!(YggdrasilType::IgnoredText.is_ignored());
    assert!(!YggdrasilType::Error.is_ignored());
    assert_eq!(YggdrasilType::Statement.code(), 1);
    assert_eq!(YggdrasilType::Error.code(), usize::MAX);
}

// ---- hints ------------------------------------------------------------------

fn range(line: u32) -> TextRange {
    TextRange {
        start: Position { line, character: 0 },
        end: Position { line, character: 4 },
    }
}

#[test]
fn diagnostics_for_an_editor() {
    let d = top_area_error("ygg", "misplaced", range(1));
    assert_eq!(d.range, range(1));
    assert_eq!(d.severity, Some(DiagnosticSeverity::Warning));
    assert_eq!(d.source, Some("ygg".to_string()));
    assert_eq!(d.message, "misplaced");
    assert_eq!(d.related_information, None);
    assert_eq!(d.code, None);
    let d = duplicate_declaration_error("ygg", "first here", range(7), "file:///g.ygg", range(2));
    assert_eq!(d.range, range(7));
    assert_eq!(d.severity, Some(DiagnosticSeverity::Error));
    assert_eq!(d.message, "Duplicate declaration detected");
    let related = d.related_information.unwrap();
    assert_eq!(related.len(), 1);
    assert_eq!(related[0].message, "first here");
    assert_eq!(related[0].location.uri, "file:///g.ygg");
    assert_eq!(related[0].location.range, range(2));
}

#[test]
fn the_older_optimisations_do_nothing() {
    let mut state = GrammarState { rules: vec![YGGRule { name: "a".to_string() }] };
    assert_eq!(state.optimize(), Ok(HintItems { diagnostic: vec![] }));
    assert_eq!(state.inline(), Ok(HintItems::new()));
    assert_eq!(state.merge_regex(), Ok(HintItems::new()));
    assert_eq!(state.report_meta(), HintItems::new());
    assert_eq!(state.rules.len(), 1);
    let mut rule = YGGRule { name: "r".to_string() };
    rule.inline(&state);
    rule.merge_regex();
    assert_eq!(rule.name, "r");
    let mut hints = HintItems::new();
    hints.merge(HintItems { diagnostic: vec![top_area_error("s", "m", range(0))] });
    assert_eq!(hints.diagnostic.len(), 1);
}

// ---- translation ------------------------------------------------------------

fn term(node: Node) -> TermNode {
    TermNode { tag: None, node, prefix: vec![], suffix: vec![] }
}

fn name(text: &str) -> Node {
    Node::Identifier(text.to_string())
}

fn define(symbol: &str, modifiers: Vec<&str>, terms: Vec<TermNode>) -> DefineStatement {
    DefineStatement {
        modifiers: modifiers.into_iter().map(|m| m.to_string()).collect(),
        symbol: symbol.to_string(),
        ty: None,
        arguments: false,
        body: ChoiceNode { terms },
        position: 2..9,
    }
}

fn bare(body: ExpressionKind) -> YggdrasilExpression {
    YggdrasilExpression::new(body, 0..0)
}

#[test]
fn modifiers_of_a_definition() {
    let d = define("r", vec!["inline", "entry"], vec![]);
    assert!(d.annotation("inline", false));
    assert!(d.annotation("entry", false));
    assert!(!d.annotation("boxed", false));
    assert!(d.annotation("capture", true));
}

#[test]
fn a_body_becomes_a_choice_of_its_terms() {
    let body = ChoiceNode {
        terms: vec![
            TermNode {
                tag: Some("t".to_string()),
                node: name("_a"),
                prefix: vec!['!', '^'],
                suffix: vec!['?', '+'],
            },
            term(Node::StringLiteral(vec![
                StringItem::CharOne('a'),
                StringItem::StringEscaped('n'),
                StringItem::StringEscaped('\\'),
            ])),
            term(name("ANY")),
            term(Node::Group(Box::new(ChoiceNode { terms: vec![term(name("b"))] }))),
        ],
    };
    let mut first = bare(ExpressionKind::Unary(UnaryExpression {
        base: Box::new(bare(ExpressionKind::Rule(RuleReference {
            name: "a".to_string(),
            boxed: false,
            inline: true,
        }))),
        operators: vec![
            YggdrasilOperator::Optional,
            YggdrasilOperator::Repeat1,
            YggdrasilOperator::Remark,
            YggdrasilOperator::Negative,
        ],
    }));
    first.tag = Some(YggdrasilIdentifier { text: "t".to_string(), range: 0..0 });
    let expected = bare(ExpressionKind::Choice(ChoiceExpression {
        branches: vec![
            first,
            bare(ExpressionKind::Text("a\n\\".to_string())),
            bare(ExpressionKind::CharacterAny),
            bare(ExpressionKind::Choice(ChoiceExpression {
                branches: vec![bare(ExpressionKind::Rule(RuleReference {
                    name: "b".to_string(),
                    boxed: false,
                    inline: false,
                }))],
            })),
        ],
    }));
    assert_eq!(body.into_expr(), Ok(expected));
}

fn unreachable_error() -> YggdrasilError {
    YggdrasilError {
        error: Box::new(YggdrasilErrorKind::Unreachable),
        level: yggdrasil_ir::errors::DiagnosticLevel::Error,
    }
}

#[test]
fn what_cannot_be_translated_is_an_error() {
    let charset = ChoiceNode { terms: vec![term(Node::Charset)] };
    assert_eq!(charset.into_expr(), Err(unreachable_error()));
    let sign = ChoiceNode {
        terms: vec![TermNode { tag: None, node: name("a"), prefix: vec!['&'], suffix: vec![] }],
    };
    assert_eq!(sign.into_expr(), Err(unreachable_error()));
    let suffix = ChoiceNode {
        terms: vec![TermNode { tag: None, node: name("a"), prefix: vec![], suffix: vec!['!'] }],
    };
    assert_eq!(suffix.into_expr(), Err(unreachable_error()));
    let xid = ChoiceNode { terms: vec![term(name("XID_START"))] };
    assert_eq!(xid.into_expr(), Err(unreachable_error()));
    let nested = ChoiceNode { terms: vec![term(Node::Group(Box::new(charset_group())))] };
    assert_eq!(nested.into_expr(), Err(unreachable_error()));
}

fn charset_group() -> ChoiceNode {
    ChoiceNode { terms: vec![term(Node::Charset)] }
}

#[test]
fn a_program_becomes_a_grammar() {
    let mut with_type = define("_digit", vec!["atomic"], vec![term(name("ANY"))]);
    with_type.ty = Some("char".to_string());
    let mut function = define("f", vec![], vec![term(name("x"))]);
    function.arguments = true;
    let program = ProgramNode {
        statements: vec![
            StatementNode::DefineStatement(define("main", vec!["entry", "boxed"], vec![term(name("digit"))])),
            StatementNode::EmptyStatement,
            StatementNode::DefineStatement(with_type),
            StatementNode::DefineStatement(function),
        ],
    };
    let info = match GrammarParser::parse(&program) {
        Validation::Success { value, diagnostics } => {
            assert!(diagnostics.is_empty());
            value
        }
        Validation::Failure { .. } => panic!("the translation failed"),
    };
    assert_eq!(info.rule_count(), 2);
    let main = info.rule_at(0).unwrap();
    assert_eq!(main.name, YggdrasilIdentifier { text: "main".to_string(), range: 2..9 });
    assert_eq!(main.kind, GrammarRuleKind::Class);
    assert!(main.entry && main.auto_boxed && !main.auto_inline);
    assert_eq!(main.atomic, GrammarAtomic::Combined);
    assert_eq!(main.range, 2..9);
    let digit = info.get_rule("digit").unwrap();
    assert!(digit.auto_inline && !digit.entry);
    assert_eq!(digit.atomic, GrammarAtomic::Atomic);
    assert_eq!(digit.ty, "char");
    assert_eq!(
        digit.body,
        Some(bare(ExpressionKind::Choice(ChoiceExpression {
            branches: vec![bare(ExpressionKind::CharacterAny)]
        })))
    );
    assert!(!info.declares("f"));
}

#[test]
fn a_second_declaration_is_reported() {
    let program = ProgramNode {
        statements: vec![
            StatementNode::DefineStatement(define("a", vec![], vec![term(name("b"))])),
            StatementNode::DefineStatement(define("_a", vec![], vec![term(name("c"))])),
        ],
    };
    match GrammarParser::parse(&program) {
        Validation::Success { value, diagnostics } => {
            assert_eq!(diagnostics, vec![YggdrasilError::duplicate_rule(&"a".to_string(), &(2..9))]);
            assert_eq!(diagnostics[0].message(), "rule declared twice: a");
            assert_eq!(value.rule_count(), 1);
            assert!(value.get_rule("a").unwrap().auto_inline);
        }
        Validation::Failure { .. } => panic!("the translation failed"),
    }
}

#[test]
fn a_program_with_a_bad_body_fails() {
    let program = ProgramNode {
        statements: vec![
            StatementNode::DefineStatement(define("a", vec![], vec![term(name("b"))])),
            StatementNode::DefineStatement(define("c", vec![], vec![term(Node::Charset)])),
        ],
    };
    match GrammarParser::parse(&program) {
        Validation::Failure { fatal, diagnostics } => {
            assert_eq!(fatal, unreachable_error());
            assert!(diagnostics.is_empty());
        }
        Validation::Success { .. } => panic!("the translation went through"),
    }
}

#[test]
fn the_waiting_documentation_goes_to_the_next_rule() {
    let mut ctx = GrammarParser {
        info: yggdrasil_ir::grammar::GrammarInfo::new(),
        docs: "about a".to_string(),
        errors: vec![],
    };
    let program = ProgramNode {
        statements: vec![
            StatementNode::EmptyStatement,
            StatementNode::DefineStatement(define("a", vec![], vec![])),
            StatementNode::DefineStatement(define("b", vec![], vec![])),
        ],
    };
    assert_eq!(program.translate(&mut ctx), Ok(()));
    assert_eq!(ctx.docs, "");
    assert_eq!(ctx.info.get_rule("a").unwrap().document, "about a");
    assert_eq!(ctx.info.get_rule("b").unwrap().document, "");
}

// ---- going forward ----------------------------------------------------------

#[test]
fn a_state_goes_forward() {
    let s = YState { partial_string: "d嗨xyz", start_offset: 10, farthest_error: Some(3) };
    let s = s.advance(ParseAdvance::Offset(1));
    assert_eq!(s.partial_string, "嗨xyz");
    assert_eq!(s.start_offset, 11);
    let s = s.advance(ParseAdvance::Character('嗨'));
    assert_eq!(s.partial_string, "xyz");
    assert_eq!(s.start_offset, 14);
    let s = s.advance(ParseAdvance::String("xy"));
    assert_eq!(s.partial_string, "z");
    assert_eq!(s.start_offset, 16);
    assert_eq!(s.farthest_error, Some(3));
    assert_eq!(ParseAdvance::Character('a').offset(), 1);
    assert_eq!(ParseAdvance::from(7usize), ParseAdvance::Offset(7));
    assert_eq!(ParseAdvance::from('c'), ParseAdvance::Character('c'));
    assert_eq!(ParseAdvance::from("ab"), ParseAdvance::String("ab"));
}

// ---- what the generators share ----------------------------------------------

#[test]
fn the_settings_of_the_rust_generator() {
    let c = RustCodegen::default();
    assert_eq!(c.buffer, "");
    assert!(c.enable_position);
    assert_eq!(c.rule_prefix, "");
    assert_eq!(c.rule_suffix, "Node");
    assert_eq!(FieldCount::Optional.counter(), FieldCounter::Optional);
    assert_eq!(FieldCount::One.counter(), FieldCounter::One);
    assert_eq!(FieldCount::Many.counter(), FieldCounter::Many);
}

#[test]
fn the_names_that_an_expression_refers_to() {
    let r = |n: &str| {
        bare(ExpressionKind::Rule(RuleReference { name: n.to_string(), boxed: false, inline: false }))
    };
    let tree = bare(ExpressionKind::Concat(ConcatExpression {
        sequence: vec![
            r("a"),
            bare(ExpressionKind::Choice(ChoiceExpression { branches: vec![r("b"), r("a")] })),
            bare(ExpressionKind::Unary(UnaryExpression {
                base: Box::new(r("c")),
                operators: vec![YggdrasilOperator::Repeats],
            })),
            bare(ExpressionKind::Text("x".to_string())),
        ],
    }));
    let mut names = vec!["first".to_string()];
    tree.get_field_names(&mut names);
    assert_eq!(names, vec!["first", "a", "b", "a", "c"]);
}
