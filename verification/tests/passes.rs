use std::ops::Range;
use yggdrasil_ir::counter::FieldCounter;
use yggdrasil_ir::errors::{Validation, YggdrasilError, YggdrasilErrorKind};
use yggdrasil_ir::expression::{
    ChoiceExpression, ConcatExpression, ExpressionKind, RuleReference, UnaryExpression,
    YggdrasilExpression, YggdrasilIdentifier,
};
use yggdrasil_ir::fields::{FieldKind, YggdrasilField, YggdrasilVariants};
use yggdrasil_ir::grammar::GrammarInfo;
use yggdrasil_ir::operator::YggdrasilOperator;
use yggdrasil_ir::optimize::dead_code::DeadCodeEliminator;
use yggdrasil_ir::optimize::fuse_charset::FuseCharset;
use yggdrasil_ir::optimize::inlining::InlineRule;
use yggdrasil_ir::optimize::refine_rules::RefineRules;
use yggdrasil_ir::optimize::remark_tag::RemarkTags;
use yggdrasil_ir::optimize::CodeOptimizer;
use yggdrasil_ir::rule::{GrammarRule, GrammarRuleKind};

fn id(text: &str) -> YggdrasilIdentifier {
    YggdrasilIdentifier { text: text.to_string(), range: 0..0 }
}

fn at(range: Range<usize>, body: ExpressionKind) -> YggdrasilExpression {
    YggdrasilExpression::new(body, range)
}

fn node(body: ExpressionKind) -> YggdrasilExpression {
    at(0..0, body)
}

fn rule(name: &str) -> YggdrasilExpression {
    node(ExpressionKind::Rule(RuleReference { name: name.to_string(), boxed: false, inline: false }))
}

fn tagged(tag: &str, name: &str) -> YggdrasilExpression {
    let mut e = rule(name);
    e.tag = Some(id(tag));
    e
}

fn branch(mut e: YggdrasilExpression, tag: &str) -> YggdrasilExpression {
    e.node_tag = Some(id(tag));
    e
}

fn concat(items: Vec<YggdrasilExpression>) -> YggdrasilExpression {
    node(ExpressionKind::Concat(ConcatExpression { sequence: items }))
}

fn choice(items: Vec<YggdrasilExpression>) -> YggdrasilExpression {
    node(ExpressionKind::Choice(ChoiceExpression { branches: items }))
}

fn unary(base: YggdrasilExpression, operators: Vec<YggdrasilOperator>) -> YggdrasilExpression {
    node(ExpressionKind::Unary(UnaryExpression { base: Box::new(base), operators }))
}

fn remarked(mut e: YggdrasilExpression) -> YggdrasilExpression {
    e.remark = true;
    e
}

fn text(s: &str) -> YggdrasilExpression {
    node(ExpressionKind::Text(s.to_string()))
}

fn define(name: &str, kind: GrammarRuleKind, body: YggdrasilExpression) -> GrammarRule {
    let mut r = GrammarRule::new(id(name), &(0..0), kind);
    r.body = Some(body);
    r
}

fn grammar(rules: Vec<GrammarRule>) -> GrammarInfo {
    let mut g = GrammarInfo::new();
    for r in rules {
        assert!(g.insert_rule(r).is_none());
    }
    g
}

fn field(bind: &str, kind: &str, count: FieldCounter) -> YggdrasilField {
    YggdrasilField { bind: bind.to_string(), kind: FieldKind::Rule(kind.to_string()), count }
}

fn success(v: Validation<GrammarInfo>) -> (GrammarInfo, Vec<YggdrasilError>) {
    match v {
        Validation::Success { value, diagnostics } => (value, diagnostics),
        Validation::Failure { .. } => panic!("the pass failed"),
    }
}

fn body_of(g: &GrammarInfo, name: &str) -> YggdrasilExpression {
    g.get_rule(name).unwrap().body.clone().unwrap()
}

// ---- the combinators -------------------------------------------------------

#[test]
fn and_builds_one_sequence() {
    let e = rule("a").and(rule("b")).and(rule("c"));
    assert_eq!(e, concat(vec![rule("a"), rule("b"), rule("c")]));
}

#[test]
fn and_is_associative() {
    let left = rule("a").and(rule("b")).and(rule("c"));
    let right = rule("a").and(rule("b").and(rule("c")));
    assert_eq!(left, right);
}

#[test]
fn or_builds_one_choice() {
    let left = rule("a").or(rule("b")).or(rule("c"));
    let right = rule("a").or(rule("b").or(rule("c")));
    assert_eq!(left, choice(vec![rule("a"), rule("b"), rule("c")]));
    assert_eq!(left, right);
}

#[test]
fn combinators_take_the_range_of_both_sides() {
    let a = at(3..5, ExpressionKind::CharacterAny);
    let b = at(7..9, ExpressionKind::CharacterAny);
    assert_eq!(a.and(b).range, 3..9);
}

#[test]
fn a_tagged_group_stays_one_item() {
    let mut group = concat(vec![rule("a"), rule("b")]);
    group.tag = Some(id("pair"));
    let e = group.clone().and(rule("c"));
    assert_eq!(e, concat(vec![group, rule("c")]));
}

#[test]
fn an_empty_group_stays_one_item() {
    let e = concat(vec![]).and(rule("c"));
    assert_eq!(e, concat(vec![concat(vec![]), rule("c")]));
}

#[test]
fn split_gives_head_and_rest() {
    let c = ChoiceExpression { branches: vec![rule("a"), rule("b"), rule("c")] };
    let (head, rest) = c.split();
    assert_eq!(head, rule("a"));
    assert_eq!(rest, vec![rule("b"), rule("c")]);
    let s = ConcatExpression { sequence: vec![rule("x")] };
    let (head, rest) = s.split();
    assert_eq!(head, rule("x"));
    assert!(rest.is_empty());
}

#[test]
fn folds_of_terms() {
    assert_eq!(YggdrasilExpression::concat_all(&vec![]), None);
    assert_eq!(YggdrasilExpression::concat_all(&vec![rule("a")]), Some(rule("a")));
    assert_eq!(
        YggdrasilExpression::concat_all(&vec![rule("a"), rule("b"), rule("c")]),
        Some(concat(vec![rule("a"), rule("b"), rule("c")]))
    );
    assert_eq!(
        YggdrasilExpression::choice_all(&vec![rule("a"), choice(vec![rule("b"), rule("c")])]),
        Some(choice(vec![rule("a"), rule("b"), rule("c")]))
    );
    assert_eq!(YggdrasilExpression::choice_all(&vec![]), None);
    assert_eq!(
        YggdrasilExpression::unary(at(2..4, ExpressionKind::CharacterAny), YggdrasilOperator::Repeats),
        at(
            2..4,
            ExpressionKind::Unary(UnaryExpression {
                base: Box::new(at(2..4, ExpressionKind::CharacterAny)),
                operators: vec![YggdrasilOperator::Repeats],
            })
        )
    );
}

// ---- refinement ------------------------------------------------------------

#[test]
fn refine_flattens_nested_sequences() {
    let tree = concat(vec![concat(vec![rule("a"), rule("b")]), rule("c")]);
    let refined = RefineRules::default().refine_node(&tree);
    assert_eq!(refined, concat(vec![rule("a"), rule("b"), rule("c")]));
}

#[test]
fn refine_flattens_nested_choices() {
    let tree = choice(vec![rule("a"), choice(vec![rule("b"), rule("c")])]);
    let refined = RefineRules::default().refine_node(&tree);
    assert_eq!(refined, choice(vec![rule("a"), rule("b"), rule("c")]));
}

#[test]
fn refine_drops_a_bare_wrapper_of_one() {
    let tree = choice(vec![concat(vec![rule("a")])]);
    assert_eq!(RefineRules::default().refine_node(&tree), rule("a"));
}

#[test]
fn refine_keeps_the_annotations_of_a_node() {
    let tree = branch(concat(vec![concat(vec![rule("a"), rule("b")]), rule("c")]), "T");
    let refined = RefineRules::default().refine_node(&tree);
    assert_eq!(refined, branch(concat(vec![rule("a"), rule("b"), rule("c")]), "T"));
    let wrapper = branch(choice(vec![rule("a")]), "T");
    assert_eq!(RefineRules::default().refine_node(&wrapper), wrapper);
}

#[test]
fn refine_leaves_operators_alone() {
    let tree = unary(
        concat(vec![concat(vec![rule("a")]), rule("b")]),
        vec![YggdrasilOperator::Optional, YggdrasilOperator::Repeats],
    );
    let refined = RefineRules::default().refine_node(&tree);
    assert_eq!(
        refined,
        unary(
            concat(vec![rule("a"), rule("b")]),
            vec![YggdrasilOperator::Optional, YggdrasilOperator::Repeats],
        )
    );
}

#[test]
fn refine_is_idempotent() {
    let trees = vec![
        rule("a"),
        concat(vec![]),
        choice(vec![choice(vec![]), rule("a")]),
        concat(vec![concat(vec![rule("a"), rule("b")]), rule("c")]),
        choice(vec![
            concat(vec![choice(vec![rule("a")]), concat(vec![rule("b"), text("x")])]),
            choice(vec![rule("c"), branch(choice(vec![rule("d"), rule("e")]), "T")]),
            unary(choice(vec![choice(vec![rule("f"), rule("g")])]), vec![YggdrasilOperator::Repeat1]),
        ]),
    ];
    let pass = RefineRules::default();
    for tree in trees {
        let once = pass.refine_node(&tree);
        let twice = pass.refine_node(&once);
        assert_eq!(once, twice);
    }
}

// ---- tag propagation -------------------------------------------------------

#[test]
fn remark_tags_references_in_scope() {
    let tree = concat(vec![rule("a"), text("x"), tagged("mine", "b")]);
    let out = RemarkTags::new().remarked(&tree, true);
    assert_eq!(out, concat(vec![tagged("a", "a"), text("x"), tagged("mine", "b")]));
}

#[test]
fn remark_out_of_scope_changes_nothing() {
    let tree = concat(vec![rule("a"), rule("b")]);
    assert_eq!(RemarkTags::new().remarked(&tree, false), tree);
}

#[test]
fn remark_at_the_top_flips_the_scope() {
    let tree = remarked(concat(vec![rule("a"), rule("b"), rule("c")]));
    let on = RemarkTags::new().remarked(&tree, false);
    assert_eq!(on, concat(vec![tagged("a", "a"), tagged("b", "b"), tagged("c", "c")]));
    let off = RemarkTags::new().remarked(&tree, true);
    assert_eq!(off, concat(vec![rule("a"), rule("b"), rule("c")]));
}

#[test]
fn two_remarks_cancel() {
    let tree = remarked(choice(vec![rule("a"), remarked(rule("b"))]));
    let out = RemarkTags::new().remarked(&tree, true);
    assert_eq!(out, choice(vec![rule("a"), tagged("b", "b")]));
}

#[test]
fn remark_goes_through_unary_nodes() {
    let tree = unary(rule("a"), vec![YggdrasilOperator::Repeats]);
    let out = RemarkTags::new().remarked(&tree, true);
    assert_eq!(out, unary(tagged("a", "a"), vec![YggdrasilOperator::Repeats]));
}

#[test]
fn remark_in_place() {
    let mut tree = concat(vec![rule("a")]);
    RemarkTags::new().remark(&mut tree, true);
    assert_eq!(tree, concat(vec![tagged("a", "a")]));
}

#[test]
fn the_tag_of_a_reference_stands_where_the_reference_stands() {
    let tree = at(
        4..9,
        ExpressionKind::Rule(RuleReference { name: "abc".to_string(), boxed: false, inline: false }),
    );
    let out = RemarkTags::new().remarked(&tree, true);
    assert_eq!(out.tag, Some(YggdrasilIdentifier { text: "abc".to_string(), range: 4..9 }));
}

// ---- field inference -------------------------------------------------------

#[test]
fn fields_of_a_class_with_two_captures() {
    let point = define(
        "Point",
        GrammarRuleKind::Class,
        concat(vec![tagged("x", "Integer"), tagged("y", "Integer")]),
    );
    let fields = point.class_fields();
    assert_eq!(
        fields,
        YggdrasilVariants {
            fields: vec![
                field("x", "Integer", FieldCounter::One),
                field("y", "Integer", FieldCounter::One),
            ]
        }
    );
}

#[test]
fn fields_of_a_class_with_an_optional_capture() {
    let opt = define(
        "Opt",
        GrammarRuleKind::Class,
        unary(tagged("x", "Integer"), vec![YggdrasilOperator::suffix("?")]),
    );
    assert_eq!(
        opt.class_fields(),
        YggdrasilVariants { fields: vec![field("x", "Integer", FieldCounter::Optional)] }
    );
}

#[test]
fn fields_of_a_union() {
    let e = define(
        "E",
        GrammarRuleKind::Union,
        choice(vec![branch(tagged("x", "Integer"), "Num"), branch(tagged("y", "Text"), "Str")]),
    );
    let variants = e.union_fields().unwrap();
    assert_eq!(variants.len(), 2);
    assert_eq!(
        variants.get(&"Num".to_string()),
        Some(&YggdrasilVariants { fields: vec![field("x", "Integer", FieldCounter::One)] })
    );
    assert_eq!(
        variants.get(&"Str".to_string()),
        Some(&YggdrasilVariants { fields: vec![field("y", "Text", FieldCounter::One)] })
    );
    assert_eq!(variants.get(&"Other".to_string()), None);
}

#[test]
fn union_variants_are_named_in_pascal_case() {
    let e = define("E", GrammarRuleKind::Union, choice(vec![branch(rule("x"), "two_words")]));
    let variants = e.union_fields().unwrap();
    assert!(variants.get(&"TwoWords".to_string()).is_some());
}

#[test]
fn a_union_branch_without_a_tag_is_an_error() {
    let e = define(
        "E",
        GrammarRuleKind::Union,
        choice(vec![branch(tagged("x", "Integer"), "Num"), at(5..8, ExpressionKind::CharacterAny)]),
    );
    let error = e.union_fields().unwrap_err();
    assert_eq!(error, YggdrasilError::missing_branch_tag(&"E".to_string(), &(5..8)));
    assert_eq!(error.message(), "union branch without a tag in rule: E");
}

#[test]
fn a_rule_without_a_body_has_no_fields() {
    let r = GrammarRule::new(id("Empty"), &(0..0), GrammarRuleKind::Class);
    assert_eq!(r.class_fields().len(), 0);
    let u = GrammarRule::new(id("Empty"), &(0..0), GrammarRuleKind::Union);
    assert_eq!(u.union_fields().unwrap().len(), 0);
}

#[test]
fn a_choice_makes_one_sided_fields_optional() {
    let tree = choice(vec![tagged("x", "A"), tagged("y", "B")]);
    assert_eq!(
        tree.field_map(),
        YggdrasilVariants {
            fields: vec![
                field("x", "A", FieldCounter::Optional),
                field("y", "B", FieldCounter::Optional),
            ]
        }
    );
}

#[test]
fn a_choice_keeps_a_field_of_both_sides() {
    let tree = choice(vec![
        tagged("x", "A"),
        unary(tagged("x", "A"), vec![YggdrasilOperator::Repeats]),
    ]);
    assert_eq!(
        tree.field_map(),
        YggdrasilVariants { fields: vec![field("x", "A", FieldCounter::Many)] }
    );
}

#[test]
fn a_sequence_keeps_the_fields_of_one_side() {
    let tree = concat(vec![
        tagged("x", "A"),
        unary(tagged("y", "B"), vec![YggdrasilOperator::Optional]),
        text("lit"),
        rule("untagged"),
    ]);
    assert_eq!(
        tree.field_map(),
        YggdrasilVariants {
            fields: vec![field("x", "A", FieldCounter::One), field("y", "B", FieldCounter::Optional)]
        }
    );
}

#[test]
fn a_negative_lookahead_suppresses_its_fields() {
    let tree = concat(vec![
        tagged("x", "A"),
        unary(tagged("x", "A"), vec![YggdrasilOperator::Negative]),
    ]);
    assert_eq!(
        tree.field_map(),
        YggdrasilVariants { fields: vec![field("x", "A", FieldCounter::Never)] }
    );
}

#[test]
fn field_maps_combine() {
    let a = YggdrasilVariants { fields: vec![field("x", "A", FieldCounter::One)] };
    let b = YggdrasilVariants {
        fields: vec![field("x", "A", FieldCounter::Optional), field("y", "B", FieldCounter::One)],
    };
    assert_eq!(
        a.and(b),
        YggdrasilVariants {
            fields: vec![field("x", "A", FieldCounter::Many), field("y", "B", FieldCounter::One)]
        }
    );
    let a = YggdrasilVariants { fields: vec![field("x", "A", FieldCounter::One)] };
    assert_eq!(
        a.mul(FieldCounter::Many),
        YggdrasilVariants { fields: vec![field("x", "A", FieldCounter::Many)] }
    );
    let single = YggdrasilVariants::rule(
        &id("t"),
        &RuleReference { name: "R".to_string(), boxed: false, inline: false },
        FieldCounter::One,
    );
    assert_eq!(single.position(&"t".to_string()), Some(0));
    assert_eq!(single.position(&"u".to_string()), None);
    assert_eq!(single.get(&"t".to_string()), Some(&field("t", "R", FieldCounter::One)));
}

#[test]
fn as_class_carries_name_and_documentation() {
    let mut r = define("Point", GrammarRuleKind::Class, tagged("x", "Integer"));
    r.document = "a point".to_string();
    let class = r.as_class();
    assert_eq!(class.name, "Point");
    assert_eq!(class.document, "a point");
    assert_eq!(class.fields.len(), 1);
}

// ---- the passes on grammars ------------------------------------------------

#[test]
fn a_pass_keeps_the_header_and_the_order_of_the_rules() {
    let mut g = grammar(vec![
        define("b", GrammarRuleKind::Class, rule("a")),
        define("a", GrammarRuleKind::Class, text("x")),
    ]);
    g.name = "demo".to_string();
    g.extensions = vec!["ygg".to_string()];
    let (out, errors) = success(RemarkTags::new().optimize(&g));
    assert!(errors.is_empty());
    assert_eq!(out.name, "demo");
    assert_eq!(out.extensions, vec!["ygg".to_string()]);
    assert_eq!(out.rule_count(), 2);
    assert_eq!(out.rule_at(0).unwrap().name.text, "b");
    assert_eq!(out.rule_at(1).unwrap().name.text, "a");
    assert_eq!(body_of(&out, "b"), tagged("a", "a"));
    assert_eq!(body_of(&g, "b"), rule("a"));
}

#[test]
fn tag_propagation_reports_untagged_union_branches() {
    let g = grammar(vec![define(
        "E",
        GrammarRuleKind::Union,
        choice(vec![branch(rule("a"), "A"), at(2..3, ExpressionKind::CharacterAny)]),
    )]);
    let (_, errors) = success(RemarkTags::new().optimize(&g));
    assert_eq!(errors, vec![YggdrasilError::missing_branch_tag(&"E".to_string(), &(2..3))]);
}

#[test]
fn tag_propagation_reports_conflicting_fields() {
    let capture = |range: Range<usize>, tag: &str, name: &str| {
        let mut e = at(
            range,
            ExpressionKind::Rule(RuleReference {
                name: name.to_string(),
                boxed: false,
                inline: false,
            }),
        );
        e.tag = Some(id(tag));
        e
    };
    let g = grammar(vec![define(
        "r",
        GrammarRuleKind::Class,
        concat(vec![
            capture(0..1, "x", "A"),
            capture(2..3, "y", "A"),
            choice(vec![capture(4..5, "x", "B"), capture(6..7, "x", "A")]),
        ]),
    )]);
    let (_, errors) = success(RemarkTags::new().optimize(&g));
    assert_eq!(
        errors,
        vec![
            YggdrasilError::conflicting_field(&"x".to_string(), &(4..5)),
            YggdrasilError::conflicting_field(&"x".to_string(), &(6..7)),
        ]
    );
    assert_eq!(errors[0].message(), "field bound to rules of different types: x");
}

#[test]
fn refinement_pass_refines_every_body() {
    let g = grammar(vec![define(
        "r",
        GrammarRuleKind::Class,
        concat(vec![concat(vec![rule("a"), rule("b")]), rule("c")]),
    )]);
    let (out, errors) = success(RefineRules::default().optimize(&g));
    assert!(errors.is_empty());
    assert_eq!(body_of(&out, "r"), concat(vec![rule("a"), rule("b"), rule("c")]));
}

#[test]
fn an_undeclared_reference_gives_one_diagnostic() {
    let missing = at(
        6..13,
        ExpressionKind::Rule(RuleReference {
            name: "missing".to_string(),
            boxed: false,
            inline: false,
        }),
    );
    let g = grammar(vec![
        define("a", GrammarRuleKind::Class, concat(vec![rule("b"), missing])),
        define("b", GrammarRuleKind::Class, text("x")),
    ]);
    let (out, errors) = success(g.optimize_all());
    assert_eq!(errors, vec![YggdrasilError::undeclared_rule(&"missing".to_string(), &(6..13))]);
    assert_eq!(errors[0].message(), "undeclared rule: missing");
    assert_eq!(out.rule_count(), 2);
    let mut stub = at(6..13, ExpressionKind::Ignored);
    stub.tag = Some(YggdrasilIdentifier { text: "missing".to_string(), range: 6..13 });
    assert_eq!(body_of(&out, "a"), concat(vec![tagged("b", "b"), stub]));
    let (_, again) = success(out.optimize_all());
    assert!(again.is_empty());
}

#[test]
fn the_pipeline_gathers_the_diagnostics_of_all_stages() {
    let g = grammar(vec![
        define("a", GrammarRuleKind::Class, at(1..2, ExpressionKind::Rule(RuleReference {
            name: "nowhere".to_string(),
            boxed: false,
            inline: false,
        }))),
        define(
            "E",
            GrammarRuleKind::Union,
            choice(vec![branch(text("x"), "X"), at(7..8, ExpressionKind::CharacterAny)]),
        ),
    ]);
    let (out, errors) = success(g.optimize_all());
    assert_eq!(
        errors,
        vec![
            YggdrasilError::missing_branch_tag(&"E".to_string(), &(7..8)),
            YggdrasilError::undeclared_rule(&"nowhere".to_string(), &(1..2)),
        ]
    );
    assert_eq!(out.rule_count(), 2);
}

#[test]
fn field_inference_after_the_pipeline() {
    let g = grammar(vec![
        define(
            "Point",
            GrammarRuleKind::Class,
            concat(vec![concat(vec![tagged("x", "Integer")]), text(","), rule("Integer")]),
        ),
        define(
            "Value",
            GrammarRuleKind::Union,
            choice(vec![
                branch(concat(vec![rule("Point"), unary(rule("Integer"), vec![YggdrasilOperator::Repeats])]), "Pair"),
                branch(tagged("n", "Integer"), "Num"),
            ]),
        ),
        define("Integer", GrammarRuleKind::Class, node(ExpressionKind::CharacterRange('0', '9'))),
    ]);
    let (out, errors) = success(g.optimize_all());
    assert!(errors.is_empty());
    assert_eq!(
        out.get_rule("Point").unwrap().class_fields(),
        YggdrasilVariants {
            fields: vec![
                field("x", "Integer", FieldCounter::One),
                field("Integer", "Integer", FieldCounter::One),
            ]
        }
    );
    let variants = out.get_rule("Value").unwrap().union_fields().unwrap();
    assert_eq!(
        variants.get(&"Pair".to_string()),
        Some(&YggdrasilVariants {
            fields: vec![
                field("Point", "Point", FieldCounter::One),
                field("Integer", "Integer", FieldCounter::Many),
            ]
        })
    );
    assert_eq!(
        variants.get(&"Num".to_string()),
        Some(&YggdrasilVariants { fields: vec![field("n", "Integer", FieldCounter::One)] })
    );
    assert_eq!(out.get_rule("Integer").unwrap().class_fields().len(), 0);
}

#[test]
fn the_generic_pipeline_threads_its_passes() {
    let g = grammar(vec![define(
        "r",
        GrammarRuleKind::Class,
        concat(vec![concat(vec![rule("a")]), rule("b")]),
    )]);
    let (out, errors) = success(g.optimize(vec![RefineRules::default(), RefineRules::default()]));
    assert!(errors.is_empty());
    assert_eq!(body_of(&out, "r"), concat(vec![rule("a"), rule("b")]));
    let (same, _) = success(g.optimize(Vec::<RefineRules>::new()));
    assert_eq!(body_of(&same, "r"), body_of(&g, "r"));
}

#[test]
fn dead_rules_go_when_the_grammar_has_an_entry() {
    let mut entry = define("main", GrammarRuleKind::Class, rule("used"));
    entry.entry = true;
    let g = grammar(vec![
        entry,
        define("used", GrammarRuleKind::Class, text("x")),
        define("unused", GrammarRuleKind::Class, text("y")),
    ]);
    let (out, errors) = success(DeadCodeEliminator::new().optimize(&g));
    assert!(errors.is_empty());
    assert_eq!(out.rule_count(), 2);
    assert!(out.declares("main"));
    assert!(out.declares("used"));
    assert!(!out.declares("unused"));
}

#[test]
fn a_rule_is_dead_where_no_chain_of_references_reaches_it() {
    let mut entry = define("main", GrammarRuleKind::Class, rule("c"));
    entry.entry = true;
    let g = grammar(vec![
        define("a", GrammarRuleKind::Class, text("a")),
        define("b", GrammarRuleKind::Class, rule("a")),
        define("c", GrammarRuleKind::Class, concat(vec![rule("b"), rule("c")])),
        define("d", GrammarRuleKind::Class, rule("e")),
        define("e", GrammarRuleKind::Class, rule("a")),
        entry,
    ]);
    let (out, errors) = success(DeadCodeEliminator::new().optimize(&g));
    assert!(errors.is_empty());
    let names: Vec<String> =
        (0..out.rule_count()).map(|i| out.rule_at(i).unwrap().name.text.clone()).collect();
    assert_eq!(names, vec!["a", "b", "c", "main"]);
}

#[test]
fn the_type_of_a_field() {
    let g = grammar(vec![define("big_number", GrammarRuleKind::Class, text("1"))]);
    assert_eq!(field("x", "big_number", FieldCounter::One).field_type(&g), "BigNumberNode");
    assert_eq!(field("x", "nowhere", FieldCounter::One).field_type(&g), "");
    let ignored =
        YggdrasilField { bind: "x".to_string(), kind: FieldKind::IgnoreText, count: FieldCounter::One };
    assert_eq!(ignored.field_type(&g), "");
    assert_eq!(g.get_rule("big_number").unwrap().node_name(), "BigNumberNode");
}

#[test]
fn the_ignored_rules_of_a_grammar() {
    let mut g = grammar(vec![
        define("a", GrammarRuleKind::Class, text("a")),
        define("ws", GrammarRuleKind::Class, text(" ")),
        define("nl", GrammarRuleKind::Class, text("\n")),
    ]);
    g.ignores = vec!["nl".to_string(), "comment".to_string(), "ws".to_string()];
    g.imports = vec!["std.ygg".to_string()];
    assert!(!g.ignore("ws".to_string()));
    assert!(g.ignore("a".to_string()));
    assert!(!g.ignore("a".to_string()));
    assert_eq!(g.ignores, vec!["nl", "comment", "ws", "a"]);
    g.ignores.pop();
    let ignored: Vec<String> = g.ignored_rules().iter().map(|r| r.name.text.clone()).collect();
    assert_eq!(ignored, vec!["nl", "ws"]);
    assert_eq!(g.rule_index("ws"), Some(1));
    assert_eq!(g.rule_index("zz"), None);
    assert_eq!(g.clone().imports, vec!["std.ygg".to_string()]);
}

#[test]
fn no_rule_goes_without_an_entry() {
    let g = grammar(vec![
        define("a", GrammarRuleKind::Class, text("x")),
        define("b", GrammarRuleKind::Class, text("y")),
    ]);
    let (out, _) = success(DeadCodeEliminator::new().optimize(&g));
    assert_eq!(out.rule_count(), 2);
}

#[test]
fn inlining_puts_the_body_in_place() {
    let inline = node(ExpressionKind::Rule(RuleReference {
        name: "ws".to_string(),
        boxed: false,
        inline: true,
    }));
    let mut auto = define("digit", GrammarRuleKind::Class, text("0"));
    auto.auto_inline = true;
    let g = grammar(vec![
        define("a", GrammarRuleKind::Class, concat(vec![inline, rule("digit"), rule("b")])),
        define("ws", GrammarRuleKind::Class, text(" ")),
        auto,
        define("b", GrammarRuleKind::Class, text("b")),
    ]);
    let (out, errors) = success(InlineRule::new().optimize(&g));
    assert!(errors.is_empty());
    assert_eq!(body_of(&out, "a"), concat(vec![text(" "), text("0"), rule("b")]));
}

#[test]
fn fusion_merges_neighbouring_character_classes() {
    let tree = choice(vec![
        at(0..3, ExpressionKind::CharacterRange('a', 'z')),
        at(4..7, ExpressionKind::CharacterRange('0', '9')),
        rule("x"),
        at(9..10, ExpressionKind::CharacterRange('A', 'Z')),
    ]);
    let fused = FuseCharset::new().fuse_node(&tree);
    assert_eq!(
        fused,
        choice(vec![
            at(0..7, ExpressionKind::CharacterSet(vec![('a', 'z'), ('0', '9')])),
            rule("x"),
            at(9..10, ExpressionKind::CharacterRange('A', 'Z')),
        ])
    );
    let mut pass = FuseCharset::new();
    match pass.fuse_choice(&ChoiceExpression {
        branches: vec![
            node(ExpressionKind::CharacterRange('a', 'b')),
            node(ExpressionKind::CharacterSet(vec![('c', 'd'), ('x', 'x')])),
            node(ExpressionKind::CharacterRange('e', 'f')),
        ],
    }) {
        Validation::Success { value, diagnostics } => {
            assert!(diagnostics.is_empty());
            assert_eq!(
                value.branches,
                vec![node(ExpressionKind::CharacterSet(vec![
                    ('a', 'b'),
                    ('c', 'd'),
                    ('x', 'x'),
                    ('e', 'f')
                ]))]
            );
        }
        Validation::Failure { .. } => panic!("fusion failed"),
    }
}

// ---- the grammar -----------------------------------------------------------

#[test]
fn a_new_grammar_is_empty() {
    let g = GrammarInfo::new();
    assert_eq!(g.rule_count(), 0);
    assert_eq!(g.range_type, "usize");
    assert!(g.rule_at(0).is_none());
    assert!(g.get_rule("a").is_none());
    assert_eq!(GrammarInfo::default().range_type, "usize");
}

#[test]
fn a_second_declaration_takes_the_place_of_the_first() {
    let mut g = grammar(vec![
        define("a", GrammarRuleKind::Class, text("1")),
        define("b", GrammarRuleKind::Class, text("2")),
    ]);
    let old = g.insert_rule(define("a", GrammarRuleKind::Class, text("3")));
    assert_eq!(old.unwrap().body, Some(text("1")));
    assert_eq!(g.rule_count(), 2);
    assert_eq!(g.rule_at(0).unwrap().body, Some(text("3")));
    let copy = g.clone();
    assert_eq!(copy.rule_count(), 2);
    assert_eq!(body_of(&copy, "b"), text("2"));
}

#[test]
fn errors_of_every_kind_have_a_message() {
    let kinds = vec![
        (YggdrasilErrorKind::IOError("io".to_string()), "io"),
        (YggdrasilErrorKind::FormatError("fmt".to_string()), "fmt"),
        (YggdrasilErrorKind::UnexpectedToken("tok".to_string()), "tok"),
        (YggdrasilErrorKind::InfoMissing("info".to_string()), "info"),
        (YggdrasilErrorKind::Unwinding, "unwinding"),
        (YggdrasilErrorKind::Unreachable, "unreachable"),
        (
            YggdrasilErrorKind::ErrorRuntime(yggdrasil_ir::errors::RuntimeError {
                message: "run".to_string(),
            }),
            "run",
        ),
    ];
    for (kind, message) in kinds {
        let e = YggdrasilError {
            error: Box::new(kind),
            level: yggdrasil_ir::errors::DiagnosticLevel::Error,
        };
        assert_eq!(e.message(), message);
        assert_eq!(e.clone(), e);
    }
}
