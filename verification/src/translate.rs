//! Translation: from the syntax tree of a grammar file to the grammar in
//! its first, unoptimised form.

use vstd::prelude::*;
use std::ops::Range;
use crate::data::{leaf_view, spec_rule_leaf};
use crate::errors::{
    duplicate_rule_error, errors_view, DiagnosticLevel, ErrorKindView, ErrorView, Validation,
    YggdrasilError, YggdrasilErrorKind,
};
use crate::expression::{
    expressions_view, lemma_view_children, ChoiceExpression, ExpressionKind, ExpressionKindView,
    ExpressionView, IdentifierView, UnaryExpression, YggdrasilExpression, YggdrasilIdentifier,
};
use crate::grammar::{
    empty_grammar, rules_insert_view, strings_view, GrammarInfo, GrammarView,
};
use crate::operator::YggdrasilOperator;
use crate::rule::{GrammarAtomic, GrammarRule, GrammarRuleKind, RuleView};
use crate::text::{same_text, starts_with_char, strip_leading, trim_leading};

verus! {

/// One character of a text literal.
#[derive(Clone, Copy, Debug, PartialEq, Eq, Structural)]
pub enum StringItem {
    /// The character itself.
    CharOne(char),
    /// The character after a backslash.
    StringEscaped(char),
}

/// What a term is made of.
#[derive(Debug, PartialEq, Eq)]
pub enum Node {
    Identifier(String),
    StringLiteral(Vec<StringItem>),
    Charset,
    Group(Box<ChoiceNode>),
}

/// One term of a rule body, with its tag and its signs.
#[derive(Debug, PartialEq, Eq)]
pub struct TermNode {
    pub tag: Option<String>,
    pub node: Node,
    pub prefix: Vec<char>,
    pub suffix: Vec<char>,
}

/// The terms of a rule body.
#[derive(Debug, PartialEq, Eq)]
pub struct ChoiceNode {
    pub terms: Vec<TermNode>,
}

/// The definition of one rule.
#[derive(Debug, PartialEq, Eq)]
pub struct DefineStatement {
    /// The words before the name.
    pub modifiers: Vec<String>,
    pub symbol: String,
    pub ty: Option<String>,
    /// Whether the rule takes arguments.
    pub arguments: bool,
    pub body: ChoiceNode,
    pub position: Range<usize>,
}

/// One statement of a grammar file.
#[derive(Debug, PartialEq, Eq)]
pub enum StatementNode {
    DefineStatement(DefineStatement),
    EmptyStatement,
}

/// A grammar file.
#[derive(Debug, PartialEq, Eq)]
pub struct ProgramNode {
    pub statements: Vec<StatementNode>,
}

/// What the translation has gathered so far.
pub struct GrammarParser {
    pub info: GrammarInfo,
    /// The documentation that waits for the next rule.
    pub docs: String,
    pub errors: Vec<YggdrasilError>,
}

/// The character that an item of a text literal stands for: after a
/// backslash `n` is the line feed and every other character itself.
pub open spec fn spec_item_char(item: StringItem) -> char {
    match item {
        StringItem::CharOne(c) => c,
        StringItem::StringEscaped(c) => if c == 'n' {
            '\n'
        } else {
            c
        },
    }
}

/// The text of a literal.
pub open spec fn spec_literal(items: Seq<StringItem>) -> Seq<char> {
    Seq::new(items.len(), |i: int| spec_item_char(items[i]))
}

/// The operator of a suffix sign.
pub open spec fn spec_suffix_sign(c: char) -> Option<YggdrasilOperator> {
    if c == '?' {
        Some(YggdrasilOperator::Optional)
    } else if c == '*' {
        Some(YggdrasilOperator::Repeats)
    } else if c == '+' {
        Some(YggdrasilOperator::Repeat1)
    } else {
        None
    }
}

/// The operator of a prefix sign.
pub open spec fn spec_prefix_sign(c: char) -> Option<YggdrasilOperator> {
    if c == '^' {
        Some(YggdrasilOperator::Remark)
    } else if c == '!' {
        Some(YggdrasilOperator::Negative)
    } else {
        None
    }
}

/// The operators of a term, the outermost last: those of the suffix signs
/// in their order, then those of the prefix signs from the last to the
/// first. There is none where a sign is unknown.
pub open spec fn spec_operators(prefix: Seq<char>, suffix: Seq<char>) -> Option<
    Seq<YggdrasilOperator>,
> {
    if (forall|i: int| 0 <= i < suffix.len() ==> spec_suffix_sign(#[trigger] suffix[i]) is Some) && (
    forall|i: int| 0 <= i < prefix.len() ==> spec_prefix_sign(#[trigger] prefix[i]) is Some) {
        Some(
            Seq::new(suffix.len(), |i: int| spec_suffix_sign(suffix[i]).unwrap()) + Seq::new(
                prefix.len(),
                |i: int| spec_prefix_sign(prefix[prefix.len() - 1 - i]).unwrap(),
            ),
        )
    } else {
        None
    }
}

/// The tag that a term carries.
pub open spec fn spec_tag(tag: Option<String>) -> Option<IdentifierView> {
    match tag {
        Some(t) => Some(IdentifierView { text: t@, range: Range { start: 0usize, end: 0usize } }),
        None => None,
    }
}

/// The expression of a rule body: the choice of its terms. There is none
/// where a term cannot be translated.
pub open spec fn spec_choice(choice: ChoiceNode) -> Option<ExpressionView>
    decreases choice,
{
    if forall|i: int| 0 <= i < choice.terms@.len() ==> spec_term(#[trigger] choice.terms@[i]) is Some {
        Some(
            ExpressionView::bare(
                ExpressionKindView::Choice(
                    Seq::new(
                        choice.terms@.len(),
                        |i: int|
                            if 0 <= i < choice.terms@.len() {
                                spec_term(choice.terms@[i]).unwrap()
                            } else {
                                arbitrary()
                            },
                    ),
                ),
                Range { start: 0usize, end: 0usize },
            ),
        )
    } else {
        None
    }
}

/// What a term is, before its signs: a name is the leaf that it stands
/// for, a literal is its text, a group is the choice of its terms. A
/// character set cannot be translated, nor the name `XID_START`.
pub open spec fn spec_node(node: Node) -> Option<ExpressionView>
    decreases node,
{
    match node {
        Node::Identifier(name) => if name@ == "XID_START"@ {
            None
        } else {
            Some(
                ExpressionView::bare(spec_rule_leaf(name@), Range { start: 0usize, end: 0usize }),
            )
        },
        Node::StringLiteral(items) => Some(
            ExpressionView::bare(
                ExpressionKindView::Text(spec_literal(items@)),
                Range { start: 0usize, end: 0usize },
            ),
        ),
        Node::Charset => None,
        Node::Group(inner) => spec_choice(*inner),
    }
}

/// The expression of a term: what the term is, below its operators where
/// it has signs, with the tag of the term on the outermost node.
pub open spec fn spec_term(term: TermNode) -> Option<ExpressionView>
    decreases term,
{
    match (spec_node(term.node), spec_operators(term.prefix@, term.suffix@)) {
        (Some(body), Some(ops)) => if ops.len() == 0 {
            Some(ExpressionView { tag: spec_tag(term.tag), ..body })
        } else {
            Some(
                ExpressionView {
                    tag: spec_tag(term.tag),
                    ..ExpressionView::bare(
                        ExpressionKindView::Unary(Box::new(body), ops),
                        Range { start: 0usize, end: 0usize },
                    )
                },
            )
        },
        _ => None,
    }
}

/// The error of a construct that cannot be translated.
pub open spec fn unreachable_error() -> ErrorView {
    ErrorView { kind: ErrorKindView::Unreachable, level: DiagnosticLevel::Error }
}

/// The error of a construct that cannot be translated.
pub fn unreachable() -> (r: YggdrasilError)
    ensures
        r@ == unreachable_error(),
{
    YggdrasilError { error: Box::new(YggdrasilErrorKind::Unreachable), level: DiagnosticLevel::Error }
}

/// The text of a literal.
pub fn literal_text(items: &Vec<StringItem>) -> (r: Vec<char>)
    ensures
        r@ == spec_literal(items@),
{
    let mut out: Vec<char> = Vec::new();
    let mut i: usize = 0;
    while i < items.len()
        invariant
            i <= items.len(),
            out@.len() == i,
            forall|j: int| 0 <= j < i ==> out@[j] == spec_item_char(items@[j]),
        decreases items.len() - i,
    {
        let c = match items[i] {
            StringItem::CharOne(c) => c,
            StringItem::StringEscaped(c) => if c == 'n' {
                '\n'
            } else {
                c
            },
        };
        out.push(c);
        i = i + 1;
    }
    proof {
        assert(out@ =~= spec_literal(items@));
    }
    out
}

/// Calls `String::from_iter` on the characters: the text that they
/// spell.
#[verifier::external_body]
pub(crate) fn text_of(chars: &Vec<char>) -> (r: String)
    ensures
        r@ == chars@,
{
    chars.iter().collect()
}

/// The operators of a term, the outermost last.
pub fn operators_of(prefix: &Vec<char>, suffix: &Vec<char>) -> (r: Option<Vec<YggdrasilOperator>>)
    ensures
        match r {
            Some(ops) => spec_operators(prefix@, suffix@) == Some(ops@),
            None => spec_operators(prefix@, suffix@) is None,
        },
{
    let mut ops: Vec<YggdrasilOperator> = Vec::new();
    let mut i: usize = 0;
    while i < suffix.len()
        invariant
            i <= suffix.len(),
            ops@.len() == i,
            forall|j: int| 0 <= j < i ==> spec_suffix_sign(#[trigger] suffix@[j]) == Some(ops@[j]),
        decreases suffix.len() - i,
    {
        let c = suffix[i];
        if c == '?' {
            ops.push(YggdrasilOperator::Optional);
        } else if c == '*' {
            ops.push(YggdrasilOperator::Repeats);
        } else if c == '+' {
            ops.push(YggdrasilOperator::Repeat1);
        } else {
            return None;
        }
        i = i + 1;
    }
    let n = prefix.len();
    let mut k: usize = 0;
    while k < n
        invariant
            k <= n,
            n == prefix.len(),
            ops@.len() == suffix.len() + k,
            forall|j: int|
                0 <= j < suffix.len() ==> spec_suffix_sign(#[trigger] suffix@[j]) == Some(ops@[j]),
            forall|j: int|
                0 <= j < k ==> spec_prefix_sign(#[trigger] prefix@[n - 1 - j]) == Some(
                    ops@[suffix.len() + j],
                ),
        decreases n - k,
    {
        let c = prefix[n - 1 - k];
        if c == '^' {
            ops.push(YggdrasilOperator::Remark);
        } else if c == '!' {
            ops.push(YggdrasilOperator::Negative);
        } else {
            return None;
        }
        k = k + 1;
    }
    proof {
        assert forall|j: int| 0 <= j < prefix@.len() implies spec_prefix_sign(
            #[trigger] prefix@[j],
        ) is Some by {
            assert(prefix@[n - 1 - (n - 1 - j)] == prefix@[j]);
        }
        assert(ops@ =~= spec_operators(prefix@, suffix@).unwrap());
    }
    Some(ops)
}

impl TermNode {
    /// The expression of the term.
    pub fn into_expr(&self) -> (r: Result<YggdrasilExpression, YggdrasilError>)
        ensures
            match r {
                Ok(e) => spec_term(*self) == Some(e@),
                Err(e) => spec_term(*self) is None && e@ == unreachable_error(),
            },
        decreases self,
    {
        let body = match &self.node {
            Node::Identifier(name) => {
                if same_text(name.as_str(), "XID_START") {
                    return Err(unreachable());
                }
                let kind = ExpressionKind::rule(name.as_str());
                YggdrasilExpression::new(kind, Range { start: 0, end: 0 })
            },
            Node::StringLiteral(items) => {
                let chars = literal_text(items);
                YggdrasilExpression::new(
                    ExpressionKind::Text(text_of(&chars)),
                    Range { start: 0, end: 0 },
                )
            },
            Node::Charset => {
                return Err(unreachable());
            },
            Node::Group(inner) => match (&**inner).into_expr() {
                Ok(e) => e,
                Err(e) => {
                    return Err(e);
                },
            },
        };
        let ops = match operators_of(&self.prefix, &self.suffix) {
            Some(ops) => ops,
            None => {
                return Err(unreachable());
            },
        };
        let tag = match &self.tag {
            Some(t) => Some(YggdrasilIdentifier { text: t.clone(), range: Range { start: 0, end: 0 } }),
            None => None,
        };
        if ops.len() == 0 {
            let mut out = body;
            out.tag = tag;
            Ok(out)
        } else {
            let mut out = YggdrasilExpression::new(
                ExpressionKind::Unary(UnaryExpression { base: Box::new(body), operators: ops }),
                Range { start: 0, end: 0 },
            );
            out.tag = tag;
            Ok(out)
        }
    }
}

impl ChoiceNode {
    /// The expression of a rule body: the choice of its terms. A term that
    /// cannot be translated stops the translation.
    pub fn into_expr(&self) -> (r: Result<YggdrasilExpression, YggdrasilError>)
        ensures
            match r {
                Ok(e) => spec_choice(*self) == Some(e@),
                Err(e) => spec_choice(*self) is None && e@ == unreachable_error(),
            },
        decreases self,
    {
        let mut branches: Vec<YggdrasilExpression> = Vec::new();
        let mut i: usize = 0;
        while i < self.terms.len()
            invariant
                i <= self.terms.len(),
                branches@.len() == i,
                forall|j: int| 0 <= j < i ==> spec_term(#[trigger] self.terms@[j]) == Some(branches@[j]@),
            decreases self.terms.len() - i,
        {
            match self.terms[i].into_expr() {
                Ok(e) => branches.push(e),
                Err(e) => {
                    return Err(e);
                },
            }
            i = i + 1;
        }
        let out = YggdrasilExpression::new(
            ExpressionKind::Choice(ChoiceExpression { branches }),
            Range { start: 0, end: 0 },
        );
        proof {
            lemma_view_children(out);
            assert(out@.body->Choice_0 =~= spec_choice(*self).unwrap().body->Choice_0);
        }
        Ok(out)
    }
}

/// The rule that a definition declares, around a body and with the
/// documentation that waited for it: a class rule under the name without
/// its leading underscores, inlined where the name had one or the
/// modifiers say so.
pub open spec fn spec_define_rule(define: DefineStatement, document: Seq<char>, body: ExpressionView) -> RuleView {
    let modifiers = strings_view(define.modifiers@);
    RuleView {
        name: IdentifierView { text: strip_leading(define.symbol@, '_'), range: define.position },
        kind: GrammarRuleKind::Class,
        ty: match define.ty {
            Some(t) => t@,
            None => Seq::empty(),
        },
        document,
        public: false,
        atomic: if modifiers.contains("atomic"@) {
            GrammarAtomic::Atomic
        } else {
            GrammarAtomic::Combined
        },
        auto_inline: modifiers.contains("inline"@) || (define.symbol@.len() > 0 && define.symbol@[0]
            == '_'),
        auto_boxed: modifiers.contains("boxed"@),
        entry: modifiers.contains("entry"@),
        ignored: false,
        body: Some(body),
        range: define.position,
    }
}

impl DefineStatement {
    /// Whether the definition carries the modifier `name`, or `default`
    /// says so anyway.
    pub fn annotation(&self, name: &str, default: bool) -> (r: bool)
        ensures
            r == (default || strings_view(self.modifiers@).contains(name@)),
    {
        let mut field = default;
        let mut i: usize = 0;
        while i < self.modifiers.len()
            invariant
                i <= self.modifiers.len(),
                field == (default || exists|j: int|
                    0 <= j < i && strings_view(self.modifiers@)[j] == name@),
            decreases self.modifiers.len() - i,
        {
            if same_text(self.modifiers[i].as_str(), name) {
                field = true;
                proof {
                    assert(strings_view(self.modifiers@)[i as int] == name@);
                }
            }
            i = i + 1;
        }
        field
    }

    /// Declares the rule of the definition in the grammar that the
    /// translation gathers. The documentation that waited is used up,
    /// whatever comes of the body; a definition with arguments declares
    /// nothing; a body that cannot be translated is an error and declares
    /// nothing either. A rule that was declared before gives way to the
    /// new one, and the second declaration is reported.
    pub fn translate(&self, ctx: &mut GrammarParser) -> (r: Result<(), YggdrasilError>)
        ensures
            final(ctx).docs@ == Seq::<char>::empty(),
            errors_view(final(ctx).errors@) == errors_view(old(ctx).errors@) + (if r is Ok {
                spec_define_errors(*self, old(ctx).info@)
            } else {
                Seq::empty()
            }),
            match r {
                Ok(_) => spec_choice(self.body) is Some && final(ctx).info@ == (if self.arguments {
                    old(ctx).info@
                } else {
                    old(ctx).info@.with_rules(
                        rules_insert_view(
                            old(ctx).info@.rules,
                            strip_leading(self.symbol@, '_'),
                            spec_define_rule(*self, old(ctx).docs@, spec_choice(self.body).unwrap()),
                        ),
                    )
                }),
                Err(e) => spec_choice(self.body) is None && e@ == unreachable_error()
                    && final(ctx).info@ == old(ctx).info@,
            },
    {
        let mut document = String::new();
        core::mem::swap(&mut document, &mut ctx.docs);
        let name = trim_leading(self.symbol.as_str(), '_');
        let auto_inline = self.annotation("inline", false) || starts_with_char(
            self.symbol.as_str(),
            '_',
        );
        let ty = match &self.ty {
            Some(s) => s.clone(),
            None => String::new(),
        };
        let body = match self.body.into_expr() {
            Ok(e) => e,
            Err(e) => {
                proof {
                    assert(errors_view(ctx.errors@) + Seq::<ErrorView>::empty() =~= errors_view(
                        ctx.errors@,
                    ));
                }
                return Err(e);
            },
        };
        if !self.arguments {
            let rule = GrammarRule {
                name: YggdrasilIdentifier {
                    text: name,
                    range: Range { start: self.position.start, end: self.position.end },
                },
                kind: GrammarRuleKind::Class,
                ty,
                document,
                public: false,
                atomic: if self.annotation("atomic", false) {
                    GrammarAtomic::Atomic
                } else {
                    GrammarAtomic::Combined
                },
                auto_inline,
                auto_boxed: self.annotation("boxed", false),
                entry: self.annotation("entry", false),
                ignored: false,
                body: Some(body),
                range: Range { start: self.position.start, end: self.position.end },
            };
            let ghost before = ctx.errors@;
            match ctx.info.insert_rule(rule) {
                Some(_) => {
                    ctx.errors.push(
                        YggdrasilError::duplicate_rule(
                            &trim_leading(self.symbol.as_str(), '_'),
                            &self.position,
                        ),
                    );
                    proof {
                        assert(errors_view(ctx.errors@) =~= errors_view(before) + seq![
                            duplicate_rule_error(strip_leading(self.symbol@, '_'), self.position),
                        ]);
                    }
                },
                None => {
                    proof {
                        assert(errors_view(before) + Seq::<ErrorView>::empty() =~= errors_view(
                            before,
                        ));
                    }
                },
            }
        } else {
            proof {
                assert(errors_view(ctx.errors@) + Seq::<ErrorView>::empty() =~= errors_view(
                    ctx.errors@,
                ));
            }
        }
        Ok(())
    }
}

/// What a definition reports when it is declared in a grammar: the
/// second declaration of a rule that the grammar declares already.
pub open spec fn spec_define_errors(define: DefineStatement, info: GrammarView) -> Seq<ErrorView> {
    if !define.arguments && info.declares(strip_leading(define.symbol@, '_')) {
        seq![duplicate_rule_error(strip_leading(define.symbol@, '_'), define.position)]
    } else {
        Seq::empty()
    }
}

/// What the translation has made of the statements of a program.
pub struct ProgramView {
    pub info: GrammarView,
    /// The documentation that waits for the next rule.
    pub docs: Seq<char>,
    /// What was reported on the way.
    pub errors: Seq<ErrorView>,
}

/// What the translation of a program makes of a grammar, of the
/// documentation that waits and of the diagnostics so far: the rules are
/// declared in the order of the statements, the first definition uses up
/// the documentation, second declarations are reported, and there is no
/// result where a body cannot be translated.
pub open spec fn spec_program(statements: Seq<StatementNode>, start: ProgramView) -> Option<
    ProgramView,
>
    decreases statements.len(),
{
    if statements.len() == 0 {
        Some(start)
    } else {
        match spec_program(statements.drop_last(), start) {
            Some(before) => match statements.last() {
                StatementNode::DefineStatement(define) => match spec_choice(define.body) {
                    Some(body) => Some(
                        ProgramView {
                            info: if define.arguments {
                                before.info
                            } else {
                                before.info.with_rules(
                                    rules_insert_view(
                                        before.info.rules,
                                        strip_leading(define.symbol@, '_'),
                                        spec_define_rule(define, before.docs, body),
                                    ),
                                )
                            },
                            docs: Seq::empty(),
                            errors: before.errors + spec_define_errors(define, before.info),
                        },
                    ),
                    None => None,
                },
                StatementNode::EmptyStatement => Some(before),
            },
            None => None,
        }
    }
}

impl GrammarParser {
    /// What the translation has gathered, as mathematics.
    pub open spec fn state(&self) -> ProgramView {
        ProgramView { info: self.info@, docs: self.docs@, errors: errors_view(self.errors@) }
    }
}

impl ProgramNode {
    /// Translates the statements in their order into the grammar that
    /// the translation gathers, and stops at the first body that cannot be
    /// translated.
    pub fn translate(&self, ctx: &mut GrammarParser) -> (r: Result<(), YggdrasilError>)
        ensures
            match r {
                Ok(_) => Some(final(ctx).state()) == spec_program(self.statements@, old(ctx).state()),
                Err(e) => spec_program(self.statements@, old(ctx).state()) is None && e@
                    == unreachable_error(),
            },
    {
        let mut i: usize = 0;
        proof {
            assert(self.statements@.take(0) =~= Seq::<StatementNode>::empty());
        }
        while i < self.statements.len()
            invariant
                i <= self.statements.len(),
                Some(ctx.state()) == spec_program(
                    self.statements@.take(i as int),
                    old(ctx).state(),
                ),
            decreases self.statements.len() - i,
        {
            proof {
                assert(self.statements@.take(i + 1).drop_last() =~= self.statements@.take(i as int));
                assert(self.statements@.take(i + 1).last() == self.statements@[i as int]);
            }
            match &self.statements[i] {
                StatementNode::DefineStatement(define) => {
                    match define.translate(ctx) {
                        Ok(_) => {},
                        Err(e) => {
                            proof {
                                lemma_program_fails(self.statements@, old(ctx).state(), i + 1);
                            }
                            return Err(e);
                        },
                    }
                },
                StatementNode::EmptyStatement => {},
            }
            i = i + 1;
        }
        proof {
            assert(self.statements@.take(i as int) =~= self.statements@);
        }
        Ok(())
    }
}

/// Once the translation of a prefix of the statements fails, the
/// translation of the whole program fails.
pub proof fn lemma_program_fails(statements: Seq<StatementNode>, start: ProgramView, upto: int)
    requires
        0 <= upto <= statements.len(),
        spec_program(statements.take(upto), start) is None,
    ensures
        spec_program(statements, start) is None,
    decreases statements.len(),
{
    if upto < statements.len() {
        assert(statements.drop_last().take(upto) =~= statements.take(upto));
        lemma_program_fails(statements.drop_last(), start, upto);
    } else {
        assert(statements.take(upto) =~= statements);
    }
}

/// The state in which the translation of a program begins.
pub open spec fn start_state() -> ProgramView {
    ProgramView { info: empty_grammar(), docs: Seq::empty(), errors: Seq::empty() }
}

impl GrammarParser {
    /// The grammar of a program: its rules in the order of their
    /// definition, with the second declarations that were met, or the
    /// error of the first body that cannot be translated.
    pub fn parse(program: &ProgramNode) -> (r: Validation<GrammarInfo>)
        ensures
            match r {
                Validation::Success { value, diagnostics } => spec_program(
                    program.statements@,
                    start_state(),
                ) matches Some(end) && end.info == value@ && end.errors == errors_view(
                    diagnostics@,
                ),
                Validation::Failure { fatal, diagnostics } => spec_program(
                    program.statements@,
                    start_state(),
                ) is None && fatal@ == unreachable_error(),
            },
    {
        let mut ctx = GrammarParser { info: GrammarInfo::new(), docs: String::new(), errors: Vec::new() };
        proof {
            assert(errors_view(ctx.errors@) =~= Seq::<ErrorView>::empty());
        }
        match program.translate(&mut ctx) {
            Ok(_) => Validation::Success { value: ctx.info, diagnostics: ctx.errors },
            Err(e) => Validation::Failure { fatal: e, diagnostics: ctx.errors },
        }
    }
}

} // verus!
