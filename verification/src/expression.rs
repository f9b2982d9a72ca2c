//! The expression tree of a rule body, and its mathematical model.

use vstd::prelude::*;
use std::ops::Range;
use crate::operator::YggdrasilOperator;

verus! {

/// A name as it was written, with the place where it stood.
#[derive(Debug, PartialEq, Eq)]
pub struct YggdrasilIdentifier {
    pub text: String,
    pub range: Range<usize>,
}

/// The model of a [`YggdrasilIdentifier`].
pub struct IdentifierView {
    pub text: Seq<char>,
    pub range: Range<usize>,
}

impl View for YggdrasilIdentifier {
    type V = IdentifierView;

    open spec fn view(&self) -> IdentifierView {
        IdentifierView { text: self.text@, range: self.range }
    }
}

/// The model of an identifier that may be missing.
pub open spec fn identifier_view(id: Option<YggdrasilIdentifier>) -> Option<IdentifierView> {
    match id {
        Some(i) => Some(i@),
        None => None,
    }
}

/// A reference to another rule, by name.
#[derive(Debug, PartialEq, Eq)]
pub struct RuleReference {
    pub name: String,
    pub boxed: bool,
    pub inline: bool,
}

/// The model of a [`RuleReference`].
pub struct RuleReferenceView {
    pub name: Seq<char>,
    pub boxed: bool,
    pub inline: bool,
}

impl View for RuleReference {
    type V = RuleReferenceView;

    open spec fn view(&self) -> RuleReferenceView {
        RuleReferenceView { name: self.name@, boxed: self.boxed, inline: self.inline }
    }
}

/// Ordered alternation: the first branch that matches wins.
#[derive(Debug, PartialEq, Eq)]
pub struct ChoiceExpression {
    pub branches: Vec<YggdrasilExpression>,
}

/// Ordered sequence: every item has to match.
#[derive(Debug, PartialEq, Eq)]
pub struct ConcatExpression {
    pub sequence: Vec<YggdrasilExpression>,
}

/// An expression under a chain of operators, the outermost last.
#[derive(Debug, PartialEq, Eq)]
pub struct UnaryExpression {
    pub base: Box<YggdrasilExpression>,
    pub operators: Vec<YggdrasilOperator>,
}

/// What an expression node is.
#[derive(Debug, PartialEq, Eq)]
pub enum ExpressionKind {
    Choice(ChoiceExpression),
    Concat(ConcatExpression),
    Unary(UnaryExpression),
    Rule(RuleReference),
    /// A literal text.
    Text(String),
    /// Any one character.
    CharacterAny,
    /// One character of an inclusive range.
    CharacterRange(char, char),
    /// One character of a union of inclusive ranges.
    CharacterSet(Vec<(char, char)>),
    /// An integer literal, in decimal digits.
    Integer(String),
    Boolean(bool),
    /// A regular expression, by its pattern.
    Regex(String),
    /// A construct that matches and yields nothing.
    Ignored,
}

/// One node of a rule body.
#[derive(Debug, PartialEq, Eq)]
pub struct YggdrasilExpression {
    pub body: ExpressionKind,
    /// The field name that the author gave, or that tag propagation gave.
    pub tag: Option<YggdrasilIdentifier>,
    /// The variant name of a union branch.
    pub node_tag: Option<YggdrasilIdentifier>,
    /// The type annotation.
    pub ty: Option<YggdrasilIdentifier>,
    /// A pending request to flip the tagging scope below this node.
    pub remark: bool,
    pub range: Range<usize>,
}

/// The model of an [`ExpressionKind`].
pub enum ExpressionKindView {
    Choice(Seq<ExpressionView>),
    Concat(Seq<ExpressionView>),
    Unary(Box<ExpressionView>, Seq<YggdrasilOperator>),
    Rule(RuleReferenceView),
    Text(Seq<char>),
    CharacterAny,
    CharacterRange(char, char),
    CharacterSet(Seq<(char, char)>),
    Integer(Seq<char>),
    Boolean(bool),
    Regex(Seq<char>),
    Ignored,
}

/// The model of a [`YggdrasilExpression`]: the same tree over sequences.
pub struct ExpressionView {
    pub body: ExpressionKindView,
    pub tag: Option<IdentifierView>,
    pub node_tag: Option<IdentifierView>,
    pub ty: Option<IdentifierView>,
    pub remark: bool,
    pub range: Range<usize>,
}

/// The models of a sequence of expressions, item by item.
pub open spec fn expressions_view(items: Seq<YggdrasilExpression>) -> Seq<ExpressionView> {
    Seq::new(items.len(), |i: int| items[i]@)
}

/// The model of an expression tree.
pub open spec fn expression_view(e: YggdrasilExpression) -> ExpressionView
    decreases e,
{
    ExpressionView {
        body: match e.body {
            ExpressionKind::Choice(c) => ExpressionKindView::Choice(
                Seq::new(
                    c.branches@.len(),
                    |i: int|
                        if 0 <= i < c.branches@.len() {
                            expression_view(c.branches@[i])
                        } else {
                            arbitrary()
                        },
                ),
            ),
            ExpressionKind::Concat(c) => ExpressionKindView::Concat(
                Seq::new(
                    c.sequence@.len(),
                    |i: int|
                        if 0 <= i < c.sequence@.len() {
                            expression_view(c.sequence@[i])
                        } else {
                            arbitrary()
                        },
                ),
            ),
            ExpressionKind::Unary(u) => ExpressionKindView::Unary(
                Box::new(expression_view(*u.base)),
                u.operators@,
            ),
            ExpressionKind::Rule(r) => ExpressionKindView::Rule(r@),
            ExpressionKind::Text(s) => ExpressionKindView::Text(s@),
            ExpressionKind::CharacterAny => ExpressionKindView::CharacterAny,
            ExpressionKind::CharacterRange(lo, hi) => ExpressionKindView::CharacterRange(lo, hi),
            ExpressionKind::CharacterSet(ranges) => ExpressionKindView::CharacterSet(ranges@),
            ExpressionKind::Integer(s) => ExpressionKindView::Integer(s@),
            ExpressionKind::Boolean(b) => ExpressionKindView::Boolean(b),
            ExpressionKind::Regex(s) => ExpressionKindView::Regex(s@),
            ExpressionKind::Ignored => ExpressionKindView::Ignored,
        },
        tag: identifier_view(e.tag),
        node_tag: identifier_view(e.node_tag),
        ty: identifier_view(e.ty),
        remark: e.remark,
        range: e.range,
    }
}

impl View for YggdrasilExpression {
    type V = ExpressionView;

    open spec fn view(&self) -> ExpressionView {
        expression_view(*self)
    }
}

/// The body of a choice is modelled by the models of its branches, and
/// the body of a sequence by the models of its items.
pub proof fn lemma_view_children(e: YggdrasilExpression)
    ensures
        e.body matches ExpressionKind::Choice(c) ==> e@.body == ExpressionKindView::Choice(
            expressions_view(c.branches@),
        ),
        e.body matches ExpressionKind::Concat(c) ==> e@.body == ExpressionKindView::Concat(
            expressions_view(c.sequence@),
        ),
{
    match e.body {
        ExpressionKind::Choice(c) => {
            assert(e@.body->Choice_0 =~= expressions_view(c.branches@));
        },
        ExpressionKind::Concat(c) => {
            assert(e@.body->Concat_0 =~= expressions_view(c.sequence@));
        },
        _ => {},
    }
}

impl ExpressionView {
    /// A node that carries no annotation of its own: no tag, no variant
    /// name, no type and no pending remark.
    pub open spec fn is_bare(self) -> bool {
        &&& self.tag is None
        &&& self.node_tag is None
        &&& self.ty is None
        &&& !self.remark
    }

    /// A fresh node around `body`, without annotations.
    pub open spec fn bare(body: ExpressionKindView, range: Range<usize>) -> ExpressionView {
        ExpressionView { body, tag: None, node_tag: None, ty: None, remark: false, range }
    }
}

impl Clone for YggdrasilIdentifier {
    fn clone(&self) -> (r: Self)
        ensures
            r == *self,
    {
        YggdrasilIdentifier {
            text: self.text.clone(),
            range: Range { start: self.range.start, end: self.range.end },
        }
    }
}

impl Clone for RuleReference {
    fn clone(&self) -> (r: Self)
        ensures
            r == *self,
    {
        RuleReference { name: self.name.clone(), boxed: self.boxed, inline: self.inline }
    }
}

/// A copy of an identifier that may be missing.
pub fn clone_identifier(id: &Option<YggdrasilIdentifier>) -> (r: Option<YggdrasilIdentifier>)
    ensures
        r == *id,
{
    match id {
        Some(i) => Some(i.clone()),
        None => None,
    }
}

/// A copy of a list of expressions.
pub fn clone_expressions(items: &Vec<YggdrasilExpression>) -> (r: Vec<YggdrasilExpression>)
    ensures
        expressions_view(r@) == expressions_view(items@),
    decreases items,
{
    let mut out: Vec<YggdrasilExpression> = Vec::new();
    let mut i: usize = 0;
    while i < items.len()
        invariant
            i <= items.len(),
            out@.len() == i,
            forall|j: int| 0 <= j < i ==> out@[j]@ == items@[j]@,
        decreases items.len() - i,
    {
        let item = items[i].clone();
        out.push(item);
        i = i + 1;
    }
    proof {
        assert(expressions_view(out@) =~= expressions_view(items@));
    }
    out
}

/// A copy of a list of character ranges.
pub fn clone_ranges(ranges: &Vec<(char, char)>) -> (r: Vec<(char, char)>)
    ensures
        r@ == ranges@,
{
    let mut out: Vec<(char, char)> = Vec::new();
    let mut i: usize = 0;
    while i < ranges.len()
        invariant
            i <= ranges.len(),
            out@ == ranges@.take(i as int),
        decreases ranges.len() - i,
    {
        let pair = ranges[i];
        out.push(pair);
        proof {
            assert(ranges@.take(i + 1) =~= ranges@.take(i as int).push(ranges@[i as int]));
        }
        i = i + 1;
    }
    proof {
        assert(ranges@.take(i as int) =~= ranges@);
    }
    out
}

/// A copy of an operator chain.
pub fn clone_operators(ops: &Vec<YggdrasilOperator>) -> (r: Vec<YggdrasilOperator>)
    ensures
        r@ == ops@,
{
    let mut out: Vec<YggdrasilOperator> = Vec::new();
    let mut i: usize = 0;
    while i < ops.len()
        invariant
            i <= ops.len(),
            out@ == ops@.take(i as int),
        decreases ops.len() - i,
    {
        let op = ops[i];
        out.push(op);
        proof {
            assert(ops@.take(i + 1) =~= ops@.take(i as int).push(ops@[i as int]));
        }
        i = i + 1;
    }
    proof {
        assert(ops@.take(i as int) =~= ops@);
    }
    out
}

impl Clone for YggdrasilExpression {
    fn clone(&self) -> (r: Self)
        ensures
            r@ == self@,
        decreases self,
    {
        let body = match &self.body {
            ExpressionKind::Choice(c) => {
                let branches = clone_expressions(&c.branches);
                proof {
                    lemma_view_children(*self);
                }
                ExpressionKind::Choice(ChoiceExpression { branches })
            },
            ExpressionKind::Concat(c) => {
                let sequence = clone_expressions(&c.sequence);
                proof {
                    lemma_view_children(*self);
                }
                ExpressionKind::Concat(ConcatExpression { sequence })
            },
            ExpressionKind::Unary(u) => {
                let base = (&*u.base).clone();
                ExpressionKind::Unary(
                    UnaryExpression { base: Box::new(base), operators: clone_operators(&u.operators) },
                )
            },
            ExpressionKind::Rule(r) => ExpressionKind::Rule(r.clone()),
            ExpressionKind::Text(s) => ExpressionKind::Text(s.clone()),
            ExpressionKind::CharacterAny => ExpressionKind::CharacterAny,
            ExpressionKind::CharacterRange(lo, hi) => ExpressionKind::CharacterRange(*lo, *hi),
            ExpressionKind::CharacterSet(ranges) => ExpressionKind::CharacterSet(clone_ranges(ranges)),
            ExpressionKind::Integer(s) => ExpressionKind::Integer(s.clone()),
            ExpressionKind::Boolean(b) => ExpressionKind::Boolean(*b),
            ExpressionKind::Regex(s) => ExpressionKind::Regex(s.clone()),
            ExpressionKind::Ignored => ExpressionKind::Ignored,
        };
        let out = YggdrasilExpression {
            body,
            tag: clone_identifier(&self.tag),
            node_tag: clone_identifier(&self.node_tag),
            ty: clone_identifier(&self.ty),
            remark: self.remark,
            range: Range { start: self.range.start, end: self.range.end },
        };
        proof {
            lemma_view_children(out);
        }
        out
    }
}

} // verus!
