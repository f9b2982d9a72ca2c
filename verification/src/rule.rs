//! Rules: the named productions of a grammar, and the fields that their
//! syntax-tree nodes have.

use vstd::prelude::*;
use std::ops::Range;
use crate::errors::{missing_branch_tag_error, ErrorView, YggdrasilError};
use crate::expression::{
    expressions_view, lemma_view_children, ExpressionKind, ExpressionKindView, ExpressionView,
    IdentifierView, YggdrasilExpression, YggdrasilIdentifier,
};
use crate::fields::{spec_field_map, FieldMap, FieldView, YggdrasilVariants};
use crate::text::{pascal_case, to_pascal_case};

verus! {

/// A rule that is called with arguments.
#[derive(Clone, Copy, Debug, PartialEq, Eq, Structural)]
pub struct FunctionRule {}

/// What holds of a rule while it is read.
#[derive(Clone, Copy, Debug, PartialEq, Eq, Structural)]
pub struct GrammarRuleContext {
    pub capture: bool,
    pub atomic: bool,
}

/// The three kinds of rule.
#[derive(Clone, Copy, Debug, PartialEq, Eq, Structural)]
pub enum GrammarRuleKind {
    /// One node shape.
    Class,
    /// A tagged choice of node shapes.
    Union,
    /// An operator-precedence grammar.
    Climb,
}

/// How a rule treats what is between its parts.
#[derive(Clone, Copy, Debug, PartialEq, Eq, Structural)]
pub enum GrammarAtomic {
    Optimized,
    Atomic,
    Combined,
}

impl GrammarAtomic {
    /// Marks the rule as optimized.
    pub fn optimize(&mut self)
        ensures
            *final(self) == GrammarAtomic::Optimized,
    {
        *self = GrammarAtomic::Optimized
    }
}

/// One named production.
#[derive(Debug, PartialEq, Eq)]
pub struct GrammarRule {
    pub name: YggdrasilIdentifier,
    pub kind: GrammarRuleKind,
    /// The type of the node, where the author names one.
    pub ty: String,
    pub document: String,
    /// Whether the generated class is visible.
    pub public: bool,
    pub atomic: GrammarAtomic,
    /// Inline the rule wherever it is called.
    pub auto_inline: bool,
    /// Box the rule wherever it is called.
    pub auto_boxed: bool,
    /// Whether parsing may start at this rule.
    pub entry: bool,
    /// Whether the rule yields no node.
    pub ignored: bool,
    pub body: Option<YggdrasilExpression>,
    pub range: Range<usize>,
}

/// The model of a [`GrammarRule`].
pub struct RuleView {
    pub name: IdentifierView,
    pub kind: GrammarRuleKind,
    pub ty: Seq<char>,
    pub document: Seq<char>,
    pub public: bool,
    pub atomic: GrammarAtomic,
    pub auto_inline: bool,
    pub auto_boxed: bool,
    pub entry: bool,
    pub ignored: bool,
    pub body: Option<ExpressionView>,
    pub range: Range<usize>,
}

/// The model of a body that may be missing.
pub open spec fn body_view(body: Option<YggdrasilExpression>) -> Option<ExpressionView> {
    match body {
        Some(e) => Some(e@),
        None => None,
    }
}

impl View for GrammarRule {
    type V = RuleView;

    open spec fn view(&self) -> RuleView {
        RuleView {
            name: self.name@,
            kind: self.kind,
            ty: self.ty@,
            document: self.document@,
            public: self.public,
            atomic: self.atomic,
            auto_inline: self.auto_inline,
            auto_boxed: self.auto_boxed,
            entry: self.entry,
            ignored: self.ignored,
            body: body_view(self.body),
            range: self.range,
        }
    }
}

impl RuleView {
    /// The same rule around another body.
    pub open spec fn with_body(self, body: Option<ExpressionView>) -> RuleView {
        RuleView { body, ..self }
    }
}

impl Clone for GrammarRule {
    fn clone(&self) -> (r: Self)
        ensures
            r@ == self@,
    {
        let body = match &self.body {
            Some(e) => Some(e.clone()),
            None => None,
        };
        self.with_body(body)
    }
}

/// The syntax-tree node of one rule or of one union branch.
#[derive(Debug, PartialEq, Eq)]
pub struct YggdrasilVariant {
    pub document: String,
    pub name: String,
    pub fields: YggdrasilVariants,
}

/// The variants of a union rule: each name once.
#[derive(Debug, PartialEq, Eq)]
pub struct YggdrasilEnumerates {
    pub variants: Vec<YggdrasilVariant>,
}

/// The variants as mathematics: from the name of a variant to its fields.
pub type VariantMap = Map<Seq<char>, FieldMap>;

/// The map that a list of variants stands for; of two variants of one
/// name the later one counts.
pub open spec fn variants_map(variants: Seq<YggdrasilVariant>) -> VariantMap
    decreases variants.len(),
{
    if variants.len() == 0 {
        Map::empty()
    } else {
        variants_map(variants.drop_last()).insert(variants.last().name@, variants.last().fields@)
    }
}

impl View for YggdrasilEnumerates {
    type V = VariantMap;

    open spec fn view(&self) -> VariantMap {
        variants_map(self.variants@)
    }
}

/// The top-level alternatives of a rule body: the branches of a choice,
/// else the body itself.
pub open spec fn union_branches(body: ExpressionView) -> Seq<ExpressionView> {
    match body.body {
        ExpressionKindView::Choice(branches) => branches,
        _ => seq![body],
    }
}

/// Where the first alternative without a variant name stands.
pub open spec fn first_untagged(branches: Seq<ExpressionView>) -> Option<int>
    decreases branches.len(),
{
    if branches.len() == 0 {
        None
    } else {
        match first_untagged(branches.drop_last()) {
            Some(i) => Some(i),
            None => if branches.last().node_tag is None {
                Some(branches.len() - 1)
            } else {
                None
            },
        }
    }
}

/// The variants of a list of alternatives that all carry a name: the
/// field map of each under its name in Pascal case. Of two alternatives of
/// one name the later one counts.
pub open spec fn spec_variants(branches: Seq<ExpressionView>) -> VariantMap
    decreases branches.len(),
{
    if branches.len() == 0 {
        Map::empty()
    } else {
        match branches.last().node_tag {
            Some(tag) => spec_variants(branches.drop_last()).insert(
                pascal_case(tag.text),
                spec_field_map(branches.last()),
            ),
            None => spec_variants(branches.drop_last()),
        }
    }
}

/// The first untagged alternative is untagged, and every one before it
/// carries a name.
pub proof fn lemma_first_untagged(branches: Seq<ExpressionView>)
    ensures
        match first_untagged(branches) {
            Some(i) => 0 <= i < branches.len() && branches[i].node_tag is None && forall|j: int|
                0 <= j < i ==> (#[trigger] branches[j]).node_tag is Some,
            None => forall|j: int| 0 <= j < branches.len() ==> (#[trigger] branches[j]).node_tag is Some,
        },
    decreases branches.len(),
{
    if branches.len() > 0 {
        lemma_first_untagged(branches.drop_last());
        assert forall|j: int| 0 <= j < branches.len() - 1 implies branches.drop_last()[j]
            == branches[j] by {}
        match first_untagged(branches.drop_last()) {
            Some(i) => {
                assert(branches.drop_last()[i] == branches[i]);
                assert forall|j: int| 0 <= j < i implies (#[trigger] branches[j]).node_tag is Some by {
                    assert(branches.drop_last()[j] == branches[j]);
                }
            },
            None => {
                assert forall|j: int| 0 <= j < branches.len() - 1 implies (
                #[trigger] branches[j]).node_tag is Some by {
                    assert(branches.drop_last()[j] == branches[j]);
                }
            },
        }
    }
}

impl YggdrasilEnumerates {
    /// How many variants the list holds.
    pub fn len(&self) -> (r: usize)
        ensures
            r == self.variants@.len(),
    {
        self.variants.len()
    }

    /// The fields of the variant of this name, if there is one.
    pub fn get(&self, name: &String) -> (r: Option<&YggdrasilVariants>)
        ensures
            match r {
                Some(f) => self@.dom().contains(name@) && f@ == self@[name@],
                None => !self@.dom().contains(name@),
            },
    {
        let mut i: usize = self.variants.len();
        proof {
            assert(self.variants@.take(i as int) =~= self.variants@);
        }
        while i > 0
            invariant
                i <= self.variants.len(),
                self@.dom().contains(name@) <==> variants_map(self.variants@.take(i as int)).dom().contains(
                    name@,
                ),
                self@.dom().contains(name@) ==> self@[name@] == variants_map(
                    self.variants@.take(i as int),
                )[name@],
            decreases i,
        {
            proof {
                assert(self.variants@.take(i as int).drop_last() =~= self.variants@.take(i - 1));
                assert(self.variants@.take(i as int).last() == self.variants@[i - 1]);
            }
            if self.variants[i - 1].name == *name {
                return Some(&self.variants[i - 1].fields);
            }
            i = i - 1;
        }
        proof {
            assert(self.variants@.take(0) =~= Seq::<YggdrasilVariant>::empty());
        }
        None
    }
}

impl GrammarRule {
    /// A rule of this name and kind, without a body.
    pub fn new(name: YggdrasilIdentifier, range: &Range<usize>, kind: GrammarRuleKind) -> (r:
        GrammarRule)
        ensures
            r.name == name,
            r.kind == kind,
            r.range == *range,
            r.ty@ == Seq::<char>::empty(),
            r.document@ == Seq::<char>::empty(),
            !r.public && !r.auto_inline && !r.auto_boxed && !r.entry && !r.ignored,
            r.atomic == GrammarAtomic::Atomic,
            r.body is None,
    {
        GrammarRule {
            name,
            ty: String::new(),
            document: String::new(),
            public: false,
            atomic: GrammarAtomic::Atomic,
            auto_inline: false,
            auto_boxed: false,
            entry: false,
            ignored: false,
            kind,
            body: None,
            range: Range { start: range.start, end: range.end },
        }
    }

    /// A copy of the rule around another body.
    pub fn with_body(&self, body: Option<YggdrasilExpression>) -> (r: GrammarRule)
        ensures
            r@ == self@.with_body(body_view(body)),
    {
        GrammarRule {
            name: self.name.clone(),
            kind: self.kind,
            ty: self.ty.clone(),
            document: self.document.clone(),
            public: self.public,
            atomic: self.atomic,
            auto_inline: self.auto_inline,
            auto_boxed: self.auto_boxed,
            entry: self.entry,
            ignored: self.ignored,
            body,
            range: Range { start: self.range.start, end: self.range.end },
        }
    }

    /// The fields of a class rule: the field map of its body, and no field
    /// without a body.
    pub fn class_fields(&self) -> (r: YggdrasilVariants)
        requires
            self.kind == GrammarRuleKind::Class,
        ensures
            r.wf(),
            r@ == spec_class_fields(self@),
    {
        match &self.body {
            Some(term) => term.field_map(),
            None => YggdrasilVariants::new(),
        }
    }

    /// The node of a class rule: its name, its documentation and its
    /// fields.
    pub fn as_class(&self) -> (r: YggdrasilVariant)
        requires
            self.kind == GrammarRuleKind::Class,
        ensures
            r.name@ == self.name.text@,
            r.document@ == self.document@,
            r.fields.wf(),
            r.fields@ == spec_class_fields(self@),
    {
        YggdrasilVariant {
            document: self.document.clone(),
            name: self.name.text.clone(),
            fields: self.class_fields(),
        }
    }

    /// The variants of a union rule: one field map for each top-level
    /// alternative, under its variant name in Pascal case.
    ///
    /// An alternative without a variant name is a structural error: the
    /// first one is reported and no variant is inferred.
    pub fn union_fields(&self) -> (r: Result<YggdrasilEnumerates, YggdrasilError>)
        requires
            self.kind == GrammarRuleKind::Union,
        ensures
            match r {
                Ok(v) => spec_union_error(self@) is None && v@ == spec_union_fields(self@),
                Err(e) => spec_union_error(self@) == Some(e@),
            },
    {
        let mut variants: Vec<YggdrasilVariant> = Vec::new();
        match &self.body {
            None => {},
            Some(body) => {
                proof {
                    lemma_view_children(*body);
                }
                match &body.body {
                    ExpressionKind::Choice(many) => {
                        let ghost branches = expressions_view(many.branches@);
                        let mut i: usize = 0;
                        proof {
                            assert(branches.take(0) =~= Seq::<ExpressionView>::empty());
                            assert(spec_variants(branches.take(0)) =~= Map::<
                                Seq<char>,
                                FieldMap,
                            >::empty());
                        }
                        while i < many.branches.len()
                            invariant
                                i <= many.branches.len(),
                                branches == expressions_view(many.branches@),
                                rule_branches(self@) == branches,
                                first_untagged(branches.take(i as int)) is None,
                                variants_map(variants@) == spec_variants(branches.take(i as int)),
                            decreases many.branches.len() - i,
                        {
                            let expr = &many.branches[i];
                            proof {
                                assert(branches.take(i + 1).drop_last() =~= branches.take(i as int));
                                assert(branches.take(i + 1).last() == branches[i as int]);
                            }
                            match &expr.node_tag {
                                Some(s) => {
                                    let ghost before = variants@;
                                    variants.push(
                                        YggdrasilVariant {
                                            document: String::new(),
                                            name: to_pascal_case(s.text.as_str()),
                                            fields: expr.field_map(),
                                        },
                                    );
                                    proof {
                                        assert(variants@.drop_last() =~= before);
                                    }
                                },
                                None => {
                                    proof {
                                        lemma_untagged_prefix(branches, i as int);
                                    }
                                    return Err(
                                        YggdrasilError::missing_branch_tag(&self.name.text, &expr.range),
                                    );
                                },
                            }
                            i = i + 1;
                        }
                        proof {
                            assert(branches.take(i as int) =~= branches);
                        }
                    },
                    _ => {
                        proof {
                            let branches = seq![body@];
                            assert(branches.drop_last() =~= Seq::<ExpressionView>::empty());
                            assert(first_untagged(branches.drop_last()) is None);
                            assert(spec_variants(branches.drop_last()) =~= Map::<
                                Seq<char>,
                                FieldMap,
                            >::empty());
                        }
                        match &body.node_tag {
                            Some(s) => {
                                variants.push(
                                    YggdrasilVariant {
                                        document: String::new(),
                                        name: to_pascal_case(s.text.as_str()),
                                        fields: body.field_map(),
                                    },
                                );
                                proof {
                                    assert(variants@.drop_last() =~= Seq::<YggdrasilVariant>::empty());
                                    assert(variants_map(variants@.drop_last()) =~= Map::<
                                        Seq<char>,
                                        FieldMap,
                                    >::empty());
                                }
                            },
                            None => {
                                return Err(
                                    YggdrasilError::missing_branch_tag(&self.name.text, &body.range),
                                );
                            },
                        }
                    },
                }
            },
        }
        Ok(YggdrasilEnumerates { variants })
    }
}

/// Once a prefix of the alternatives is tagged throughout and the next
/// one is not, that one is the first untagged of the whole list.
pub proof fn lemma_untagged_prefix(branches: Seq<ExpressionView>, i: int)
    requires
        0 <= i < branches.len(),
        first_untagged(branches.take(i)) is None,
        branches[i].node_tag is None,
    ensures
        first_untagged(branches) == Some(i),
    decreases branches.len(),
{
    if i == branches.len() - 1 {
        assert(branches.drop_last() =~= branches.take(i));
    } else {
        assert(branches.drop_last().take(i) =~= branches.take(i));
        lemma_untagged_prefix(branches.drop_last(), i);
    }
}

/// The fields of a class rule.
pub open spec fn spec_class_fields(rule: RuleView) -> FieldMap {
    match rule.body {
        Some(body) => spec_field_map(body),
        None => Map::empty(),
    }
}

/// The top-level alternatives of a rule.
pub open spec fn rule_branches(rule: RuleView) -> Seq<ExpressionView> {
    match rule.body {
        Some(body) => union_branches(body),
        None => Seq::empty(),
    }
}

/// The variants of a union rule whose alternatives all carry a name.
pub open spec fn spec_union_fields(rule: RuleView) -> VariantMap {
    spec_variants(rule_branches(rule))
}

/// The error that union inference reports on a rule: that of the first
/// alternative without a variant name.
pub open spec fn spec_union_error(rule: RuleView) -> Option<ErrorView> {
    match first_untagged(rule_branches(rule)) {
        Some(i) => Some(missing_branch_tag_error(rule.name.text, rule_branches(rule)[i].range)),
        None => None,
    }
}

} // verus!
