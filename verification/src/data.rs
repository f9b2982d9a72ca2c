//! The leaves of an expression: how a name or a text of the grammar
//! becomes a node.

use vstd::prelude::*;
use character_set::builtin::property_bool::BY_NAME;
use crate::expression::{ExpressionKind, ExpressionKindView, RuleReference, RuleReferenceView};
use crate::fields::{FieldKind, FieldKindView, YggdrasilField};
use crate::grammar::{GrammarInfo, GrammarView};
use crate::rule::GrammarRule;
use vstd::string::StringExecFns;
use crate::text::{
    pascal_case, same_text, snake_case, starts_with_char, strip_leading, to_pascal_case,
    to_snake_case, trim_leading,
};

verus! {

/// The name of an entry of the table of character properties that the
/// `character_set` crate holds, if the table has an entry at this place.
pub uninterp spec fn builtin_table_name(index: int) -> Option<Seq<char>>;

/// The ranges of an entry of the table of character properties that the
/// `character_set` crate holds, if the table has an entry at this place.
pub uninterp spec fn builtin_table_ranges(index: int) -> Option<Seq<(char, char)>>;

/// Reads the name of one entry of `builtin::property_bool::BY_NAME` of
/// `character_set`, a constant table; there is no name from the length of
/// the table on.
#[verifier::external_body]
pub(crate) fn builtin_name(index: usize) -> (r: Option<String>)
    ensures
        string_some(r) == builtin_table_name(index as int),
{
    BY_NAME.get(index).map(|entry| entry.0.to_string())
}

/// Reads the ranges of one entry of `builtin::property_bool::BY_NAME` of
/// `character_set`, a constant table: pairs of a first and a last
/// character.
#[verifier::external_body]
pub(crate) fn builtin_ranges(index: usize) -> (r: Option<Vec<(char, char)>>)
    ensures
        ranges_some(r) == builtin_table_ranges(index as int),
{
    BY_NAME.get(index).map(|entry| entry.1.to_vec())
}

/// The view of a text that may be missing.
pub open spec fn string_some(text: Option<String>) -> Option<Seq<char>> {
    match text {
        Some(t) => Some(t@),
        None => None,
    }
}

/// The view of a list of ranges that may be missing.
pub open spec fn ranges_some(ranges: Option<Vec<(char, char)>>) -> Option<Seq<(char, char)>> {
    match ranges {
        Some(r) => Some(r@),
        None => None,
    }
}

/// The ranges of the first entry of the table, from `from` on, that has
/// this name.
pub open spec fn builtin_search(name: Seq<char>, from: int) -> Option<Seq<(char, char)>>
    decreases usize::MAX - from,
{
    if from < 0 || from >= usize::MAX {
        None
    } else {
        match builtin_table_name(from) {
            Some(n) => if n == name {
                builtin_table_ranges(from)
            } else {
                builtin_search(name, from + 1)
            },
            None => None,
        }
    }
}

/// The reference that a name of the grammar stands for: leading
/// underscores ask for inlining and are no part of the name.
pub open spec fn spec_reference(name: Seq<char>) -> RuleReferenceView {
    RuleReferenceView {
        name: strip_leading(name, '_'),
        boxed: false,
        inline: name.len() > 0 && name[0] == '_',
    }
}

/// The model of a leaf.
pub open spec fn leaf_view(kind: ExpressionKind) -> ExpressionKindView {
    match kind {
        ExpressionKind::Rule(r) => ExpressionKindView::Rule(r@),
        ExpressionKind::Text(s) => ExpressionKindView::Text(s@),
        ExpressionKind::CharacterAny => ExpressionKindView::CharacterAny,
        ExpressionKind::CharacterRange(lo, hi) => ExpressionKindView::CharacterRange(lo, hi),
        ExpressionKind::CharacterSet(ranges) => ExpressionKindView::CharacterSet(ranges@),
        ExpressionKind::Integer(s) => ExpressionKindView::Integer(s@),
        ExpressionKind::Boolean(b) => ExpressionKindView::Boolean(b),
        ExpressionKind::Regex(s) => ExpressionKindView::Regex(s@),
        _ => ExpressionKindView::Ignored,
    }
}

/// The leaf that a name of the grammar stands for: `ANY` is any
/// character, every other name refers to a rule.
pub open spec fn spec_rule_leaf(name: Seq<char>) -> ExpressionKindView {
    if name == "ANY"@ {
        ExpressionKindView::CharacterAny
    } else {
        ExpressionKindView::Rule(spec_reference(name))
    }
}

impl RuleReference {
    /// The reference that a name of the grammar stands for.
    pub fn new(name: &str) -> (r: RuleReference)
        ensures
            r@ == spec_reference(name@),
    {
        RuleReference {
            name: trim_leading(name, '_'),
            boxed: false,
            inline: starts_with_char(name, '_'),
        }
    }
}

impl ExpressionKind {
    /// The leaf that a name of the grammar stands for. The name
    /// `XID_START` has no leaf.
    pub fn rule(name: &str) -> (r: ExpressionKind)
        requires
            name@ != "XID_START"@,
        ensures
            leaf_view(r) == spec_rule_leaf(name@),
            r is CharacterAny || r is Rule,
    {
        if same_text(name, "ANY") {
            ExpressionKind::CharacterAny
        } else {
            ExpressionKind::Rule(RuleReference::new(name))
        }
    }

    /// The leaf of a literal text.
    pub fn string(string: String) -> (r: ExpressionKind)
        ensures
            r == ExpressionKind::Text(string),
    {
        ExpressionKind::Text(string)
    }

    /// The character set of a Unicode property, by the name of the
    /// property, if the table of properties knows the name.
    pub fn builtin(name: &str) -> (r: Option<ExpressionKind>)
        ensures
            match r {
                Some(kind) => kind matches ExpressionKind::CharacterSet(ranges) && Some(ranges@)
                    == builtin_search(name@, 0),
                None => builtin_search(name@, 0) is None,
            },
    {
        let mut i: usize = 0;
        while i < usize::MAX
            invariant
                builtin_search(name@, i as int) == builtin_search(name@, 0),
            decreases usize::MAX - i,
        {
            match builtin_name(i) {
                Some(n) => {
                    if same_text(n.as_str(), name) {
                        return match builtin_ranges(i) {
                            Some(ranges) => Some(ExpressionKind::CharacterSet(ranges)),
                            None => None,
                        };
                    }
                },
                None => {
                    return None;
                },
            }
            i = i + 1;
        }
        None
    }
}

/// The name of the node type of a rule: the name of the rule in Pascal
/// case, and `Node` behind it.
pub open spec fn spec_node_name(rule: Seq<char>) -> Seq<char> {
    pascal_case(rule) + "Node"@
}

/// The type of a field in generated code: the node type of the rule that
/// the field holds, where the grammar declares the rule, and nothing
/// else.
pub open spec fn spec_field_type(kind: FieldKindView, g: GrammarView) -> Seq<char> {
    match kind {
        FieldKindView::Rule(name) => match g.rule_index(name) {
            Some(i) => spec_node_name(g.rules[i].1.name.text),
            None => Seq::empty(),
        },
        _ => Seq::empty(),
    }
}

impl GrammarRule {
    /// The name of the node type of the rule.
    pub fn node_name(&self) -> (r: String)
        ensures
            r@ == spec_node_name(self.name.text@),
    {
        to_pascal_case(self.name.text.as_str()).concat("Node")
    }
}

impl YggdrasilField {
    /// The type of the field in generated code.
    pub fn field_type(&self, grammar: &GrammarInfo) -> (r: String)
        ensures
            r@ == spec_field_type(self.kind@, grammar@),
    {
        match &self.kind {
            FieldKind::Rule(name) => match grammar.get_rule(name.as_str()) {
                Some(rule) => rule.node_name(),
                None => String::new(),
            },
            _ => String::new(),
        }
    }

    /// The name of the field in generated code: the bound name in snake
    /// case.
    pub fn field_name(&self) -> (r: String)
        ensures
            r@ == snake_case(self.bind@),
    {
        to_snake_case(self.bind.as_str())
    }
}

} // verus!
