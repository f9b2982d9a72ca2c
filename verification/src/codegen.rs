//! What the code generators share: their settings, and what an expression
//! tells them.

use vstd::prelude::*;
use crate::counter::FieldCounter;
use crate::expression::YggdrasilExpression;
use crate::grammar::strings_view;
use crate::optimize::dead_code::{references, DeadCodeEliminator};

verus! {

/// How often a field occurs, as the older generator counts: a field that
/// occurs at all.
#[derive(Clone, Copy, Debug, PartialEq, Eq, Structural)]
pub enum FieldCount {
    Optional,
    One,
    Many,
}

impl FieldCount {
    /// The same count in the lattice of counters.
    pub fn counter(self) -> (r: FieldCounter)
        ensures
            r == match self {
                FieldCount::Optional => FieldCounter::Optional,
                FieldCount::One => FieldCounter::One,
                FieldCount::Many => FieldCounter::Many,
            },
    {
        match self {
            FieldCount::Optional => FieldCounter::Optional,
            FieldCount::One => FieldCounter::One,
            FieldCount::Many => FieldCounter::Many,
        }
    }
}

/// The settings of the generator of Rust code.
#[derive(Debug, PartialEq, Eq)]
pub struct RustCodegen {
    pub buffer: String,
    /// Whether the nodes carry their range.
    pub enable_position: bool,
    /// What stands before the name of every node type.
    pub rule_prefix: String,
    /// What stands behind the name of every node type.
    pub rule_suffix: String,
}

impl Default for RustCodegen {
    /// An empty buffer, ranges on, and node types that end in `Node`.
    fn default() -> (r: Self)
        ensures
            r.buffer@ == Seq::<char>::empty(),
            r.enable_position,
            r.rule_prefix@ == Seq::<char>::empty(),
            r.rule_suffix@ == "Node"@,
    {
        RustCodegen {
            buffer: String::new(),
            enable_position: true,
            rule_prefix: String::new(),
            rule_suffix: "Node".to_owned(),
        }
    }
}

/// What tells a generator which rules it has to know.
pub trait FieldDescriptor {
    /// The names that are added.
    spec fn spec_field_names(&self) -> Seq<Seq<char>>;

    /// Adds the names of the rules that this refers to, in the order of
    /// the text; a name that occurs twice is added twice.
    fn get_field_names(&self, buffer: &mut Vec<String>)
        ensures
            strings_view(final(buffer)@) == strings_view(old(buffer)@) + self.spec_field_names(),
    ;
}

impl FieldDescriptor for YggdrasilExpression {
    open spec fn spec_field_names(&self) -> Seq<Seq<char>> {
        references(self@)
    }

    fn get_field_names(&self, buffer: &mut Vec<String>) {
        let pass = DeadCodeEliminator::new();
        pass.collect(self, buffer);
    }
}

} // verus!
