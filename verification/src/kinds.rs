//! The kinds of node of the grammar notation itself.

use vstd::prelude::*;
use crate::node::NodeType;

verus! {

/// The kinds of node of a grammar file.
#[derive(Clone, Copy, Debug, PartialEq, Eq, Structural)]
pub enum YggdrasilType {
    Program,
    Statement,
    Expression,
    Identifier,
    Namespace,
    Error,
    Ignored,
    IgnoredText,
}

/// The number of a kind: from 0 on for the kinds of the grammar, below 0
/// for errors and for what is ignored.
pub open spec fn kind_number(kind: YggdrasilType) -> i16 {
    match kind {
        YggdrasilType::Program => 0i16,
        YggdrasilType::Statement => 1i16,
        YggdrasilType::Expression => 2i16,
        YggdrasilType::Identifier => 3i16,
        YggdrasilType::Namespace => 4i16,
        YggdrasilType::Error => -1i16,
        YggdrasilType::Ignored => -2i16,
        YggdrasilType::IgnoredText => -3i16,
    }
}

impl YggdrasilType {
    /// The number of the kind.
    pub fn number(self) -> (r: i16)
        ensures
            r == kind_number(self),
    {
        match self {
            YggdrasilType::Program => 0,
            YggdrasilType::Statement => 1,
            YggdrasilType::Expression => 2,
            YggdrasilType::Identifier => 3,
            YggdrasilType::Namespace => 4,
            YggdrasilType::Error => -1,
            YggdrasilType::Ignored => -2,
            YggdrasilType::IgnoredText => -3,
        }
    }

    /// The kind of a number, if the number is that of a kind.
    pub fn from_number(value: i16) -> (r: Option<YggdrasilType>)
        ensures
            match r {
                Some(kind) => kind_number(kind) == value,
                None => forall|kind: YggdrasilType| kind_number(kind) != value,
            },
    {
        if value == 0 {
            Some(YggdrasilType::Program)
        } else if value == 1 {
            Some(YggdrasilType::Statement)
        } else if value == 2 {
            Some(YggdrasilType::Expression)
        } else if value == 3 {
            Some(YggdrasilType::Identifier)
        } else if value == 4 {
            Some(YggdrasilType::Namespace)
        } else if value == -1 {
            Some(YggdrasilType::Error)
        } else if value == -2 {
            Some(YggdrasilType::Ignored)
        } else if value == -3 {
            Some(YggdrasilType::IgnoredText)
        } else {
            None
        }
    }

    /// Whether nodes of this kind are left out of the syntax tree.
    pub fn is_ignored(&self) -> (r: bool)
        ensures
            r == (*self == YggdrasilType::Ignored || *self == YggdrasilType::IgnoredText),
    {
        match self {
            YggdrasilType::Ignored => true,
            YggdrasilType::IgnoredText => true,
            _ => false,
        }
    }
}

impl NodeType for YggdrasilType {
    /// The number of the kind among the kinds of node: the kinds of the
    /// grammar from 0 on, the others from the top of the range down.
    open spec fn spec_code(&self) -> usize {
        match self {
            YggdrasilType::Program => 0usize,
            YggdrasilType::Statement => 1usize,
            YggdrasilType::Expression => 2usize,
            YggdrasilType::Identifier => 3usize,
            YggdrasilType::Namespace => 4usize,
            YggdrasilType::Error => usize::MAX,
            YggdrasilType::Ignored => (usize::MAX - 1) as usize,
            YggdrasilType::IgnoredText => (usize::MAX - 2) as usize,
        }
    }

    fn code(&self) -> (r: usize) {
        match self {
            YggdrasilType::Program => 0,
            YggdrasilType::Statement => 1,
            YggdrasilType::Expression => 2,
            YggdrasilType::Identifier => 3,
            YggdrasilType::Namespace => 4,
            YggdrasilType::Error => usize::MAX,
            YggdrasilType::Ignored => usize::MAX - 1,
            YggdrasilType::IgnoredText => usize::MAX - 2,
        }
    }
}

} // verus!
