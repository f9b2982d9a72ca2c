//! Hints for an editor: the diagnostics of a grammar file in the shape in
//! which a language server reports them.

use vstd::prelude::*;
use crate::errors::YggdrasilError;

verus! {

/// A place in a text, by line and column.
#[derive(Clone, Copy, Debug, PartialEq, Eq, Structural)]
pub struct Position {
    pub line: u32,
    pub character: u32,
}

/// A range of a text between two places.
#[derive(Clone, Copy, Debug, PartialEq, Eq, Structural)]
pub struct TextRange {
    pub start: Position,
    pub end: Position,
}

/// How severe a diagnostic is.
#[derive(Clone, Copy, Debug, PartialEq, Eq, Structural)]
pub enum DiagnosticSeverity {
    Error,
    Warning,
    Information,
    Hint,
}

/// A range in a document.
#[derive(Debug, PartialEq, Eq)]
pub struct Location {
    pub uri: String,
    pub range: TextRange,
}

/// Another place that a diagnostic speaks of.
#[derive(Debug, PartialEq, Eq)]
pub struct DiagnosticRelatedInformation {
    pub location: Location,
    pub message: String,
}

/// One diagnostic of a document.
#[derive(Debug, PartialEq, Eq)]
pub struct Diagnostic {
    pub range: TextRange,
    pub severity: Option<DiagnosticSeverity>,
    pub code: Option<String>,
    pub source: Option<String>,
    pub message: String,
    pub related_information: Option<Vec<DiagnosticRelatedInformation>>,
}

/// The hints that an analysis gives.
#[derive(Debug, PartialEq, Eq)]
pub struct HintItems {
    pub diagnostic: Vec<Diagnostic>,
}

impl HintItems {
    /// No hints.
    pub fn new() -> (r: HintItems)
        ensures
            r.diagnostic@.len() == 0,
    {
        HintItems { diagnostic: Vec::new() }
    }

    /// Adds the hints of `more` behind those that are there.
    pub fn merge(&mut self, more: HintItems)
        ensures
            final(self).diagnostic@ == old(self).diagnostic@ + more.diagnostic@,
    {
        let mut more = more;
        self.diagnostic.append(&mut more.diagnostic);
    }
}

/// A warning about the head of a file.
pub fn top_area_error(src: &str, msg: &str, range: TextRange) -> (r: Diagnostic)
    ensures
        r.range == range,
        r.severity == Some(DiagnosticSeverity::Warning),
        r.code is None,
        r.source matches Some(s) && s@ == src@,
        r.message@ == msg@,
        r.related_information is None,
{
    Diagnostic {
        range,
        severity: Some(DiagnosticSeverity::Warning),
        code: None,
        source: Some(src.to_owned()),
        message: msg.to_owned(),
        related_information: None,
    }
}

/// The error of a second declaration at `this`, which points to the
/// earlier declaration at `last` of the document `url`.
pub fn duplicate_declaration_error(
    src: &str,
    msg: &str,
    this: TextRange,
    url: &str,
    last: TextRange,
) -> (r: Diagnostic)
    ensures
        r.range == this,
        r.severity == Some(DiagnosticSeverity::Error),
        r.code is None,
        r.source matches Some(s) && s@ == src@,
        r.message@ == "Duplicate declaration detected"@,
        r.related_information matches Some(v) && v@.len() == 1 && v@[0].location.uri@ == url@
            && v@[0].location.range == last && v@[0].message@ == msg@,
{
    let info = DiagnosticRelatedInformation {
        location: Location { uri: url.to_owned(), range: last },
        message: msg.to_owned(),
    };
    let mut related: Vec<DiagnosticRelatedInformation> = Vec::new();
    related.push(info);
    Diagnostic {
        range: this,
        severity: Some(DiagnosticSeverity::Error),
        code: None,
        source: Some(src.to_owned()),
        message: "Duplicate declaration detected".to_owned(),
        related_information: Some(related),
    }
}

/// A rule as the older code generator holds it.
#[derive(Debug, PartialEq, Eq)]
pub struct YGGRule {
    pub name: String,
}

/// The rules that the older code generator works on.
#[derive(Debug, PartialEq, Eq)]
pub struct GrammarState {
    pub rules: Vec<YGGRule>,
}

impl GrammarState {
    /// Runs the optimisations of the older code generator: regular
    /// expressions are merged, then rules are inlined. Neither does
    /// anything yet, so the rules stay as they are and no hint is given.
    pub fn optimize(&mut self) -> (r: Result<HintItems, YggdrasilError>)
        ensures
            r matches Ok(hint) && hint.diagnostic@.len() == 0,
            *final(self) == *old(self),
    {
        let mut hint = HintItems::new();
        match self.merge_regex() {
            Ok(more) => hint.merge(more),
            Err(e) => {
                return Err(e);
            },
        }
        match self.inline() {
            Ok(more) => hint.merge(more),
            Err(e) => {
                return Err(e);
            },
        }
        Ok(hint)
    }

    /// Inlines rules: nothing yet.
    pub fn inline(&mut self) -> (r: Result<HintItems, YggdrasilError>)
        ensures
            r matches Ok(hint) && hint.diagnostic@.len() == 0,
            *final(self) == *old(self),
    {
        Ok(HintItems::new())
    }

    /// Merges regular expressions: nothing yet.
    pub fn merge_regex(&mut self) -> (r: Result<HintItems, YggdrasilError>)
        ensures
            r matches Ok(hint) && hint.diagnostic@.len() == 0,
            *final(self) == *old(self),
    {
        Ok(HintItems::new())
    }

    /// The hints about the head of the grammar: none yet.
    pub fn report_meta(&self) -> (r: HintItems)
        ensures
            r.diagnostic@.len() == 0,
    {
        HintItems::new()
    }
}

impl YGGRule {
    /// Inlines the rules that this rule calls: nothing yet.
    pub fn inline(&mut self, map: &GrammarState)
        ensures
            *final(self) == *old(self),
    {
    }

    /// Merges the regular expressions of this rule: nothing yet.
    pub fn merge_regex(&mut self)
        ensures
            *final(self) == *old(self),
    {
    }
}

} // verus!
