//! Errors and diagnostics.

use vstd::prelude::*;
use vstd::string::StringExecFns;
use std::ops::Range;

verus! {

/// How severe a diagnostic is.
#[derive(Clone, Copy, Debug, PartialEq, Eq, Structural)]
pub enum DiagnosticLevel {
    Error,
    Warning,
    Info,
}

/// A mistake in the grammar, with the place where it stands.
#[derive(Debug, PartialEq, Eq)]
pub struct SyntaxError {
    pub message: String,
    pub file: String,
    pub span: Range<usize>,
}

/// A failure that has no place in the source.
#[derive(Debug, PartialEq, Eq)]
pub struct RuntimeError {
    pub message: String,
}

/// What went wrong.
#[derive(Debug, PartialEq, Eq)]
pub enum YggdrasilErrorKind {
    /// An input or output failure, by its message.
    IOError(String),
    /// A formatting failure, by its message.
    FormatError(String),
    ErrorSyntax(SyntaxError),
    ErrorRuntime(RuntimeError),
    UnexpectedToken(String),
    InfoMissing(String),
    /// Some nodes failed to resolve and are being rolled back.
    Unwinding,
    /// A forbidden node was met.
    Unreachable,
}

/// One diagnostic.
#[derive(Debug, PartialEq, Eq)]
pub struct YggdrasilError {
    pub error: Box<YggdrasilErrorKind>,
    pub level: DiagnosticLevel,
}

/// The model of a [`YggdrasilErrorKind`].
pub enum ErrorKindView {
    IOError(Seq<char>),
    FormatError(Seq<char>),
    ErrorSyntax { message: Seq<char>, file: Seq<char>, span: Range<usize> },
    ErrorRuntime { message: Seq<char> },
    UnexpectedToken(Seq<char>),
    InfoMissing(Seq<char>),
    Unwinding,
    Unreachable,
}

/// The model of a [`YggdrasilError`].
pub struct ErrorView {
    pub kind: ErrorKindView,
    pub level: DiagnosticLevel,
}

impl View for YggdrasilErrorKind {
    type V = ErrorKindView;

    open spec fn view(&self) -> ErrorKindView {
        match self {
            YggdrasilErrorKind::IOError(m) => ErrorKindView::IOError(m@),
            YggdrasilErrorKind::FormatError(m) => ErrorKindView::FormatError(m@),
            YggdrasilErrorKind::ErrorSyntax(e) => ErrorKindView::ErrorSyntax {
                message: e.message@,
                file: e.file@,
                span: e.span,
            },
            YggdrasilErrorKind::ErrorRuntime(e) => ErrorKindView::ErrorRuntime { message: e.message@ },
            YggdrasilErrorKind::UnexpectedToken(m) => ErrorKindView::UnexpectedToken(m@),
            YggdrasilErrorKind::InfoMissing(m) => ErrorKindView::InfoMissing(m@),
            YggdrasilErrorKind::Unwinding => ErrorKindView::Unwinding,
            YggdrasilErrorKind::Unreachable => ErrorKindView::Unreachable,
        }
    }
}

impl View for YggdrasilError {
    type V = ErrorView;

    open spec fn view(&self) -> ErrorView {
        ErrorView { kind: (*self.error)@, level: self.level }
    }
}

/// The models of a list of diagnostics, one by one.
pub open spec fn errors_view(errors: Seq<YggdrasilError>) -> Seq<ErrorView> {
    Seq::new(errors.len(), |i: int| errors[i]@)
}

/// The structural error of a reference to a rule that nothing declares.
pub open spec fn undeclared_rule_error(name: Seq<char>, range: Range<usize>) -> ErrorView {
    ErrorView {
        kind: ErrorKindView::ErrorSyntax {
            message: "undeclared rule: "@ + name,
            file: Seq::empty(),
            span: range,
        },
        level: DiagnosticLevel::Error,
    }
}

/// The structural error of a union branch that carries no variant name.
pub open spec fn missing_branch_tag_error(rule: Seq<char>, range: Range<usize>) -> ErrorView {
    ErrorView {
        kind: ErrorKindView::ErrorSyntax {
            message: "union branch without a tag in rule: "@ + rule,
            file: Seq::empty(),
            span: range,
        },
        level: DiagnosticLevel::Error,
    }
}

/// The structural error of a field that is bound to rules of two types.
pub open spec fn conflicting_field_error(field: Seq<char>, range: Range<usize>) -> ErrorView {
    ErrorView {
        kind: ErrorKindView::ErrorSyntax {
            message: "field bound to rules of different types: "@ + field,
            file: Seq::empty(),
            span: range,
        },
        level: DiagnosticLevel::Error,
    }
}

/// The structural error of a rule that is declared a second time.
pub open spec fn duplicate_rule_error(rule: Seq<char>, range: Range<usize>) -> ErrorView {
    ErrorView {
        kind: ErrorKindView::ErrorSyntax {
            message: "rule declared twice: "@ + rule,
            file: Seq::empty(),
            span: range,
        },
        level: DiagnosticLevel::Error,
    }
}

impl YggdrasilError {
    /// A structural error with a message and a place.
    pub fn syntax_error(message: String, range: &Range<usize>) -> (r: YggdrasilError)
        ensures
            r@ == (ErrorView {
                kind: ErrorKindView::ErrorSyntax {
                    message: message@,
                    file: Seq::empty(),
                    span: *range,
                },
                level: DiagnosticLevel::Error,
            }),
    {
        YggdrasilError {
            error: Box::new(
                YggdrasilErrorKind::ErrorSyntax(
                    SyntaxError {
                        message,
                        file: String::new(),
                        span: Range { start: range.start, end: range.end },
                    },
                ),
            ),
            level: DiagnosticLevel::Error,
        }
    }

    /// The error of a reference to a rule that nothing declares.
    pub fn undeclared_rule(name: &String, range: &Range<usize>) -> (r: YggdrasilError)
        ensures
            r@ == undeclared_rule_error(name@, *range),
    {
        let message = String::from_str("undeclared rule: ").concat(name.as_str());
        YggdrasilError::syntax_error(message, range)
    }

    /// The error of a union branch that carries no variant name.
    pub fn missing_branch_tag(rule: &String, range: &Range<usize>) -> (r: YggdrasilError)
        ensures
            r@ == missing_branch_tag_error(rule@, *range),
    {
        let message = String::from_str("union branch without a tag in rule: ").concat(rule.as_str());
        YggdrasilError::syntax_error(message, range)
    }

    /// The error of a field that is bound to rules of two types.
    pub fn conflicting_field(field: &String, range: &Range<usize>) -> (r: YggdrasilError)
        ensures
            r@ == conflicting_field_error(field@, *range),
    {
        let message = String::from_str("field bound to rules of different types: ").concat(
            field.as_str(),
        );
        YggdrasilError::syntax_error(message, range)
    }

    /// The error of a rule that is declared a second time.
    pub fn duplicate_rule(rule: &String, range: &Range<usize>) -> (r: YggdrasilError)
        ensures
            r@ == duplicate_rule_error(rule@, *range),
    {
        let message = String::from_str("rule declared twice: ").concat(rule.as_str());
        YggdrasilError::syntax_error(message, range)
    }

    /// The message of the diagnostic, for display.
    pub fn message(&self) -> (r: String)
        ensures
            r@ == spec_message(self@),
    {
        match &*self.error {
            YggdrasilErrorKind::IOError(m) => m.clone(),
            YggdrasilErrorKind::FormatError(m) => m.clone(),
            YggdrasilErrorKind::ErrorSyntax(e) => e.message.clone(),
            YggdrasilErrorKind::ErrorRuntime(e) => e.message.clone(),
            YggdrasilErrorKind::UnexpectedToken(m) => m.clone(),
            YggdrasilErrorKind::InfoMissing(m) => m.clone(),
            YggdrasilErrorKind::Unwinding => String::from_str("unwinding"),
            YggdrasilErrorKind::Unreachable => String::from_str("unreachable"),
        }
    }
}

/// The message that a diagnostic carries.
pub open spec fn spec_message(e: ErrorView) -> Seq<char> {
    match e.kind {
        ErrorKindView::IOError(m) => m,
        ErrorKindView::FormatError(m) => m,
        ErrorKindView::ErrorSyntax { message, file, span } => message,
        ErrorKindView::ErrorRuntime { message } => message,
        ErrorKindView::UnexpectedToken(m) => m,
        ErrorKindView::InfoMissing(m) => m,
        ErrorKindView::Unwinding => "unwinding"@,
        ErrorKindView::Unreachable => "unreachable"@,
    }
}

impl Clone for YggdrasilError {
    fn clone(&self) -> (r: Self)
        ensures
            r@ == self@,
    {
        let kind = match &*self.error {
            YggdrasilErrorKind::IOError(m) => YggdrasilErrorKind::IOError(m.clone()),
            YggdrasilErrorKind::FormatError(m) => YggdrasilErrorKind::FormatError(m.clone()),
            YggdrasilErrorKind::ErrorSyntax(e) => YggdrasilErrorKind::ErrorSyntax(
                SyntaxError {
                    message: e.message.clone(),
                    file: e.file.clone(),
                    span: Range { start: e.span.start, end: e.span.end },
                },
            ),
            YggdrasilErrorKind::ErrorRuntime(e) => YggdrasilErrorKind::ErrorRuntime(
                RuntimeError { message: e.message.clone() },
            ),
            YggdrasilErrorKind::UnexpectedToken(m) => YggdrasilErrorKind::UnexpectedToken(m.clone()),
            YggdrasilErrorKind::InfoMissing(m) => YggdrasilErrorKind::InfoMissing(m.clone()),
            YggdrasilErrorKind::Unwinding => YggdrasilErrorKind::Unwinding,
            YggdrasilErrorKind::Unreachable => YggdrasilErrorKind::Unreachable,
        };
        YggdrasilError { error: Box::new(kind), level: self.level }
    }
}

/// The outcome of a pass: a value with the diagnostics met on the way, or
/// the error that stopped it, with the diagnostics met before.
#[derive(Debug, PartialEq, Eq)]
pub enum Validation<T> {
    Success { value: T, diagnostics: Vec<YggdrasilError> },
    Failure { fatal: YggdrasilError, diagnostics: Vec<YggdrasilError> },
}

} // verus!
