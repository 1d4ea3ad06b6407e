//! What the compiler reports: errors and warnings, each with its place.

use crate::span::Span;
use vstd::prelude::*;

verus! {

/// An error of the compiler.
#[derive(Clone, Debug)]
pub enum CompileError {
    /// Two types that had to agree do not.
    TypeError { expected: String, received: String, help_text: String, span: Span },
    /// A type parameter has trait constraints, which are not supported yet.
    WhereClauseNotYetSupported { span: Span },
    /// A placeholder would be bound to a type that contains it.
    RecursiveType { span: Span },
    /// A declaration handle that the arena does not hold.
    DeclNotFound { span: Span },
    /// A declaration of another kind than the one asked for.
    DeclKindMismatch { span: Span },
    /// A type could not be resolved.
    UnknownType { span: Span },
}

impl CompileError {
    /// What the error says of a defect of the compiler.
    pub open spec fn defect(&self) -> Seq<char> {
        match *self {
            CompileError::RecursiveType { .. } => "a type would contain itself"@,
            CompileError::DeclNotFound { .. } => "declaration not found"@,
            _ => "declaration of another kind"@,
        }
    }

    /// The words of the error.
    pub open spec fn text(&self) -> Seq<char> {
        match *self {
            CompileError::TypeError { expected, received, help_text, .. } => mismatch_words(
                expected@,
                received@,
                help_text@,
            ),
            CompileError::WhereClauseNotYetSupported { .. } => "Where clauses are not supported yet."@,
            CompileError::UnknownType { .. } => compile_error_words(None),
            _ => compile_error_words(Some(self.defect())),
        }
    }

    /// The words of the error.
    pub fn to_text(&self) -> (text: String)
        ensures
            text@ == self.text(),
    {
        match self {
            CompileError::TypeError { expected, received, help_text, .. } => mismatch_text(
                expected.as_str(),
                received.as_str(),
                help_text.as_str(),
            ),
            CompileError::WhereClauseNotYetSupported { .. } => String::from_str(
                "Where clauses are not supported yet.",
            ),
            CompileError::UnknownType { .. } => compile_error_text(None),
            CompileError::RecursiveType { .. } => compile_error_text(
                Some("a type would contain itself"),
            ),
            CompileError::DeclNotFound { .. } => compile_error_text(Some("declaration not found")),
            CompileError::DeclKindMismatch { .. } => compile_error_text(
                Some("declaration of another kind"),
            ),
        }
    }

    /// The place that the error speaks of.
    pub open spec fn place(&self) -> Span {
        match *self {
            CompileError::TypeError { span, .. } => span,
            CompileError::WhereClauseNotYetSupported { span } => span,
            CompileError::RecursiveType { span } => span,
            CompileError::DeclNotFound { span } => span,
            CompileError::DeclKindMismatch { span } => span,
            CompileError::UnknownType { span } => span,
        }
    }

    /// Whether the error is a defect of the compiler itself and none of
    /// the program: a stale or mistaken declaration handle, or a type that
    /// would contain itself.
    pub open spec fn internal(&self) -> bool {
        *self is RecursiveType || *self is DeclNotFound || *self is DeclKindMismatch
    }

    /// Whether the error is a defect of the compiler itself and none of
    /// the program.
    pub fn is_internal(&self) -> (internal: bool)
        ensures
            internal == self.internal(),
    {
        match self {
            CompileError::RecursiveType { .. }
            | CompileError::DeclNotFound { .. }
            | CompileError::DeclKindMismatch { .. } => true,
            _ => false,
        }
    }

    /// The place that the error speaks of.
    pub fn span(&self) -> (span: Span)
        ensures
            span == self.place(),
    {
        match self {
            CompileError::TypeError { span, .. } => *span,
            CompileError::WhereClauseNotYetSupported { span } => *span,
            CompileError::RecursiveType { span } => *span,
            CompileError::DeclNotFound { span } => *span,
            CompileError::DeclKindMismatch { span } => *span,
            CompileError::UnknownType { span } => *span,
        }
    }
}

/// What a warning is about.
#[derive(Clone, Copy, Debug, PartialEq, Eq, Structural)]
pub enum Warning {
    DeadFunctionDeclaration,
    DeadDeclaration,
    UnreachableCode,
}

/// The words that `sway_error::warning::Warning` has for a warning.
pub uninterp spec fn warning_words(warning: Warning) -> Seq<char>;

/// The `Display` of `sway_error::warning::Warning`: the words of the
/// warning of the same kind.
#[verifier::external_body]
fn warning_text(warning: Warning) -> (text: String)
    ensures
        text@ == warning_words(warning),
{
    match warning {
        Warning::DeadFunctionDeclaration => sway_error::warning::Warning::DeadFunctionDeclaration,
        Warning::DeadDeclaration => sway_error::warning::Warning::DeadDeclaration,
        Warning::UnreachableCode => sway_error::warning::Warning::UnreachableCode,
    }.to_string()
}

/// The words that `sway_error::type_error::TypeError` has for two types
/// that do not agree, with the help text.
pub uninterp spec fn mismatch_words(
    expected: Seq<char>,
    received: Seq<char>,
    help_text: Seq<char>,
) -> Seq<char>;

/// The `Display` of `sway_error::type_error::TypeError::MismatchedType`
/// made of the two types and the help text, at no place.
#[verifier::external_body]
fn mismatch_text(expected: &str, received: &str, help_text: &str) -> (text: String)
    ensures
        text@ == mismatch_words(expected@, received@, help_text@),
{
    sway_error::type_error::TypeError::MismatchedType {
        expected: expected.to_string(),
        received: received.to_string(),
        help_text: help_text.to_string(),
        span: sway_types::Span::dummy(),
    }.to_string()
}

/// The words that `sway_error::error::CompileError` has for a defect of
/// the compiler that is described by `what`, or for an unknown type where
/// there is no `what`.
pub uninterp spec fn compile_error_words(what: Option<Seq<char>>) -> Seq<char>;

/// The `Display` of `sway_error::error::CompileError`: of `Internal` made
/// of `what`, or of `UnknownType` where there is no `what`, at no place.
#[verifier::external_body]
fn compile_error_text(what: Option<&'static str>) -> (text: String)
    ensures
        text@ == compile_error_words(
            match what {
                Some(w) => Some(w@),
                None => None,
            },
        ),
{
    match what {
        Some(w) => sway_error::error::CompileError::Internal(w, sway_types::Span::dummy()),
        None => sway_error::error::CompileError::UnknownType { span: sway_types::Span::dummy() },
    }.to_string()
}

impl Warning {
    /// The words of the warning.
    pub open spec fn text(self) -> Seq<char> {
        warning_words(self)
    }

    /// The words of the warning.
    pub fn to_text(&self) -> (text: String)
        ensures
            text@ == self.text(),
    {
        warning_text(*self)
    }
}

/// A warning of the compiler.
#[derive(Clone, Copy, Debug, PartialEq, Eq, Structural)]
pub struct CompileWarning {
    pub span: Span,
    pub warning_content: Warning,
}

impl CompileWarning {
    /// The words of the warning.
    pub fn to_friendly_warning_string(&self) -> (text: String)
        ensures
            text@ == self.warning_content.text(),
    {
        self.warning_content.to_text()
    }

    /// The place that the warning speaks of.
    pub fn span(&self) -> (span: Span)
        ensures
            span == self.span,
    {
        self.span
    }
}

} // verus!
