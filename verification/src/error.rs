//! Errors.

use crate::model::DeepValue;
use crate::span::Span;
use vstd::prelude::*;
use vstd::string::*;

verus! {

/// Why source text was rejected.
#[derive(Debug, Clone, Copy, PartialEq, Eq, Structural)]
pub enum ParseErrorKind {
    /// The text is too long for its positions to be counted.
    InputTooLarge,
    /// A line is indented with a tab.
    TabInIndentation,
    /// A quoted string is not closed on its line.
    UnterminatedString,
    /// A backslash in a double-quoted string is followed by a character that forms no escape.
    InvalidEscape,
    /// A `[` or `{` is never closed.
    UnterminatedFlow,
    /// A character stands where the grammar admits none.
    UnexpectedCharacter,
    /// A line of a mapping has no key.
    ExpectedKey,
    /// A scalar is expected and there is none.
    ExpectedValue,
    /// A mapping is expected and a scalar is given.
    ExpectedMapping,
    /// An entry is not indented like the entries beside it.
    BadIndentation,
    /// A key occurs twice in one mapping.
    DuplicateKey,
    /// A truth value is neither `true` nor `false`.
    InvalidBoolean,
    /// A whole number is malformed or too large.
    InvalidInteger,
    /// A range type is neither `class` nor `instance`.
    InvalidRangeType,
    /// The identifier of a schema is no absolute URI.
    InvalidUri,
    /// The name of a schema is no identifier.
    InvalidIdentifier,
}

impl DeepView for ParseErrorKind {
    type V = ParseErrorKind;

    open spec fn deep_view(&self) -> ParseErrorKind {
        *self
    }
}

impl DeepValue for ParseErrorKind {
    fn deep_clone(&self) -> (r: Self) {
        *self
    }

    fn deep_eq(&self, other: &Self) -> (r: bool) {
        *self == *other
    }
}

/// A syntax error: what is wrong and where. For a duplicate key, `related`
/// is where the key was first written.
#[derive(Debug, Clone, Copy, PartialEq, Eq, Structural)]
pub struct ParseFault {
    /// What is wrong.
    pub kind: ParseErrorKind,
    /// Where.
    pub span: Span,
    /// A second place that the error is about.
    pub related: Option<Span>,
}

impl DeepView for ParseFault {
    type V = ParseFault;

    open spec fn deep_view(&self) -> ParseFault {
        *self
    }
}

impl ParseFault {
    /// The fault of kind `kind` at `span`.
    pub open spec fn at(kind: ParseErrorKind, span: Span) -> ParseFault {
        ParseFault { kind, span, related: None }
    }

    /// The fault of kind `kind` at `span`.
    pub fn new(kind: ParseErrorKind, span: Span) -> (f: ParseFault)
        ensures
            f == ParseFault::at(kind, span),
    {
        ParseFault { kind, span, related: None }
    }
}

/// What is said of a fault of kind `kind`.
pub open spec fn spec_fault_message(kind: ParseErrorKind) -> Seq<char> {
    match kind {
        ParseErrorKind::InputTooLarge => "the text is too long"@,
        ParseErrorKind::TabInIndentation => "a line is indented with a tab"@,
        ParseErrorKind::UnterminatedString => "a quoted string is not closed"@,
        ParseErrorKind::InvalidEscape => {
            "a backslash is followed by a character that forms no escape"@
        },
        ParseErrorKind::UnterminatedFlow => "a bracket is never closed"@,
        ParseErrorKind::UnexpectedCharacter => "unexpected character"@,
        ParseErrorKind::ExpectedKey => "a key is expected"@,
        ParseErrorKind::ExpectedValue => "a scalar value is expected"@,
        ParseErrorKind::ExpectedMapping => "a mapping is expected"@,
        ParseErrorKind::BadIndentation => "an entry is not indented like the entries beside it"@,
        ParseErrorKind::DuplicateKey => "a key occurs twice in one mapping"@,
        ParseErrorKind::InvalidBoolean => "a truth value must be true or false"@,
        ParseErrorKind::InvalidInteger => "a whole number is malformed or too large"@,
        ParseErrorKind::InvalidRangeType => "a range type must be class or instance"@,
        ParseErrorKind::InvalidUri => "an absolute URI is expected"@,
        ParseErrorKind::InvalidIdentifier => "an identifier is expected"@,
    }
}

/// What is said of a fault of kind `kind`.
pub fn fault_message(kind: ParseErrorKind) -> (m: String)
    ensures
        m@ == spec_fault_message(kind),
{
    match kind {
        ParseErrorKind::InputTooLarge => String::from_str("the text is too long"),
        ParseErrorKind::TabInIndentation => String::from_str("a line is indented with a tab"),
        ParseErrorKind::UnterminatedString => String::from_str("a quoted string is not closed"),
        ParseErrorKind::InvalidEscape => {
            String::from_str("a backslash is followed by a character that forms no escape")
        },
        ParseErrorKind::UnterminatedFlow => String::from_str("a bracket is never closed"),
        ParseErrorKind::UnexpectedCharacter => String::from_str("unexpected character"),
        ParseErrorKind::ExpectedKey => String::from_str("a key is expected"),
        ParseErrorKind::ExpectedValue => String::from_str("a scalar value is expected"),
        ParseErrorKind::ExpectedMapping => String::from_str("a mapping is expected"),
        ParseErrorKind::BadIndentation => {
            String::from_str("an entry is not indented like the entries beside it")
        },
        ParseErrorKind::DuplicateKey => String::from_str("a key occurs twice in one mapping"),
        ParseErrorKind::InvalidBoolean => String::from_str("a truth value must be true or false"),
        ParseErrorKind::InvalidInteger => {
            String::from_str("a whole number is malformed or too large")
        },
        ParseErrorKind::InvalidRangeType => {
            String::from_str("a range type must be class or instance")
        },
        ParseErrorKind::InvalidUri => String::from_str("an absolute URI is expected"),
        ParseErrorKind::InvalidIdentifier => String::from_str("an identifier is expected"),
    }
}

/// The kinds of declaration in a schema.
#[derive(Debug, Clone, Copy, PartialEq, Eq, Structural)]
pub enum DeclarationKind {
    /// A class.
    Class,
    /// A slot.
    Slot,
    /// A type.
    Type,
    /// An enumeration.
    Enum,
    /// A subset.
    Subset,
}

impl DeepView for DeclarationKind {
    type V = DeclarationKind;

    open spec fn deep_view(&self) -> DeclarationKind {
        *self
    }
}

impl DeepValue for DeclarationKind {
    fn deep_clone(&self) -> (r: Self) {
        *self
    }

    fn deep_eq(&self, other: &Self) -> (r: bool) {
        *self == *other
    }
}

/// Why a structured pattern could not be expanded.
#[derive(Debug, Clone, Copy, PartialEq, Eq, Structural)]
pub enum PatternFailure {
    /// A placeholder names no pattern setting.
    Unresolved,
    /// Pattern settings refer to each other in a cycle.
    Cycle,
    /// A `{` is never closed.
    Unterminated,
}

impl DeepView for PatternFailure {
    type V = PatternFailure;

    open spec fn deep_view(&self) -> PatternFailure {
        *self
    }
}

impl DeepValue for PatternFailure {
    fn deep_clone(&self) -> (r: Self) {
        *self
    }

    fn deep_eq(&self, other: &Self) -> (r: bool) {
        *self == *other
    }
}

/// Why an import failed.
#[derive(Debug)]
pub enum ImportCause {
    /// The reference could not be resolved in any configured location.
    NotFound,
    /// The chain of imports is longer than the limit.
    DepthExceeded { limit: usize },
    /// The import declares a name that is already declared with a different body.
    Collision { kind: DeclarationKind, name: String },
    /// The imported document could not be read or parsed.
    Load { message: String },
}

/// What a [`ImportCause`] holds, as mathematical values.
pub enum ImportCauseView {
    NotFound,
    DepthExceeded { limit: usize },
    Collision { kind: DeclarationKind, name: Seq<char> },
    Load { message: Seq<char> },
}

impl DeepView for ImportCause {
    type V = ImportCauseView;

    open spec fn deep_view(&self) -> ImportCauseView {
        match self {
            ImportCause::NotFound => ImportCauseView::NotFound,
            ImportCause::DepthExceeded { limit } => {
                ImportCauseView::DepthExceeded { limit: limit.deep_view() }
            },
            ImportCause::Collision { kind, name } => {
                ImportCauseView::Collision { kind: kind.deep_view(), name: name.deep_view() }
            },
            ImportCause::Load { message } => ImportCauseView::Load { message: message.deep_view() },
        }
    }
}

impl DeepValue for ImportCause {
    fn deep_clone(&self) -> (r: Self) {
        match self {
            ImportCause::NotFound => ImportCause::NotFound,
            ImportCause::DepthExceeded { limit } => {
                ImportCause::DepthExceeded { limit: limit.deep_clone() }
            },
            ImportCause::Collision { kind, name } => {
                ImportCause::Collision { kind: kind.deep_clone(), name: name.deep_clone() }
            },
            ImportCause::Load { message } => ImportCause::Load { message: message.deep_clone() },
        }
    }

    fn deep_eq(&self, other: &Self) -> (r: bool) {
        match (self, other) {
            (ImportCause::NotFound, ImportCause::NotFound) => true,
            (ImportCause::DepthExceeded { limit: a_limit }, ImportCause::DepthExceeded { limit: b_limit }) => {
                a_limit.deep_eq(b_limit)
            },
            (ImportCause::Collision { kind: a_kind, name: a_name }, ImportCause::Collision { kind: b_kind, name: b_name }) => {
                a_kind.deep_eq(b_kind) && a_name.deep_eq(b_name)
            },
            (ImportCause::Load { message: a_message }, ImportCause::Load { message: b_message }) => {
                a_message.deep_eq(b_message)
            },
            _ => false,
        }
    }
}

/// What can go wrong while a schema is loaded.
#[derive(Debug)]
pub enum LinkMLError {
    /// The text is not a document of the language.
    ParseError { message: String, fault: Option<ParseFault> },
    /// The document is well formed but is no schema: a required field is missing.
    SchemaValidationError { message: String },
    /// An import could not be resolved or merged; `target` names it.
    ImportError { target: String, cause: ImportCause },
    /// A structured pattern could not be expanded; `name` is the placeholder.
    PatternError { name: String, cause: PatternFailure },
    /// An instance document is missing or unreadable.
    InstanceResolutionError { reference: String },
    /// A reference could not be resolved in any configured location.
    NotFound { reference: String },
    /// Reading failed.
    IoError { reference: String, message: String },
    /// A remote fetch failed; `status` is the HTTP status, if there was one.
    NetworkError { reference: String, status: Option<u16> },
    /// A remote reference was given and no HTTP client is configured.
    UnsupportedScheme { reference: String },
    /// The format is neither of the two dialects.
    InvalidFormat { format: String },
}

/// What a [`LinkMLError`] holds, as mathematical values.
pub enum LinkMLErrorView {
    ParseError { message: Seq<char>, fault: Option<ParseFault> },
    SchemaValidationError { message: Seq<char> },
    ImportError { target: Seq<char>, cause: ImportCauseView },
    PatternError { name: Seq<char>, cause: PatternFailure },
    InstanceResolutionError { reference: Seq<char> },
    NotFound { reference: Seq<char> },
    IoError { reference: Seq<char>, message: Seq<char> },
    NetworkError { reference: Seq<char>, status: Option<u16> },
    UnsupportedScheme { reference: Seq<char> },
    InvalidFormat { format: Seq<char> },
}

impl DeepView for LinkMLError {
    type V = LinkMLErrorView;

    open spec fn deep_view(&self) -> LinkMLErrorView {
        match self {
            LinkMLError::ParseError { message, fault } => {
                LinkMLErrorView::ParseError { message: message.deep_view(), fault: fault.deep_view() }
            },
            LinkMLError::SchemaValidationError { message } => {
                LinkMLErrorView::SchemaValidationError { message: message.deep_view() }
            },
            LinkMLError::ImportError { target, cause } => {
                LinkMLErrorView::ImportError { target: target.deep_view(), cause: cause.deep_view() }
            },
            LinkMLError::PatternError { name, cause } => {
                LinkMLErrorView::PatternError { name: name.deep_view(), cause: cause.deep_view() }
            },
            LinkMLError::InstanceResolutionError { reference } => {
                LinkMLErrorView::InstanceResolutionError { reference: reference.deep_view() }
            },
            LinkMLError::NotFound { reference } => {
                LinkMLErrorView::NotFound { reference: reference.deep_view() }
            },
            LinkMLError::IoError { reference, message } => {
                LinkMLErrorView::IoError { reference: reference.deep_view(), message: message.deep_view() }
            },
            LinkMLError::NetworkError { reference, status } => {
                LinkMLErrorView::NetworkError { reference: reference.deep_view(), status: status.deep_view() }
            },
            LinkMLError::UnsupportedScheme { reference } => {
                LinkMLErrorView::UnsupportedScheme { reference: reference.deep_view() }
            },
            LinkMLError::InvalidFormat { format } => {
                LinkMLErrorView::InvalidFormat { format: format.deep_view() }
            },
        }
    }
}

impl DeepValue for LinkMLError {
    fn deep_clone(&self) -> (r: Self) {
        match self {
            LinkMLError::ParseError { message, fault } => {
                LinkMLError::ParseError { message: message.deep_clone(), fault: fault.deep_clone() }
            },
            LinkMLError::SchemaValidationError { message } => {
                LinkMLError::SchemaValidationError { message: message.deep_clone() }
            },
            LinkMLError::ImportError { target, cause } => {
                LinkMLError::ImportError { target: target.deep_clone(), cause: cause.deep_clone() }
            },
            LinkMLError::PatternError { name, cause } => {
                LinkMLError::PatternError { name: name.deep_clone(), cause: cause.deep_clone() }
            },
            LinkMLError::InstanceResolutionError { reference } => {
                LinkMLError::InstanceResolutionError { reference: reference.deep_clone() }
            },
            LinkMLError::NotFound { reference } => {
                LinkMLError::NotFound { reference: reference.deep_clone() }
            },
            LinkMLError::IoError { reference, message } => {
                LinkMLError::IoError { reference: reference.deep_clone(), message: message.deep_clone() }
            },
            LinkMLError::NetworkError { reference, status } => {
                LinkMLError::NetworkError { reference: reference.deep_clone(), status: status.deep_clone() }
            },
            LinkMLError::UnsupportedScheme { reference } => {
                LinkMLError::UnsupportedScheme { reference: reference.deep_clone() }
            },
            LinkMLError::InvalidFormat { format } => {
                LinkMLError::InvalidFormat { format: format.deep_clone() }
            },
        }
    }

    fn deep_eq(&self, other: &Self) -> (r: bool) {
        match (self, other) {
            (LinkMLError::ParseError { message: a_message, fault: a_fault }, LinkMLError::ParseError { message: b_message, fault: b_fault }) => {
                a_message.deep_eq(b_message) && a_fault.deep_eq(b_fault)
            },
            (LinkMLError::SchemaValidationError { message: a_message }, LinkMLError::SchemaValidationError { message: b_message }) => {
                a_message.deep_eq(b_message)
            },
            (LinkMLError::ImportError { target: a_target, cause: a_cause }, LinkMLError::ImportError { target: b_target, cause: b_cause }) => {
                a_target.deep_eq(b_target) && a_cause.deep_eq(b_cause)
            },
            (LinkMLError::PatternError { name: a_name, cause: a_cause }, LinkMLError::PatternError { name: b_name, cause: b_cause }) => {
                a_name.deep_eq(b_name) && a_cause.deep_eq(b_cause)
            },
            (LinkMLError::InstanceResolutionError { reference: a_reference }, LinkMLError::InstanceResolutionError { reference: b_reference }) => {
                a_reference.deep_eq(b_reference)
            },
            (LinkMLError::NotFound { reference: a_reference }, LinkMLError::NotFound { reference: b_reference }) => {
                a_reference.deep_eq(b_reference)
            },
            (LinkMLError::IoError { reference: a_reference, message: a_message }, LinkMLError::IoError { reference: b_reference, message: b_message }) => {
                a_reference.deep_eq(b_reference) && a_message.deep_eq(b_message)
            },
            (LinkMLError::NetworkError { reference: a_reference, status: a_status }, LinkMLError::NetworkError { reference: b_reference, status: b_status }) => {
                a_reference.deep_eq(b_reference) && a_status.deep_eq(b_status)
            },
            (LinkMLError::UnsupportedScheme { reference: a_reference }, LinkMLError::UnsupportedScheme { reference: b_reference }) => {
                a_reference.deep_eq(b_reference)
            },
            (LinkMLError::InvalidFormat { format: a_format }, LinkMLError::InvalidFormat { format: b_format }) => {
                a_format.deep_eq(b_format)
            },
            _ => false,
        }
    }
}

} // verus!
