//! The parsers that callers hold: one for each dialect, and one that takes
//! the format by name.

use crate::ast::{spec_missing_field, SchemaAstView};
use crate::document::{sniff_dialect, spec_sniff, Dialect};
use crate::error::{spec_fault_message, LinkMLError, LinkMLErrorView};
use crate::parser::LinkMLParser;
use crate::text::{eq_ignore_case, spec_eq_ignore_case, str_eq};
use crate::types::{promote, spec_promote_schema, SchemaDefinition, SchemaDefinitionView};
use vstd::prelude::*;
use vstd::string::*;

verus! {

/// The canonical schema that a source text loads to: the text is parsed and
/// the syntax tree is promoted.
pub open spec fn spec_load(text: Seq<char>) -> Result<SchemaDefinitionView, LinkMLErrorView> {
    match LinkMLParser::spec_parse(text) {
        Err(f) => Err(
            LinkMLErrorView::ParseError { message: spec_fault_message(f.kind), fault: Some(f) },
        ),
        Ok(ast) => match spec_missing_field(ast.id is Some, ast.name is Some) {
            Some(message) => Err(LinkMLErrorView::SchemaValidationError { message }),
            None => Ok(spec_promote_schema(ast)),
        },
    }
}

/// Whether an outcome of loading holds what `expected` says.
pub open spec fn spec_loaded(
    r: Result<SchemaDefinition, LinkMLError>,
    expected: Result<SchemaDefinitionView, LinkMLErrorView>,
) -> bool {
    match expected {
        Ok(v) => r matches Ok(s) && s.deep_view() == v,
        Err(e) => r matches Err(x) && x.deep_view() == e,
    }
}

/// Parses `content` and promotes the syntax tree. Every text has one
/// outcome: the canonical schema, or the error that says why it has none.
pub fn load_str(content: &str) -> (r: Result<SchemaDefinition, LinkMLError>)
    ensures
        spec_loaded(r, spec_load(content@)),
{
    match LinkMLParser::parse_schema(content) {
        Err(e) => Err(e),
        Ok(ast) => promote(&ast),
    }
}

/// Loading is a function of the text: two outcomes of loading one text hold
/// the same, be it a schema or an error.
pub proof fn law_load_deterministic(
    text: Seq<char>,
    a: Result<SchemaDefinition, LinkMLError>,
    b: Result<SchemaDefinition, LinkMLError>,
)
    requires
        spec_loaded(a, spec_load(text)),
        spec_loaded(b, spec_load(text)),
    ensures
        match (a, b) {
            (Ok(x), Ok(y)) => x.deep_view() == y.deep_view(),
            (Err(x), Err(y)) => x.deep_view() == y.deep_view(),
            _ => false,
        },
{
}

/// An outcome of loading in which what is said of a syntax error begins with
/// `prefix`.
pub open spec fn spec_prefixed(
    r: Result<SchemaDefinitionView, LinkMLErrorView>,
    prefix: Seq<char>,
) -> Result<SchemaDefinitionView, LinkMLErrorView> {
    match r {
        Err(LinkMLErrorView::ParseError { message, fault }) => Err(
            LinkMLErrorView::ParseError { message: prefix + message, fault },
        ),
        other => other,
    }
}

/// Puts `prefix` before what is said of a syntax error.
fn with_prefix(r: Result<SchemaDefinition, LinkMLError>, prefix: &str) -> (out: Result<
    SchemaDefinition,
    LinkMLError,
>)
    ensures
        forall|expected: Result<SchemaDefinitionView, LinkMLErrorView>|
            spec_loaded(r, expected) ==> spec_loaded(out, spec_prefixed(expected, prefix@)),
{
    match r {
        Err(LinkMLError::ParseError { message, fault }) => {
            let mut text = String::from_str(prefix);
            text.append(message.as_str());
            Err(LinkMLError::ParseError { message: text, fault })
        },
        other => other,
    }
}

/// What a parser offers: the canonical schema of a text.
pub trait SchemaParser {
    /// Parses `content` into a canonical schema.
    fn parse_str(&self, content: &str) -> Result<SchemaDefinition, LinkMLError>;
}

/// A parser for the braced dialect. It holds no state.
#[derive(Debug, Clone, Copy, Default)]
pub struct JsonParserSimple;

/// What the parser for the braced dialect makes of a text: a text that does
/// not begin with a bracket is rejected, any other is loaded.
pub open spec fn spec_load_json(text: Seq<char>) -> Result<SchemaDefinitionView, LinkMLErrorView> {
    if spec_sniff(text) != Dialect::Braced {
        Err(
            LinkMLErrorView::ParseError {
                message: "JSON parsing error: the document does not begin with a bracket"@,
                fault: None,
            },
        )
    } else {
        spec_prefixed(spec_load(text), "JSON parsing error: "@)
    }
}

impl JsonParserSimple {
    /// A parser for the braced dialect.
    pub fn new() -> (p: Self) {
        JsonParserSimple
    }

    /// Parses a document in the braced dialect.
    pub fn parse_str(&self, content: &str) -> (r: Result<SchemaDefinition, LinkMLError>)
        ensures
            spec_loaded(r, spec_load_json(content@)),
    {
        match sniff_dialect(content) {
            Dialect::Braced => with_prefix(load_str(content), "JSON parsing error: "),
            Dialect::Indented => Err(
                LinkMLError::ParseError {
                    message: String::from_str(
                        "JSON parsing error: the document does not begin with a bracket",
                    ),
                    fault: None,
                },
            ),
        }
    }
}

impl SchemaParser for JsonParserSimple {
    fn parse_str(&self, content: &str) -> Result<SchemaDefinition, LinkMLError> {
        JsonParserSimple::parse_str(self, content)
    }
}

/// A parser for the indented dialect. It holds no state.
#[derive(Debug, Clone, Copy, Default)]
pub struct YamlParserSimple;

impl YamlParserSimple {
    /// A parser for the indented dialect.
    pub fn new() -> (p: Self) {
        YamlParserSimple
    }

    /// Parses a document in the indented dialect. Mappings and lists between
    /// brackets are part of that dialect.
    pub fn parse_str(&self, content: &str) -> (r: Result<SchemaDefinition, LinkMLError>)
        ensures
            spec_loaded(r, spec_prefixed(spec_load(content@), "YAML parsing error: "@)),
    {
        with_prefix(load_str(content), "YAML parsing error: ")
    }
}

impl SchemaParser for YamlParserSimple {
    fn parse_str(&self, content: &str) -> Result<SchemaDefinition, LinkMLError> {
        YamlParserSimple::parse_str(self, content)
    }
}

/// A parser for the indented dialect that works on text it is handed;
/// reading files is left to the caller.
#[derive(Debug, Clone, Copy, Default)]
pub struct YamlParserV2;

impl YamlParserV2 {
    /// A parser for the indented dialect.
    pub fn new() -> (p: Self) {
        YamlParserV2
    }

    /// Parses a document.
    pub fn parse_str(&self, content: &str) -> (r: Result<SchemaDefinition, LinkMLError>)
        ensures
            spec_loaded(r, spec_load(content@)),
    {
        load_str(content)
    }
}

impl SchemaParser for YamlParserV2 {
    fn parse_str(&self, content: &str) -> Result<SchemaDefinition, LinkMLError> {
        YamlParserV2::parse_str(self, content)
    }
}

/// What the parser that takes its format by name makes of a text. The
/// formats are `yaml`, `yml` and `json`.
pub open spec fn spec_load_format(text: Seq<char>, format: Seq<char>) -> Result<
    SchemaDefinitionView,
    LinkMLErrorView,
> {
    if format == "yaml"@ || format == "yml"@ {
        spec_prefixed(spec_load(text), "YAML deserialization error: "@)
    } else if format == "json"@ {
        spec_prefixed(spec_load(text), "JSON deserialization error: "@)
    } else {
        Err(LinkMLErrorView::ParseError { message: "Unsupported format: "@ + format, fault: None })
    }
}

/// A parser that takes the format of its input by name.
#[derive(Debug, Clone, Copy)]
pub struct Parser {
    auto_resolve_imports: bool,
}

impl Parser {
    /// Whether the imports of a parsed schema are to be resolved.
    pub closed spec fn resolves_imports(&self) -> bool {
        self.auto_resolve_imports
    }

    /// A parser that leaves imports unresolved.
    pub fn new() -> (p: Self)
        ensures
            !p.resolves_imports(),
    {
        Parser { auto_resolve_imports: false }
    }

    /// A parser that asks for imports to be resolved.
    pub fn with_import_resolution() -> (p: Self)
        ensures
            p.resolves_imports(),
    {
        Parser { auto_resolve_imports: true }
    }

    /// Sets whether imports are to be resolved.
    pub fn set_auto_resolve_imports(&mut self, enabled: bool)
        ensures
            final(self).resolves_imports() == enabled,
    {
        self.auto_resolve_imports = enabled;
    }

    /// Whether imports are to be resolved.
    pub fn auto_resolve_imports(&self) -> (r: bool)
        ensures
            r == self.resolves_imports(),
    {
        self.auto_resolve_imports
    }

    /// Parses `content`, which is written in the format named `format`.
    pub fn parse_str(&self, content: &str, format: &str) -> (r: Result<
        SchemaDefinition,
        LinkMLError,
    >)
        ensures
            spec_loaded(r, spec_load_format(content@, format@)),
    {
        if str_eq(format, "yaml") || str_eq(format, "yml") {
            with_prefix(load_str(content), "YAML deserialization error: ")
        } else if str_eq(format, "json") {
            with_prefix(load_str(content), "JSON deserialization error: ")
        } else {
            let mut message = String::from_str("Unsupported format: ");
            message.append(format);
            Err(LinkMLError::ParseError { message, fault: None })
        }
    }
}

/// A parser for the braced dialect that works on text it is handed.
#[derive(Debug, Clone, Copy, Default)]
pub struct JsonParserV2;

/// What the second parser for the braced dialect makes of a text.
pub open spec fn spec_load_json_v2(
    text: Seq<char>,
) -> Result<SchemaDefinitionView, LinkMLErrorView> {
    if spec_sniff(text) != Dialect::Braced {
        Err(
            LinkMLErrorView::ParseError {
                message: "Expected text content from JSON parser"@,
                fault: None,
            },
        )
    } else {
        spec_prefixed(spec_load(text), "JSON deserialization error: "@)
    }
}

impl JsonParserV2 {
    /// A parser for the braced dialect.
    pub fn new() -> (p: Self) {
        JsonParserV2
    }

    /// Parses a document in the braced dialect.
    pub fn parse_str(&self, content: &str) -> (r: Result<SchemaDefinition, LinkMLError>)
        ensures
            spec_loaded(r, spec_load_json_v2(content@)),
    {
        match sniff_dialect(content) {
            Dialect::Braced => with_prefix(load_str(content), "JSON deserialization error: "),
            Dialect::Indented => Err(
                LinkMLError::ParseError {
                    message: String::from_str("Expected text content from JSON parser"),
                    fault: None,
                },
            ),
        }
    }
}

impl SchemaParser for JsonParserV2 {
    fn parse_str(&self, content: &str) -> Result<SchemaDefinition, LinkMLError> {
        JsonParserV2::parse_str(self, content)
    }
}

/// What the parser that delegates by format makes of a text. The name of the
/// format is taken without regard to case; `yaml` and `yml` name the
/// indented dialect, `json` the braced one.
pub open spec fn spec_load_v2(text: Seq<char>, format: Seq<char>) -> Result<
    SchemaDefinitionView,
    LinkMLErrorView,
> {
    if spec_eq_ignore_case(format, "yaml"@) || spec_eq_ignore_case(format, "yml"@) {
        spec_load(text)
    } else if spec_eq_ignore_case(format, "json"@) {
        spec_load_json_v2(text)
    } else {
        Err(LinkMLErrorView::InvalidFormat { format })
    }
}

/// A parser that delegates to the parser of the format it is told.
#[derive(Debug, Clone, Copy)]
pub struct ParserV2 {
    auto_resolve_imports: bool,
}

impl ParserV2 {
    /// Whether the imports of a parsed schema are to be resolved.
    pub closed spec fn resolves_imports(&self) -> bool {
        self.auto_resolve_imports
    }

    /// A parser that asks for imports to be resolved.
    pub fn new() -> (p: Self)
        ensures
            p.resolves_imports(),
    {
        ParserV2 { auto_resolve_imports: true }
    }

    /// The parser with the resolution of imports switched on or off.
    pub fn with_auto_resolve_imports(self, auto_resolve: bool) -> (p: Self)
        ensures
            p.resolves_imports() == auto_resolve,
    {
        ParserV2 { auto_resolve_imports: auto_resolve }
    }

    /// Whether imports are to be resolved.
    pub fn auto_resolve_imports(&self) -> (r: bool)
        ensures
            r == self.resolves_imports(),
    {
        self.auto_resolve_imports
    }

    /// Parses `content`, which is written in the format named `format`.
    pub fn parse_str(&self, content: &str, format: &str) -> (r: Result<
        SchemaDefinition,
        LinkMLError,
    >)
        ensures
            spec_loaded(r, spec_load_v2(content@, format@)),
    {
        if eq_ignore_case(format, "yaml") || eq_ignore_case(format, "yml") {
            YamlParserV2::new().parse_str(content)
        } else if eq_ignore_case(format, "json") {
            JsonParserV2::new().parse_str(content)
        } else {
            Err(LinkMLError::InvalidFormat { format: String::from_str(format) })
        }
    }

    /// Parses `content` in the format named `format`; without a name the
    /// format is `yaml`.
    pub fn parse_with_format(&self, content: &str, format: Option<&str>) -> (r: Result<
        SchemaDefinition,
        LinkMLError,
    >)
        ensures
            spec_loaded(
                r,
                spec_load_v2(
                    content@,
                    match format {
                        Some(f) => f@,
                        None => "yaml"@,
                    },
                ),
            ),
    {
        match format {
            Some(f) => self.parse_str(content, f),
            None => self.parse_str(content, "yaml"),
        }
    }
}

} // verus!
