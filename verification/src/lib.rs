//! Schema ingestion and resolution for a data-modelling language.
//!
//! A schema declares classes, slots, types, enumerations and subsets. It is
//! written in one of two dialects: keys and list items nested by indentation,
//! or mappings and lists between brackets. The library takes a schema from
//! its text to the merged, canonical form that validators and generators
//! work on:
//!
//! - [`document`] reads text into a flat list of entries with their spans;
//! - [`parser`] builds the syntax tree of [`ast`] from the entries;
//! - [`types`] promotes the tree to the canonical schema, and [`types_v2`]
//!   gives the canonical schema shared identifiers;
//! - [`import_resolver`] merges the schemas that a schema imports, and
//!   [`merge_laws`] states what holds of merging;
//! - [`instance_resolver`] gives the legal values of slots that are bound to
//!   instances, and [`pattern`] expands structured patterns;
//! - [`source_reader`] and [`schema_loader`] decide where documents are
//!   looked for and how their text is loaded;
//! - [`emitter`] writes a canonical schema out again.
//!
//! Reading files and fetching URLs is left to the caller: where the library
//! needs a document, it says which.

pub mod ast;
pub mod diagnostics;
pub mod document;
pub mod emitter;
pub mod error;
pub mod import_resolver;
pub mod instance_resolver;
pub mod merge_laws;
pub mod model;
pub mod ordered;
pub mod parser;
pub mod pattern;
pub mod schema_loader;
pub mod schema_parser;
pub mod settings;
pub mod source_reader;
pub mod span;
pub mod text;
pub mod typedb_helper;
pub mod types;
pub mod types_v2;
pub mod validation_event_handler;
