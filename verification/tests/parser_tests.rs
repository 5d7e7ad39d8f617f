use linkml_schema::ast::{AnnotationValueAst, Description, RangeType, ValueAst};
use linkml_schema::error::{LinkMLError, ParseErrorKind};
use linkml_schema::model::DeepValue;
use linkml_schema::parser::LinkMLParser;

#[test]
fn parser_tests_test_parse_minimal_schema() {
    let input = r#"
id: https://example.org/test
name: test_schema
"#;
    let schema = LinkMLParser::parse_schema(input).unwrap();
    assert_eq!(schema.id.as_ref().unwrap().value, "https://example.org/test");
    assert_eq!(schema.name.as_ref().unwrap().value, "test_schema");
}

#[test]
fn parser_tests_test_parse_schema_with_metadata() {
    let input = r#"
id: https://example.org/test
name: test_schema
title: Test Schema
description: A test schema for parser validation
version: 1.0.0
license: CC-BY-4.0
"#;
    let schema = LinkMLParser::parse_schema(input).unwrap();
    assert_eq!(schema.id.as_ref().unwrap().value, "https://example.org/test");
    assert_eq!(schema.name.as_ref().unwrap().value, "test_schema");
    assert_eq!(schema.title.as_ref().unwrap().value, "Test Schema");
    assert_eq!(schema.version.as_ref().unwrap().value, "1.0.0");
    assert_eq!(schema.license.as_ref().unwrap().value, "CC-BY-4.0");
}

#[test]
fn parser_tests_test_parse_schema_with_prefixes() {
    let input = r#"
id: https://example.org/test
name: test_schema
prefixes:
  linkml: https://w3id.org/linkml/
  skos: http://www.w3.org/2004/02/skos/core#
  rdf: http://www.w3.org/1999/02/22-rdf-syntax-ns#
default_prefix: linkml
"#;
    let schema = LinkMLParser::parse_schema(input).unwrap();
    assert_eq!(schema.prefixes.len(), 3);
    assert_eq!(schema.prefixes.get("linkml").unwrap().value, "https://w3id.org/linkml/");
    assert_eq!(schema.prefixes.get("skos").unwrap().value, "http://www.w3.org/2004/02/skos/core#");
    assert_eq!(schema.default_prefix.as_ref().unwrap().value, "linkml");
}

#[test]
fn parser_tests_test_parse_schema_with_imports() {
    let input = r#"
id: https://example.org/test
name: test_schema
imports:
  - linkml:types
  - txp:meta/identifier/identifier/schema
"#;
    let schema = LinkMLParser::parse_schema(input).unwrap();
    assert_eq!(schema.imports.len(), 2);
    assert_eq!(schema.imports[0].value, "linkml:types");
    assert_eq!(schema.imports[1].value, "txp:meta/identifier/identifier/schema");
}

#[test]
fn parser_tests_test_parse_schema_with_simple_class() {
    let input = r#"
id: https://example.org/test
name: test_schema

classes:
  Person:
    description: A person
    slots:
      - name
      - email
"#;
    let schema = LinkMLParser::parse_schema(input).unwrap();
    assert_eq!(schema.classes.len(), 1);
    let person_class = schema.classes.get("Person").unwrap();
    assert_eq!(person_class.value.name, "Person");
}

#[test]
fn parser_tests_test_parse_schema_with_class_inheritance() {
    let input = r#"
id: https://example.org/test
name: test_schema

classes:
  NamedEntity:
    description: An entity with a name
    slots:
      - name
  
  Person:
    is_a: NamedEntity
    description: A person
    slots:
      - email
"#;
    let schema = LinkMLParser::parse_schema(input).unwrap();
    assert_eq!(schema.classes.len(), 2);
    let person_class = schema.classes.get("Person").unwrap();
    assert_eq!(person_class.value.is_a.as_ref().unwrap().value, "NamedEntity");
}

#[test]
fn parser_tests_test_parse_schema_with_slots() {
    let input = r#"
id: https://example.org/test
name: test_schema

slots:
  name:
    description: A name
    range: string
    required: true
  
  email:
    description: An email address
    range: string
    pattern: "^[a-zA-Z0-9._%+-]+@[a-zA-Z0-9.-]+\\.[a-zA-Z]{2,}$"
"#;
    let schema = LinkMLParser::parse_schema(input).unwrap();
    assert_eq!(schema.slots.len(), 2);
    assert!(schema.slots.contains_key("name"));
    assert!(schema.slots.contains_key("email"));
    let email = schema.slots.get("email").unwrap();
    assert_eq!(
        email.value.pattern.as_ref().unwrap().value,
        "^[a-zA-Z0-9._%+-]+@[a-zA-Z0-9.-]+\\.[a-zA-Z]{2,}$"
    );
}

#[test]
fn parser_tests_test_parse_schema_with_enums() {
    let input = r#"
id: https://example.org/test
name: test_schema

enums:
  StatusEnum:
    description: Status values
    permissible_values:
      active:
        description: Currently active
      inactive:
        description: No longer active
      pending:
        description: Awaiting activation
"#;
    let schema = LinkMLParser::parse_schema(input).unwrap();
    assert_eq!(schema.enums.len(), 1);
    let status_enum = schema.enums.get("StatusEnum").unwrap();
    assert_eq!(status_enum.value.name, "StatusEnum");
    assert_eq!(status_enum.value.permissible_values.len(), 3);
    let (key, _) = status_enum.value.permissible_values.get_index(2).unwrap();
    assert_eq!(key, "pending");
}

#[test]
fn parser_tests_test_parse_schema_with_types() {
    let input = r#"
id: https://example.org/test
name: test_schema

types:
  EmailAddress:
    typeof: string
    description: An email address
    pattern: "^[a-zA-Z0-9._%+-]+@[a-zA-Z0-9.-]+\\.[a-zA-Z]{2,}$"
"#;
    let schema = LinkMLParser::parse_schema(input).unwrap();
    assert_eq!(schema.types.len(), 1);
    let email_type = schema.types.get("EmailAddress").unwrap();
    assert_eq!(email_type.value.name, "EmailAddress");
    assert_eq!(email_type.value.typeof_.as_ref().unwrap().value, "string");
}

#[test]
fn parser_tests_test_parse_invalid_yaml() {
    let input = r#"
id: https://example.org/test
name: [invalid: yaml: structure
"#;
    let result = LinkMLParser::parse_schema(input);
    assert!(result.is_err());
}

#[test]
fn test_parse_missing_required_fields() {
    let input = r#"
title: Test Schema Without Required Fields
"#;
    let result = LinkMLParser::parse_schema(input);
    // Parser should still succeed, validation is separate
    assert!(result.is_ok());
}

#[test]
fn parser_tests_test_parse_descriptions() {
    let input = r#"
id: https://example.org/test
name: test_schema

classes:
  Person:
    description: A simple inline description
  
  Organization:
    description: |
      A multi-line block description
      that spans multiple lines
      and preserves formatting
"#;
    let schema = LinkMLParser::parse_schema(input).unwrap();
    assert_eq!(schema.classes.len(), 2);
    match &schema.classes.get("Person").unwrap().value.description.as_ref().unwrap().value {
        Description::Inline(s) => assert_eq!(s, "A simple inline description"),
        other => panic!("expected a description on one line, got {:?}", other),
    }
    match &schema.classes.get("Organization").unwrap().value.description.as_ref().unwrap().value {
        Description::Block(s) => assert_eq!(
            s,
            "A multi-line block description\nthat spans multiple lines\nand preserves formatting"
        ),
        other => panic!("expected a block, got {:?}", other),
    }
}

#[test]
fn parser_tests_test_parse_annotations() {
    let input = r#"
id: https://example.org/test
name: test_schema

classes:
  Person:
    description: A person
    annotations:
      owl: Thing
      rdfs:label: Person
"#;
    let schema = LinkMLParser::parse_schema(input).unwrap();
    assert_eq!(schema.classes.len(), 1);
    let person = schema.classes.get("Person").unwrap();
    let annotations = &person.value.annotations.as_ref().unwrap().value;
    assert_eq!(annotations.entries.len(), 2);
    match &annotations.entries.get("rdfs:label").unwrap().value {
        AnnotationValueAst::Text(s) => assert_eq!(s, "Person"),
        other => panic!("expected a string, got {:?}", other),
    }
}

#[test]
fn test_span_information() {
    let input = r#"
id: https://example.org/test
name: test_schema
"#;
    let schema = LinkMLParser::parse_schema(input).unwrap();
    // Verify that span information is captured
    assert!(schema.id.is_some());
    let id_span = &schema.id.as_ref().unwrap().span;
    assert!(id_span.line > 0);
    assert!(id_span.column > 0);
    assert_eq!((id_span.start, id_span.end, id_span.line, id_span.column), (5, 29, 2, 5));
    let name_span = &schema.name.as_ref().unwrap().span;
    assert_eq!((name_span.start, name_span.end, name_span.line, name_span.column), (36, 47, 3, 7));
}

#[test]
fn spans_count_bytes_and_columns_count_characters() {
    let input = "title: \"é\"\nname: x\n";
    let schema = LinkMLParser::parse_schema(input).unwrap();
    let title = schema.title.as_ref().unwrap();
    assert_eq!(title.value, "é");
    assert_eq!((title.span.start, title.span.end, title.span.line, title.span.column), (7, 11, 1, 8));
    let name = schema.name.as_ref().unwrap();
    assert_eq!((name.span.start, name.span.end, name.span.line, name.span.column), (18, 19, 2, 7));
}

#[test]
fn class_span_covers_its_fields() {
    let input = "classes:\n  Person:\n    is_a: Thing\n    slots:\n      - name\n      - email\n";
    let schema = LinkMLParser::parse_schema(input).unwrap();
    let person = schema.classes.get("Person").unwrap();
    let outer = person.span;
    let is_a = person.value.is_a.as_ref().unwrap().span;
    assert!(outer.start <= is_a.start && is_a.end <= outer.end);
    for slot in &person.value.slots {
        assert!(outer.start <= slot.span.start && slot.span.end <= outer.end);
        assert!((outer.line, outer.column) <= (slot.span.line, slot.span.column));
    }
    assert_eq!((outer.start, outer.line, outer.column), (11, 2, 3));
    assert_eq!(outer.end, input.len() - 1);
}

#[test]
fn parse_braced_dialect() {
    let input = r#"{
  "id": "https://example.org/test",
  "name": "TestSchema",
  "imports": ["linkml:types", "base"],
  "classes": {
    "Person": {
      "description": "A \"person\"",
      "attributes": {
        "name": { "range": "string", "required": true },
        "age": { "range": "integer", "minimum_value": 0, "maximum_value": 1.5e2 }
      }
    }
  }
}"#;
    let schema = LinkMLParser::parse_schema(input).unwrap();
    assert_eq!(schema.name.as_ref().unwrap().value, "TestSchema");
    assert_eq!(schema.imports.len(), 2);
    assert_eq!(schema.imports[1].value, "base");
    let person = schema.classes.get("Person").unwrap();
    match &person.value.description.as_ref().unwrap().value {
        Description::Inline(s) => assert_eq!(s, "A \"person\""),
        other => panic!("expected a description on one line, got {:?}", other),
    }
    assert_eq!(person.value.attributes.len(), 2);
    let name = &person.value.attributes.get("name").unwrap().value;
    assert_eq!(name.required.as_ref().unwrap().value, true);
    let age = &person.value.attributes.get("age").unwrap().value;
    assert!(matches!(age.minimum_value.as_ref().unwrap().value, ValueAst::Integer(0)));
    match &age.maximum_value.as_ref().unwrap().value {
        ValueAst::Number(s) => assert_eq!(s, "1.5e2"),
        other => panic!("expected a number, got {:?}", other),
    }
}

#[test]
fn both_dialects_give_the_same_tree_but_for_spans() {
    let indented = "id: https://example.org/test\nname: test\nclasses:\n  Person:\n    is_a: Thing\n    slots:\n      - name\n";
    let braced = r#"{"id": "https://example.org/test", "name": "test", "classes": {"Person": {"is_a": "Thing", "slots": ["name"]}}}"#;
    let a = linkml_schema::types::promote(&LinkMLParser::parse_schema(indented).unwrap()).unwrap();
    let b = linkml_schema::types::promote(&LinkMLParser::parse_schema(braced).unwrap()).unwrap();
    assert!(a.deep_eq(&b));
}

#[test]
fn empty_collections_are_valid() {
    let input = "id: https://example.org/test\nname: test\nimports: []\nprefixes: {}\nclasses:\nslots: {}\n";
    let schema = LinkMLParser::parse_schema(input).unwrap();
    assert_eq!(schema.imports.len(), 0);
    assert_eq!(schema.prefixes.len(), 0);
    assert_eq!(schema.classes.len(), 0);
    assert_eq!(schema.slots.len(), 0);
}

#[test]
fn instance_bound_slot_fields() {
    let input = r#"
slots:
  identifier:
    range: ISO3166Entity
    range_type: instance
    range_properties:
      - id
    minimum_cardinality: 1
    structured_pattern:
      syntax: "{country_code_pattern}"
      interpolated: true
"#;
    let schema = LinkMLParser::parse_schema(input).unwrap();
    let slot = &schema.slots.get("identifier").unwrap().value;
    assert_eq!(slot.range_type.as_ref().unwrap().value, RangeType::Instance);
    assert_eq!(slot.range_properties[0].value, "id");
    assert_eq!(slot.minimum_cardinality.as_ref().unwrap().value, 1);
    let pattern = &slot.structured_pattern.as_ref().unwrap().value;
    assert_eq!(pattern.syntax, "{country_code_pattern}");
    assert!(pattern.interpolated);
}

fn fault_of(input: &str) -> (ParseErrorKind, usize, usize) {
    match LinkMLParser::parse_schema(input) {
        Err(LinkMLError::ParseError { fault: Some(f), .. }) => (f.kind, f.span.line, f.span.column),
        other => panic!("expected a syntax error, got {:?}", other.map(|_| ())),
    }
}

#[test]
fn duplicate_key_is_an_error_with_both_spans() {
    let input = "title: a\nname: x\ntitle: b\n";
    match LinkMLParser::parse_schema(input) {
        Err(LinkMLError::ParseError { fault: Some(f), message }) => {
            assert_eq!(f.kind, ParseErrorKind::DuplicateKey);
            assert_eq!((f.span.line, f.span.column), (3, 1));
            let first = f.related.unwrap();
            assert_eq!((first.line, first.column), (1, 1));
            assert_eq!(message, "a key occurs twice in one mapping");
        }
        other => panic!("expected a syntax error, got {:?}", other.map(|_| ())),
    }
    let classes = "classes:\n  A:\n    is_a: B\n  A:\n    is_a: C\n";
    assert_eq!(fault_of(classes), (ParseErrorKind::DuplicateKey, 4, 3));
}

#[test]
fn each_kind_of_syntax_error() {
    assert_eq!(fault_of("name: [a, b"), (ParseErrorKind::UnterminatedFlow, 1, 7));
    assert_eq!(fault_of("classes:\n\tA:\n"), (ParseErrorKind::TabInIndentation, 2, 1));
    assert_eq!(fault_of("title: \"open"), (ParseErrorKind::UnterminatedString, 1, 8));
    assert_eq!(fault_of("title: \"a\\qb\""), (ParseErrorKind::InvalidEscape, 1, 8));
    assert_eq!(fault_of("title: \"a\" b"), (ParseErrorKind::UnexpectedCharacter, 1, 12));
    assert_eq!(fault_of("just some words"), (ParseErrorKind::ExpectedKey, 1, 1));
    assert_eq!(fault_of("id:\n  nested: x\n"), (ParseErrorKind::ExpectedValue, 1, 1));
    assert_eq!(fault_of("classes: many"), (ParseErrorKind::ExpectedMapping, 1, 1));
    assert_eq!(fault_of("classes:\n    A:\n  B:\n"), (ParseErrorKind::BadIndentation, 3, 3));
    assert_eq!(fault_of("slots:\n  s:\n    required: maybe\n"), (ParseErrorKind::InvalidBoolean, 3, 15));
    assert_eq!(
        fault_of("slots:\n  s:\n    minimum_cardinality: 99999999999999999999\n"),
        (ParseErrorKind::InvalidInteger, 3, 26)
    );
    assert_eq!(fault_of("slots:\n  s:\n    range_type: sometimes\n"), (ParseErrorKind::InvalidRangeType, 3, 17));
}

#[test]
fn comments_and_quotes() {
    let input = "# a comment\nid: https://example.org/t#frag # trailing\nversion: 'it''s'\ntitle: \"a # b\"\n";
    let schema = LinkMLParser::parse_schema(input).unwrap();
    assert_eq!(schema.id.as_ref().unwrap().value, "https://example.org/t#frag");
    assert_eq!(schema.version.as_ref().unwrap().value, "it's");
    assert_eq!(schema.title.as_ref().unwrap().value, "a # b");
}

#[test]
fn parse_string_value_cuts_space_and_quotes() {
    assert_eq!(LinkMLParser::parse_string_value("  \"hello\"  "), "hello");
    assert_eq!(LinkMLParser::parse_string_value("'single'"), "single");
    assert_eq!(LinkMLParser::parse_string_value("plain"), "plain");
    assert_eq!(LinkMLParser::parse_string_value("\"'both'\""), "both");
    assert_eq!(LinkMLParser::parse_string_value(""), "");
}

#[test]
fn identifier_and_name_of_the_schema_are_checked() {
    assert_eq!(fault_of("id: not a uri\nname: x\n"), (ParseErrorKind::InvalidUri, 1, 5));
    assert_eq!(fault_of("id: example.org/test\n"), (ParseErrorKind::InvalidUri, 1, 5));
    assert_eq!(fault_of("id: 1http://example.org/\n"), (ParseErrorKind::InvalidUri, 1, 5));
    assert_eq!(fault_of("name: two words\n"), (ParseErrorKind::InvalidIdentifier, 1, 7));
    assert_eq!(fault_of("name: 9lives\n"), (ParseErrorKind::InvalidIdentifier, 1, 7));
    assert_eq!(fault_of("{\"id\": \"urn:x\", \"name\": \"a-b\"}"), (ParseErrorKind::InvalidIdentifier, 1, 25));
    let ok = LinkMLParser::parse_schema("id: urn:isbn:0451450523\nname: _private1\n").unwrap();
    assert_eq!(ok.id.as_ref().unwrap().value, "urn:isbn:0451450523");
}
