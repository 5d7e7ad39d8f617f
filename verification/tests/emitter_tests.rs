use linkml_schema::emitter::{emit_schema, int_text, quote};
use linkml_schema::error::LinkMLError;
use linkml_schema::model::DeepValue;
use linkml_schema::parser::LinkMLParser;
use linkml_schema::schema_parser::{load_str, JsonParserV2, ParserV2};
use linkml_schema::diagnostics::{unresolved_references, ReferenceRole};
use linkml_schema::document::Dialect;
use linkml_schema::error::DeclarationKind;
use linkml_schema::schema_loader::detect_dialect;
use linkml_schema::types::{promote, span_table};

const FULL: &str = r#"
id: https://example.org/full
name: full
title: "A full schema: with a colon"
description: |
  The first line.

    An indented line.
  The last line.
version: 1.0.0
license: CC-BY-4.0
default_prefix: ex
default_range: string
prefixes:
  ex: https://example.org/
  skos: http://www.w3.org/2004/02/skos/core#
imports:
  - linkml:types
  - txp:place/iso_3166_entity/instance
settings:
  code_pattern: "[A-Z]{2}"
  id_pattern: "{code_pattern}-[0-9]+"
contributors:
  - Ada
  - "Grace: Hopper"
categories: [modelling, test]
annotations:
  reviewed: true
  weight: 2.5
  note: "a \"quoted\" note"
  tags:
    - one
    - two
classes:
  Person:
    description: A person
    is_a: Agent
    abstract: false
    mixins: [Named]
    slots:
      - name
      - age
    slot_usage:
      name:
        required: true
    attributes:
      nickname:
        range: string
        multivalued: true
    rules:
      - preconditions:
          age: adult
        postconditions:
          role: voter
      - preconditions:
          age: minor
    if_required:
      guardian:
        then_required: [guardian_name]
    unique_keys:
      by_name:
        unique_key_slots:
          - name
    recursion_options:
      use_box: true
      max_depth: 3
    annotations:
      owl: Thing
  Empty:
slots:
  name:
    range: string
    required: true
    pattern: "^\\S+$"
  age:
    range: integer
    minimum_value: 0
    maximum_value: 150
    minimum_cardinality: -1
  score:
    minimum_value: 0.5
    maximum_value: "high"
  country:
    range: ISO3166Entity
    range_type: instance
    range_properties: [id]
    structured_pattern:
      syntax: "{code_pattern}"
      interpolated: true
types:
  Email:
    typeof: string
    pattern: "^.+@.+$"
enums:
  Status:
    description: Status values
    permissible_values:
      active:
        description: Currently active
        meaning: ex:Active
      inactive:
subsets:
  core:
    description: The core
"#;

#[test]
fn round_trip_of_a_full_schema() {
    let first = load_str(FULL).unwrap();
    let text = emit_schema(&first);
    let second = load_str(&text).unwrap_or_else(|e| panic!("{:?}\n{}", e, text));
    assert!(second.deep_eq(&first), "{}", text);
    assert_eq!(emit_schema(&second), text);
}

#[test]
fn round_trip_from_the_braced_dialect() {
    let braced = r#"{"id": "https://example.org/b", "name": "b", "classes": {"A": {"is_a": "B", "slots": ["x"]}, "B": {}}, "slots": {"x": {"required": false}}}"#;
    let first = load_str(braced).unwrap();
    let second = load_str(&emit_schema(&first)).unwrap();
    assert!(second.deep_eq(&first));
}

#[test]
fn text_of_a_small_schema() {
    let schema = load_str("id: https://example.org/t\nname: t\nclasses:\n  A:\n    slots: [x]\n    abstract: true\n").unwrap();
    assert_eq!(
        emit_schema(&schema),
        "id: \"https://example.org/t\"\nname: \"t\"\nclasses:\n  \"A\":\n    abstract: true\n    slots:\n      - \"x\"\n"
    );
}

#[test]
fn numbers_and_quotes_as_text() {
    assert_eq!(int_text(0), "0");
    assert_eq!(int_text(7), "7");
    assert_eq!(int_text(-42), "-42");
    assert_eq!(int_text(1234567890), "1234567890");
    assert_eq!(int_text(i64::MAX), "9223372036854775807");
    assert_eq!(int_text(i64::MIN), "-9223372036854775808");
    assert_eq!(quote("a \"b\"\n\\"), "\"a \\\"b\\\"\\n\\\\\"");
}

#[test]
fn rules_keys_and_options_are_read() {
    let ast = LinkMLParser::parse_schema(FULL).unwrap();
    let person = &ast.classes.get("Person").unwrap().value;
    assert_eq!(person.rules.len(), 2);
    let rule = &person.rules[0].value;
    assert_eq!(rule.preconditions.get("age").unwrap().value, "adult");
    assert_eq!(rule.postconditions.get("role").unwrap().value, "voter");
    assert_eq!(person.rules[1].value.postconditions.len(), 0);
    let required = &person.if_required.get("guardian").unwrap().value;
    assert_eq!(required.condition, "guardian");
    assert_eq!(required.then_required[0].value, "guardian_name");
    let key = &person.unique_keys.get("by_name").unwrap().value;
    assert_eq!(key.name, "by_name");
    assert_eq!(key.unique_key_slots[0].value, "name");
    let options = &person.recursion_options.as_ref().unwrap().value;
    assert!(options.use_box);
    assert_eq!(options.max_depth, Some(3));
    let rule_span = person.rules[0].span;
    let pre = rule.preconditions.get("age").unwrap().span;
    assert!(rule_span.start <= pre.start && pre.end <= rule_span.end);
}

#[test]
fn span_table_lists_the_declarations() {
    let ast = LinkMLParser::parse_schema("id: urn:a\nname: b\nclasses:\n  A:\n    is_a: B\n  B:\nslots:\n  s:\n    range: string\n").unwrap();
    let table = span_table(&ast);
    let paths: Vec<&str> = table.iter().map(|r| r.path.as_str()).collect();
    assert_eq!(paths, vec!["classes/A", "classes/B", "slots/s"]);
    assert_eq!((table[0].span.line, table[0].span.column), (4, 3));
    assert_eq!((table[2].span.line, table[2].span.column), (8, 3));
    assert!(promote(&ast).is_ok());
}

#[test]
fn parsers_that_delegate_by_format() {
    let yaml = "id: https://example.org/test\nname: TestSchema\nclasses:\n  Person:\n    attributes:\n      name:\n        range: string\n";
    let json = r#"{
  "id": "https://example.org/test",
  "name": "TestSchema",
  "classes": {
    "Person": {
      "attributes": {
        "name": {
          "range": "string"
        }
      }
    }
  }
}"#;
    let parser = ParserV2::new();
    assert!(parser.auto_resolve_imports());
    assert!(!parser.with_auto_resolve_imports(false).auto_resolve_imports());
    assert_eq!(parser.parse_str(yaml, "yaml").unwrap().name, "TestSchema");
    assert_eq!(parser.parse_str(yaml, "YML").unwrap().name, "TestSchema");
    let from_json = parser.parse_str(json, "json").unwrap();
    assert_eq!(from_json.name, "TestSchema");
    assert!(from_json.classes.contains_key("Person"));
    assert_eq!(parser.parse_with_format(yaml, None).unwrap().name, "TestSchema");
    assert_eq!(parser.parse_with_format(json, Some("Json")).unwrap().name, "TestSchema");
    match parser.parse_str(yaml, "xml") {
        Err(LinkMLError::InvalidFormat { format }) => assert_eq!(format, "xml"),
        other => panic!("expected an error, got {:?}", other),
    }
    match JsonParserV2::new().parse_str("{\"id\": ") {
        Err(LinkMLError::ParseError { message, .. }) => {
            assert_eq!(message, "JSON deserialization error: a bracket is never closed")
        }
        other => panic!("expected an error, got {:?}", other),
    }
    assert!(matches!(
        JsonParserV2::new().parse_str(yaml),
        Err(LinkMLError::ParseError { fault: None, .. })
    ));
}

#[test]
fn references_that_name_nothing_are_reported() {
    let schema = load_str(
        "id: https://example.org/r\nname: r\nclasses:\n  A:\n    is_a: Missing\n    mixins: [B, Gone]\n    slots: [s, own, lost]\n    attributes:\n      own:\n        range: string\n  B:\n    is_a: A\nslots:\n  s:\n    is_a: t\n    mixins: [s]\ntypes:\n  T:\n    typeof: U\n  U:\n    typeof: T\n  V:\n    typeof: string\n",
    )
    .unwrap();
    let found: Vec<(DeclarationKind, String, ReferenceRole, String)> = unresolved_references(&schema)
        .into_iter()
        .map(|r| (r.owner_kind, r.owner, r.role, r.reference))
        .collect();
    assert_eq!(
        found,
        vec![
            (DeclarationKind::Class, "A".to_string(), ReferenceRole::IsA, "Missing".to_string()),
            (DeclarationKind::Class, "A".to_string(), ReferenceRole::Mixin, "Gone".to_string()),
            (DeclarationKind::Class, "A".to_string(), ReferenceRole::Slot, "lost".to_string()),
            (DeclarationKind::Slot, "s".to_string(), ReferenceRole::IsA, "t".to_string()),
            (DeclarationKind::Type, "V".to_string(), ReferenceRole::TypeOf, "string".to_string()),
        ]
    );
    let clean = load_str("id: https://example.org/r\nname: r\nclasses:\n  A:\n").unwrap();
    assert!(unresolved_references(&clean).is_empty());
}

#[test]
fn dialect_by_extension_then_by_content() {
    assert_eq!(detect_dialect("a/schema.yaml", "{}"), Dialect::Indented);
    assert_eq!(detect_dialect("a/schema.yml", "{}"), Dialect::Indented);
    assert_eq!(detect_dialect("a/schema.json", "id: x"), Dialect::Braced);
    assert_eq!(detect_dialect("a/schema.txt", " {\"id\": 1}"), Dialect::Braced);
    assert_eq!(detect_dialect("a/schema", "id: x"), Dialect::Indented);
}
