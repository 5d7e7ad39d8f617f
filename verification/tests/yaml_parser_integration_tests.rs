use linkml_schema::ast::Description;
use linkml_schema::schema_parser::{SchemaParser, YamlParserV2};
use linkml_schema::types::{description_text, PrefixDefinition};

fn create_test_parser() -> impl SchemaParser {
    YamlParserV2::new()
}

fn prefix_uri(p: &PrefixDefinition) -> &str {
    match p {
        PrefixDefinition::Simple(uri) => uri.as_str(),
        PrefixDefinition::Complex { prefix_prefix, .. } => prefix_prefix.as_str(),
    }
}

#[test]
fn yaml_parser_integration_tests_test_parse_minimal_schema() {
    let parser = create_test_parser();
    let input = r"
id: https://example.org/test
name: test_schema
";
    let schema = parser.parse_str(input).unwrap();
    assert_eq!(schema.id, "https://example.org/test");
    assert_eq!(schema.name, "test_schema");
}

#[test]
fn yaml_parser_integration_tests_test_parse_schema_with_metadata() {
    let parser = create_test_parser();
    let input = r"
id: https://example.org/test
name: test_schema
title: Test Schema
description: A test schema for parser validation
version: 1.0.0
license: CC-BY-4.0
";
    let schema = parser.parse_str(input).unwrap();
    assert_eq!(schema.id, "https://example.org/test");
    assert_eq!(schema.name, "test_schema");
    assert_eq!(schema.title.as_ref().unwrap(), "Test Schema");
    assert_eq!(schema.version.as_ref().unwrap(), "1.0.0");
    assert_eq!(schema.license.as_ref().unwrap(), "CC-BY-4.0");
}

#[test]
fn yaml_parser_integration_tests_test_parse_schema_with_prefixes() {
    let parser = create_test_parser();
    let input = r"
id: https://example.org/test
name: test_schema
prefixes:
  linkml: https://w3id.org/linkml/
  skos: http://www.w3.org/2004/02/skos/core#
  rdf: http://www.w3.org/1999/02/22-rdf-syntax-ns#
default_prefix: linkml
";
    let schema = parser.parse_str(input).unwrap();
    assert_eq!(schema.prefixes.len(), 3);
    assert_eq!(prefix_uri(schema.prefixes.get("linkml").unwrap()), "https://w3id.org/linkml/");
    assert_eq!(
        prefix_uri(schema.prefixes.get("skos").unwrap()),
        "http://www.w3.org/2004/02/skos/core#"
    );
    assert_eq!(schema.default_prefix.as_ref().unwrap(), "linkml");
}

#[test]
fn yaml_parser_integration_tests_test_parse_schema_with_imports() {
    let parser = create_test_parser();
    let input = r"
id: https://example.org/test
name: test_schema
imports:
  - linkml:types
  - txp:meta/identifier/identifier/schema
";
    let schema = parser.parse_str(input).unwrap();
    assert_eq!(schema.imports.len(), 2);
    assert_eq!(schema.imports[0], "linkml:types");
    assert_eq!(schema.imports[1], "txp:meta/identifier/identifier/schema");
}

#[test]
fn yaml_parser_integration_tests_test_parse_schema_with_simple_class() {
    let parser = create_test_parser();
    let input = r"
id: https://example.org/test
name: test_schema

classes:
  Person:
    description: A person
    slots:
      - name
      - email
";
    let schema = parser.parse_str(input).unwrap();
    assert_eq!(schema.classes.len(), 1);
    let person_class = schema.classes.get("Person").unwrap();
    assert_eq!(description_text(person_class.description.as_ref().unwrap()), "A person");
    assert_eq!(person_class.slots.len(), 2);
}

#[test]
fn yaml_parser_integration_tests_test_parse_schema_with_class_inheritance() {
    let parser = create_test_parser();
    let input = r"
id: https://example.org/test
name: test_schema

classes:
  NamedEntity:
    description: An entity with a name
    slots:
      - name
  
  Person:
    is_a: NamedEntity
    description: A person
    slots:
      - email
";
    let schema = parser.parse_str(input).unwrap();
    assert_eq!(schema.classes.len(), 2);
    let person_class = schema.classes.get("Person").unwrap();
    assert_eq!(person_class.is_a.as_ref().unwrap(), "NamedEntity");
}

#[test]
fn yaml_parser_integration_tests_test_parse_schema_with_slots() {
    let parser = create_test_parser();
    let input = r"
id: https://example.org/test
name: test_schema

slots:
  name:
    description: A name
    range: string
    required: true
  
  email:
    description: An email address
    range: string
    pattern: ^[a-zA-Z0-9._%+-]+@[a-zA-Z0-9.-]+\.[a-zA-Z]{2,}$
";
    let schema = parser.parse_str(input).unwrap();
    assert_eq!(schema.slots.len(), 2);
    assert!(schema.slots.contains_key("name"));
    assert!(schema.slots.contains_key("email"));
    let name_slot = schema.slots.get("name").unwrap();
    assert_eq!(name_slot.required, Some(true));
    assert_eq!(name_slot.range.as_ref().unwrap(), "string");
    assert_eq!(
        schema.slots.get("email").unwrap().pattern.as_ref().unwrap(),
        r"^[a-zA-Z0-9._%+-]+@[a-zA-Z0-9.-]+\.[a-zA-Z]{2,}$"
    );
}

#[test]
fn yaml_parser_integration_tests_test_parse_schema_with_enums() {
    let parser = create_test_parser();
    let input = r"
id: https://example.org/test
name: test_schema

enums:
  StatusEnum:
    description: Status values
    permissible_values:
      active:
        description: Currently active
      inactive:
        description: No longer active
      pending:
        description: Awaiting activation
";
    let schema = parser.parse_str(input).unwrap();
    assert_eq!(schema.enums.len(), 1);
    let status_enum = schema.enums.get("StatusEnum").unwrap();
    assert_eq!(description_text(status_enum.description.as_ref().unwrap()), "Status values");
    assert_eq!(status_enum.permissible_values.len(), 3);
}

#[test]
fn yaml_parser_integration_tests_test_parse_schema_with_types() {
    let parser = create_test_parser();
    let input = r"
id: https://example.org/test
name: test_schema

types:
  EmailAddress:
    typeof: string
    description: An email address
    pattern: ^[a-zA-Z0-9._%+-]+@[a-zA-Z0-9.-]+\.[a-zA-Z]{2,}$
";
    let schema = parser.parse_str(input).unwrap();
    assert_eq!(schema.types.len(), 1);
    let email_type = schema.types.get("EmailAddress").unwrap();
    assert_eq!(email_type.typeof_.as_ref().unwrap(), "string");
}

#[test]
fn yaml_parser_integration_tests_test_parse_invalid_yaml() {
    let parser = create_test_parser();
    let input = r"
id: https://example.org/test
name: [invalid: yaml: structure
";
    let result = parser.parse_str(input);
    assert!(result.is_err());
}

#[test]
fn yaml_parser_integration_tests_test_parse_descriptions() {
    let parser = create_test_parser();
    let input = r"
id: https://example.org/test
name: test_schema

classes:
  Person:
    description: A simple inline description
  
  Organization:
    description: |
      A multi-line block description
      that spans multiple lines
      and preserves formatting
";
    let schema = parser.parse_str(input).unwrap();
    assert_eq!(schema.classes.len(), 2);
    let person = schema.classes.get("Person").unwrap();
    assert_eq!(
        description_text(person.description.as_ref().unwrap()),
        "A simple inline description"
    );
    let org = schema.classes.get("Organization").unwrap();
    assert!(description_text(org.description.as_ref().unwrap()).contains("multi-line"));
    assert!(matches!(org.description.as_ref().unwrap(), Description::Block(_)));
}

#[test]
fn yaml_parser_integration_tests_test_parse_annotations() {
    let parser = create_test_parser();
    let input = r"
id: https://example.org/test
name: test_schema

classes:
  Person:
    description: A person
    annotations:
      owl: Thing
      rdfs:label: Person
";
    let schema = parser.parse_str(input).unwrap();
    assert_eq!(schema.classes.len(), 1);
    let person = schema.classes.get("Person").unwrap();
    assert!(person.annotations.is_some());
}

#[test]
fn test_parse_optional_fields_absent() {
    let parser = create_test_parser();
    let input = r"
id: https://example.org/test
name: minimal_schema
";
    let schema = parser.parse_str(input).unwrap();
    assert!(schema.title.is_none());
    assert!(schema.description.is_none());
    assert!(schema.version.is_none());
    assert!(schema.license.is_none());
    assert!(schema.default_prefix.is_none());
}

#[test]
fn test_parse_slot_usage() {
    let parser = create_test_parser();
    let input = r"
id: https://example.org/test
name: test_schema

classes:
  Person:
    slots:
      - name
    slot_usage:
      name:
        required: true
        description: Person's full name
";
    let schema = parser.parse_str(input).unwrap();
    let person = schema.classes.get("Person").unwrap();
    assert_eq!(person.slot_usage.len(), 1);
    let name = person.slot_usage.get("name").unwrap();
    assert_eq!(name.required, Some(true));
    assert_eq!(description_text(name.description.as_ref().unwrap()), "Person's full name");
}

#[test]
fn test_parse_mixins() {
    let parser = create_test_parser();
    let input = r"
id: https://example.org/test
name: test_schema

classes:
  Timestamped:
    description: Mixin for timestamped entities
    slots:
      - created_at
      - updated_at
  
  Person:
    mixins:
      - Timestamped
    slots:
      - name
";
    let schema = parser.parse_str(input).unwrap();
    let person = schema.classes.get("Person").unwrap();
    assert_eq!(person.mixins.len(), 1);
    assert_eq!(person.mixins[0], "Timestamped");
}
