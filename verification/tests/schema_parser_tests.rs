use linkml_schema::error::LinkMLError;
use linkml_schema::schema_loader::{create_dev_schema_loader, extension, parent, SchemaLoader};
use linkml_schema::schema_parser::{load_str, JsonParserSimple, Parser, YamlParserSimple};
use linkml_schema::import_resolver::Resolution;

#[test]
fn test_json_parser_simple_new() {
    let parser = JsonParserSimple::new();
    assert!(std::mem::size_of_val(&parser) == 0, "JsonParserSimple should be zero-sized");
}

#[test]
fn json_parser_simple_test_parse_str_basic() {
    let parser = JsonParserSimple::new();
    let json = r#"
{
  "id": "https://example.org/test",
  "name": "test_schema"
}
"#;
    let schema = parser.parse_str(json).expect("Parse failed");
    assert_eq!(schema.id, "https://example.org/test");
    assert_eq!(schema.name, "test_schema");
}

#[test]
fn test_parse_str_invalid_json() {
    let parser = JsonParserSimple::new();
    let invalid_json = "{ invalid: json structure";
    let result = parser.parse_str(invalid_json);
    assert!(result.is_err());

    if let Err(LinkMLError::ParseError { message, .. }) = result {
        assert!(message.contains("JSON parsing error"));
    } else {
        panic!("Expected ParseError");
    }
}

#[test]
fn json_parser_rejects_the_indented_dialect() {
    let parser = JsonParserSimple::new();
    match parser.parse_str("id: https://example.org/test\nname: x\n") {
        Err(LinkMLError::ParseError { message, fault }) => {
            assert_eq!(message, "JSON parsing error: the document does not begin with a bracket");
            assert!(fault.is_none());
        }
        other => panic!("expected a syntax error, got {:?}", other),
    }
}

#[test]
fn json_parser_simple_test_default_trait() {
    let parser = JsonParserSimple::default();
    let json = r#"
{
  "id": "https://example.org/default",
  "name": "default_schema"
}
"#;
    let schema = parser.parse_str(json).expect("Parse failed");
    assert_eq!(schema.name, "default_schema");
}

#[test]
fn json_parser_simple_test_clone_trait() {
    let parser1 = JsonParserSimple::new();
    let parser2 = parser1.clone();

    let json = r#"
{
  "id": "https://example.org/clone",
  "name": "clone_schema"
}
"#;
    let schema = parser2.parse_str(json).expect("Parse failed");
    assert_eq!(schema.name, "clone_schema");
}

#[test]
fn test_yaml_parser_simple_new() {
    let parser = YamlParserSimple::new();
    assert!(std::mem::size_of_val(&parser) == 0, "YamlParserSimple should be zero-sized");
}

#[test]
fn yaml_parser_simple_test_parse_str_basic() {
    let parser = YamlParserSimple::new();
    let yaml = r"
id: https://example.org/test
name: test_schema
";
    let schema = parser.parse_str(yaml).expect("Parse failed");
    assert_eq!(schema.id, "https://example.org/test");
    assert_eq!(schema.name, "test_schema");
}

#[test]
fn test_parse_str_invalid_yaml() {
    let parser = YamlParserSimple::new();
    let invalid_yaml = "{ invalid: yaml: structure";
    let result = parser.parse_str(invalid_yaml);
    assert!(result.is_err());

    if let Err(LinkMLError::ParseError { message, .. }) = result {
        assert!(message.contains("YAML parsing error"));
    } else {
        panic!("Expected ParseError");
    }
}

#[test]
fn yaml_parser_simple_test_default_trait() {
    let parser = YamlParserSimple::default();
    let yaml = r"
id: https://example.org/default
name: default_schema
";
    let schema = parser.parse_str(yaml).expect("Parse failed");
    assert_eq!(schema.name, "default_schema");
}

#[test]
fn yaml_parser_simple_test_clone_trait() {
    let parser1 = YamlParserSimple::new();
    let parser2 = parser1.clone();

    let yaml = r"
id: https://example.org/clone
name: clone_schema
";
    let schema = parser2.parse_str(yaml).expect("Parse failed");
    assert_eq!(schema.name, "clone_schema");
}

#[test]
fn test_parser_creation() {
    let parser = Parser::new();
    assert!(!parser.auto_resolve_imports());
}

#[test]
fn test_parser_with_import_resolution() {
    let parser = Parser::with_import_resolution();
    assert!(parser.auto_resolve_imports());
    let mut parser = Parser::new();
    parser.set_auto_resolve_imports(true);
    assert!(parser.auto_resolve_imports());
}

#[test]
fn test_parse_str_yaml() {
    let yaml = r"
id: https://example.org/test
name: test_schema
";
    let parser = Parser::new();
    let schema = parser.parse_str(yaml, "yaml").unwrap();

    assert_eq!(schema.id, "https://example.org/test");
    assert_eq!(schema.name, "test_schema");
}

#[test]
fn test_unsupported_format() {
    let parser = Parser::new();
    let result = parser.parse_str("content", "xml");
    assert!(result.is_err());

    if let Err(LinkMLError::ParseError { message, .. }) = result {
        assert!(message.contains("Unsupported format"));
        assert_eq!(message, "Unsupported format: xml");
    } else {
        panic!("Expected ParseError for unsupported format");
    }
}

#[test]
fn test_create_dev_loader() {
    let _loader = create_dev_schema_loader();
    // Just verify it compiles and creates successfully
}

#[test]
fn minimal_schema_loads() {
    let schema = load_str("id: https://example.org/test\nname: test\n").unwrap();
    assert_eq!(schema.id, "https://example.org/test");
    assert_eq!(schema.name, "test");
    assert_eq!(schema.classes.len(), 0);
    assert_eq!(schema.slots.len(), 0);
    assert_eq!(schema.types.len(), 0);
    assert_eq!(schema.enums.len(), 0);
    assert_eq!(schema.subsets.len(), 0);
}

#[test]
fn schema_without_id_or_name_is_rejected() {
    match load_str("name: test\n") {
        Err(LinkMLError::SchemaValidationError { message }) => {
            assert_eq!(message, "Schema 'id' field is required")
        }
        other => panic!("expected a validation error, got {:?}", other),
    }
    match load_str("id: https://example.org/test\n") {
        Err(LinkMLError::SchemaValidationError { message }) => {
            assert_eq!(message, "Schema 'name' field is required")
        }
        other => panic!("expected a validation error, got {:?}", other),
    }
}

#[test]
fn loading_twice_gives_equal_schemas() {
    let text = "id: https://example.org/test\nname: test\nclasses:\n  A:\n    slots: [x, y]\n";
    let a = load_str(text).unwrap();
    let b = load_str(text).unwrap();
    assert!(linkml_schema::model::DeepValue::deep_eq(&a, &b));
}

#[test]
fn extension_and_parent_of_paths() {
    assert_eq!(extension("/r/a/schema.yaml").as_deref(), Some("yaml"));
    assert_eq!(extension("schema.tar.gz").as_deref(), Some("gz"));
    assert_eq!(extension("/r/a.b/schema"), None);
    assert_eq!(extension(".hidden"), None);
    assert_eq!(extension("name."), Some(String::new()));
    assert_eq!(parent("/r/a/schema.yaml"), "/r/a");
    assert_eq!(parent("schema.yaml"), "");
    assert_eq!(parent("/schema.yaml"), "/");
}

#[test]
fn loader_picks_the_dialect_by_extension() {
    let mut loader = SchemaLoader::new();
    let text = "id: https://example.org/test\nname: test\n";
    assert!(matches!(loader.load_file("/r/a/schema.yaml", text), Resolution::Done(_)));
    assert!(loader.resolver.search_paths.contains(&"/r/a".to_string()));
    let before = loader.resolver.search_paths.len();
    assert!(matches!(loader.load_file("/r/a/schema.yml", text), Resolution::Done(_)));
    assert_eq!(loader.resolver.search_paths.len(), before);
    match loader.load_file("/r/a/schema.txt", text) {
        Resolution::Failed(LinkMLError::ParseError { message, .. }) => {
            assert_eq!(message, "Unsupported file extension: txt")
        }
        other => panic!("expected a failure, got {:?}", other),
    }
    match loader.load_file("/r/a/schema", text) {
        Resolution::Failed(LinkMLError::ParseError { message, .. }) => {
            assert_eq!(message, "No file extension found")
        }
        other => panic!("expected a failure, got {:?}", other),
    }
    match loader.load_string(text, "toml") {
        Resolution::Failed(LinkMLError::ParseError { message, .. }) => {
            assert_eq!(message, "Unsupported format: toml")
        }
        other => panic!("expected a failure, got {:?}", other),
    }
    assert!(matches!(loader.load_string(text, "yml"), Resolution::Done(_)));
}

#[test]
fn loader_takes_the_base_of_a_url() {
    let mut loader = SchemaLoader::new();
    let text = "id: https://example.org/test\nname: test\n";
    assert!(matches!(
        loader.load_url("https://example.org/schemas/meta/schema.yaml", text),
        Resolution::Done(_)
    ));
    assert_eq!(loader.resolver.base_url.as_deref(), Some("https://example.org/schemas/meta/"));
    assert_eq!(SchemaLoader::base_of_url("not a url"), None);
    assert!(SchemaLoader::url_is_json("https://example.org/a/schema.JSON"));
    assert!(!SchemaLoader::url_is_json("https://example.org/a/schema.yaml"));
}
