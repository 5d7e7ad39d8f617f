use linkml_schema::typedb_helper::{
    escape_string, instance_to_typeql, to_snake_case, Attribute, AttributeValue, DataInstance,
};

#[test]
fn test_to_snake_case() {
    assert_eq!(to_snake_case("Translation"), "translation");
    assert_eq!(to_snake_case("ISO3166Entity"), "iso3166_entity");
    assert_eq!(to_snake_case("TangentUnit"), "tangent_unit");
}

#[test]
fn test_escape_string() {
    assert_eq!(escape_string("hello"), "hello");
    assert_eq!(escape_string("hello\"world"), "hello\\\"world");
    assert_eq!(escape_string("line1\nline2"), "line1\\nline2");
}

#[test]
fn test_instance_to_typeql() {
    let data = vec![
        Attribute { name: "label".to_string(), value: AttributeValue::Text("English".to_string()) },
        Attribute { name: "part1".to_string(), value: AttributeValue::Text("en".to_string()) },
    ];
    let instance = DataInstance { class_name: "Translation".to_string(), id: Some("eng".to_string()), data };
    let typeql = instance_to_typeql(&instance).unwrap();
    assert!(typeql.contains("insert $x isa translation"));
    assert!(typeql.contains("has id \"eng\""));
    assert!(typeql.contains("has label \"English\""));
    assert!(typeql.contains("has part1 \"en\""));
    assert_eq!(
        typeql,
        "insert $x isa translation, has id \"eng\", has label \"English\", has part1 \"en\";"
    );
}
