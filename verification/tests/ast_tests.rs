use linkml_schema::ast::{Description, RangeType, SchemaAst};
use linkml_schema::span::{Span, Spanned};

#[test]
fn test_span_creation() {
    let span = Span::new(0, 10, 1, 1);
    assert_eq!(span.start, 0);
    assert_eq!(span.end, 10);
    assert_eq!(span.line, 1);
    assert_eq!(span.column, 1);
}

#[test]
fn test_span_merge() {
    let span1 = Span::new(0, 10, 1, 1);
    let span2 = Span::new(15, 25, 2, 5);
    let merged = span1.merge(&span2);
    assert_eq!(merged.start, 0);
    assert_eq!(merged.end, 25);
    assert_eq!(merged.line, 1);
    assert_eq!(merged.column, 1);
}

#[test]
fn test_spanned_node() {
    let span = Span::new(0, 5, 1, 1);
    let spanned = Spanned::new("test".to_string(), span);
    assert_eq!(spanned.value, "test");
    assert_eq!(spanned.span.start, 0);
}

#[test]
fn test_schema_ast_validation() {
    let mut schema = SchemaAst::new();
    assert!(schema.validate_required_fields().is_err());

    schema.id = Some(Spanned::new(
        "https://example.org/test".to_string(),
        Span::new(0, 5, 1, 1),
    ));
    assert!(schema.validate_required_fields().is_err());

    schema.name = Some(Spanned::new(
        "test_schema".to_string(),
        Span::new(0, 5, 1, 1),
    ));
    assert!(schema.validate_required_fields().is_ok());
}

#[test]
fn test_description_variants() {
    let inline = Description::Inline("Test description".to_string());
    let block = Description::Block("Multi-line\ndescription".to_string());
    assert!(matches!(inline, Description::Inline(_)));
    assert!(matches!(block, Description::Block(_)));
}

#[test]
fn test_range_type() {
    let class_range = RangeType::Class;
    let instance_range = RangeType::Instance;
    assert_eq!(class_range, RangeType::Class);
    assert_eq!(instance_range, RangeType::Instance);
}
