use linkml_schema::error::LinkMLError;
use linkml_schema::instance_resolver::{
    instance_base, names, parse_instance_values, InstanceCheck, InstanceQuery, InstanceResolver,
};
use linkml_schema::ordered::OrderedMap;
use linkml_schema::pattern::{compile_pattern, interpolate};
use linkml_schema::schema_parser::load_str;
use linkml_schema::error::PatternFailure;

const COUNTRY_SCHEMA: &str = r#"
id: https://example.org/country
name: country
imports:
  - linkml:types
  - txp:place/polity/country/iso_3166_entity/instance
settings:
  country_code_pattern: "[A-Z]{2}"
classes:
  CountryCodeAlpha2:
    slots:
      - identifier
slots:
  identifier:
    range: ISO3166Entity
    range_type: instance
    range_properties:
      - id
    structured_pattern:
      syntax: "{country_code_pattern}"
      interpolated: true
  label:
    range: string
"#;

const INSTANCES: &str = r#"
instances:
  - id: US
    label: United States
  - id: GB
    label: United Kingdom
  - label: Nowhere
  - id: FR
  - id: US
"#;

#[test]
fn instance_bound_validation() {
    let schema = load_str(COUNTRY_SCHEMA).unwrap();
    let slot = schema.slots.get("identifier").unwrap();
    let mut resolver = InstanceResolver::new("/schemas".to_string());
    match resolver.get_valid_ids_for_slot(slot, &schema) {
        InstanceQuery::Need { import, yaml_path, yml_path, range, field } => {
            assert_eq!(import, "txp:place/polity/country/iso_3166_entity/instance");
            assert_eq!(yaml_path, "/schemas/place/polity/country/iso_3166_entity.yaml");
            assert_eq!(yml_path, "/schemas/place/polity/country/iso_3166_entity.yml");
            assert_eq!(range, "ISO3166Entity");
            assert_eq!(field, "id");
        }
        other => panic!("expected a request for the instance document, got {:?}", other),
    }
    assert!(matches!(
        resolver.validate_instance_value("US", slot, &schema),
        InstanceCheck::Pending(InstanceQuery::Need { .. })
    ));
    resolver.insert_instance_document("ISO3166Entity", "id", INSTANCES).unwrap();
    match resolver.get_valid_ids_for_slot(slot, &schema) {
        InstanceQuery::Values(ids) => assert_eq!(ids, vec!["US", "GB", "FR"]),
        other => panic!("expected the legal values, got {:?}", other),
    }
    assert!(matches!(resolver.validate_instance_value("US", slot, &schema), InstanceCheck::Decided(true)));
    assert!(matches!(resolver.validate_instance_value("XX", slot, &schema), InstanceCheck::Decided(false)));
    assert!(matches!(resolver.validate_instance_value("", slot, &schema), InstanceCheck::Decided(false)));
    let label = schema.slots.get("label").unwrap();
    assert!(matches!(resolver.get_valid_ids_for_slot(label, &schema), InstanceQuery::NotBound));
    assert!(matches!(resolver.validate_instance_value("anything", label, &schema), InstanceCheck::Decided(true)));
}

#[test]
fn instance_documents_in_both_dialects() {
    let data = parse_instance_values(INSTANCES, "id").unwrap();
    assert_eq!(data.values, vec!["US", "GB", "FR"]);
    assert_eq!(data.skipped, 1);
    let braced = r#"{"instances": [{"id": "US", "code": "840"}, {"id": "GB", "code": "826"}]}"#;
    let data = parse_instance_values(braced, "code").unwrap();
    assert_eq!(data.values, vec!["840", "826"]);
    assert_eq!(data.skipped, 0);
    let empty = parse_instance_values("instances: []\n", "id").unwrap();
    assert!(empty.values.is_empty());
}

#[test]
fn empty_instance_list_admits_nothing() {
    let schema = load_str(COUNTRY_SCHEMA).unwrap();
    let slot = schema.slots.get("identifier").unwrap();
    let mut resolver = InstanceResolver::new("/schemas".to_string());
    resolver.insert_instance_document("ISO3166Entity", "id", "instances:\n").unwrap();
    assert!(matches!(resolver.validate_instance_value("US", slot, &schema), InstanceCheck::Decided(false)));
}

#[test]
fn missing_instance_import_and_document() {
    let schema = load_str(
        "id: https://example.org/c\nname: c\nimports: [txp:other/thing/instance, txp:a/schema]\nslots:\n  s:\n    range: ISO3166Entity\n    range_type: instance\n",
    )
    .unwrap();
    let slot = schema.slots.get("s").unwrap();
    let mut resolver = InstanceResolver::new("/schemas".to_string());
    match resolver.get_valid_ids_for_slot(slot, &schema) {
        InstanceQuery::Missing(LinkMLError::InstanceResolutionError { reference }) => {
            assert_eq!(reference, "ISO3166Entity")
        }
        other => panic!("expected a missing import, got {:?}", other),
    }
    match resolver.insert_instance_document("ISO3166Entity", "id", "id: x\nname: y\n") {
        Err(LinkMLError::InstanceResolutionError { reference }) => assert_eq!(reference, "instances"),
        other => panic!("expected an error, got {:?}", other),
    }
    assert!(matches!(
        resolver.insert_instance_document("ISO3166Entity", "id", "instances: [a"),
        Err(LinkMLError::ParseError { .. })
    ));
}

#[test]
fn instance_paths_and_names() {
    assert_eq!(
        instance_base("txp:place/polity/country/iso_3166_entity/instance").as_deref(),
        Some("place/polity/country/iso_3166_entity")
    );
    assert_eq!(instance_base("txp:meta/identifier/schema"), None);
    assert_eq!(instance_base("plain/instance").as_deref(), Some("plain"));
    assert!(names("iso_3166_entity", "ISO3166Entity"));
    assert!(names("country-code", "CountryCode"));
    assert!(!names("iso_3166_entity", "ISO3166"));
    let resolver = InstanceResolver::new("".to_string());
    assert_eq!(
        resolver.resolve_instance_path("txp:a/b/instance"),
        Some(("a/b.yaml".to_string(), "a/b.yml".to_string()))
    );
    assert_eq!(resolver.resolve_instance_path("txp:a/b/schema"), None);
    assert_eq!(InstanceResolver::cache_key("Range", "id"), "Range::id");
}

#[test]
fn pattern_interpolation() {
    let schema = load_str(COUNTRY_SCHEMA).unwrap();
    let slot = schema.slots.get("identifier").unwrap();
    let pattern = compile_pattern(slot.structured_pattern.as_ref().unwrap(), &schema.settings).unwrap();
    assert_eq!(pattern, "[A-Z]{2}");
    let re = regex::Regex::new(&format!("^(?:{})$", pattern)).unwrap();
    assert!(re.is_match("US"));
    assert!(!re.is_match("us"));
    assert!(!re.is_match("USA"));
    assert!(!re.is_match(""));
}

fn settings(pairs: &[(&str, &str)]) -> OrderedMap<String> {
    let mut m = OrderedMap::new();
    for (k, v) in pairs {
        m.insert(k.to_string(), v.to_string());
    }
    m
}

#[test]
fn nested_patterns_and_their_failures() {
    let s = settings(&[
        ("id_pattern", "{prefix_pattern}:{local_pattern}"),
        ("prefix_pattern", "[a-z]+"),
        ("local_pattern", "{digit_pattern}{4}"),
        ("digit_pattern", "[0-9]"),
    ]);
    assert_eq!(interpolate("^{id_pattern}$", &s).unwrap(), "^[a-z]+:[0-9]{4}$");
    assert_eq!(interpolate("no placeholders {2,3} {}", &s).unwrap(), "no placeholders {2,3} {}");
    match interpolate("{missing_pattern}", &s) {
        Err(LinkMLError::PatternError { name, cause }) => {
            assert_eq!(name, "missing_pattern");
            assert_eq!(cause, PatternFailure::Unresolved);
        }
        other => panic!("expected an error, got {:?}", other),
    }
    let not_a_pattern = settings(&[("code", "[A-Z]")]);
    assert!(matches!(
        interpolate("{code}", &not_a_pattern),
        Err(LinkMLError::PatternError { cause: PatternFailure::Unresolved, .. })
    ));
    let cycle = settings(&[("a_pattern", "{b_pattern}"), ("b_pattern", "{a_pattern}")]);
    match interpolate("{a_pattern}", &cycle) {
        Err(LinkMLError::PatternError { cause, .. }) => assert_eq!(cause, PatternFailure::Cycle),
        other => panic!("expected an error, got {:?}", other),
    }
    let plain = linkml_schema::types::StructuredPattern {
        syntax: "{a_pattern}".to_string(),
        interpolated: false,
    };
    assert_eq!(compile_pattern(&plain, &cycle).unwrap(), "{a_pattern}");
}
