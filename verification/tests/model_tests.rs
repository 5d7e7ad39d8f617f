use linkml_schema::document::{read_document, sniff_dialect, Dialect, ScalarStyle};
use linkml_schema::model::DeepValue;
use linkml_schema::ordered::OrderedMap;
use linkml_schema::schema_parser::load_str;
use linkml_schema::settings::{
    GenerationSettings, ImportSettings, LanguageOptions, SchemaSettings, DefaultSettings,
};
use linkml_schema::span::Span;
use linkml_schema::text::{ends_with, starts_with, str_eq, string_value, trim, trim_matches};
use linkml_schema::types_v2::{Intern, StringPool};
use linkml_schema::validation_event_handler::{
    validation_outcome, LinkMLValidationRequestHandler, LinkMLValidationService, ValidationOutcome,
};
use std::sync::Arc;

#[test]
fn ordered_map_keeps_insertion_order() {
    let mut m: OrderedMap<u16> = OrderedMap::new();
    assert_eq!(m.len(), 0);
    assert_eq!(m.insert("b".to_string(), 1), None);
    assert_eq!(m.insert("a".to_string(), 2), None);
    assert_eq!(m.insert("c".to_string(), 3), None);
    assert_eq!(m.insert("a".to_string(), 20), Some(2));
    assert_eq!(m.len(), 3);
    assert_eq!(m.get("a"), Some(&20));
    assert_eq!(m.get("zz"), None);
    assert_eq!(m.get_index_of("c"), Some(2));
    assert_eq!(m.get_index_of("b"), Some(0));
    assert!(m.contains_key("b"));
    assert!(!m.contains_key("d"));
    assert_eq!(m.get_index(1).map(|(k, v)| (k.as_str(), *v)), Some(("a", 20)));
    assert_eq!(m.get_index(3), None);
    assert_eq!(m.find("c"), Some(&3));
    let copy = m.deep_clone();
    assert!(copy.deep_eq(&m));
    let mut other = m.deep_clone();
    other.insert("c".to_string(), 4);
    assert!(!other.deep_eq(&m));
}

#[test]
fn span_merge_takes_the_earlier_position() {
    let a = Span::new(10, 20, 1, 11);
    let b = Span::new(15, 40, 2, 3);
    assert_eq!(a.merge(&b), Span::new(10, 40, 1, 11));
    assert_eq!(b.merge(&a), Span::new(10, 40, 1, 11));
    assert_eq!(a.merge(&a), a);
    let c = Span::new(0, 5, 2, 1);
    assert_eq!(b.merge(&c), Span::new(0, 40, 2, 1));
}

#[test]
fn text_helpers() {
    assert_eq!(trim("  a b \t\n"), "a b");
    assert_eq!(trim("\u{a0}x\u{3000}"), "x");
    assert_eq!(trim_matches("\"\"x\"y\"", '"'), "x\"y");
    assert_eq!(string_value(" 'a' "), "a");
    assert!(str_eq("abc", "abc"));
    assert!(!str_eq("abc", "abd"));
    assert!(!str_eq("abc", "ab"));
    assert!(starts_with("prefix:rest", "prefix"));
    assert!(!starts_with("pre", "prefix"));
    assert!(ends_with("a/b/instance", "/instance"));
    assert!(!ends_with("instance", "/instance"));
}

#[test]
fn entries_of_a_document() {
    let entries = read_document("a:\n  - x\n  - \"y z\"\nb: |\n  one\n\n  two\nc: {k: v}\n").unwrap();
    let shape: Vec<(usize, bool, Option<&str>, Option<&str>, ScalarStyle)> = entries
        .iter()
        .map(|e| {
            (
                e.depth,
                e.item,
                e.key.as_ref().map(|k| k.value.as_str()),
                e.value.as_ref().map(|v| v.value.as_str()),
                e.style,
            )
        })
        .collect();
    assert_eq!(
        shape,
        vec![
            (0, false, Some("a"), None, ScalarStyle::Plain),
            (5, true, None, Some("x"), ScalarStyle::Plain),
            (5, true, None, Some("y z"), ScalarStyle::Quoted),
            (0, false, Some("b"), Some("one\n\ntwo"), ScalarStyle::Block),
            (0, false, Some("c"), None, ScalarStyle::Plain),
            (1, false, Some("k"), Some("v"), ScalarStyle::Plain),
        ]
    );
    assert_eq!(sniff_dialect("  \n {\"a\": 1}"), Dialect::Braced);
    assert_eq!(sniff_dialect("a: 1"), Dialect::Indented);
    assert_eq!(sniff_dialect(""), Dialect::Indented);
}

#[test]
fn interning_shares_identifiers() {
    let schema = load_str(
        "id: https://example.org/t\nname: t\nprefixes:\n  p: https://p.example/\nclasses:\n  A:\n    is_a: Thing\n    slots: [name]\n  B:\n    is_a: Thing\n    slots: [name]\nslots:\n  name:\n    range: string\n",
    )
    .unwrap();
    let mut pool = StringPool::new();
    let v2 = schema.intern(&mut pool);
    assert_eq!(*v2.name, "t");
    let a = v2.classes.get("A").unwrap();
    let b = v2.classes.get("B").unwrap();
    assert_eq!(**a.is_a.as_ref().unwrap(), "Thing");
    assert!(Arc::ptr_eq(a.is_a.as_ref().unwrap(), b.is_a.as_ref().unwrap()));
    assert!(Arc::ptr_eq(&a.slots[0], &b.slots[0]));
    assert!(Arc::ptr_eq(&a.slots[0], &v2.slots.get("name").unwrap().name));
    let prefix = v2.prefixes.get("p").unwrap();
    assert_eq!(*prefix.prefix_prefix, "https://p.example/");
    assert_eq!(*prefix.prefix_reference, "https://p.example/");
    let before = pool.len();
    let again = pool.intern("Thing");
    assert_eq!(pool.len(), before);
    assert!(Arc::ptr_eq(&again, a.is_a.as_ref().unwrap()));
    let fresh = pool.intern("never seen");
    assert_eq!(*fresh, "never seen");
    assert_eq!(pool.len(), before + 1);
}

#[test]
fn complex_prefix_refers_to_its_prefix_when_it_has_no_reference() {
    let mut pool = StringPool::new();
    let p = linkml_schema::types::PrefixDefinition::Complex {
        prefix_prefix: "ex".to_string(),
        prefix_reference: None,
    };
    let v2 = p.intern(&mut pool);
    assert_eq!(*v2.prefix_prefix, "ex");
    assert_eq!(*v2.prefix_reference, "ex");
    let q = linkml_schema::types::PrefixDefinition::Complex {
        prefix_prefix: "ex".to_string(),
        prefix_reference: Some("https://ex.example/".to_string()),
    };
    assert_eq!(*q.intern(&mut pool).prefix_reference, "https://ex.example/");
}

#[test]
fn settings_in_one_record() {
    let mut rust = LanguageOptions::new();
    rust.imports = vec!["std::fmt".to_string()];
    rust.features = vec!["serde".to_string()];
    rust.type_mappings.insert("string".to_string(), "String".to_string());
    let mut python = LanguageOptions::new();
    python.package_name = Some("model".to_string());
    python.imports = vec!["typing".to_string()];
    python.features = vec!["pydantic".to_string(), "slots".to_string()];
    python.type_mappings.insert("string".to_string(), "str".to_string());
    python.type_mappings.insert("integer".to_string(), "int".to_string());
    let mut generation = GenerationSettings::new();
    generation.language_options.insert("rust".to_string(), rust);
    generation.language_options.insert("python".to_string(), python);
    let mut imports = ImportSettings::new();
    imports.search_paths = vec!["/r".to_string(), "lib".to_string()];
    imports.base_url = Some("https://example.org/".to_string());
    let mut defaults = DefaultSettings::new();
    defaults.slot_range = Some("string".to_string());
    let mut settings = SchemaSettings::new();
    settings.imports = Some(imports);
    settings.defaults = Some(defaults);
    settings.generation = Some(generation);
    let mut pool = StringPool::new();
    let v2 = settings.intern(&mut pool);
    let strings = |v: &Vec<Arc<String>>| v.iter().map(|s| s.as_str().to_string()).collect::<Vec<_>>();
    assert_eq!(strings(&v2.search_paths), vec!["/r", "lib"]);
    assert_eq!(v2.base_url.as_deref().map(|s| s.as_str()), Some("https://example.org/"));
    assert_eq!(v2.slot_range.as_deref().map(|s| s.as_str()), Some("string"));
    assert_eq!(v2.package_name.as_deref().map(|s| s.as_str()), Some("model"));
    assert_eq!(strings(&v2.imports), vec!["std::fmt", "typing"]);
    assert_eq!(strings(&v2.features), vec!["serde", "pydantic", "slots"]);
    assert_eq!(v2.type_mappings.len(), 2);
    assert_eq!(v2.type_mappings.get("string").unwrap().as_str(), "String");
    assert_eq!(v2.type_mappings.get("integer").unwrap().as_str(), "int");
    let nothing = SchemaSettings::new().intern(&mut pool);
    assert!(nothing.search_paths.is_empty());
    assert!(nothing.package_name.is_none());
}

struct MockLinkMLService;

impl LinkMLValidationService for MockLinkMLService {
    fn validate_linkml_schema(&self, _ontology_id: String) -> Result<(bool, Vec<String>), String> {
        Ok((true, vec![]))
    }
}

#[test]
fn test_handler_creation() {
    // This test verifies the handler can be created without panicking
    let _handler = LinkMLValidationRequestHandler::new(MockLinkMLService);
}

#[test]
fn validation_answers_and_their_results() {
    let handler = LinkMLValidationRequestHandler::new(MockLinkMLService);
    assert!(matches!(handler.handle("onto".to_string()), ValidationOutcome::Success));
    assert!(matches!(validation_outcome(Ok((true, vec![]))), ValidationOutcome::Success));
    match validation_outcome(Ok((true, vec!["late".to_string()]))) {
        ValidationOutcome::Failure(errors) => assert_eq!(errors, vec!["late"]),
        other => panic!("expected a failure, got {:?}", other),
    }
    match validation_outcome(Ok((false, vec![]))) {
        ValidationOutcome::Failure(errors) => assert!(errors.is_empty()),
        other => panic!("expected a failure, got {:?}", other),
    }
    match validation_outcome(Err("no such ontology".to_string())) {
        ValidationOutcome::Failure(errors) => {
            assert_eq!(errors, vec!["Validation error: no such ontology"])
        }
        other => panic!("expected a failure, got {:?}", other),
    }
}
