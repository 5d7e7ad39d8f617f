use linkml_schema::error::{DeclarationKind, ImportCause, LinkMLError};
use linkml_schema::import_resolver::{ImportResolver, Resolution};
use linkml_schema::model::DeepValue;
use linkml_schema::schema_parser::load_str;
use linkml_schema::source_reader::{candidates, reference_kind, within_root, ReferenceKind};
use linkml_schema::types::{description_text, SchemaDefinition};

fn schema(text: &str) -> SchemaDefinition {
    load_str(text).unwrap()
}

fn class_names(s: &SchemaDefinition) -> Vec<String> {
    (0..s.classes.len()).map(|i| s.classes.get_index(i).unwrap().0.clone()).collect()
}

#[test]
fn import_is_asked_for_and_then_merged() {
    let base = schema(
        "id: https://example.org/base\nname: base\nclasses:\n  BaseClass:\n    description: Base class\nslots:\n  base_slot:\n    range: string\n",
    );
    let main = schema(
        "id: https://example.org/main\nname: main\nimports:\n  - base\nclasses:\n  MainClass:\n    is_a: BaseClass\n    description: Main class\n",
    );
    let mut resolver = ImportResolver::with_search_paths(vec!["/tmp/schemas".to_string()]);
    match resolver.resolve_imports(&main) {
        Resolution::Need(reference) => assert_eq!(reference, "base"),
        other => panic!("expected a request for the import, got {:?}", other),
    }
    assert!(!resolver.is_loaded("base"));
    resolver.insert_loaded("base".to_string(), base);
    assert!(resolver.is_loaded("base"));
    match resolver.resolve_imports(&main) {
        Resolution::Done(merged) => {
            assert!(merged.classes.contains_key("BaseClass"));
            assert!(merged.slots.contains_key("base_slot"));
            assert!(merged.classes.contains_key("MainClass"));
            assert_eq!(class_names(&merged), vec!["MainClass", "BaseClass"]);
            assert_eq!(merged.name, "main");
        }
        other => panic!("expected the merged schema, got {:?}", other),
    }
}

#[test]
fn prefixed_import_resolution() {
    let mut resolver = ImportResolver::with_search_paths(vec!["/r".to_string()]);
    resolver.prefix_map.insert("proj".to_string(), "/r".to_string());
    let found = candidates(&resolver.search_paths, &resolver.prefix_map, "proj:a/b/schema");
    assert_eq!(
        found,
        vec!["/r/a/b/schema.yaml", "/r/a/b/schema", "/r/a/b/schema.yml", "/r/a/b/schema.json"]
    );
    let root = schema("id: https://example.org/root\nname: root\nimports: [proj:a/b/schema]\n");
    let imported = schema("id: https://example.org/b\nname: b\nclasses:\n  Imported:\n    description: x\n");
    resolver.insert_loaded("proj:a/b/schema".to_string(), imported);
    match resolver.resolve_imports(&root) {
        Resolution::Done(merged) => {
            assert!(merged.classes.contains_key("Imported"));
            assert!(merged.imports.contains(&"proj:a/b/schema".to_string()));
        }
        other => panic!("expected the merged schema, got {:?}", other),
    }
}

#[test]
fn candidates_follow_the_search_paths_in_order() {
    let resolver = ImportResolver::with_search_paths(vec!["/a".to_string(), "b/".to_string()]);
    let found = candidates(&resolver.search_paths, &resolver.prefix_map, "x/schema");
    assert_eq!(
        found,
        vec![
            "/a/x/schema.yaml", "/a/x/schema", "/a/x/schema.yml", "/a/x/schema.json",
            "b/x/schema.yaml", "b/x/schema", "b/x/schema.yml", "b/x/schema.json",
        ]
    );
    let absolute = candidates(&resolver.search_paths, &resolver.prefix_map, "/abs/s");
    assert_eq!(absolute, vec!["/abs/s.yaml", "/abs/s", "/abs/s.yml", "/abs/s.json"]);
    let unknown_prefix = candidates(&resolver.search_paths, &resolver.prefix_map, "linkml:types");
    assert_eq!(unknown_prefix.len(), 8);
    assert_eq!(unknown_prefix[0], "/a/linkml:types.yaml");
}

#[test]
fn reference_forms() {
    assert_eq!(reference_kind("/r/a/schema.yaml"), ReferenceKind::AbsolutePath);
    assert_eq!(reference_kind("a/schema"), ReferenceKind::RelativePath);
    assert_eq!(reference_kind("https://example.org/s.yaml"), ReferenceKind::Url);
    assert_eq!(reference_kind("proj:meta/foo/schema"), ReferenceKind::Prefixed);
    assert_eq!(reference_kind("9x:meta"), ReferenceKind::RelativePath);
    assert_eq!(reference_kind(""), ReferenceKind::RelativePath);
}

#[test]
fn sandbox_rejects_paths_outside_the_root() {
    assert!(within_root("/r", "/r/a/b.yaml"));
    assert!(within_root("/r/", "/r/a"));
    assert!(within_root("/r", "/r"));
    assert!(!within_root("/r", "/rx/a"));
    assert!(!within_root("/r", "/q/a"));
    assert!(!within_root("/r", "/r/../etc/passwd"));
    assert!(!within_root("/r", "/r/a/.."));
    assert!(within_root("/r", "/r/a..b/c"));
}

#[test]
fn cycle_is_passed_over() {
    let a = schema("id: https://example.org/a\nname: a\nimports: [b]\nclasses:\n  A:\n    description: a\n");
    let b = schema("id: https://example.org/b\nname: b\nimports: [a]\nclasses:\n  B:\n    description: b\n");
    let mut resolver = ImportResolver::new();
    resolver.insert_loaded("a".to_string(), a.deep_clone());
    resolver.insert_loaded("b".to_string(), b);
    match resolver.resolve_imports(&a) {
        Resolution::Done(merged) => {
            assert_eq!(class_names(&merged), vec!["A", "B"]);
            assert_eq!(merged.imports, vec!["b", "a"]);
        }
        other => panic!("expected the merged schema, got {:?}", other),
    }
}

fn chain(n: usize) -> (SchemaDefinition, ImportResolver) {
    let mut resolver = ImportResolver::new();
    for k in 2..=n {
        let text = if k < n {
            format!("id: https://example.org/a{k}\nname: a{k}\nimports: [a{}]\nclasses:\n  C{k}:\n    description: x\n", k + 1)
        } else {
            format!("id: https://example.org/a{k}\nname: a{k}\nclasses:\n  C{k}:\n    description: x\n")
        };
        resolver.insert_loaded(format!("a{k}"), schema(&text));
    }
    let root = schema("id: https://example.org/a1\nname: a1\nimports: [a2]\nclasses:\n  C1:\n    description: x\n");
    (root, resolver)
}

#[test]
fn chain_of_twelve_is_too_deep() {
    let (root, resolver) = chain(12);
    assert_eq!(resolver.max_depth, 10);
    match resolver.resolve_imports(&root) {
        Resolution::Failed(LinkMLError::ImportError { target, cause }) => {
            assert_eq!(target, "a12");
            assert!(matches!(cause, ImportCause::DepthExceeded { limit: 10 }));
        }
        other => panic!("expected a failure, got {:?}", other),
    }
}

#[test]
fn chain_of_eleven_resolves() {
    let (root, resolver) = chain(11);
    match resolver.resolve_imports(&root) {
        Resolution::Done(merged) => {
            assert_eq!(merged.classes.len(), 11);
            assert_eq!(class_names(&merged)[0], "C1");
            assert_eq!(class_names(&merged)[10], "C11");
        }
        other => panic!("expected the merged schema, got {:?}", other),
    }
}

#[test]
fn collision_rule() {
    let root = schema("id: https://example.org/root\nname: root\nimports: [one, two]\n");
    let one = schema("id: https://example.org/one\nname: one\nclasses:\n  Foo:\n    description: first\n");
    let two = schema("id: https://example.org/two\nname: two\nclasses:\n  Foo:\n    description: second\n");
    let same = schema("id: https://example.org/two\nname: two\nclasses:\n  Foo:\n    description: first\n");
    let mut resolver = ImportResolver::new();
    resolver.insert_loaded("one".to_string(), one.deep_clone());
    resolver.insert_loaded("two".to_string(), two);
    match resolver.resolve_imports(&root) {
        Resolution::Failed(LinkMLError::ImportError { target, cause }) => {
            assert_eq!(target, "two");
            match cause {
                ImportCause::Collision { kind, name } => {
                    assert_eq!(kind, DeclarationKind::Class);
                    assert_eq!(name, "Foo");
                }
                other => panic!("expected a collision, got {:?}", other),
            }
        }
        other => panic!("expected a failure, got {:?}", other),
    }
    let mut resolver = ImportResolver::new();
    resolver.insert_loaded("one".to_string(), one);
    resolver.insert_loaded("two".to_string(), same);
    match resolver.resolve_imports(&root) {
        Resolution::Done(merged) => {
            assert_eq!(merged.classes.len(), 1);
            assert_eq!(
                description_text(merged.classes.get("Foo").unwrap().description.as_ref().unwrap()),
                "first"
            );
        }
        other => panic!("expected the merged schema, got {:?}", other),
    }
}

#[test]
fn merge_keeps_the_target_and_adds_in_source_order() {
    let mut target = schema(
        "id: https://example.org/t\nname: t\ntitle: Target\nprefixes:\n  p: https://t.example/\nsettings:\n  id_pattern: \"[a-z]+\"\nclasses:\n  A:\n    description: a\n  B:\n    description: b\n",
    );
    let source = schema(
        "id: https://example.org/s\nname: s\ntitle: Source\nprefixes:\n  p: https://s.example/\n  q: https://q.example/\nsettings:\n  id_pattern: \"[0-9]+\"\n  code_pattern: \"[A-Z]{2}\"\nclasses:\n  D:\n    description: d\n  B:\n    description: b\n  C:\n    description: c\nslots:\n  s1:\n    range: string\n",
    );
    ImportResolver::merge_schema(&mut target, &source).unwrap();
    assert_eq!(class_names(&target), vec!["A", "B", "D", "C"]);
    assert_eq!(target.title.as_deref(), Some("Target"));
    assert_eq!(target.name, "t");
    assert_eq!(target.prefixes.len(), 2);
    match target.prefixes.get("p").unwrap() {
        linkml_schema::types::PrefixDefinition::Simple(uri) => assert_eq!(uri, "https://t.example/"),
        other => panic!("unexpected prefix {:?}", other),
    }
    assert_eq!(target.settings.get("id_pattern").unwrap(), "[a-z]+");
    assert_eq!(target.settings.get("code_pattern").unwrap(), "[A-Z]{2}");
    assert!(target.slots.contains_key("s1"));
}

#[test]
fn merge_with_itself_changes_nothing() {
    let text = "id: https://example.org/t\nname: t\nimports: [x]\nprefixes:\n  p: https://t.example/\nclasses:\n  A:\n    description: a\n  B:\n    slots: [s]\nslots:\n  s:\n    range: string\nenums:\n  E:\n    permissible_values:\n      one:\n";
    let mut target = schema(text);
    let copy = target.deep_clone();
    ImportResolver::merge_schema(&mut target, &copy).unwrap();
    assert!(target.deep_eq(&copy));
}

#[test]
fn failed_merge_leaves_the_target() {
    let mut target = schema("id: https://example.org/t\nname: t\nslots:\n  s:\n    range: string\n");
    let before = target.deep_clone();
    let source = schema(
        "id: https://example.org/s\nname: s\nclasses:\n  New:\n    description: n\nslots:\n  s:\n    range: integer\n",
    );
    match ImportResolver::merge_schema(&mut target, &source) {
        Err(LinkMLError::ImportError { target: named, cause }) => {
            assert_eq!(named, "s");
            assert!(matches!(cause, ImportCause::Collision { kind: DeclarationKind::Slot, .. }));
        }
        other => panic!("expected a collision, got {:?}", other),
    }
    assert!(target.deep_eq(&before));
}

#[test]
fn resolver_settings() {
    let mut resolver = ImportResolver::new();
    assert_eq!(resolver.search_paths, vec!["."]);
    assert_eq!(resolver.max_depth, 10);
    resolver.set_base_path("/r");
    resolver.set_base_url("https://example.org/");
    assert_eq!(resolver.base_path.as_deref(), Some("/r"));
    assert_eq!(resolver.base_url.as_deref(), Some("https://example.org/"));
}
