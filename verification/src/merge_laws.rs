//! What holds of merging and of the resolution of imports.

use crate::error::ImportCauseView;
use crate::import_resolver::{
    spec_collision, spec_distinct_keys, spec_import_error, spec_merge_collision, spec_merged,
    spec_resolve, spec_resolve_list, spec_resolve_schema, spec_union, spec_union_list,
    InterruptView, ResolutionView,
};
use crate::ordered::{lemma_lookup_absent, lemma_lookup_found, lemma_lookup_unique, spec_lookup};
use crate::types::SchemaDefinitionView;
use vstd::prelude::*;

verus! {

/// The elements of `a` stand in `b` in the same order.
pub open spec fn spec_embeds<T>(a: Seq<T>, b: Seq<T>) -> bool
    decreases b.len(),
{
    if a.len() == 0 {
        true
    } else if b.len() == 0 {
        false
    } else if a.last() == b.last() && spec_embeds(a.drop_last(), b.drop_last()) {
        true
    } else {
        spec_embeds(a, b.drop_last())
    }
}

/// No name is declared twice in any of the mappings of a schema.
pub open spec fn spec_schema_well_formed(s: SchemaDefinitionView) -> bool {
    &&& spec_distinct_keys(s.prefixes)
    &&& spec_distinct_keys(s.settings)
    &&& spec_distinct_keys(s.classes)
    &&& spec_distinct_keys(s.slots)
    &&& spec_distinct_keys(s.types)
    &&& spec_distinct_keys(s.enums)
    &&& spec_distinct_keys(s.subsets)
}

/// Merging the pairs of `source` from the `i`-th on into `target` keeps
/// `target` as the beginning of the result and adds after it pairs of
/// `source[i..]` in their order; no key comes to stand twice, and every key
/// of `source[i..]` stands in the result.
pub proof fn lemma_union_grows<V>(
    target: Seq<(Seq<char>, V)>,
    source: Seq<(Seq<char>, V)>,
    i: int,
    n: int,
)
    requires
        0 <= i <= source.len(),
        0 <= n <= target.len(),
        spec_distinct_keys(target),
        spec_embeds(target.skip(n), source.take(i)),
    ensures
        spec_union(target, source, i).len() >= target.len(),
        spec_union(target, source, i).take(target.len() as int) == target,
        spec_embeds(spec_union(target, source, i).skip(n), source),
        spec_distinct_keys(spec_union(target, source, i)),
        forall|j: int|
            i <= j < source.len() ==> spec_lookup(
                spec_union(target, source, i),
                (#[trigger] source[j]).0,
            ) is Some,
        forall|key: Seq<char>|
            spec_lookup(target, key) is Some ==> spec_lookup(spec_union(target, source, i), key)
                == spec_lookup(target, key),
    decreases source.len() - i,
{
    let r = spec_union(target, source, i);
    if i >= source.len() {
        assert(r.take(target.len() as int) =~= target);
        assert(source.take(i) =~= source);
    } else {
        assert(source.take(i + 1).drop_last() =~= source.take(i));
        if spec_lookup(target, source[i].0) is Some {
            lemma_union_grows(target, source, i + 1, n);
        } else {
            let grown = target.push(source[i]);
            lemma_lookup_found(target, source[i].0);
            assert(spec_distinct_keys(grown));
            assert(grown.skip(n).drop_last() =~= target.skip(n));
            assert(grown.skip(n).last() == source.take(i + 1).last());
            lemma_union_grows(grown, source, i + 1, n);
            assert(r.take(target.len() as int) =~= r.take(grown.len() as int).take(
                target.len() as int,
            ));
            assert(grown.take(target.len() as int) =~= target);
            assert(grown.drop_last() =~= target);
            assert forall|key: Seq<char>| spec_lookup(target, key) is Some implies spec_lookup(
                r,
                key,
            ) == spec_lookup(target, key) by {
                assert(spec_lookup(grown, key) == spec_lookup(target, key));
            }
            assert(spec_lookup(grown, source[i].0) is Some);
        }
    }
}

/// Every declaration of a merged mapping was declared by the target or by the
/// source. The declarations of the target come first, as they stood; those
/// that only the source had follow in the order of the source. No name is
/// declared twice, and every name of the source is declared.
pub proof fn law_union_provenance<V>(target: Seq<(Seq<char>, V)>, source: Seq<(Seq<char>, V)>)
    requires
        spec_distinct_keys(target),
    ensures
        spec_union(target, source, 0).len() >= target.len(),
        spec_union(target, source, 0).take(target.len() as int) == target,
        spec_embeds(spec_union(target, source, 0).skip(target.len() as int), source),
        spec_distinct_keys(spec_union(target, source, 0)),
        forall|j: int|
            0 <= j < source.len() ==> spec_lookup(
                spec_union(target, source, 0),
                (#[trigger] source[j]).0,
            ) is Some,
{
    assert(target.skip(target.len() as int) =~= Seq::empty());
    lemma_union_grows(target, source, 0, target.len() as int);
}

/// A mapping merged with pairs of itself stays as it is, without collision.
pub proof fn lemma_union_self<V>(pairs: Seq<(Seq<char>, V)>, i: int)
    requires
        0 <= i <= pairs.len(),
        spec_distinct_keys(pairs),
    ensures
        spec_collision(pairs, pairs, i) is None,
        spec_union(pairs, pairs, i) == pairs,
    decreases pairs.len() - i,
{
    if i < pairs.len() {
        lemma_lookup_unique(pairs, pairs[i].0, i);
        lemma_union_self(pairs, i + 1);
    }
}

/// A list merged with strings of itself stays as it is.
pub proof fn lemma_union_list_self(list: Seq<Seq<char>>, i: int)
    requires
        0 <= i <= list.len(),
    ensures
        spec_union_list(list, list, i) == list,
    decreases list.len() - i,
{
    if i < list.len() {
        assert(list.contains(list[i]));
        lemma_union_list_self(list, i + 1);
    }
}

/// Merging a schema with itself yields the schema: no declaration collides
/// with itself and nothing is added.
pub proof fn law_merge_idempotent(s: SchemaDefinitionView)
    requires
        spec_schema_well_formed(s),
    ensures
        spec_merge_collision(s, s) is None,
        spec_merged(s, s) == s,
{
    lemma_union_self(s.prefixes, 0);
    lemma_union_self(s.settings, 0);
    lemma_union_self(s.classes, 0);
    lemma_union_self(s.slots, 0);
    lemma_union_self(s.types, 0);
    lemma_union_self(s.enums, 0);
    lemma_union_self(s.subsets, 0);
    lemma_union_list_self(s.imports, 0);
}

/// There is a collision from the `i`-th pair of the source on exactly when
/// one of those pairs has a key that stands in the target with another value.
pub proof fn lemma_collision_iff<V>(target: Seq<(Seq<char>, V)>, source: Seq<(Seq<char>, V)>, i: int)
    requires
        0 <= i <= source.len(),
    ensures
        spec_collision(target, source, i) is Some <==> exists|j: int|
            i <= j < source.len() && spec_lookup(target, (#[trigger] source[j]).0) is Some
                && spec_lookup(target, source[j].0) != Some(source[j].1),
        spec_collision(target, source, i) matches Some(name) ==> exists|j: int|
            i <= j < source.len() && (#[trigger] source[j]).0 == name && spec_lookup(target, name)
                is Some && spec_lookup(target, name) != Some(source[j].1),
    decreases source.len() - i,
{
    if i < source.len() {
        lemma_collision_iff(target, source, i + 1);
        let here = spec_lookup(target, source[i].0) is Some && spec_lookup(target, source[i].0)
            != Some(source[i].1);
        if here {
            assert(spec_collision(target, source, i) == Some(source[i].0));
        } else {
            assert(spec_collision(target, source, i) == spec_collision(target, source, i + 1));
            if spec_collision(target, source, i) is Some {
                let j = choose|j: int|
                    i + 1 <= j < source.len() && spec_lookup(target, (#[trigger] source[j]).0)
                        is Some && spec_lookup(target, source[j].0) != Some(source[j].1);
                assert(i <= j < source.len());
            } else {
                assert forall|j: int|
                    i <= j < source.len() && spec_lookup(target, (#[trigger] source[j]).0)
                        is Some implies spec_lookup(target, source[j].0) == Some(source[j].1) by {
                    if j > i {
                        assert(i + 1 <= j);
                    }
                }
            }
        }
    }
}

/// Two schemas collide exactly when a class, slot, type, enumeration or
/// subset of the source is declared by the target under the same name with
/// another body. Declarations that are equal under one name do not collide.
pub proof fn law_collision(t: SchemaDefinitionView, s: SchemaDefinitionView)
    ensures
        spec_merge_collision(t, s) is None <==> {
            &&& forall|j: int|
                0 <= j < s.classes.len() && spec_lookup(t.classes, (#[trigger] s.classes[j]).0)
                    is Some ==> spec_lookup(t.classes, s.classes[j].0) == Some(s.classes[j].1)
            &&& forall|j: int|
                0 <= j < s.slots.len() && spec_lookup(t.slots, (#[trigger] s.slots[j]).0)
                    is Some ==> spec_lookup(t.slots, s.slots[j].0) == Some(s.slots[j].1)
            &&& forall|j: int|
                0 <= j < s.types.len() && spec_lookup(t.types, (#[trigger] s.types[j]).0)
                    is Some ==> spec_lookup(t.types, s.types[j].0) == Some(s.types[j].1)
            &&& forall|j: int|
                0 <= j < s.enums.len() && spec_lookup(t.enums, (#[trigger] s.enums[j]).0)
                    is Some ==> spec_lookup(t.enums, s.enums[j].0) == Some(s.enums[j].1)
            &&& forall|j: int|
                0 <= j < s.subsets.len() && spec_lookup(t.subsets, (#[trigger] s.subsets[j]).0)
                    is Some ==> spec_lookup(t.subsets, s.subsets[j].0) == Some(s.subsets[j].1)
        },
{
    lemma_collision_iff(t.classes, s.classes, 0);
    lemma_collision_iff(t.slots, s.slots, 0);
    lemma_collision_iff(t.types, s.types, 0);
    lemma_collision_iff(t.enums, s.enums, 0);
    lemma_collision_iff(t.subsets, s.subsets, 0);
}

/// A schema that lies more than `max` imports away from the root is not
/// resolved.
pub proof fn law_depth_bound(
    name: Seq<char>,
    schema: SchemaDefinitionView,
    visited: Seq<Seq<char>>,
    depth: int,
    max: int,
    store: Seq<(Seq<char>, SchemaDefinitionView)>,
)
    requires
        0 <= max < depth,
    ensures
        spec_resolve_schema(name, schema, visited, depth, max, store) == Err::<
            (SchemaDefinitionView, Seq<Seq<char>>),
            InterruptView,
        >(
            InterruptView::Failed(
                spec_import_error(name, ImportCauseView::DepthExceeded { limit: max as usize }),
            ),
        ),
{
}

/// The schemas `schemas[k..]` of a chain, each of which imports only the
/// next, lead to a schema that lies too deep.
pub proof fn lemma_chain(
    acc: SchemaDefinitionView,
    names: Seq<Seq<char>>,
    schemas: Seq<SchemaDefinitionView>,
    k: int,
    max: int,
    store: Seq<(Seq<char>, SchemaDefinitionView)>,
)
    requires
        0 <= k <= max,
        max <= usize::MAX,
        names.len() == max + 1,
        schemas.len() == max + 1,
        forall|a: int, b: int| 0 <= a < b < names.len() ==> names[a] != names[b],
        forall|a: int| 0 <= a <= max ==> spec_lookup(store, #[trigger] names[a]) == Some(
            schemas[a],
        ),
        forall|a: int| 0 <= a < max ==> (#[trigger] schemas[a]).imports == seq![names[a + 1]],
    ensures
        spec_resolve_list(acc, seq![names[k]], 0, names.take(k), k, max, store) == Err::<
            (SchemaDefinitionView, Seq<Seq<char>>),
            InterruptView,
        >(
            InterruptView::Failed(
                spec_import_error(
                    names[max],
                    ImportCauseView::DepthExceeded { limit: max as usize },
                ),
            ),
        ),
    decreases max - k,
{
    let imports = seq![names[k]];
    assert(imports[0] == names[k]);
    assert(!names.take(k).contains(names[k])) by {
        if names.take(k).contains(names[k]) {
            let a = choose|a: int| 0 <= a < names.take(k).len() && names.take(k)[a] == names[k];
            assert(names[a] == names[k]);
        }
    }
    assert(names.take(k).push(names[k]) =~= names.take(k + 1));
    let inner = spec_resolve_schema(names[k], schemas[k], names.take(k + 1), k + 1, max, store);
    let failure = Err::<(SchemaDefinitionView, Seq<Seq<char>>), InterruptView>(
        InterruptView::Failed(
            spec_import_error(names[max], ImportCauseView::DepthExceeded { limit: max as usize }),
        ),
    );
    if k < max {
        lemma_chain(schemas[k], names, schemas, k + 1, max, store);
        assert(schemas[k].imports == seq![names[k + 1]]);
        assert(inner == spec_resolve_list(
            schemas[k],
            schemas[k].imports,
            0,
            names.take(k + 1),
            k + 1,
            max,
            store,
        ));
        assert(inner == failure);
    } else {
        assert(inner == failure);
    }
    assert(spec_lookup(store, imports[0]) == Some(schemas[k]));
    assert(spec_resolve_list(acc, imports, 0, names.take(k), k, max, store) == match inner {
        Err(x) => Err::<(SchemaDefinitionView, Seq<Seq<char>>), InterruptView>(x),
        Ok((resolved, seen)) => failure,
    });
}

/// A schema that imports a chain of `max + 1` schemas, each of which imports
/// only the next, is not resolved: the last schema of the chain lies too
/// deep, and the error names it.
pub proof fn law_depth_exceeded(
    root: SchemaDefinitionView,
    names: Seq<Seq<char>>,
    schemas: Seq<SchemaDefinitionView>,
    max: int,
    store: Seq<(Seq<char>, SchemaDefinitionView)>,
)
    requires
        0 <= max <= usize::MAX,
        names.len() == max + 1,
        schemas.len() == max + 1,
        root.imports == seq![names[0]],
        forall|a: int, b: int| 0 <= a < b < names.len() ==> names[a] != names[b],
        forall|a: int| 0 <= a <= max ==> spec_lookup(store, #[trigger] names[a]) == Some(
            schemas[a],
        ),
        forall|a: int| 0 <= a < max ==> (#[trigger] schemas[a]).imports == seq![names[a + 1]],
    ensures
        spec_resolve(root, max, store) == ResolutionView::Failed(
            spec_import_error(names[max], ImportCauseView::DepthExceeded { limit: max as usize }),
        ),
{
    lemma_chain(root, names, schemas, 0, max, store);
    assert(names.take(0) =~= Seq::empty());
}

/// Every pair of a merged mapping is a pair of the target or of the source.
pub proof fn lemma_union_members<V>(target: Seq<(Seq<char>, V)>, source: Seq<(Seq<char>, V)>, i: int)
    requires
        0 <= i <= source.len(),
    ensures
        forall|e: (Seq<char>, V)| #[trigger]
            spec_union(target, source, i).contains(e) ==> target.contains(e) || source.contains(e),
    decreases source.len() - i,
{
    if i < source.len() {
        if spec_lookup(target, source[i].0) is Some {
            lemma_union_members(target, source, i + 1);
            assert(spec_union(target, source, i) == spec_union(target, source, i + 1));
        } else {
            let grown = target.push(source[i]);
            lemma_union_members(grown, source, i + 1);
            assert(spec_union(target, source, i) == spec_union(grown, source, i + 1));
            assert forall|e: (Seq<char>, V)| #[trigger]
                spec_union(target, source, i).contains(e) implies target.contains(e)
                || source.contains(e) by {
                assert(spec_union(grown, source, i + 1).contains(e));
                if grown.contains(e) {
                    let k = choose|k: int| 0 <= k < grown.len() && grown[k] == e;
                    if k < target.len() {
                        assert(target[k] == e);
                    } else {
                        assert(source[i] == e);
                    }
                }
            }
        }
    }
}

/// Whether a pair stands in one of the mappings that `part` takes from the
/// schemas of the store.
pub open spec fn spec_in_store<V>(
    part: spec_fn(SchemaDefinitionView) -> Seq<(Seq<char>, V)>,
    store: Seq<(Seq<char>, SchemaDefinitionView)>,
    e: (Seq<char>, V),
) -> bool {
    exists|k: int| 0 <= k < store.len() && part((#[trigger] store[k]).1).contains(e)
}

/// Whether `part` takes from a schema one of the mappings that are merged
/// by union.
pub open spec fn spec_merged_by_union<V>(
    part: spec_fn(SchemaDefinitionView) -> Seq<(Seq<char>, V)>,
) -> bool {
    forall|a: SchemaDefinitionView, b: SchemaDefinitionView| #[trigger]
        part(spec_merged(a, b)) == spec_union(part(a), part(b), 0)
}

/// What the resolution of a list of imports adds to a mapping of a schema
/// comes from the schemas of the store.
pub proof fn lemma_list_provenance<V>(
    part: spec_fn(SchemaDefinitionView) -> Seq<(Seq<char>, V)>,
    acc: SchemaDefinitionView,
    imports: Seq<Seq<char>>,
    i: int,
    visited: Seq<Seq<char>>,
    depth: int,
    max: int,
    store: Seq<(Seq<char>, SchemaDefinitionView)>,
)
    requires
        spec_merged_by_union(part),
    ensures
        spec_resolve_list(acc, imports, i, visited, depth, max, store) matches Ok((merged, seen))
            ==> forall|e: (Seq<char>, V)| #[trigger]
            part(merged).contains(e) ==> part(acc).contains(e) || spec_in_store(part, store, e),
    decreases max + 1 - depth, imports.len() - i,
{
    if !(0 <= i < imports.len()) || !(0 <= depth <= max) {
    } else if visited.contains(imports[i]) {
        lemma_list_provenance(part, acc, imports, i + 1, visited, depth, max, store);
    } else {
        match spec_lookup(store, imports[i]) {
            None => {},
            Some(loaded) => {
                lemma_lookup_found(store, imports[i]);
                let at = choose|k: int| 0 <= k < store.len() && store[k] == (imports[i], loaded);
                let inner = spec_resolve_schema(
                    imports[i],
                    loaded,
                    visited.push(imports[i]),
                    depth + 1,
                    max,
                    store,
                );
                lemma_schema_provenance(
                    part,
                    imports[i],
                    loaded,
                    visited.push(imports[i]),
                    depth + 1,
                    max,
                    store,
                );
                match inner {
                    Err(x) => {},
                    Ok((resolved, seen)) => {
                        if spec_merge_collision(acc, resolved) is None {
                            let next = spec_merged(acc, resolved);
                            lemma_list_provenance(
                                part,
                                next,
                                imports,
                                i + 1,
                                seen,
                                depth,
                                max,
                                store,
                            );
                            lemma_union_members(part(acc), part(resolved), 0);
                            assert(part(next) == spec_union(part(acc), part(resolved), 0));
                            let result = spec_resolve_list(
                                acc,
                                imports,
                                i,
                                visited,
                                depth,
                                max,
                                store,
                            );
                            if let Ok((merged, s)) = result {
                                assert forall|e: (Seq<char>, V)| #[trigger]
                                    part(merged).contains(e) implies part(acc).contains(e)
                                    || spec_in_store(part, store, e) by {
                                    if !spec_in_store(part, store, e) {
                                        assert(part(next).contains(e));
                                        if part(resolved).contains(e) {
                                            assert(part(loaded).contains(e));
                                            assert(part(store[at].1).contains(e));
                                        }
                                    }
                                }
                            }
                        }
                    },
                }
            },
        }
    }
}

/// What the resolution of the imports of a schema adds to one of its
/// mappings comes from the schemas of the store.
pub proof fn lemma_schema_provenance<V>(
    part: spec_fn(SchemaDefinitionView) -> Seq<(Seq<char>, V)>,
    name: Seq<char>,
    schema: SchemaDefinitionView,
    visited: Seq<Seq<char>>,
    depth: int,
    max: int,
    store: Seq<(Seq<char>, SchemaDefinitionView)>,
)
    requires
        spec_merged_by_union(part),
    ensures
        spec_resolve_schema(name, schema, visited, depth, max, store) matches Ok((merged, seen))
            ==> forall|e: (Seq<char>, V)| #[trigger]
            part(merged).contains(e) ==> part(schema).contains(e) || spec_in_store(part, store, e),
    decreases max + 1 - depth, schema.imports.len() + 1,
{
    if !(depth > max || depth < 0) {
        lemma_list_provenance(part, schema, schema.imports, 0, visited, depth, max, store);
    }
}

/// Every class, slot, type, enumeration and subset of a schema with its
/// imports resolved was declared, with the body it has, by the schema itself
/// or by one of the schemas that were loaded for its imports.
pub proof fn law_resolve_provenance(
    root: SchemaDefinitionView,
    max: int,
    store: Seq<(Seq<char>, SchemaDefinitionView)>,
)
    ensures
        spec_resolve(root, max, store) matches ResolutionView::Done(merged) ==> {
            &&& forall|e| #[trigger]
                merged.classes.contains(e) ==> root.classes.contains(e) || exists|k: int|
                    0 <= k < store.len() && (#[trigger] store[k]).1.classes.contains(e)
            &&& forall|e| #[trigger]
                merged.slots.contains(e) ==> root.slots.contains(e) || exists|k: int|
                    0 <= k < store.len() && (#[trigger] store[k]).1.slots.contains(e)
            &&& forall|e| #[trigger]
                merged.types.contains(e) ==> root.types.contains(e) || exists|k: int|
                    0 <= k < store.len() && (#[trigger] store[k]).1.types.contains(e)
            &&& forall|e| #[trigger]
                merged.enums.contains(e) ==> root.enums.contains(e) || exists|k: int|
                    0 <= k < store.len() && (#[trigger] store[k]).1.enums.contains(e)
            &&& forall|e| #[trigger]
                merged.subsets.contains(e) ==> root.subsets.contains(e) || exists|k: int|
                    0 <= k < store.len() && (#[trigger] store[k]).1.subsets.contains(e)
        },
{
    let part_classes = |s: SchemaDefinitionView| s.classes;
    lemma_list_provenance(part_classes, root, root.imports, 0, Seq::empty(), 0, max, store);
    let part_slots = |s: SchemaDefinitionView| s.slots;
    lemma_list_provenance(part_slots, root, root.imports, 0, Seq::empty(), 0, max, store);
    let part_types = |s: SchemaDefinitionView| s.types;
    lemma_list_provenance(part_types, root, root.imports, 0, Seq::empty(), 0, max, store);
    let part_enums = |s: SchemaDefinitionView| s.enums;
    lemma_list_provenance(part_enums, root, root.imports, 0, Seq::empty(), 0, max, store);
    let part_subsets = |s: SchemaDefinitionView| s.subsets;
    lemma_list_provenance(part_subsets, root, root.imports, 0, Seq::empty(), 0, max, store);
    if let ResolutionView::Done(merged) = spec_resolve(root, max, store) {
        assert forall|e| #[trigger] merged.classes.contains(e) implies root.classes.contains(e)
            || exists|k: int| 0 <= k < store.len() && (#[trigger] store[k]).1.classes.contains(e) by {
            assert(part_classes(merged).contains(e));
            if !part_classes(root).contains(e) {
                assert(spec_in_store(part_classes, store, e));
                let k = choose|k: int|
                    0 <= k < store.len() && part_classes((#[trigger] store[k]).1).contains(e);
                assert(store[k].1.classes.contains(e));
            }
        }
        assert forall|e| #[trigger] merged.slots.contains(e) implies root.slots.contains(e)
            || exists|k: int| 0 <= k < store.len() && (#[trigger] store[k]).1.slots.contains(e) by {
            assert(part_slots(merged).contains(e));
            if !part_slots(root).contains(e) {
                assert(spec_in_store(part_slots, store, e));
                let k = choose|k: int|
                    0 <= k < store.len() && part_slots((#[trigger] store[k]).1).contains(e);
                assert(store[k].1.slots.contains(e));
            }
        }
        assert forall|e| #[trigger] merged.types.contains(e) implies root.types.contains(e)
            || exists|k: int| 0 <= k < store.len() && (#[trigger] store[k]).1.types.contains(e) by {
            assert(part_types(merged).contains(e));
            if !part_types(root).contains(e) {
                assert(spec_in_store(part_types, store, e));
                let k = choose|k: int|
                    0 <= k < store.len() && part_types((#[trigger] store[k]).1).contains(e);
                assert(store[k].1.types.contains(e));
            }
        }
        assert forall|e| #[trigger] merged.enums.contains(e) implies root.enums.contains(e)
            || exists|k: int| 0 <= k < store.len() && (#[trigger] store[k]).1.enums.contains(e) by {
            assert(part_enums(merged).contains(e));
            if !part_enums(root).contains(e) {
                assert(spec_in_store(part_enums, store, e));
                let k = choose|k: int|
                    0 <= k < store.len() && part_enums((#[trigger] store[k]).1).contains(e);
                assert(store[k].1.enums.contains(e));
            }
        }
        assert forall|e| #[trigger] merged.subsets.contains(e) implies root.subsets.contains(e)
            || exists|k: int| 0 <= k < store.len() && (#[trigger] store[k]).1.subsets.contains(e) by {
            assert(part_subsets(merged).contains(e));
            if !part_subsets(root).contains(e) {
                assert(spec_in_store(part_subsets, store, e));
                let k = choose|k: int|
                    0 <= k < store.len() && part_subsets((#[trigger] store[k]).1).contains(e);
                assert(store[k].1.subsets.contains(e));
            }
        }
    }
}

/// One mapping of a schema stays the beginning of that mapping while
/// imports are resolved into the schema, and no name comes to stand twice.
pub proof fn lemma_list_keeps<V>(
    part: spec_fn(SchemaDefinitionView) -> Seq<(Seq<char>, V)>,
    acc: SchemaDefinitionView,
    imports: Seq<Seq<char>>,
    i: int,
    visited: Seq<Seq<char>>,
    depth: int,
    max: int,
    store: Seq<(Seq<char>, SchemaDefinitionView)>,
)
    requires
        spec_merged_by_union(part),
        spec_distinct_keys(part(acc)),
    ensures
        spec_resolve_list(acc, imports, i, visited, depth, max, store) matches Ok((merged, seen))
            ==> part(merged).len() >= part(acc).len() && part(merged).take(
            part(acc).len() as int,
        ) == part(acc) && spec_distinct_keys(part(merged)),
    decreases imports.len() - i,
{
    if !(0 <= i < imports.len()) || !(0 <= depth <= max) {
        assert(part(acc).take(part(acc).len() as int) =~= part(acc));
    } else if visited.contains(imports[i]) {
        lemma_list_keeps(part, acc, imports, i + 1, visited, depth, max, store);
    } else {
        match spec_lookup(store, imports[i]) {
            None => {},
            Some(loaded) => {
                match spec_resolve_schema(
                    imports[i],
                    loaded,
                    visited.push(imports[i]),
                    depth + 1,
                    max,
                    store,
                ) {
                    Err(x) => {},
                    Ok((resolved, seen)) => {
                        if spec_merge_collision(acc, resolved) is None {
                            let next = spec_merged(acc, resolved);
                            assert(part(next) == spec_union(part(acc), part(resolved), 0));
                            law_union_provenance(part(acc), part(resolved));
                            lemma_list_keeps(part, next, imports, i + 1, seen, depth, max, store);
                            if let Ok((merged, s)) = spec_resolve_list(
                                acc,
                                imports,
                                i,
                                visited,
                                depth,
                                max,
                                store,
                            ) {
                                assert(part(acc).len() <= part(next).len() <= part(merged).len());
                                assert(part(merged).take(part(acc).len() as int) =~= part(
                                    merged,
                                ).take(part(next).len() as int).take(part(acc).len() as int));
                            }
                        }
                    },
                }
            },
        }
    }
}

/// In a schema with its imports resolved, what the schema itself declares
/// comes first, in the order in which it was declared; what the imports add
/// follows. No name is declared twice.
pub proof fn law_resolve_local_first(
    root: SchemaDefinitionView,
    max: int,
    store: Seq<(Seq<char>, SchemaDefinitionView)>,
)
    requires
        spec_schema_well_formed(root),
    ensures
        spec_resolve(root, max, store) matches ResolutionView::Done(merged) ==> {
            &&& merged.classes.take(root.classes.len() as int) == root.classes
            &&& merged.slots.take(root.slots.len() as int) == root.slots
            &&& merged.types.take(root.types.len() as int) == root.types
            &&& merged.enums.take(root.enums.len() as int) == root.enums
            &&& merged.subsets.take(root.subsets.len() as int) == root.subsets
            &&& merged.prefixes.take(root.prefixes.len() as int) == root.prefixes
            &&& merged.settings.take(root.settings.len() as int) == root.settings
            &&& spec_schema_well_formed(merged)
        },
{
    let part_classes = |s: SchemaDefinitionView| s.classes;
    lemma_list_keeps(part_classes, root, root.imports, 0, Seq::empty(), 0, max, store);
    let part_slots = |s: SchemaDefinitionView| s.slots;
    lemma_list_keeps(part_slots, root, root.imports, 0, Seq::empty(), 0, max, store);
    let part_types = |s: SchemaDefinitionView| s.types;
    lemma_list_keeps(part_types, root, root.imports, 0, Seq::empty(), 0, max, store);
    let part_enums = |s: SchemaDefinitionView| s.enums;
    lemma_list_keeps(part_enums, root, root.imports, 0, Seq::empty(), 0, max, store);
    let part_subsets = |s: SchemaDefinitionView| s.subsets;
    lemma_list_keeps(part_subsets, root, root.imports, 0, Seq::empty(), 0, max, store);
    let part_prefixes = |s: SchemaDefinitionView| s.prefixes;
    lemma_list_keeps(part_prefixes, root, root.imports, 0, Seq::empty(), 0, max, store);
    let part_settings = |s: SchemaDefinitionView| s.settings;
    lemma_list_keeps(part_settings, root, root.imports, 0, Seq::empty(), 0, max, store);
    if let ResolutionView::Done(merged) = spec_resolve(root, max, store) {
        assert(part_classes(merged) == merged.classes && part_classes(root) == root.classes);
        assert(part_slots(merged) == merged.slots && part_slots(root) == root.slots);
        assert(part_types(merged) == merged.types && part_types(root) == root.types);
        assert(part_enums(merged) == merged.enums && part_enums(root) == root.enums);
        assert(part_subsets(merged) == merged.subsets && part_subsets(root) == root.subsets);
        assert(part_prefixes(merged) == merged.prefixes && part_prefixes(root) == root.prefixes);
        assert(part_settings(merged) == merged.settings && part_settings(root) == root.settings);
    }
}

/// Whether the target agrees with the pairs of the source from the `i`-th
/// on: a key of theirs that stands in the target stands there with the same
/// value.
pub open spec fn spec_agrees<V>(target: Seq<(Seq<char>, V)>, source: Seq<(Seq<char>, V)>, i: int)
    -> bool {
    forall|j: int|
        i <= j < source.len() && spec_lookup(target, (#[trigger] source[j]).0) is Some
            ==> spec_lookup(target, source[j].0) == Some(source[j].1)
}

/// Where the target agrees with the source, merging loses nothing: every
/// pair of the target and every pair of the source stands in the result.
pub proof fn lemma_union_complete<V>(
    target: Seq<(Seq<char>, V)>,
    source: Seq<(Seq<char>, V)>,
    i: int,
)
    requires
        0 <= i <= source.len(),
        spec_distinct_keys(target),
        spec_distinct_keys(source),
        spec_agrees(target, source, i),
    ensures
        forall|e: (Seq<char>, V)| #[trigger]
            target.contains(e) ==> spec_union(target, source, i).contains(e),
        forall|j: int|
            i <= j < source.len() ==> spec_union(target, source, i).contains(#[trigger] source[j]),
    decreases source.len() - i,
{
    let r = spec_union(target, source, i);
    if i < source.len() {
        let key = source[i].0;
        if spec_lookup(target, key) is Some {
            lemma_union_complete(target, source, i + 1);
            lemma_lookup_found(target, key);
            let at = choose|k: int| 0 <= k < target.len() && target[k] == (key, source[i].1);
            assert(target.contains(source[i]));
        } else {
            let grown = target.push(source[i]);
            lemma_lookup_found(target, key);
            assert(spec_distinct_keys(grown));
            assert(spec_agrees(grown, source, i + 1)) by {
                assert forall|j: int|
                    i + 1 <= j < source.len() && spec_lookup(grown, (#[trigger] source[j]).0)
                        is Some implies spec_lookup(grown, source[j].0) == Some(source[j].1) by {
                    assert(source[j].0 != source[i].0);
                    assert(grown.drop_last() =~= target);
                    assert(spec_lookup(grown, source[j].0) == spec_lookup(target, source[j].0));
                }
            }
            lemma_union_complete(grown, source, i + 1);
            assert(grown[grown.len() - 1] == source[i]);
            assert(grown.contains(source[i]));
            assert forall|e: (Seq<char>, V)| #[trigger] target.contains(e) implies r.contains(
                e,
            ) by {
                let k = choose|k: int| 0 <= k < target.len() && target[k] == e;
                assert(grown[k] == e);
                assert(grown.contains(e));
            }
        }
    }
}

/// Whether the merge of two schemas fails on a collision in the mapping that
/// `part` takes from them.
pub open spec fn spec_checked_part<V>(
    part: spec_fn(SchemaDefinitionView) -> Seq<(Seq<char>, V)>,
) -> bool {
    forall|a: SchemaDefinitionView, b: SchemaDefinitionView| #[trigger]
        spec_merge_collision(a, b) is None ==> spec_collision(part(a), part(b), 0) is None
}

/// Whether no name stands twice in the mapping that `part` takes from any
/// schema of the store.
pub open spec fn spec_store_distinct<V>(
    part: spec_fn(SchemaDefinitionView) -> Seq<(Seq<char>, V)>,
    store: Seq<(Seq<char>, SchemaDefinitionView)>,
) -> bool {
    forall|k: int| 0 <= k < store.len() ==> spec_distinct_keys(part((#[trigger] store[k]).1))
}

/// What holds of a schema `merged` and the imports `seen` that were taken
/// up while it was resolved, of which `visited` were taken up before: each
/// of the new ones was loaded, what it declares stands in `merged`, and what
/// it imports was taken up too.
pub open spec fn spec_covered<V>(
    part: spec_fn(SchemaDefinitionView) -> Seq<(Seq<char>, V)>,
    store: Seq<(Seq<char>, SchemaDefinitionView)>,
    visited: Seq<Seq<char>>,
    seen: Seq<Seq<char>>,
    merged: SchemaDefinitionView,
) -> bool {
    forall|r: Seq<char>| #[trigger]
        seen.contains(r) && !visited.contains(r) ==> {
            &&& spec_lookup(store, r) matches Some(s)
            &&& forall|e: (Seq<char>, V)| #[trigger] part(s).contains(e) ==> part(merged).contains(
                e,
            )
            &&& forall|q: Seq<char>| #[trigger] s.imports.contains(q) ==> seen.contains(q)
        }
}

/// Resolving a list of imports loses nothing: what the schema held stays,
/// every import of the list is taken up, and what the imports that were taken
/// up declare stands in the result.
pub proof fn lemma_list_complete<V>(
    part: spec_fn(SchemaDefinitionView) -> Seq<(Seq<char>, V)>,
    acc: SchemaDefinitionView,
    imports: Seq<Seq<char>>,
    i: int,
    visited: Seq<Seq<char>>,
    depth: int,
    max: int,
    store: Seq<(Seq<char>, SchemaDefinitionView)>,
)
    requires
        0 <= i <= imports.len(),
        0 <= depth <= max,
        spec_merged_by_union(part),
        spec_checked_part(part),
        spec_store_distinct(part, store),
        spec_distinct_keys(part(acc)),
    ensures
        spec_resolve_list(acc, imports, i, visited, depth, max, store) matches Ok((merged, seen))
            ==> {
            &&& spec_distinct_keys(part(merged))
            &&& forall|e: (Seq<char>, V)| #[trigger]
                part(acc).contains(e) ==> part(merged).contains(e)
            &&& forall|r: Seq<char>| #[trigger] visited.contains(r) ==> seen.contains(r)
            &&& forall|j: int| i <= j < imports.len() ==> seen.contains(#[trigger] imports[j])
            &&& spec_covered(part, store, visited, seen, merged)
        },
    decreases max + 1 - depth, imports.len() - i,
{
    let result = spec_resolve_list(acc, imports, i, visited, depth, max, store);
    if i >= imports.len() {
    } else if visited.contains(imports[i]) {
        lemma_list_complete(part, acc, imports, i + 1, visited, depth, max, store);
    } else {
        match spec_lookup(store, imports[i]) {
            None => {},
            Some(loaded) => {
                lemma_lookup_found(store, imports[i]);
                let at = choose|k: int| 0 <= k < store.len() && store[k] == (imports[i], loaded);
                assert(spec_distinct_keys(part(store[at].1)));
                let marked = visited.push(imports[i]);
                let inner = spec_resolve_schema(imports[i], loaded, marked, depth + 1, max, store);
                lemma_schema_complete(part, imports[i], loaded, marked, depth + 1, max, store);
                match inner {
                    Err(x) => {},
                    Ok((resolved, seen1)) => {
                        if spec_merge_collision(acc, resolved) is None {
                            let next = spec_merged(acc, resolved);
                            assert(part(next) == spec_union(part(acc), part(resolved), 0));
                            assert(spec_collision(part(acc), part(resolved), 0) is None);
                            lemma_collision_iff(part(acc), part(resolved), 0);
                            assert(spec_agrees(part(acc), part(resolved), 0));
                            lemma_union_complete(part(acc), part(resolved), 0);
                            law_union_provenance(part(acc), part(resolved));
                            lemma_list_complete(
                                part,
                                next,
                                imports,
                                i + 1,
                                seen1,
                                depth,
                                max,
                                store,
                            );
                            if let Ok((merged, seen)) = result {
                                assert(marked.contains(imports[i])) by {
                                    assert(marked[marked.len() - 1] == imports[i]);
                                }
                                assert forall|r: Seq<char>| #[trigger]
                                    visited.contains(r) implies seen.contains(r) by {
                                    let k = choose|k: int| 0 <= k < visited.len() && visited[k] == r;
                                    assert(marked[k] == r);
                                    assert(marked.contains(r));
                                    assert(seen1.contains(r));
                                }
                                assert(seen1.contains(imports[i]));
                                assert forall|e: (Seq<char>, V)| #[trigger]
                                    part(resolved).contains(e) implies part(merged).contains(e) by {
                                    let from = part(resolved);
                                    let k = choose|k: int| 0 <= k < from.len() && from[k] == e;
                                    assert(part(next).contains(from[k]));
                                }
                                assert forall|r: Seq<char>| #[trigger]
                                    seen.contains(r) && !visited.contains(r) implies {
                                    &&& spec_lookup(store, r) matches Some(s)
                                    &&& forall|e: (Seq<char>, V)| #[trigger]
                                        part(s).contains(e) ==> part(merged).contains(e)
                                    &&& forall|q: Seq<char>| #[trigger]
                                        s.imports.contains(q) ==> seen.contains(q)
                                } by {
                                    if !seen1.contains(r) {
                                    } else if r == imports[i] {
                                        assert forall|q: Seq<char>| #[trigger]
                                            loaded.imports.contains(q) implies seen.contains(q) by {
                                            let k = choose|k: int|
                                                0 <= k < loaded.imports.len() && loaded.imports[k]
                                                    == q;
                                            assert(seen1.contains(loaded.imports[k]));
                                        }
                                    } else {
                                        assert(!marked.contains(r)) by {
                                            if marked.contains(r) {
                                                let k = choose|k: int|
                                                    0 <= k < marked.len() && marked[k] == r;
                                                if k < visited.len() {
                                                    assert(visited[k] == r);
                                                }
                                            }
                                        }
                                        let s = spec_lookup(store, r)->0;
                                        assert forall|q: Seq<char>| #[trigger]
                                            s.imports.contains(q) implies seen.contains(q) by {
                                            assert(seen1.contains(q));
                                        }
                                    }
                                }
                            }
                        }
                    },
                }
            },
        }
    }
}

/// Resolving the imports of a schema loses nothing.
pub proof fn lemma_schema_complete<V>(
    part: spec_fn(SchemaDefinitionView) -> Seq<(Seq<char>, V)>,
    name: Seq<char>,
    schema: SchemaDefinitionView,
    visited: Seq<Seq<char>>,
    depth: int,
    max: int,
    store: Seq<(Seq<char>, SchemaDefinitionView)>,
)
    requires
        0 <= depth <= max + 1,
        spec_merged_by_union(part),
        spec_checked_part(part),
        spec_store_distinct(part, store),
        spec_distinct_keys(part(schema)),
    ensures
        spec_resolve_schema(name, schema, visited, depth, max, store) matches Ok((merged, seen))
            ==> {
            &&& spec_distinct_keys(part(merged))
            &&& forall|e: (Seq<char>, V)| #[trigger]
                part(schema).contains(e) ==> part(merged).contains(e)
            &&& forall|r: Seq<char>| #[trigger] visited.contains(r) ==> seen.contains(r)
            &&& forall|j: int|
                0 <= j < schema.imports.len() ==> seen.contains(#[trigger] schema.imports[j])
            &&& spec_covered(part, store, visited, seen, merged)
        },
    decreases max + 1 - depth, schema.imports.len() + 1,
{
    if depth <= max {
        lemma_list_complete(part, schema, schema.imports, 0, visited, depth, max, store);
    }
}

/// The imports that are taken up while the imports of `root` are resolved.
pub open spec fn spec_resolved_imports(
    root: SchemaDefinitionView,
    max: int,
    store: Seq<(Seq<char>, SchemaDefinitionView)>,
) -> Seq<Seq<char>> {
    match spec_resolve_list(root, root.imports, 0, Seq::empty(), 0, max, store) {
        Ok((merged, seen)) => seen,
        Err(x) => Seq::empty(),
    }
}

/// The classes of a schema.
pub open spec fn spec_part_classes() -> spec_fn(SchemaDefinitionView) -> Seq<
    (Seq<char>, crate::types::ClassDefinitionView),
> {
    |s: SchemaDefinitionView| s.classes
}

/// The slots of a schema.
pub open spec fn spec_part_slots() -> spec_fn(SchemaDefinitionView) -> Seq<
    (Seq<char>, crate::types::SlotDefinitionView),
> {
    |s: SchemaDefinitionView| s.slots
}

/// The types of a schema.
pub open spec fn spec_part_types() -> spec_fn(SchemaDefinitionView) -> Seq<
    (Seq<char>, crate::types::TypeDefinitionView),
> {
    |s: SchemaDefinitionView| s.types
}

/// The enumerations of a schema.
pub open spec fn spec_part_enums() -> spec_fn(SchemaDefinitionView) -> Seq<
    (Seq<char>, crate::types::EnumDefinitionView),
> {
    |s: SchemaDefinitionView| s.enums
}

/// The subsets of a schema.
pub open spec fn spec_part_subsets() -> spec_fn(SchemaDefinitionView) -> Seq<
    (Seq<char>, crate::types::SubsetDefinitionView),
> {
    |s: SchemaDefinitionView| s.subsets
}

/// A schema with its imports resolved holds the union of what the schemas
/// that were reached declare. The imports of the schema are taken up, and
/// with each import that is taken up those that it imports. What each of
/// them declares, class, slot, type, enumeration or subset, stands in the
/// result with its body, and so does what the schema itself declares.
pub proof fn law_resolve_complete(
    root: SchemaDefinitionView,
    max: int,
    store: Seq<(Seq<char>, SchemaDefinitionView)>,
)
    requires
        0 <= max,
        spec_schema_well_formed(root),
        forall|k: int| 0 <= k < store.len() ==> spec_schema_well_formed((#[trigger] store[k]).1),
    ensures
        spec_resolve(root, max, store) matches ResolutionView::Done(merged) ==> {
            let seen = spec_resolved_imports(root, max, store);
            let none = Seq::<Seq<char>>::empty();
            &&& forall|j: int| 0 <= j < root.imports.len() ==> seen.contains(
                #[trigger] root.imports[j],
            )
            &&& forall|e| #[trigger] root.classes.contains(e) ==> merged.classes.contains(e)
            &&& forall|e| #[trigger] root.slots.contains(e) ==> merged.slots.contains(e)
            &&& forall|e| #[trigger] root.types.contains(e) ==> merged.types.contains(e)
            &&& forall|e| #[trigger] root.enums.contains(e) ==> merged.enums.contains(e)
            &&& forall|e| #[trigger] root.subsets.contains(e) ==> merged.subsets.contains(e)
            &&& spec_covered(spec_part_classes(), store, none, seen, merged)
            &&& spec_covered(spec_part_slots(), store, none, seen, merged)
            &&& spec_covered(spec_part_types(), store, none, seen, merged)
            &&& spec_covered(spec_part_enums(), store, none, seen, merged)
            &&& spec_covered(spec_part_subsets(), store, none, seen, merged)
        },
{
    let none = Seq::<Seq<char>>::empty();
    lemma_list_complete(spec_part_classes(), root, root.imports, 0, none, 0, max, store);
    lemma_list_complete(spec_part_slots(), root, root.imports, 0, none, 0, max, store);
    lemma_list_complete(spec_part_types(), root, root.imports, 0, none, 0, max, store);
    lemma_list_complete(spec_part_enums(), root, root.imports, 0, none, 0, max, store);
    lemma_list_complete(spec_part_subsets(), root, root.imports, 0, none, 0, max, store);
    if let ResolutionView::Done(merged) = spec_resolve(root, max, store) {
        let seen = spec_resolved_imports(root, max, store);
        assert(spec_resolve_list(root, root.imports, 0, none, 0, max, store) == Ok::<
            (SchemaDefinitionView, Seq<Seq<char>>),
            InterruptView,
        >((merged, seen)));
        assert forall|e| #[trigger] root.classes.contains(e) implies merged.classes.contains(e) by {
            assert(spec_part_classes()(root).contains(e));
            assert(spec_part_classes()(merged).contains(e));
        }
        assert forall|e| #[trigger] root.slots.contains(e) implies merged.slots.contains(e) by {
            assert(spec_part_slots()(root).contains(e));
            assert(spec_part_slots()(merged).contains(e));
        }
        assert forall|e| #[trigger] root.types.contains(e) implies merged.types.contains(e) by {
            assert(spec_part_types()(root).contains(e));
            assert(spec_part_types()(merged).contains(e));
        }
        assert forall|e| #[trigger] root.enums.contains(e) implies merged.enums.contains(e) by {
            assert(spec_part_enums()(root).contains(e));
            assert(spec_part_enums()(merged).contains(e));
        }
        assert forall|e| #[trigger] root.subsets.contains(e) implies merged.subsets.contains(e) by {
            assert(spec_part_subsets()(root).contains(e));
            assert(spec_part_subsets()(merged).contains(e));
        }
    }
}

} // verus!
