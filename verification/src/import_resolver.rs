//! Merging the schemas that a schema imports.
//!
//! Reading an imported document is left to the caller: the resolver is
//! handed the schemas that were loaded, says which import it needs next, and
//! merges when it has them all.

use crate::error::{DeclarationKind, ImportCause, ImportCauseView, LinkMLError, LinkMLErrorView};
use crate::model::DeepValue;
use crate::ordered::{lemma_lookup_found, spec_lookup, OrderedMap};
use crate::types::{SchemaDefinition, SchemaDefinitionView};
use vstd::prelude::*;
use vstd::string::*;

verus! {

/// No key occurs twice in the list of pairs.
pub open spec fn spec_distinct_keys<V>(pairs: Seq<(Seq<char>, V)>) -> bool {
    forall|a: int, b: int| 0 <= a < b < pairs.len() ==> pairs[a].0 != pairs[b].0
}

/// The key of the first pair of `source`, from the `i`-th on, whose key
/// stands in `target` with another value.
pub open spec fn spec_collision<V>(
    target: Seq<(Seq<char>, V)>,
    source: Seq<(Seq<char>, V)>,
    i: int,
) -> Option<Seq<char>>
    decreases source.len() - i,
{
    if !(0 <= i < source.len()) {
        None
    } else {
        match spec_lookup(target, source[i].0) {
            Some(v) => if v == source[i].1 {
                spec_collision(target, source, i + 1)
            } else {
                Some(source[i].0)
            },
            None => spec_collision(target, source, i + 1),
        }
    }
}

/// `target` followed by the pairs of `source`, from the `i`-th on, whose key
/// does not stand in `target`: what `target` holds stays as it is and where
/// it is.
pub open spec fn spec_union<V>(target: Seq<(Seq<char>, V)>, source: Seq<(Seq<char>, V)>, i: int)
    -> Seq<(Seq<char>, V)>
    decreases source.len() - i,
{
    if !(0 <= i < source.len()) {
        target
    } else if spec_lookup(target, source[i].0) is Some {
        spec_union(target, source, i + 1)
    } else {
        spec_union(target.push(source[i]), source, i + 1)
    }
}

/// `target` followed by the strings of `source`, from the `i`-th on, that
/// `target` does not hold.
pub open spec fn spec_union_list(target: Seq<Seq<char>>, source: Seq<Seq<char>>, i: int) -> Seq<
    Seq<char>,
>
    decreases source.len() - i,
{
    if !(0 <= i < source.len()) {
        target
    } else if target.contains(source[i]) {
        spec_union_list(target, source, i + 1)
    } else {
        spec_union_list(target.push(source[i]), source, i + 1)
    }
}

/// The name of the first entry of `source` that `target` holds with another
/// value.
pub fn collision<V: DeepValue>(target: &OrderedMap<V>, source: &OrderedMap<V>) -> (r: Option<String>)
    ensures
        r.deep_view() == spec_collision(target.deep_view(), source.deep_view(), 0),
{
    let n = source.len();
    let mut i: usize = 0;
    while i < n
        invariant
            i <= n,
            n == source.keys().len(),
            source.well_formed(),
            spec_collision(target.deep_view(), source.deep_view(), 0) == spec_collision(
                target.deep_view(),
                source.deep_view(),
                i as int,
            ),
        decreases n - i,
    {
        match source.get_index(i) {
            Some((k, v)) => {
                match target.find_value(k.as_str()) {
                    Some(held) => {
                        if !held.deep_eq(v) {
                            return Some(k.clone());
                        }
                    },
                    None => {},
                }
            },
            None => {},
        }
        i += 1;
    }
    None
}

/// Adds to `target` the entries of `source` under names that `target` does
/// not hold.
pub fn union_into<V: DeepValue>(target: &mut OrderedMap<V>, source: &OrderedMap<V>)
    ensures
        final(target).deep_view() == spec_union(old(target).deep_view(), source.deep_view(), 0),
        final(target).well_formed(),
{
    let n = source.len();
    let mut i: usize = 0;
    let _ = target.len();
    while i < n
        invariant
            i <= n,
            n == source.keys().len(),
            source.well_formed(),
            target.well_formed(),
            spec_union(old(target).deep_view(), source.deep_view(), 0) == spec_union(
                target.deep_view(),
                source.deep_view(),
                i as int,
            ),
        decreases n - i,
    {
        match source.get_index(i) {
            Some((k, v)) => {
                match target.find_value(k.as_str()) {
                    Some(_) => {},
                    None => {
                        target.insert_new(k.clone(), v.deep_clone());
                    },
                }
            },
            None => {},
        }
        i += 1;
    }
}

/// Whether `list` holds `s`.
pub fn list_contains(list: &Vec<String>, s: &String) -> (r: bool)
    ensures
        r == list.deep_view().contains(s@),
{
    let mut i: usize = 0;
    while i < list.len()
        invariant
            i <= list.len(),
            forall|k: int| 0 <= k < i ==> list.deep_view()[k] != s@,
        decreases list.len() - i,
    {
        if list[i] == *s {
            assert(list.deep_view()[i as int] == s@);
            return true;
        }
        i += 1;
    }
    false
}

/// Adds to `target` the strings of `source` that `target` does not hold.
pub fn union_list_into(target: &mut Vec<String>, source: &Vec<String>)
    ensures
        final(target).deep_view() == spec_union_list(
            old(target).deep_view(),
            source.deep_view(),
            0,
        ),
{
    let mut i: usize = 0;
    while i < source.len()
        invariant
            i <= source.len(),
            spec_union_list(old(target).deep_view(), source.deep_view(), 0) == spec_union_list(
                target.deep_view(),
                source.deep_view(),
                i as int,
            ),
        decreases source.len() - i,
    {
        if !list_contains(target, &source[i]) {
            let ghost before = target.deep_view();
            target.push(source[i].clone());
            assert(target.deep_view() =~= before.push(source.deep_view()[i as int]));
        }
        i += 1;
    }
}

/// The kind and the name of the first declaration of `s` that `t` declares
/// with another body: classes first, then slots, types, enumerations and
/// subsets.
pub open spec fn spec_merge_collision(t: SchemaDefinitionView, s: SchemaDefinitionView) -> Option<
    (DeclarationKind, Seq<char>),
> {
    if let Some(n) = spec_collision(t.classes, s.classes, 0) {
        Some((DeclarationKind::Class, n))
    } else if let Some(n) = spec_collision(t.slots, s.slots, 0) {
        Some((DeclarationKind::Slot, n))
    } else if let Some(n) = spec_collision(t.types, s.types, 0) {
        Some((DeclarationKind::Type, n))
    } else if let Some(n) = spec_collision(t.enums, s.enums, 0) {
        Some((DeclarationKind::Enum, n))
    } else if let Some(n) = spec_collision(t.subsets, s.subsets, 0) {
        Some((DeclarationKind::Subset, n))
    } else {
        None
    }
}

/// `t` with what `s` declares merged into it. Declarations, prefixes and
/// settings that `t` has under a name stay as they are; those that only `s`
/// has are added after them in the order of `s`. The imports of `s` are added
/// to the list of imports. The metadata of `t` stays.
pub open spec fn spec_merged(t: SchemaDefinitionView, s: SchemaDefinitionView)
    -> SchemaDefinitionView {
    SchemaDefinitionView {
        prefixes: spec_union(t.prefixes, s.prefixes, 0),
        settings: spec_union(t.settings, s.settings, 0),
        classes: spec_union(t.classes, s.classes, 0),
        slots: spec_union(t.slots, s.slots, 0),
        types: spec_union(t.types, s.types, 0),
        enums: spec_union(t.enums, s.enums, 0),
        subsets: spec_union(t.subsets, s.subsets, 0),
        imports: spec_union_list(t.imports, s.imports, 0),
        ..t
    }
}

/// The first declaration of `source` that `target` declares with another
/// body.
pub fn find_collision(target: &SchemaDefinition, source: &SchemaDefinition) -> (r: Option<
    (DeclarationKind, String),
>)
    ensures
        match spec_merge_collision(target.deep_view(), source.deep_view()) {
            Some((kind, name)) => r matches Some((k, n)) && k == kind && n@ == name,
            None => r is None,
        },
{
    if let Some(n) = collision(&target.classes, &source.classes) {
        return Some((DeclarationKind::Class, n));
    }
    if let Some(n) = collision(&target.slots, &source.slots) {
        return Some((DeclarationKind::Slot, n));
    }
    if let Some(n) = collision(&target.types, &source.types) {
        return Some((DeclarationKind::Type, n));
    }
    if let Some(n) = collision(&target.enums, &source.enums) {
        return Some((DeclarationKind::Enum, n));
    }
    if let Some(n) = collision(&target.subsets, &source.subsets) {
        return Some((DeclarationKind::Subset, n));
    }
    None
}

/// Merges what `source` declares into `target`, keeping what `target` has.
pub fn merge_unchecked(target: &mut SchemaDefinition, source: &SchemaDefinition)
    ensures
        final(target).deep_view() == spec_merged(old(target).deep_view(), source.deep_view()),
{
    union_into(&mut target.prefixes, &source.prefixes);
    union_into(&mut target.settings, &source.settings);
    union_into(&mut target.classes, &source.classes);
    union_into(&mut target.slots, &source.slots);
    union_into(&mut target.types, &source.types);
    union_into(&mut target.enums, &source.enums);
    union_into(&mut target.subsets, &source.subsets);
    union_list_into(&mut target.imports, &source.imports);
}

/// Why the resolution of imports stopped before it was done.
#[derive(Debug)]
pub enum Interrupt {
    /// The import with this reference has not been loaded yet.
    Need(String),
    /// The imports cannot be resolved.
    Failed(LinkMLError),
}

/// What a [`Interrupt`] holds, as mathematical values.
pub enum InterruptView {
    Need(Seq<char>),
    Failed(LinkMLErrorView),
}

impl DeepView for Interrupt {
    type V = InterruptView;

    open spec fn deep_view(&self) -> InterruptView {
        match self {
            Interrupt::Need(x) => InterruptView::Need(x.deep_view()),
            Interrupt::Failed(x) => InterruptView::Failed(x.deep_view()),
        }
    }
}

impl DeepValue for Interrupt {
    fn deep_clone(&self) -> (r: Self) {
        match self {
            Interrupt::Need(x) => Interrupt::Need(x.deep_clone()),
            Interrupt::Failed(x) => Interrupt::Failed(x.deep_clone()),
        }
    }

    fn deep_eq(&self, other: &Self) -> (r: bool) {
        match (self, other) {
            (Interrupt::Need(a), Interrupt::Need(b)) => a.deep_eq(b),
            (Interrupt::Failed(a), Interrupt::Failed(b)) => a.deep_eq(b),
            _ => false,
        }
    }
}

/// Where the resolution of the imports of a schema stands.
#[derive(Debug)]
pub enum Resolution {
    /// All imports are merged: this is the merged schema.
    Done(SchemaDefinition),
    /// The import with this reference must be loaded before resolution can go on.
    Need(String),
    /// The imports cannot be resolved.
    Failed(LinkMLError),
}

/// What a [`Resolution`] holds, as mathematical values.
pub enum ResolutionView {
    Done(SchemaDefinitionView),
    Need(Seq<char>),
    Failed(LinkMLErrorView),
}

impl DeepView for Resolution {
    type V = ResolutionView;

    open spec fn deep_view(&self) -> ResolutionView {
        match self {
            Resolution::Done(x) => ResolutionView::Done(x.deep_view()),
            Resolution::Need(x) => ResolutionView::Need(x.deep_view()),
            Resolution::Failed(x) => ResolutionView::Failed(x.deep_view()),
        }
    }
}

impl DeepValue for Resolution {
    fn deep_clone(&self) -> (r: Self) {
        match self {
            Resolution::Done(x) => Resolution::Done(x.deep_clone()),
            Resolution::Need(x) => Resolution::Need(x.deep_clone()),
            Resolution::Failed(x) => Resolution::Failed(x.deep_clone()),
        }
    }

    fn deep_eq(&self, other: &Self) -> (r: bool) {
        match (self, other) {
            (Resolution::Done(a), Resolution::Done(b)) => a.deep_eq(b),
            (Resolution::Need(a), Resolution::Need(b)) => a.deep_eq(b),
            (Resolution::Failed(a), Resolution::Failed(b)) => a.deep_eq(b),
            _ => false,
        }
    }
}

/// The import error that names `target`.
pub open spec fn spec_import_error(target: Seq<char>, cause: ImportCauseView) -> LinkMLErrorView {
    LinkMLErrorView::ImportError { target, cause }
}

/// What the imports `imports[i..]` of a schema resolve to. `acc` is the
/// schema with the imports before them merged, `visited` the references of
/// the imports taken up so far, `depth` how many imports lead from the root to
/// this schema, and `store` the schemas that were loaded, by reference. An
/// import that was taken up before is passed over. Another one is marked,
/// looked up in the store, resolved in its turn one level deeper, and merged.
pub open spec fn spec_resolve_list(
    acc: SchemaDefinitionView,
    imports: Seq<Seq<char>>,
    i: int,
    visited: Seq<Seq<char>>,
    depth: int,
    max: int,
    store: Seq<(Seq<char>, SchemaDefinitionView)>,
) -> Result<(SchemaDefinitionView, Seq<Seq<char>>), InterruptView>
    decreases max + 1 - depth, imports.len() - i,
{
    if !(0 <= i < imports.len()) || !(0 <= depth <= max) {
        Ok((acc, visited))
    } else if visited.contains(imports[i]) {
        spec_resolve_list(acc, imports, i + 1, visited, depth, max, store)
    } else {
        match spec_lookup(store, imports[i]) {
            None => Err(InterruptView::Need(imports[i])),
            Some(loaded) => match spec_resolve_schema(
                imports[i],
                loaded,
                visited.push(imports[i]),
                depth + 1,
                max,
                store,
            ) {
                Err(x) => Err(x),
                Ok((resolved, seen)) => match spec_merge_collision(acc, resolved) {
                    Some((kind, name)) => Err(
                        InterruptView::Failed(
                            spec_import_error(
                                imports[i],
                                ImportCauseView::Collision { kind, name },
                            ),
                        ),
                    ),
                    None => spec_resolve_list(
                        spec_merged(acc, resolved),
                        imports,
                        i + 1,
                        seen,
                        depth,
                        max,
                        store,
                    ),
                },
            },
        }
    }
}

/// What a schema resolves to with its imports merged. A schema that lies more
/// than `max` imports away from the root is not resolved: the chain of
/// imports is too long.
pub open spec fn spec_resolve_schema(
    name: Seq<char>,
    schema: SchemaDefinitionView,
    visited: Seq<Seq<char>>,
    depth: int,
    max: int,
    store: Seq<(Seq<char>, SchemaDefinitionView)>,
) -> Result<(SchemaDefinitionView, Seq<Seq<char>>), InterruptView>
    decreases max + 1 - depth, schema.imports.len() + 1,
{
    if depth > max || depth < 0 {
        Err(
            InterruptView::Failed(
                spec_import_error(name, ImportCauseView::DepthExceeded { limit: max as usize }),
            ),
        )
    } else {
        spec_resolve_list(schema, schema.imports, 0, visited, depth, max, store)
    }
}

/// Where the resolution of the imports of `root` stands, given the schemas in
/// `store`.
pub open spec fn spec_resolve(
    root: SchemaDefinitionView,
    max: int,
    store: Seq<(Seq<char>, SchemaDefinitionView)>,
) -> ResolutionView {
    match spec_resolve_list(root, root.imports, 0, Seq::empty(), 0, max, store) {
        Ok((merged, seen)) => ResolutionView::Done(merged),
        Err(InterruptView::Need(reference)) => ResolutionView::Need(reference),
        Err(InterruptView::Failed(e)) => ResolutionView::Failed(e),
    }
}

/// Resolves imports: merges into a schema the schemas it imports, and those
/// that they import in turn.
#[derive(Debug)]
pub struct ImportResolver {
    /// The directories in which imports are looked for, in order.
    pub search_paths: Vec<String>,
    /// The directory against which relative imports are resolved.
    pub base_path: Option<String>,
    /// The base of relative URL imports.
    pub base_url: Option<String>,
    /// What each prefix of a prefixed import expands to.
    pub prefix_map: OrderedMap<String>,
    /// How many imports may lead from the root to a schema.
    pub max_depth: usize,
    /// The schemas that were loaded, by the reference they were imported by.
    pub cache: OrderedMap<SchemaDefinition>,
}

impl ImportResolver {
    /// A resolver that looks for imports in the current directory and follows
    /// chains of at most ten imports.
    pub fn new() -> (r: Self)
        ensures
            r.max_depth == 10,
            r.search_paths.deep_view() == seq!["."@],
            r.base_path is None,
            r.base_url is None,
            r.cache.deep_view() == Seq::<(Seq<char>, SchemaDefinitionView)>::empty(),
            r.prefix_map.deep_view() == Seq::<(Seq<char>, Seq<char>)>::empty(),
    {
        let mut search_paths: Vec<String> = Vec::new();
        search_paths.push(String::from_str("."));
        let r = ImportResolver {
            search_paths,
            base_path: None,
            base_url: None,
            prefix_map: OrderedMap::new(),
            max_depth: 10,
            cache: OrderedMap::new(),
        };
        proof {
            assert(r.search_paths.deep_view() =~= seq!["."@]);
            assert(r.cache.deep_view() =~= Seq::empty());
            assert(r.prefix_map.deep_view() =~= Seq::empty());
        }
        r
    }

    /// A resolver that looks for imports in `search_paths`.
    pub fn with_search_paths(search_paths: Vec<String>) -> (r: Self)
        ensures
            r.max_depth == 10,
            r.search_paths == search_paths,
            r.base_path is None,
            r.base_url is None,
            r.cache.deep_view() == Seq::<(Seq<char>, SchemaDefinitionView)>::empty(),
            r.prefix_map.deep_view() == Seq::<(Seq<char>, Seq<char>)>::empty(),
    {
        let r = ImportResolver {
            search_paths,
            base_path: None,
            base_url: None,
            prefix_map: OrderedMap::new(),
            max_depth: 10,
            cache: OrderedMap::new(),
        };
        proof {
            assert(r.cache.deep_view() =~= Seq::empty());
            assert(r.prefix_map.deep_view() =~= Seq::empty());
        }
        r
    }

    /// Sets the directory against which relative imports are resolved.
    pub fn set_base_path(&mut self, path: &str)
        ensures
            final(self).base_path matches Some(p) && p@ == path@,
            final(self).search_paths == old(self).search_paths,
            final(self).base_url == old(self).base_url,
            final(self).prefix_map == old(self).prefix_map,
            final(self).max_depth == old(self).max_depth,
            final(self).cache == old(self).cache,
    {
        self.base_path = Some(String::from_str(path));
    }

    /// Sets the base of relative URL imports.
    pub fn set_base_url(&mut self, url: &str)
        ensures
            final(self).base_url matches Some(u) && u@ == url@,
            final(self).search_paths == old(self).search_paths,
            final(self).base_path == old(self).base_path,
            final(self).prefix_map == old(self).prefix_map,
            final(self).max_depth == old(self).max_depth,
            final(self).cache == old(self).cache,
    {
        self.base_url = Some(String::from_str(url));
    }

    /// Hands the resolver the schema that the import `reference` was loaded
    /// to. A schema that was handed over before under that reference stays.
    pub fn insert_loaded(&mut self, reference: String, schema: SchemaDefinition)
        ensures
            final(self).cache.deep_view() == (if spec_lookup(
                old(self).cache.deep_view(),
                reference@,
            ) is Some {
                old(self).cache.deep_view()
            } else {
                old(self).cache.deep_view().push((reference@, schema.deep_view()))
            }),
            final(self).search_paths == old(self).search_paths,
            final(self).base_path == old(self).base_path,
            final(self).base_url == old(self).base_url,
            final(self).prefix_map == old(self).prefix_map,
            final(self).max_depth == old(self).max_depth,
    {
        match self.cache.find_value(reference.as_str()) {
            Some(_) => {},
            None => {
                self.cache.insert_new(reference, schema);
            },
        }
    }

    /// Whether the schema of the import `reference` was handed over.
    pub fn is_loaded(&self, reference: &str) -> (r: bool)
        ensures
            r == (spec_lookup(self.cache.deep_view(), reference@) is Some),
    {
        self.cache.find_value(reference).is_some()
    }

    /// Resolves the imports `imports[i..]` into `acc`.
    fn resolve_list(
        &self,
        acc: SchemaDefinition,
        imports: &Vec<String>,
        i: usize,
        visited: OrderedMap<bool>,
        depth: usize,
    ) -> (r: Result<(SchemaDefinition, OrderedMap<bool>), Interrupt>)
        requires
            depth <= self.max_depth,
            i <= imports.len(),
        ensures
            match spec_resolve_list(
                acc.deep_view(),
                imports.deep_view(),
                i as int,
                visited.keys(),
                depth as int,
                self.max_depth as int,
                self.cache.deep_view(),
            ) {
                Ok((merged, seen)) => r matches Ok((m, s)) && m.deep_view() == merged && s.keys()
                    == seen,
                Err(x) => r matches Err(y) && y.deep_view() == x,
            },
        decreases self.max_depth + 1 - depth, imports.len() - i,
    {
        if i >= imports.len() {
            return Ok((acc, visited));
        }
        let import = &imports[i];
        if visited.contains_key(import.as_str()) {
            return self.resolve_list(acc, imports, i + 1, visited, depth);
        }
        match self.cache.find_value(import.as_str()) {
            None => Err(Interrupt::Need(import.clone())),
            Some(loaded) => {
                if depth >= self.max_depth {
                    proof {
                        assert(imports.deep_view()[i as int] == import@);
                        assert(spec_resolve_schema(
                            import@,
                            loaded.deep_view(),
                            visited.keys().push(import@),
                            depth + 1,
                            self.max_depth as int,
                            self.cache.deep_view(),
                        ) == Err::<(SchemaDefinitionView, Seq<Seq<char>>), InterruptView>(
                            InterruptView::Failed(
                                spec_import_error(
                                    import@,
                                    ImportCauseView::DepthExceeded { limit: self.max_depth },
                                ),
                            ),
                        ));
                    }
                    return Err(
                        Interrupt::Failed(
                            LinkMLError::ImportError {
                                target: import.clone(),
                                cause: ImportCause::DepthExceeded { limit: self.max_depth },
                            },
                        ),
                    );
                }
                let mut visited = visited;
                visited.insert_new(import.clone(), true);
                match self.resolve_schema(import, loaded.deep_clone(), visited, depth + 1) {
                    Err(x) => Err(x),
                    Ok((resolved, seen)) => {
                        match find_collision(&acc, &resolved) {
                            Some((kind, name)) => Err(
                                Interrupt::Failed(
                                    LinkMLError::ImportError {
                                        target: import.clone(),
                                        cause: ImportCause::Collision { kind, name },
                                    },
                                ),
                            ),
                            None => {
                                let mut acc = acc;
                                merge_unchecked(&mut acc, &resolved);
                                self.resolve_list(acc, imports, i + 1, seen, depth)
                            },
                        }
                    },
                }
            },
        }
    }

    /// Resolves the imports of `schema`, which was imported as `name`.
    fn resolve_schema(
        &self,
        name: &String,
        schema: SchemaDefinition,
        visited: OrderedMap<bool>,
        depth: usize,
    ) -> (r: Result<(SchemaDefinition, OrderedMap<bool>), Interrupt>)
        requires
            depth <= self.max_depth + 1,
        ensures
            match spec_resolve_schema(
                name@,
                schema.deep_view(),
                visited.keys(),
                depth as int,
                self.max_depth as int,
                self.cache.deep_view(),
            ) {
                Ok((merged, seen)) => r matches Ok((m, s)) && m.deep_view() == merged && s.keys()
                    == seen,
                Err(x) => r matches Err(y) && y.deep_view() == x,
            },
        decreases self.max_depth + 1 - depth, schema.imports.len() + 1,
    {
        if depth > self.max_depth {
            return Err(
                Interrupt::Failed(
                    LinkMLError::ImportError {
                        target: name.clone(),
                        cause: ImportCause::DepthExceeded { limit: self.max_depth },
                    },
                ),
            );
        }
        let imports = schema.imports.deep_clone();
        self.resolve_list(schema, &imports, 0, visited, depth)
    }

    /// Resolves the imports of `schema` as far as the schemas that were
    /// handed over allow. The answer is the merged schema, or the reference
    /// of the import to load next, or why the imports cannot be resolved.
    /// `schema` itself is left as it is.
    pub fn resolve_imports(&self, schema: &SchemaDefinition) -> (r: Resolution)
        ensures
            r.deep_view() == spec_resolve(
                schema.deep_view(),
                self.max_depth as int,
                self.cache.deep_view(),
            ),
    {
        let visited: OrderedMap<bool> = OrderedMap::new();
        let imports = schema.imports.deep_clone();
        match self.resolve_list(schema.deep_clone(), &imports, 0, visited, 0) {
            Ok((merged, _)) => Resolution::Done(merged),
            Err(Interrupt::Need(reference)) => Resolution::Need(reference),
            Err(Interrupt::Failed(e)) => Resolution::Failed(e),
        }
    }

    /// Merges what `source` declares into `target`. A declaration of `source`
    /// whose name `target` declares with another body is a collision: the
    /// merge fails and `target` stays as it was. Equal declarations under one
    /// name merge into one.
    pub fn merge_schema(target: &mut SchemaDefinition, source: &SchemaDefinition) -> (r: Result<
        (),
        LinkMLError,
    >)
        ensures
            match spec_merge_collision(old(target).deep_view(), source.deep_view()) {
                Some((kind, name)) => {
                    &&& r matches Err(e)
                    &&& e.deep_view() == spec_import_error(
                        source.name@,
                        ImportCauseView::Collision { kind, name },
                    )
                    &&& final(target).deep_view() == old(target).deep_view()
                },
                None => r is Ok && final(target).deep_view() == spec_merged(
                    old(target).deep_view(),
                    source.deep_view(),
                ),
            },
    {
        match find_collision(target, source) {
            Some((kind, name)) => Err(
                LinkMLError::ImportError {
                    target: source.name.clone(),
                    cause: ImportCause::Collision { kind, name },
                },
            ),
            None => {
                merge_unchecked(target, source);
                Ok(())
            },
        }
    }
}

} // verus!
