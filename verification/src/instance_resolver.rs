//! The legal values of slots that are bound to instances.
//!
//! A slot whose range type is `instance` admits the values that an instance
//! document lists under one of its fields. The document is named by an import
//! of the schema that ends in `/instance`. Reading the document is left to
//! the caller: the resolver says which document it needs and is handed its
//! text.

use crate::ast::RangeType;
use crate::document::{read_document, spec_read_document, Entry, EntryView};
use crate::error::{fault_message, spec_fault_message, LinkMLError, LinkMLErrorView};
use crate::import_resolver::list_contains;
use crate::model::DeepValue;
use crate::parser::{block_end, spec_block_end};
use crate::text::{
    chars_match_at, chars_to_string, find_char, spec_ends_with, spec_find_char, str_eq,
    str_to_chars,
};
use crate::types::{SchemaDefinition, SchemaDefinitionView, SlotDefinition, SlotDefinitionView};
use dashmap::DashMap;
use vstd::prelude::*;
use vstd::string::*;

verus! {

/// The legal values that an instance document gives for one field.
#[derive(Debug)]
pub struct InstanceData {
    /// The values of the field, in the order of the document, each once.
    pub values: Vec<String>,
    /// How many instances had no such field and were passed over.
    pub skipped: usize,
}

/// What a [`InstanceData`] holds, as mathematical values.
pub struct InstanceDataView {
    pub values: Seq<Seq<char>>,
    pub skipped: usize,
}

impl DeepView for InstanceData {
    type V = InstanceDataView;

    open spec fn deep_view(&self) -> InstanceDataView {
        InstanceDataView {
            values: self.values.deep_view(),
            skipped: self.skipped.deep_view(),
        }
    }
}

impl DeepValue for InstanceData {
    fn deep_clone(&self) -> (r: Self) {
        InstanceData {
            values: self.values.deep_clone(),
            skipped: self.skipped.deep_clone(),
        }
    }

    fn deep_eq(&self, other: &Self) -> (r: bool) {
        self.values.deep_eq(&other.values)
            && self.skipped.deep_eq(&other.skipped)
    }
}

/// What is known of the legal values of a slot.
#[derive(Debug)]
pub enum InstanceQuery {
    /// The slot is not bound to instances: every value is legal.
    NotBound,
    /// The legal values.
    Values(Vec<String>),
    /// The instance document of this import must be loaded first: it is looked for at the first path, then at the second.
    Need { import: String, yaml_path: String, yml_path: String, range: String, field: String },
    /// No import provides instances of the range.
    Missing(LinkMLError),
}

/// What a [`InstanceQuery`] holds, as mathematical values.
pub enum InstanceQueryView {
    NotBound,
    Values(Seq<Seq<char>>),
    Need { import: Seq<char>, yaml_path: Seq<char>, yml_path: Seq<char>, range: Seq<char>, field: Seq<char> },
    Missing(LinkMLErrorView),
}

impl DeepView for InstanceQuery {
    type V = InstanceQueryView;

    open spec fn deep_view(&self) -> InstanceQueryView {
        match self {
            InstanceQuery::NotBound => InstanceQueryView::NotBound,
            InstanceQuery::Values(x) => InstanceQueryView::Values(x.deep_view()),
            InstanceQuery::Need { import, yaml_path, yml_path, range, field } => {
                InstanceQueryView::Need { import: import.deep_view(), yaml_path: yaml_path.deep_view(), yml_path: yml_path.deep_view(), range: range.deep_view(), field: field.deep_view() }
            },
            InstanceQuery::Missing(x) => InstanceQueryView::Missing(x.deep_view()),
        }
    }
}

impl DeepValue for InstanceQuery {
    fn deep_clone(&self) -> (r: Self) {
        match self {
            InstanceQuery::NotBound => InstanceQuery::NotBound,
            InstanceQuery::Values(x) => InstanceQuery::Values(x.deep_clone()),
            InstanceQuery::Need { import, yaml_path, yml_path, range, field } => {
                InstanceQuery::Need { import: import.deep_clone(), yaml_path: yaml_path.deep_clone(), yml_path: yml_path.deep_clone(), range: range.deep_clone(), field: field.deep_clone() }
            },
            InstanceQuery::Missing(x) => InstanceQuery::Missing(x.deep_clone()),
        }
    }

    fn deep_eq(&self, other: &Self) -> (r: bool) {
        match (self, other) {
            (InstanceQuery::NotBound, InstanceQuery::NotBound) => true,
            (InstanceQuery::Values(a), InstanceQuery::Values(b)) => a.deep_eq(b),
            (InstanceQuery::Need { import: a_import, yaml_path: a_yaml_path, yml_path: a_yml_path, range: a_range, field: a_field }, InstanceQuery::Need { import: b_import, yaml_path: b_yaml_path, yml_path: b_yml_path, range: b_range, field: b_field }) => {
                a_import.deep_eq(b_import) && a_yaml_path.deep_eq(b_yaml_path) && a_yml_path.deep_eq(b_yml_path) && a_range.deep_eq(b_range) && a_field.deep_eq(b_field)
            },
            (InstanceQuery::Missing(a), InstanceQuery::Missing(b)) => a.deep_eq(b),
            _ => false,
        }
    }
}

/// Whether a value is legal for a slot.
#[derive(Debug)]
pub enum InstanceCheck {
    /// The value is legal, or it is not.
    Decided(bool),
    /// The legal values are not known yet.
    Pending(InstanceQuery),
}

/// What a [`InstanceCheck`] holds, as mathematical values.
pub enum InstanceCheckView {
    Decided(bool),
    Pending(InstanceQueryView),
}

impl DeepView for InstanceCheck {
    type V = InstanceCheckView;

    open spec fn deep_view(&self) -> InstanceCheckView {
        match self {
            InstanceCheck::Decided(x) => InstanceCheckView::Decided(x.deep_view()),
            InstanceCheck::Pending(x) => InstanceCheckView::Pending(x.deep_view()),
        }
    }
}

impl DeepValue for InstanceCheck {
    fn deep_clone(&self) -> (r: Self) {
        match self {
            InstanceCheck::Decided(x) => InstanceCheck::Decided(x.deep_clone()),
            InstanceCheck::Pending(x) => InstanceCheck::Pending(x.deep_clone()),
        }
    }

    fn deep_eq(&self, other: &Self) -> (r: bool) {
        match (self, other) {
            (InstanceCheck::Decided(a), InstanceCheck::Decided(b)) => a.deep_eq(b),
            (InstanceCheck::Pending(a), InstanceCheck::Pending(b)) => a.deep_eq(b),
            _ => false,
        }
    }
}

/// An import without its prefix: what follows the first colon, or all of it.
pub open spec fn spec_after_prefix(import: Seq<char>) -> Seq<char> {
    let c = spec_find_char(import, 0, ':');
    if 0 <= c < import.len() {
        import.skip(c + 1)
    } else {
        import
    }
}

/// The path that an instance import names: the import without its prefix
/// and without the `/instance` it ends in. An import that does not end so is
/// no instance import.
pub open spec fn spec_instance_base(import: Seq<char>) -> Option<Seq<char>> {
    let p = spec_after_prefix(import);
    if spec_ends_with(p, "/instance"@) {
        Some(p.take(p.len() - "/instance"@.len()))
    } else {
        None
    }
}

/// The index after the last `c` in `s[..i]`, or 0.
pub open spec fn spec_after_last(s: Seq<char>, c: char, i: int) -> int
    decreases i,
{
    if !(0 < i <= s.len()) {
        0
    } else if s[i - 1] == c {
        i
    } else {
        spec_after_last(s, c, i - 1)
    }
}

/// The last segment of a path: what follows its last slash.
pub open spec fn spec_last_segment(path: Seq<char>) -> Seq<char> {
    path.skip(spec_after_last(path, '/', path.len() as int))
}

/// A name as it is compared: the code points of its characters from the
/// `i`-th on, without underscores and hyphens, with the letters `A` to `Z`
/// in lower case.
pub open spec fn spec_normalized(s: Seq<char>, i: int, acc: Seq<u32>) -> Seq<u32>
    decreases s.len() - i,
{
    if !(0 <= i < s.len()) {
        acc
    } else if s[i] == '_' || s[i] == '-' {
        spec_normalized(s, i + 1, acc)
    } else if 'A' as u32 <= s[i] as u32 <= 'Z' as u32 {
        spec_normalized(s, i + 1, acc.push((s[i] as u32 + 32) as u32))
    } else {
        spec_normalized(s, i + 1, acc.push(s[i] as u32))
    }
}

/// Whether a path segment names a class: the two are equal but for case,
/// underscores and hyphens.
pub open spec fn spec_names(segment: Seq<char>, class: Seq<char>) -> bool {
    spec_normalized(segment, 0, Seq::empty()) == spec_normalized(class, 0, Seq::empty())
}

/// The first of the imports `imports[i..]` that provides instances of
/// `class`: an instance import whose path ends in a segment that names the
/// class.
pub open spec fn spec_instance_import(imports: Seq<Seq<char>>, class: Seq<char>, i: int) -> Option<
    Seq<char>,
>
    decreases imports.len() - i,
{
    if !(0 <= i < imports.len()) {
        None
    } else {
        match spec_instance_base(imports[i]) {
            Some(base) => if spec_names(spec_last_segment(base), class) {
                Some(imports[i])
            } else {
                spec_instance_import(imports, class, i + 1)
            },
            None => spec_instance_import(imports, class, i + 1),
        }
    }
}

/// A relative path under a directory.
pub open spec fn spec_join_path(dir: Seq<char>, rel: Seq<char>) -> Seq<char> {
    if dir.len() == 0 {
        rel
    } else if dir.last() == '/' {
        dir + rel
    } else {
        dir + "/"@ + rel
    }
}

/// The key under which the values of `field` of the instances of `range`
/// are kept.
pub open spec fn spec_cache_key(range: Seq<char>, field: Seq<char>) -> Seq<char> {
    range + "::"@ + field
}

/// The path that an instance import names.
pub fn instance_base(import: &str) -> (r: Option<String>)
    ensures
        match spec_instance_base(import@) {
            Some(b) => r matches Some(s) && s@ == b,
            None => r is None,
        },
{
    let v = str_to_chars(import);
    let c = find_char(&v, 0, ':');
    let from = if c < v.len() {
        c + 1
    } else {
        0
    };
    let suffix = str_to_chars("/instance");
    let ghost p = spec_after_prefix(v@);
    assert(p =~= v@.skip(from as int));
    if suffix.len() <= v.len() - from && chars_match_at(&v, v.len() - suffix.len(), &suffix) {
        assert(p.subrange(p.len() - suffix@.len(), p.len() as int) =~= v@.subrange(
            v.len() - suffix.len(),
            v.len() as int,
        ));
        let r = chars_to_string(&v, from, v.len() - suffix.len());
        assert(r@ =~= p.take(p.len() - suffix@.len()));
        Some(r)
    } else {
        proof {
            if suffix.len() <= v.len() - from {
                assert(p.subrange(p.len() - suffix@.len(), p.len() as int) =~= v@.subrange(
                    v.len() - suffix.len(),
                    v.len() as int,
                ));
            }
        }
        None
    }
}

/// The last segment of a path.
pub fn last_segment(path: &str) -> (r: String)
    ensures
        r@ == spec_last_segment(path@),
{
    let v = str_to_chars(path);
    let mut i: usize = v.len();
    while i > 0 && v[i - 1] != '/'
        invariant
            i <= v.len(),
            spec_after_last(v@, '/', v.len() as int) == spec_after_last(v@, '/', i as int),
        decreases i,
    {
        i -= 1;
    }
    let r = chars_to_string(&v, i, v.len());
    assert(r@ =~= v@.skip(i as int));
    r
}

/// A name as it is compared.
fn normalized(s: &str) -> (r: Vec<u32>)
    ensures
        r@ == spec_normalized(s@, 0, Seq::empty()),
{
    let v = str_to_chars(s);
    let mut out: Vec<u32> = Vec::new();
    let mut i: usize = 0;
    while i < v.len()
        invariant
            i <= v.len(),
            spec_normalized(v@, 0, Seq::empty()) == spec_normalized(v@, i as int, out@),
        decreases v.len() - i,
    {
        let c = v[i];
        let u: u32 = c as u32;
        if c == '_' || c == '-' {
        } else if 65 <= u && u <= 90 {
            out.push(u + 32);
        } else {
            out.push(u);
        }
        i += 1;
    }
    out
}

/// Whether a path segment names a class.
#[verifier::loop_isolation(false)]
pub fn names(segment: &str, class: &str) -> (r: bool)
    ensures
        r == spec_names(segment@, class@),
{
    let a = normalized(segment);
    let b = normalized(class);
    if a.len() != b.len() {
        return false;
    }
    let mut i: usize = 0;
    while i < a.len()
        invariant
            i <= a.len(),
            a.len() == b.len(),
            forall|k: int| 0 <= k < i ==> a@[k] == b@[k],
        decreases a.len() - i,
    {
        if a[i] != b[i] {
            return false;
        }
        i += 1;
    }
    assert(a@ =~= b@);
    true
}

/// The first import that provides instances of `class`.
pub fn instance_import(imports: &Vec<String>, class: &str) -> (r: Option<String>)
    ensures
        match spec_instance_import(imports.deep_view(), class@, 0) {
            Some(i) => r matches Some(s) && s@ == i,
            None => r is None,
        },
{
    let mut i: usize = 0;
    while i < imports.len()
        invariant
            i <= imports.len(),
            spec_instance_import(imports.deep_view(), class@, 0) == spec_instance_import(
                imports.deep_view(),
                class@,
                i as int,
            ),
        decreases imports.len() - i,
    {
        match instance_base(imports[i].as_str()) {
            Some(base) => {
                let segment = last_segment(base.as_str());
                if names(segment.as_str(), class) {
                    return Some(imports[i].clone());
                }
            },
            None => {},
        }
        i += 1;
    }
    None
}

/// A relative path under a directory.
pub fn join_path(dir: &str, rel: &str) -> (r: String)
    ensures
        r@ == spec_join_path(dir@, rel@),
{
    let d = str_to_chars(dir);
    if d.len() == 0 {
        String::from_str(rel)
    } else if d[d.len() - 1] == '/' {
        let mut out = String::from_str(dir);
        out.append(rel);
        out
    } else {
        let mut out = String::from_str(dir);
        out.append("/");
        out.append(rel);
        out
    }
}

/// The index of the first entry from the `j`-th on whose key is `key`, or
/// the number of entries.
pub open spec fn spec_first_key(entries: Seq<EntryView>, j: int, key: Seq<char>) -> int
    decreases entries.len() - j,
{
    if !(0 <= j < entries.len()) {
        j
    } else if entries[j].key matches Some(k) && k.value == key {
        j
    } else {
        spec_first_key(entries, j + 1, key)
    }
}

/// The value of the first entry among `entries[k..end]` that has the key
/// `field` and a scalar.
pub open spec fn spec_block_field(entries: Seq<EntryView>, k: int, end: int, field: Seq<char>)
    -> Option<Seq<char>>
    decreases end - k,
{
    if !(0 <= k < end <= entries.len()) {
        None
    } else if entries[k].key matches Some(key) && key.value == field && entries[k].value is Some {
        Some(entries[k].value->0.value)
    } else {
        spec_block_field(entries, k + 1, end, field)
    }
}

/// The values of `field` of the instances written in `entries[k..end]`,
/// after `acc`. Each entry with what is nested in it is one instance. A value
/// that was met before is not added again; an instance without the field is
/// passed over and counted.
pub open spec fn spec_collect(
    entries: Seq<EntryView>,
    k: int,
    end: int,
    field: Seq<char>,
    acc: Seq<Seq<char>>,
    skipped: int,
) -> (Seq<Seq<char>>, int)
    decreases end - k,
{
    if !(0 <= k < end <= entries.len()) {
        (acc, skipped)
    } else {
        let kn = spec_block_end(entries, k, k + 1, end);
        if !(k < kn <= end) {
            (acc, skipped)
        } else {
            match spec_block_field(entries, k, kn, field) {
                Some(v) => spec_collect(
                    entries,
                    kn,
                    end,
                    field,
                    if acc.contains(v) {
                        acc
                    } else {
                        acc.push(v)
                    },
                    skipped,
                ),
                None => spec_collect(entries, kn, end, field, acc, skipped + 1),
            }
        }
    }
}

/// What an instance document gives for `field`: the values of that field of
/// the instances listed under the key `instances`. A document without that
/// key is no instance document.
pub open spec fn spec_instance_values(text: Seq<char>, field: Seq<char>) -> Result<
    InstanceDataView,
    LinkMLErrorView,
> {
    match spec_read_document(text) {
        Err(f) => Err(
            LinkMLErrorView::ParseError { message: spec_fault_message(f.kind), fault: Some(f) },
        ),
        Ok(entries) => {
            let j = spec_first_key(entries, 0, "instances"@);
            if !(0 <= j < entries.len()) {
                Err(LinkMLErrorView::InstanceResolutionError { reference: "instances"@ })
            } else {
                let found = spec_collect(
                    entries,
                    j + 1,
                    spec_block_end(entries, j, j + 1, entries.len() as int),
                    field,
                    Seq::empty(),
                    0,
                );
                Ok(InstanceDataView { values: found.0, skipped: found.1 as usize })
            }
        },
    }
}

/// The value of the first entry among `entries[k..end]` that has the key
/// `field` and a scalar.
fn block_field(entries: &Vec<Entry>, from: usize, end: usize, field: &str) -> (r: Option<String>)
    requires
        from <= end <= entries.len(),
    ensures
        match spec_block_field(entries.deep_view(), from as int, end as int, field@) {
            Some(v) => r matches Some(s) && s@ == v,
            None => r is None,
        },
{
    let mut k: usize = from;
    while k < end
        invariant
            from <= k <= end <= entries.len(),
            spec_block_field(entries.deep_view(), from as int, end as int, field@)
                == spec_block_field(entries.deep_view(), k as int, end as int, field@),
        decreases end - k,
    {
        match (&entries[k].key, &entries[k].value) {
            (Some(key), Some(v)) => {
                if str_eq(key.value.as_str(), field) {
                    return Some(v.value.clone());
                }
            },
            _ => {},
        }
        k += 1;
    }
    None
}

/// Whether the key of an entry is `key`.
fn has_key(e: &Entry, key: &str) -> (r: bool)
    ensures
        r == (e.deep_view().key matches Some(k) && k.value == key@),
{
    match &e.key {
        Some(k) => str_eq(k.value.as_str(), key),
        None => false,
    }
}

/// Reads an instance document and collects the values of `field`.
#[verifier::loop_isolation(false)]
pub fn parse_instance_values(content: &str, field: &str) -> (r: Result<InstanceData, LinkMLError>)
    ensures
        match spec_instance_values(content@, field@) {
            Ok(d) => r matches Ok(x) && x.deep_view() == d,
            Err(e) => r matches Err(x) && x.deep_view() == e,
        },
{
    let entries = match read_document(content) {
        Err(f) => {
            return Err(LinkMLError::ParseError { message: fault_message(f.kind), fault: Some(f) });
        },
        Ok(entries) => entries,
    };
    let mut j: usize = 0;
    while j < entries.len() && !has_key(&entries[j], "instances")
        invariant
            j <= entries.len(),
            spec_first_key(entries.deep_view(), 0, "instances"@) == spec_first_key(
                entries.deep_view(),
                j as int,
                "instances"@,
            ),
        decreases entries.len() - j,
    {
        j += 1;
    }
    if j >= entries.len() {
        return Err(
            LinkMLError::InstanceResolutionError { reference: String::from_str("instances") },
        );
    }
    let end = block_end(&entries, j, entries.len());
    let mut values: Vec<String> = Vec::new();
    let mut skipped: usize = 0;
    let mut k: usize = j + 1;
    assert(values.deep_view() =~= Seq::empty());
    while k < end
        invariant
            j < k <= end <= entries.len(),
            skipped <= k,
            spec_collect(entries.deep_view(), j + 1, end as int, field@, Seq::empty(), 0)
                == spec_collect(
                entries.deep_view(),
                k as int,
                end as int,
                field@,
                values.deep_view(),
                skipped as int,
            ),
        decreases end - k,
    {
        let kn = block_end(&entries, k, end);
        match block_field(&entries, k, kn, field) {
            Some(v) => {
                if !list_contains(&values, &v) {
                    let ghost before = values.deep_view();
                    values.push(v);
                    assert(values.deep_view() =~= before.push(v@));
                }
            },
            None => {
                skipped += 1;
            },
        }
        k = kn;
    }
    Ok(InstanceData { values, skipped })
}

/// The field whose values are the legal values of a slot: the first of its
/// range properties, or `id`.
pub open spec fn spec_key_field(slot: SlotDefinitionView) -> Seq<char> {
    if slot.range_properties.len() > 0 {
        slot.range_properties[0]
    } else {
        "id"@
    }
}

/// What is known of the values of `field` of the instances of `range`: the
/// values that are kept for them, or the instance document to load, or that
/// no import provides them.
pub open spec fn spec_query_range(
    range: Seq<char>,
    field: Seq<char>,
    imports: Seq<Seq<char>>,
    base_dir: Seq<char>,
    cache: Map<Seq<char>, InstanceDataView>,
) -> InstanceQueryView {
    if cache.dom().contains(spec_cache_key(range, field)) {
        InstanceQueryView::Values(cache[spec_cache_key(range, field)].values)
    } else {
        match spec_instance_import(imports, range, 0) {
            None => InstanceQueryView::Missing(
                LinkMLErrorView::InstanceResolutionError { reference: range },
            ),
            Some(import) => InstanceQueryView::Need {
                import,
                yaml_path: spec_join_path(base_dir, spec_instance_base(import)->0 + ".yaml"@),
                yml_path: spec_join_path(base_dir, spec_instance_base(import)->0 + ".yml"@),
                range,
                field,
            },
        }
    }
}

/// What is known of the legal values of a slot. A slot is bound to instances
/// if its range type is `instance` and it has a range.
pub open spec fn spec_query(
    slot: SlotDefinitionView,
    schema: SchemaDefinitionView,
    base_dir: Seq<char>,
    cache: Map<Seq<char>, InstanceDataView>,
) -> InstanceQueryView {
    if slot.range_type != Some(RangeType::Instance) || slot.range is None {
        InstanceQueryView::NotBound
    } else {
        spec_query_range(slot.range->0, spec_key_field(slot), schema.imports, base_dir, cache)
    }
}

/// Whether `value` is legal for a slot: every value is legal for a slot that
/// is not bound to instances; for a bound slot the legal values are those of
/// its instance document.
pub open spec fn spec_check(
    value: Seq<char>,
    slot: SlotDefinitionView,
    schema: SchemaDefinitionView,
    base_dir: Seq<char>,
    cache: Map<Seq<char>, InstanceDataView>,
) -> InstanceCheckView {
    match spec_query(slot, schema, base_dir, cache) {
        InstanceQueryView::NotBound => InstanceCheckView::Decided(true),
        InstanceQueryView::Values(v) => InstanceCheckView::Decided(v.contains(value)),
        other => InstanceCheckView::Pending(other),
    }
}

/// `dashmap::DashMap`: a hash map that can be shared between threads.
/// Nothing is known of a value of the type but what the functions below state
/// of it.
#[verifier::external_type_specification]
#[verifier::external_body]
#[verifier::reject_recursive_types(K)]
#[verifier::reject_recursive_types(V)]
#[verifier::reject_recursive_types(S)]
pub struct ExDashMap<K, V, S>(DashMap<K, V, S>);

/// The number that a cache index holds for each of its keys.
pub uninterp spec fn cache_slots(m: DashMap<String, usize>) -> Map<Seq<char>, usize>;

/// `DashMap::new`: the new map holds no key.
#[verifier::external_body]
fn slots_new() -> (r: DashMap<String, usize>)
    ensures
        cache_slots(r).dom() == Set::<Seq<char>>::empty(),
{
    DashMap::new()
}

/// `DashMap::get`: the value that the map holds for `key`, if it holds the
/// key.
#[verifier::external_body]
fn slots_get(m: &DashMap<String, usize>, key: &str) -> (r: Option<usize>)
    ensures
        r == (if cache_slots(*m).dom().contains(key@) {
            Some(cache_slots(*m)[key@])
        } else {
            None
        }),
{
    match m.get(key) {
        Some(slot) => Some(*slot),
        None => None,
    }
}

/// `DashMap::insert`: the map holds `value` for `key` afterwards and what it
/// held for other keys; the value it held for `key` before is returned.
#[verifier::external_body]
fn slots_insert(m: &mut DashMap<String, usize>, key: String, value: usize) -> (r: Option<usize>)
    ensures
        cache_slots(*final(m)) == cache_slots(*old(m)).insert(key@, value),
        r == (if cache_slots(*old(m)).dom().contains(key@) {
            Some(cache_slots(*old(m))[key@])
        } else {
            None
        }),
{
    m.insert(key, value)
}

/// Resolves the legal values of slots that are bound to instances, and keeps
/// the values it was handed.
#[derive(Debug)]
pub struct InstanceResolver {
    schema_base_dir: String,
    instance_cache: DashMap<String, usize>,
    loaded: Vec<InstanceData>,
}

impl InstanceResolver {
    #[verifier::type_invariant]
    closed spec fn inv(&self) -> bool {
        forall|key: Seq<char>| #[trigger]
            cache_slots(self.instance_cache).dom().contains(key) ==> cache_slots(
                self.instance_cache,
            )[key] < self.loaded.len()
    }

    /// The directory under which instance documents lie.
    pub closed spec fn base_dir(&self) -> Seq<char> {
        self.schema_base_dir@
    }

    /// The values that are kept, by the key of their range and field.
    pub closed spec fn cache(&self) -> Map<Seq<char>, InstanceDataView> {
        Map::new(
            |key: Seq<char>| cache_slots(self.instance_cache).dom().contains(key),
            |key: Seq<char>| self.loaded[cache_slots(self.instance_cache)[key] as int].deep_view(),
        )
    }

    /// A resolver for the instance documents under `schema_base_dir`. It
    /// keeps no values yet.
    pub fn new(schema_base_dir: String) -> (r: Self)
        ensures
            r.base_dir() == schema_base_dir@,
            r.cache() == Map::<Seq<char>, InstanceDataView>::empty(),
    {
        let r = InstanceResolver {
            schema_base_dir,
            instance_cache: slots_new(),
            loaded: Vec::new(),
        };
        assert(r.cache() =~= Map::<Seq<char>, InstanceDataView>::empty());
        r
    }

    /// The directory under which instance documents lie.
    pub fn schema_base_dir(&self) -> (r: &String)
        ensures
            r@ == self.base_dir(),
    {
        &self.schema_base_dir
    }

    /// The values that are kept under `key`, if there are any.
    fn kept(&self, key: &str) -> (r: Option<&InstanceData>)
        ensures
            match r {
                Some(d) => self.cache().dom().contains(key@) && self.cache()[key@] == d.deep_view(),
                None => !self.cache().dom().contains(key@),
            },
    {
        proof {
            use_type_invariant(self);
        }
        match slots_get(&self.instance_cache, key) {
            Some(slot) => Some(&self.loaded[slot]),
            None => None,
        }
    }

    /// The two paths at which the instance document of an import is looked
    /// for, if it is an instance import.
    pub fn resolve_instance_path(&self, import: &str) -> (r: Option<(String, String)>)
        ensures
            match spec_instance_base(import@) {
                Some(base) => r matches Some((a, b)) && a@ == spec_join_path(
                    self.base_dir(),
                    base + ".yaml"@,
                ) && b@ == spec_join_path(self.base_dir(), base + ".yml"@),
                None => r is None,
            },
    {
        match instance_base(import) {
            None => None,
            Some(base) => {
                let mut yaml = base.clone();
                yaml.append(".yaml");
                let mut yml = base;
                yml.append(".yml");
                Some(
                    (
                        join_path(self.schema_base_dir.as_str(), yaml.as_str()),
                        join_path(self.schema_base_dir.as_str(), yml.as_str()),
                    ),
                )
            },
        }
    }

    /// The key under which the values of `field` of the instances of `range`
    /// are kept.
    pub fn cache_key(range: &str, field: &str) -> (r: String)
        ensures
            r@ == spec_cache_key(range@, field@),
    {
        let mut key = String::from_str(range);
        key.append("::");
        key.append(field);
        key
    }

    /// What is known of the values of `key_field` of the instances of
    /// `range_class`.
    pub fn load_instance_for_range_with_field(
        &self,
        range_class: &str,
        key_field: &str,
        schema: &SchemaDefinition,
    ) -> (r: InstanceQuery)
        ensures
            r.deep_view() == spec_query_range(
                range_class@,
                key_field@,
                schema.imports.deep_view(),
                self.base_dir(),
                self.cache(),
            ),
    {
        let key = Self::cache_key(range_class, key_field);
        match self.kept(key.as_str()) {
            Some(data) => InstanceQuery::Values(data.values.deep_clone()),
            None => match instance_import(&schema.imports, range_class) {
                None => InstanceQuery::Missing(
                    LinkMLError::InstanceResolutionError {
                        reference: String::from_str(range_class),
                    },
                ),
                Some(import) => {
                    proof {
                        lemma_instance_import_has_base(
                            schema.imports.deep_view(),
                            range_class@,
                            0,
                        );
                    }
                    match self.resolve_instance_path(import.as_str()) {
                        Some((yaml_path, yml_path)) => InstanceQuery::Need {
                            import,
                            yaml_path,
                            yml_path,
                            range: String::from_str(range_class),
                            field: String::from_str(key_field),
                        },
                        None => InstanceQuery::Missing(
                            LinkMLError::InstanceResolutionError {
                                reference: String::from_str(range_class),
                            },
                        ),
                    }
                },
            },
        }
    }

    /// What is known of the identifiers of the instances of `range_class`.
    pub fn load_instance_for_range(&self, range_class: &str, schema: &SchemaDefinition) -> (r:
        InstanceQuery)
        ensures
            r.deep_view() == spec_query_range(
                range_class@,
                "id"@,
                schema.imports.deep_view(),
                self.base_dir(),
                self.cache(),
            ),
    {
        self.load_instance_for_range_with_field(range_class, "id", schema)
    }

    /// Keeps `data` as the values of `field` of the instances of `range`,
    /// unless values are kept for them already.
    pub fn insert_instance_data(&mut self, range: &str, field: &str, data: InstanceData)
        ensures
            final(self).base_dir() == old(self).base_dir(),
            final(self).cache() == (if old(self).cache().dom().contains(
                spec_cache_key(range@, field@),
            ) {
                old(self).cache()
            } else {
                old(self).cache().insert(spec_cache_key(range@, field@), data.deep_view())
            }),
    {
        proof {
            use_type_invariant(&*self);
        }
        let key = Self::cache_key(range, field);
        let mut taken = InstanceResolver {
            schema_base_dir: String::new(),
            instance_cache: slots_new(),
            loaded: Vec::new(),
        };
        std::mem::swap(self, &mut taken);
        let ghost before = taken;
        let InstanceResolver { schema_base_dir, mut instance_cache, mut loaded } = taken;
        match slots_get(&instance_cache, key.as_str()) {
            Some(_) => {},
            None => {
                let slot = loaded.len();
                loaded.push(data);
                slots_insert(&mut instance_cache, key, slot);
            },
        }
        proof {
            assert forall|k: Seq<char>| #[trigger]
                cache_slots(instance_cache).dom().contains(k) implies cache_slots(
                instance_cache,
            )[k] < loaded.len() by {
                if cache_slots(before.instance_cache).dom().contains(k) {
                    assert(cache_slots(before.instance_cache)[k] < before.loaded.len());
                }
            }
        }
        *self = InstanceResolver { schema_base_dir, instance_cache, loaded };
        proof {
            let wanted = if before.cache().dom().contains(spec_cache_key(range@, field@)) {
                before.cache()
            } else {
                before.cache().insert(spec_cache_key(range@, field@), data.deep_view())
            };
            assert(final(self).cache() =~= wanted);
        }
    }

    /// Hands the resolver the text of the instance document for the values
    /// of `field` of the instances of `range`. Values that are kept for them
    /// already stay.
    pub fn insert_instance_document(&mut self, range: &str, field: &str, content: &str) -> (r:
        Result<(), LinkMLError>)
        ensures
            final(self).base_dir() == old(self).base_dir(),
            match spec_instance_values(content@, field@) {
                Err(e) => r matches Err(x) && x.deep_view() == e && final(self).cache() == old(
                    self,
                ).cache(),
                Ok(d) => r is Ok && final(self).cache() == (if old(self).cache().dom().contains(
                    spec_cache_key(range@, field@),
                ) {
                    old(self).cache()
                } else {
                    old(self).cache().insert(spec_cache_key(range@, field@), d)
                }),
            },
    {
        match parse_instance_values(content, field) {
            Err(e) => Err(e),
            Ok(data) => {
                self.insert_instance_data(range, field, data);
                Ok(())
            },
        }
    }

    /// What is known of the legal values of `slot`.
    pub fn get_valid_ids_for_slot(&self, slot: &SlotDefinition, schema: &SchemaDefinition) -> (r:
        InstanceQuery)
        ensures
            r.deep_view() == spec_query(
                slot.deep_view(),
                schema.deep_view(),
                self.base_dir(),
                self.cache(),
            ),
    {
        let bound = match slot.range_type {
            Some(RangeType::Instance) => true,
            _ => false,
        };
        if !bound {
            return InstanceQuery::NotBound;
        }
        match &slot.range {
            None => InstanceQuery::NotBound,
            Some(range) => {
                if slot.range_properties.len() > 0 {
                    self.load_instance_for_range_with_field(
                        range.as_str(),
                        slot.range_properties[0].as_str(),
                        schema,
                    )
                } else {
                    self.load_instance_for_range_with_field(range.as_str(), "id", schema)
                }
            },
        }
    }

    /// Whether `value` is legal for `slot`.
    pub fn validate_instance_value(
        &self,
        value: &str,
        slot: &SlotDefinition,
        schema: &SchemaDefinition,
    ) -> (r: InstanceCheck)
        ensures
            r.deep_view() == spec_check(
                value@,
                slot.deep_view(),
                schema.deep_view(),
                self.base_dir(),
                self.cache(),
            ),
    {
        match self.get_valid_ids_for_slot(slot, schema) {
            InstanceQuery::NotBound => InstanceCheck::Decided(true),
            InstanceQuery::Values(values) => {
                let wanted = String::from_str(value);
                InstanceCheck::Decided(list_contains(&values, &wanted))
            },
            other => InstanceCheck::Pending(other),
        }
    }
}

/// An import that provides instances is an instance import.
pub proof fn lemma_instance_import_has_base(imports: Seq<Seq<char>>, class: Seq<char>, i: int)
    ensures
        spec_instance_import(imports, class, i) matches Some(import) ==> spec_instance_base(import)
            is Some,
    decreases imports.len() - i,
{
    if 0 <= i < imports.len() {
        lemma_instance_import_has_base(imports, class, i + 1);
    }
}

} // verus!
