//! The canonical schema with shared identifiers.
//!
//! Identifiers that recur in a schema (names, prefixes, ranges, URIs,
//! imports, categories, keywords, cross-references) are kept once in a pool
//! and shared by every place that names them.

use crate::ast::{Description, DescriptionView, RangeType};
use crate::import_resolver::{spec_union, spec_union_list, union_into, union_list_into};
use crate::model::DeepValue;
use crate::ordered::{spec_lookup, OrderedMap};
use crate::types::{
    description_text, spec_description_text, AnnotationValue, AnnotationValueView,
    ClassDefinition, ClassDefinitionView, Contributor, ContributorView, EnumDefinition,
    EnumDefinitionView, PermissibleValue, PermissibleValueView, PrefixDefinition,
    PrefixDefinitionView, SchemaDefinition, SchemaDefinitionView, SlotDefinition,
    SlotDefinitionView, StructuredPattern, StructuredPatternView, SubsetDefinition,
    SubsetDefinitionView, TypeDefinition, TypeDefinitionView, Value, ValueView,
};
use std::sync::Arc;
use vstd::prelude::*;
use vstd::string::*;

verus! {

/// An identifier that is shared by all the places that name it.
pub type Symbol = Arc<String>;

/// `Arc::clone`: another handle to the value that the handle shares.
#[verifier::external_body]
fn share(s: &Arc<String>) -> (r: Arc<String>)
    ensures
        r == *s,
{
    Arc::clone(s)
}

impl DeepValue for Arc<String> {
    fn deep_clone(&self) -> (r: Self) {
        share(self)
    }

    fn deep_eq(&self, other: &Self) -> (r: bool) {
        let a: &String = &**self;
        let b: &String = &**other;
        *a == *b
    }
}

/// The pool of shared identifiers: each string it was asked for is kept
/// once.
#[derive(Debug)]
pub struct StringPool {
    shared: OrderedMap<Arc<String>>,
}

impl StringPool {
    #[verifier::type_invariant]
    closed spec fn inv(&self) -> bool {
        forall|i: int|
            0 <= i < self.shared.keys().len() ==> (#[trigger] self.shared.values()[i])@
                == self.shared.keys()[i]
    }

    /// The strings that the pool keeps, in the order in which it was first
    /// asked for them.
    pub closed spec fn strings(&self) -> Seq<Seq<char>> {
        self.shared.keys()
    }

    /// Whether the pool keeps `s`.
    pub open spec fn has(&self, s: Seq<char>) -> bool {
        self.strings().contains(s)
    }

    /// Whether the pool keeps every string that `before` keeps.
    pub open spec fn keeps(&self, before: &StringPool) -> bool {
        forall|s: Seq<char>| #[trigger] before.has(s) ==> self.has(s)
    }

    /// A pool that keeps nothing.
    pub fn new() -> (p: Self)
        ensures
            p.strings() == Seq::<Seq<char>>::empty(),
    {
        StringPool { shared: OrderedMap::new() }
    }

    /// How many strings the pool keeps.
    pub fn len(&self) -> (n: usize)
        ensures
            n == self.strings().len(),
    {
        self.shared.len()
    }

    /// The shared handle for `s`. A string that the pool does not keep yet
    /// is added to it.
    pub fn intern(&mut self, s: &str) -> (r: Symbol)
        ensures
            r@ == s@,
            final(self).strings() == (if old(self).has(s@) {
                old(self).strings()
            } else {
                old(self).strings().push(s@)
            }),
            final(self).keeps(old(self)),
            final(self).has(s@),
    {
        proof {
            use_type_invariant(&*self);
        }
        let mut taken = StringPool { shared: OrderedMap::new() };
        std::mem::swap(self, &mut taken);
        let StringPool { mut shared } = taken;
        let ghost before = shared;
        let found = match shared.get(s) {
            Some(held) => Some(share(held)),
            None => None,
        };
        let r = match found {
            Some(r) => r,
            None => {
                let fresh = Arc::new(String::from_str(s));
                let r = share(&fresh);
                shared.insert_new(String::from_str(s), fresh);
                r
            },
        };
        proof {
            if found is None {
                assert(shared.keys().last() == s@);
                assert(shared.keys().contains(s@));
                assert forall|t: Seq<char>| before.keys().contains(t) implies shared.keys().contains(
                    t,
                ) by {
                    let i = choose|i: int| 0 <= i < before.keys().len() && before.keys()[i] == t;
                    assert(shared.keys()[i] == t);
                }
            }
        }
        *self = StringPool { shared };
        r
    }

    /// The shared handle for an optional string.
    pub fn intern_option(&mut self, s: &Option<String>) -> (r: Option<Symbol>)
        ensures
            r.deep_view() == s.deep_view(),
            final(self).keeps(old(self)),
    {
        match s {
            Some(x) => Some(self.intern(x.as_str())),
            None => None,
        }
    }

    /// The shared handles for the strings of a list.
    pub fn intern_vec(&mut self, list: &Vec<String>) -> (r: Vec<Symbol>)
        ensures
            r.deep_view() == list.deep_view(),
            final(self).keeps(old(self)),
    {
        let mut out: Vec<Symbol> = Vec::new();
        let mut i: usize = 0;
        while i < list.len()
            invariant
                i <= list.len(),
                out.len() == i,
                self.keeps(old(self)),
                forall|k: int| 0 <= k < i ==> (#[trigger] out[k])@ == list[k]@,
            decreases list.len() - i,
        {
            let ghost mid = *self;
            let h = self.intern(list[i].as_str());
            out.push(h);
            i += 1;
        }
        assert(out.deep_view() =~= list.deep_view());
        out
    }

    /// The shared handles for the values of a mapping of strings.
    pub fn intern_values(&mut self, m: &OrderedMap<String>) -> (r: OrderedMap<Symbol>)
        ensures
            r.deep_view() == m.deep_view(),
            final(self).keeps(old(self)),
    {
        let mut out: OrderedMap<Symbol> = OrderedMap::new();
        let n = m.len();
        let mut i: usize = 0;
        while i < n
            invariant
                i <= n,
                n == m.keys().len(),
                m.well_formed(),
                out.well_formed(),
                self.keeps(old(self)),
                out.keys() == m.keys().take(i as int),
                out.values().len() == i,
                forall|k: int| 0 <= k < i ==> (#[trigger] out.values()[k])@ == m.values()[k]@,
            decreases n - i,
        {
            match m.get_index(i) {
                Some((k, v)) => {
                    assert(!out.has(k@)) by {
                        if out.has(k@) {
                            let j = choose|j: int| 0 <= j < out.keys().len() && out.keys()[j] == k@;
                            assert(m.keys()[j] == m.keys()[i as int]);
                        }
                    }
                    let h = self.intern(v.as_str());
                    out.insert_new(k.clone(), h);
                    assert(out.keys() =~= m.keys().take(i + 1));
                },
                None => {},
            }
            i += 1;
        }
        assert(out.keys() =~= m.keys());
        assert(out.deep_view() =~= m.deep_view());
        out
    }
}

/// A part of the canonical schema that has a form with shared identifiers.
pub trait Intern: DeepView {
    /// The form with shared identifiers.
    type Target: DeepView;

    /// What the form with shared identifiers holds.
    spec fn spec_intern(v: Self::V) -> <Self::Target as DeepView>::V;

    /// The form with shared identifiers, which are taken from `pool`.
    fn intern(&self, pool: &mut StringPool) -> (r: Self::Target)
        ensures
            r.deep_view() == Self::spec_intern(self.deep_view()),
            final(pool).keeps(old(pool)),
    ;
}

/// The forms with shared identifiers of the values of a mapping.
pub open spec fn spec_intern_map<T: Intern>(m: Seq<(Seq<char>, T::V)>) -> Seq<
    (Seq<char>, <T::Target as DeepView>::V),
> {
    Seq::new(m.len(), |i: int| (m[i].0, T::spec_intern(m[i].1)))
}

/// The forms with shared identifiers of the values of a list.
pub open spec fn spec_intern_list<T: Intern>(l: Seq<T::V>) -> Seq<<T::Target as DeepView>::V> {
    Seq::new(l.len(), |i: int| T::spec_intern(l[i]))
}

/// Converts the values of a mapping to their forms with shared identifiers.
pub fn intern_map<T: Intern>(m: &OrderedMap<T>, pool: &mut StringPool) -> (r: OrderedMap<T::Target>)
    ensures
        r.deep_view() == spec_intern_map::<T>(m.deep_view()),
        final(pool).keeps(old(pool)),
{
    let mut out: OrderedMap<T::Target> = OrderedMap::new();
    let n = m.len();
    let mut i: usize = 0;
    while i < n
        invariant
            i <= n,
            n == m.keys().len(),
            m.well_formed(),
            out.well_formed(),
            pool.keeps(old(pool)),
            out.keys() == m.keys().take(i as int),
            out.values().len() == i,
            forall|k: int|
                0 <= k < i ==> (#[trigger] out.values()[k]).deep_view() == T::spec_intern(
                    m.values()[k].deep_view(),
                ),
        decreases n - i,
    {
        match m.get_index(i) {
            Some((k, v)) => {
                assert(!out.has(k@)) by {
                    if out.has(k@) {
                        let j = choose|j: int| 0 <= j < out.keys().len() && out.keys()[j] == k@;
                        assert(m.keys()[j] == m.keys()[i as int]);
                    }
                }
                let x = v.intern(pool);
                out.insert_new(k.clone(), x);
                assert(out.keys() =~= m.keys().take(i + 1));
            },
            None => {},
        }
        i += 1;
    }
    assert(out.keys() =~= m.keys());
    assert(out.deep_view() =~= spec_intern_map::<T>(m.deep_view()));
    out
}

/// Converts the values of a list to their forms with shared identifiers.
pub fn intern_list<T: Intern>(l: &Vec<T>, pool: &mut StringPool) -> (r: Vec<T::Target>)
    ensures
        r.deep_view() == spec_intern_list::<T>(l.deep_view()),
        final(pool).keeps(old(pool)),
{
    let mut out: Vec<T::Target> = Vec::new();
    let mut i: usize = 0;
    while i < l.len()
        invariant
            i <= l.len(),
            out.len() == i,
            pool.keeps(old(pool)),
            forall|k: int|
                0 <= k < i ==> (#[trigger] out[k]).deep_view() == T::spec_intern(l[k].deep_view()),
        decreases l.len() - i,
    {
        let x = l[i].intern(pool);
        out.push(x);
        i += 1;
    }
    assert(out.deep_view() =~= spec_intern_list::<T>(l.deep_view()));
    out
}

/// The text of an optional description.
pub open spec fn spec_opt_text(d: Option<DescriptionView>) -> Option<Seq<char>> {
    match d {
        Some(x) => Some(spec_description_text(x)),
        None => None,
    }
}

/// The text of an optional description.
pub fn opt_text(d: &Option<Description>) -> (r: Option<String>)
    ensures
        r.deep_view() == spec_opt_text(d.deep_view()),
{
    match d {
        Some(x) => Some(description_text(x)),
        None => None,
    }
}

/// Someone who contributed to a schema.
#[derive(Debug)]
pub struct ContributorV2 {
    /// The name.
    pub name: Symbol,
    /// The e-mail address.
    pub email: Option<Symbol>,
    /// The GitHub user name.
    pub github: Option<Symbol>,
    /// The ORCID identifier.
    pub orcid: Option<Symbol>,
    /// The role.
    pub role: Option<Symbol>,
}

/// What a [`ContributorV2`] holds, as mathematical values.
pub struct ContributorV2View {
    pub name: Seq<char>,
    pub email: Option<Seq<char>>,
    pub github: Option<Seq<char>>,
    pub orcid: Option<Seq<char>>,
    pub role: Option<Seq<char>>,
}

impl DeepView for ContributorV2 {
    type V = ContributorV2View;

    open spec fn deep_view(&self) -> ContributorV2View {
        ContributorV2View {
            name: self.name.deep_view(),
            email: self.email.deep_view(),
            github: self.github.deep_view(),
            orcid: self.orcid.deep_view(),
            role: self.role.deep_view(),
        }
    }
}

impl DeepValue for ContributorV2 {
    fn deep_clone(&self) -> (r: Self) {
        ContributorV2 {
            name: self.name.deep_clone(),
            email: self.email.deep_clone(),
            github: self.github.deep_clone(),
            orcid: self.orcid.deep_clone(),
            role: self.role.deep_clone(),
        }
    }

    fn deep_eq(&self, other: &Self) -> (r: bool) {
        self.name.deep_eq(&other.name)
            && self.email.deep_eq(&other.email)
            && self.github.deep_eq(&other.github)
            && self.orcid.deep_eq(&other.orcid)
            && self.role.deep_eq(&other.role)
    }
}

impl Intern for Contributor {
    type Target = ContributorV2;

    open spec fn spec_intern(v: ContributorView) -> ContributorV2View {
        ContributorV2View {
            name: v.name,
            email: v.email,
            github: None,
            orcid: v.orcid,
            role: None,
        }
    }

    fn intern(&self, pool: &mut StringPool) -> (r: ContributorV2) {
        let name = pool.intern(self.name.as_str());
        let email = pool.intern_option(&self.email);
        let github = None;
        let orcid = pool.intern_option(&self.orcid);
        let role = None;
        ContributorV2 { name, email, github, orcid, role }
    }
}

/// A subset of the elements of a schema.
#[derive(Debug)]
pub struct SubsetDefinitionV2 {
    /// The name.
    pub name: Symbol,
    /// The description.
    pub description: Option<String>,
    /// The annotations.
    pub annotations: Option<OrderedMap<AnnotationValue>>,
}

/// What a [`SubsetDefinitionV2`] holds, as mathematical values.
pub struct SubsetDefinitionV2View {
    pub name: Seq<char>,
    pub description: Option<Seq<char>>,
    pub annotations: Option<Seq<(Seq<char>, AnnotationValueView)>>,
}

impl DeepView for SubsetDefinitionV2 {
    type V = SubsetDefinitionV2View;

    open spec fn deep_view(&self) -> SubsetDefinitionV2View {
        SubsetDefinitionV2View {
            name: self.name.deep_view(),
            description: self.description.deep_view(),
            annotations: self.annotations.deep_view(),
        }
    }
}

impl DeepValue for SubsetDefinitionV2 {
    fn deep_clone(&self) -> (r: Self) {
        SubsetDefinitionV2 {
            name: self.name.deep_clone(),
            description: self.description.deep_clone(),
            annotations: self.annotations.deep_clone(),
        }
    }

    fn deep_eq(&self, other: &Self) -> (r: bool) {
        self.name.deep_eq(&other.name)
            && self.description.deep_eq(&other.description)
            && self.annotations.deep_eq(&other.annotations)
    }
}

impl Intern for SubsetDefinition {
    type Target = SubsetDefinitionV2;

    open spec fn spec_intern(v: SubsetDefinitionView) -> SubsetDefinitionV2View {
        SubsetDefinitionV2View {
            name: v.name,
            description: spec_opt_text(v.description),
            annotations: v.annotations,
        }
    }

    fn intern(&self, pool: &mut StringPool) -> (r: SubsetDefinitionV2) {
        let name = pool.intern(self.name.as_str());
        let description = opt_text(&self.description);
        let annotations = self.annotations.deep_clone();
        SubsetDefinitionV2 { name, description, annotations }
    }
}

/// An enumeration.
#[derive(Debug)]
pub struct EnumDefinitionV2 {
    /// The name.
    pub name: Symbol,
    /// The URI of the code set.
    pub code_set: Option<Symbol>,
    /// The tag of the code set.
    pub code_set_tag: Option<Symbol>,
    /// The version of the code set.
    pub code_set_version: Option<Symbol>,
    /// The description.
    pub description: Option<String>,
    /// The values the enumeration admits.
    pub permissible_values: OrderedMap<PermissibleValue>,
    /// The annotations.
    pub annotations: Option<OrderedMap<AnnotationValue>>,
}

/// What a [`EnumDefinitionV2`] holds, as mathematical values.
pub struct EnumDefinitionV2View {
    pub name: Seq<char>,
    pub code_set: Option<Seq<char>>,
    pub code_set_tag: Option<Seq<char>>,
    pub code_set_version: Option<Seq<char>>,
    pub description: Option<Seq<char>>,
    pub permissible_values: Seq<(Seq<char>, PermissibleValueView)>,
    pub annotations: Option<Seq<(Seq<char>, AnnotationValueView)>>,
}

impl DeepView for EnumDefinitionV2 {
    type V = EnumDefinitionV2View;

    open spec fn deep_view(&self) -> EnumDefinitionV2View {
        EnumDefinitionV2View {
            name: self.name.deep_view(),
            code_set: self.code_set.deep_view(),
            code_set_tag: self.code_set_tag.deep_view(),
            code_set_version: self.code_set_version.deep_view(),
            description: self.description.deep_view(),
            permissible_values: self.permissible_values.deep_view(),
            annotations: self.annotations.deep_view(),
        }
    }
}

impl DeepValue for EnumDefinitionV2 {
    fn deep_clone(&self) -> (r: Self) {
        EnumDefinitionV2 {
            name: self.name.deep_clone(),
            code_set: self.code_set.deep_clone(),
            code_set_tag: self.code_set_tag.deep_clone(),
            code_set_version: self.code_set_version.deep_clone(),
            description: self.description.deep_clone(),
            permissible_values: self.permissible_values.deep_clone(),
            annotations: self.annotations.deep_clone(),
        }
    }

    fn deep_eq(&self, other: &Self) -> (r: bool) {
        self.name.deep_eq(&other.name)
            && self.code_set.deep_eq(&other.code_set)
            && self.code_set_tag.deep_eq(&other.code_set_tag)
            && self.code_set_version.deep_eq(&other.code_set_version)
            && self.description.deep_eq(&other.description)
            && self.permissible_values.deep_eq(&other.permissible_values)
            && self.annotations.deep_eq(&other.annotations)
    }
}

impl Intern for EnumDefinition {
    type Target = EnumDefinitionV2;

    open spec fn spec_intern(v: EnumDefinitionView) -> EnumDefinitionV2View {
        EnumDefinitionV2View {
            name: v.name,
            code_set: v.code_set,
            code_set_tag: v.code_set_tag,
            code_set_version: v.code_set_version,
            description: spec_opt_text(v.description),
            permissible_values: v.permissible_values,
            annotations: v.annotations,
        }
    }

    fn intern(&self, pool: &mut StringPool) -> (r: EnumDefinitionV2) {
        let name = pool.intern(self.name.as_str());
        let code_set = pool.intern_option(&self.code_set);
        let code_set_tag = pool.intern_option(&self.code_set_tag);
        let code_set_version = pool.intern_option(&self.code_set_version);
        let description = opt_text(&self.description);
        let permissible_values = self.permissible_values.deep_clone();
        let annotations = self.annotations.deep_clone();
        EnumDefinitionV2 { name, code_set, code_set_tag, code_set_version, description, permissible_values, annotations }
    }
}

/// A type.
#[derive(Debug)]
pub struct TypeDefinitionV2 {
    /// The name.
    pub name: Symbol,
    /// The URI of the type.
    pub uri: Option<Symbol>,
    /// The primitive the type is based on.
    pub base: Option<Symbol>,
    /// The parent type.
    pub base_type: Option<Symbol>,
    /// The description.
    pub description: Option<String>,
    /// The regular expression that values must match.
    pub pattern: Option<Symbol>,
    /// The least value.
    pub minimum_value: Option<Value>,
    /// The greatest value.
    pub maximum_value: Option<Value>,
    /// The annotations.
    pub annotations: Option<OrderedMap<AnnotationValue>>,
}

/// What a [`TypeDefinitionV2`] holds, as mathematical values.
pub struct TypeDefinitionV2View {
    pub name: Seq<char>,
    pub uri: Option<Seq<char>>,
    pub base: Option<Seq<char>>,
    pub base_type: Option<Seq<char>>,
    pub description: Option<Seq<char>>,
    pub pattern: Option<Seq<char>>,
    pub minimum_value: Option<ValueView>,
    pub maximum_value: Option<ValueView>,
    pub annotations: Option<Seq<(Seq<char>, AnnotationValueView)>>,
}

impl DeepView for TypeDefinitionV2 {
    type V = TypeDefinitionV2View;

    open spec fn deep_view(&self) -> TypeDefinitionV2View {
        TypeDefinitionV2View {
            name: self.name.deep_view(),
            uri: self.uri.deep_view(),
            base: self.base.deep_view(),
            base_type: self.base_type.deep_view(),
            description: self.description.deep_view(),
            pattern: self.pattern.deep_view(),
            minimum_value: self.minimum_value.deep_view(),
            maximum_value: self.maximum_value.deep_view(),
            annotations: self.annotations.deep_view(),
        }
    }
}

impl DeepValue for TypeDefinitionV2 {
    fn deep_clone(&self) -> (r: Self) {
        TypeDefinitionV2 {
            name: self.name.deep_clone(),
            uri: self.uri.deep_clone(),
            base: self.base.deep_clone(),
            base_type: self.base_type.deep_clone(),
            description: self.description.deep_clone(),
            pattern: self.pattern.deep_clone(),
            minimum_value: self.minimum_value.deep_clone(),
            maximum_value: self.maximum_value.deep_clone(),
            annotations: self.annotations.deep_clone(),
        }
    }

    fn deep_eq(&self, other: &Self) -> (r: bool) {
        self.name.deep_eq(&other.name)
            && self.uri.deep_eq(&other.uri)
            && self.base.deep_eq(&other.base)
            && self.base_type.deep_eq(&other.base_type)
            && self.description.deep_eq(&other.description)
            && self.pattern.deep_eq(&other.pattern)
            && self.minimum_value.deep_eq(&other.minimum_value)
            && self.maximum_value.deep_eq(&other.maximum_value)
            && self.annotations.deep_eq(&other.annotations)
    }
}

impl Intern for TypeDefinition {
    type Target = TypeDefinitionV2;

    open spec fn spec_intern(v: TypeDefinitionView) -> TypeDefinitionV2View {
        TypeDefinitionV2View {
            name: v.name,
            uri: v.uri,
            base: v.base,
            base_type: v.typeof_,
            description: spec_opt_text(v.description),
            pattern: v.pattern,
            minimum_value: v.minimum_value,
            maximum_value: v.maximum_value,
            annotations: v.annotations,
        }
    }

    fn intern(&self, pool: &mut StringPool) -> (r: TypeDefinitionV2) {
        let name = pool.intern(self.name.as_str());
        let uri = pool.intern_option(&self.uri);
        let base = pool.intern_option(&self.base);
        let base_type = pool.intern_option(&self.typeof_);
        let description = opt_text(&self.description);
        let pattern = pool.intern_option(&self.pattern);
        let minimum_value = self.minimum_value.deep_clone();
        let maximum_value = self.maximum_value.deep_clone();
        let annotations = self.annotations.deep_clone();
        TypeDefinitionV2 { name, uri, base, base_type, description, pattern, minimum_value, maximum_value, annotations }
    }
}

/// A slot: a property of a class.
#[derive(Debug)]
pub struct SlotDefinitionV2 {
    /// The name.
    pub name: Symbol,
    /// The URI of the slot.
    pub slot_uri: Option<Symbol>,
    /// The range.
    pub range: Option<Symbol>,
    /// Whether the range names a class or a set of instances.
    pub range_type: Option<RangeType>,
    /// For an instance-bound slot, the fields whose values are the legal ones.
    pub range_properties: Vec<Symbol>,
    /// The parent slot.
    pub is_a: Option<Symbol>,
    /// The mixins.
    pub mixins: Vec<Symbol>,
    /// The inverse slot.
    pub inverse: Option<Symbol>,
    /// The class the slot belongs to.
    pub domain: Option<Symbol>,
    /// The regular expression that values must match.
    pub pattern: Option<Symbol>,
    /// The description.
    pub description: Option<String>,
    /// Other names.
    pub aliases: Vec<String>,
    /// Whether a value must be given.
    pub required: Option<bool>,
    /// Whether several values may be given.
    pub multivalued: Option<bool>,
    /// Whether the value identifies the instance.
    pub identifier: Option<bool>,
    /// Whether the relation is symmetric.
    pub symmetric: Option<bool>,
    /// Whether the relation is asymmetric.
    pub asymmetric: Option<bool>,
    /// Whether the relation is reflexive.
    pub reflexive: Option<bool>,
    /// Whether the relation is irreflexive.
    pub irreflexive: Option<bool>,
    /// Whether the relation is transitive.
    pub transitive: Option<bool>,
    /// The value to take when none is given.
    pub ifabsent: Option<String>,
    /// The least value.
    pub minimum_value: Option<Value>,
    /// The greatest value.
    pub maximum_value: Option<Value>,
    /// The least number of values.
    pub minimum_cardinality: Option<i64>,
    /// The greatest number of values.
    pub maximum_cardinality: Option<i64>,
    /// Cross-references.
    pub see_also: Vec<Symbol>,
    /// The pattern built from named pattern settings.
    pub structured_pattern: Option<StructuredPattern>,
    /// The annotations.
    pub annotations: Option<OrderedMap<AnnotationValue>>,
}

/// What a [`SlotDefinitionV2`] holds, as mathematical values.
pub struct SlotDefinitionV2View {
    pub name: Seq<char>,
    pub slot_uri: Option<Seq<char>>,
    pub range: Option<Seq<char>>,
    pub range_type: Option<RangeType>,
    pub range_properties: Seq<Seq<char>>,
    pub is_a: Option<Seq<char>>,
    pub mixins: Seq<Seq<char>>,
    pub inverse: Option<Seq<char>>,
    pub domain: Option<Seq<char>>,
    pub pattern: Option<Seq<char>>,
    pub description: Option<Seq<char>>,
    pub aliases: Seq<Seq<char>>,
    pub required: Option<bool>,
    pub multivalued: Option<bool>,
    pub identifier: Option<bool>,
    pub symmetric: Option<bool>,
    pub asymmetric: Option<bool>,
    pub reflexive: Option<bool>,
    pub irreflexive: Option<bool>,
    pub transitive: Option<bool>,
    pub ifabsent: Option<Seq<char>>,
    pub minimum_value: Option<ValueView>,
    pub maximum_value: Option<ValueView>,
    pub minimum_cardinality: Option<i64>,
    pub maximum_cardinality: Option<i64>,
    pub see_also: Seq<Seq<char>>,
    pub structured_pattern: Option<StructuredPatternView>,
    pub annotations: Option<Seq<(Seq<char>, AnnotationValueView)>>,
}

impl DeepView for SlotDefinitionV2 {
    type V = SlotDefinitionV2View;

    open spec fn deep_view(&self) -> SlotDefinitionV2View {
        SlotDefinitionV2View {
            name: self.name.deep_view(),
            slot_uri: self.slot_uri.deep_view(),
            range: self.range.deep_view(),
            range_type: self.range_type.deep_view(),
            range_properties: self.range_properties.deep_view(),
            is_a: self.is_a.deep_view(),
            mixins: self.mixins.deep_view(),
            inverse: self.inverse.deep_view(),
            domain: self.domain.deep_view(),
            pattern: self.pattern.deep_view(),
            description: self.description.deep_view(),
            aliases: self.aliases.deep_view(),
            required: self.required.deep_view(),
            multivalued: self.multivalued.deep_view(),
            identifier: self.identifier.deep_view(),
            symmetric: self.symmetric.deep_view(),
            asymmetric: self.asymmetric.deep_view(),
            reflexive: self.reflexive.deep_view(),
            irreflexive: self.irreflexive.deep_view(),
            transitive: self.transitive.deep_view(),
            ifabsent: self.ifabsent.deep_view(),
            minimum_value: self.minimum_value.deep_view(),
            maximum_value: self.maximum_value.deep_view(),
            minimum_cardinality: self.minimum_cardinality.deep_view(),
            maximum_cardinality: self.maximum_cardinality.deep_view(),
            see_also: self.see_also.deep_view(),
            structured_pattern: self.structured_pattern.deep_view(),
            annotations: self.annotations.deep_view(),
        }
    }
}

impl DeepValue for SlotDefinitionV2 {
    fn deep_clone(&self) -> (r: Self) {
        SlotDefinitionV2 {
            name: self.name.deep_clone(),
            slot_uri: self.slot_uri.deep_clone(),
            range: self.range.deep_clone(),
            range_type: self.range_type.deep_clone(),
            range_properties: self.range_properties.deep_clone(),
            is_a: self.is_a.deep_clone(),
            mixins: self.mixins.deep_clone(),
            inverse: self.inverse.deep_clone(),
            domain: self.domain.deep_clone(),
            pattern: self.pattern.deep_clone(),
            description: self.description.deep_clone(),
            aliases: self.aliases.deep_clone(),
            required: self.required.deep_clone(),
            multivalued: self.multivalued.deep_clone(),
            identifier: self.identifier.deep_clone(),
            symmetric: self.symmetric.deep_clone(),
            asymmetric: self.asymmetric.deep_clone(),
            reflexive: self.reflexive.deep_clone(),
            irreflexive: self.irreflexive.deep_clone(),
            transitive: self.transitive.deep_clone(),
            ifabsent: self.ifabsent.deep_clone(),
            minimum_value: self.minimum_value.deep_clone(),
            maximum_value: self.maximum_value.deep_clone(),
            minimum_cardinality: self.minimum_cardinality.deep_clone(),
            maximum_cardinality: self.maximum_cardinality.deep_clone(),
            see_also: self.see_also.deep_clone(),
            structured_pattern: self.structured_pattern.deep_clone(),
            annotations: self.annotations.deep_clone(),
        }
    }

    fn deep_eq(&self, other: &Self) -> (r: bool) {
        self.name.deep_eq(&other.name)
            && self.slot_uri.deep_eq(&other.slot_uri)
            && self.range.deep_eq(&other.range)
            && self.range_type.deep_eq(&other.range_type)
            && self.range_properties.deep_eq(&other.range_properties)
            && self.is_a.deep_eq(&other.is_a)
            && self.mixins.deep_eq(&other.mixins)
            && self.inverse.deep_eq(&other.inverse)
            && self.domain.deep_eq(&other.domain)
            && self.pattern.deep_eq(&other.pattern)
            && self.description.deep_eq(&other.description)
            && self.aliases.deep_eq(&other.aliases)
            && self.required.deep_eq(&other.required)
            && self.multivalued.deep_eq(&other.multivalued)
            && self.identifier.deep_eq(&other.identifier)
            && self.symmetric.deep_eq(&other.symmetric)
            && self.asymmetric.deep_eq(&other.asymmetric)
            && self.reflexive.deep_eq(&other.reflexive)
            && self.irreflexive.deep_eq(&other.irreflexive)
            && self.transitive.deep_eq(&other.transitive)
            && self.ifabsent.deep_eq(&other.ifabsent)
            && self.minimum_value.deep_eq(&other.minimum_value)
            && self.maximum_value.deep_eq(&other.maximum_value)
            && self.minimum_cardinality.deep_eq(&other.minimum_cardinality)
            && self.maximum_cardinality.deep_eq(&other.maximum_cardinality)
            && self.see_also.deep_eq(&other.see_also)
            && self.structured_pattern.deep_eq(&other.structured_pattern)
            && self.annotations.deep_eq(&other.annotations)
    }
}

impl Intern for SlotDefinition {
    type Target = SlotDefinitionV2;

    open spec fn spec_intern(v: SlotDefinitionView) -> SlotDefinitionV2View {
        SlotDefinitionV2View {
            name: v.name,
            slot_uri: v.slot_uri,
            range: v.range,
            range_type: v.range_type,
            range_properties: v.range_properties,
            is_a: v.is_a,
            mixins: v.mixins,
            inverse: v.inverse,
            domain: v.domain,
            pattern: v.pattern,
            description: spec_opt_text(v.description),
            aliases: v.aliases,
            required: v.required,
            multivalued: v.multivalued,
            identifier: v.identifier,
            symmetric: v.symmetric,
            asymmetric: v.asymmetric,
            reflexive: v.reflexive,
            irreflexive: v.irreflexive,
            transitive: v.transitive,
            ifabsent: v.ifabsent,
            minimum_value: v.minimum_value,
            maximum_value: v.maximum_value,
            minimum_cardinality: v.minimum_cardinality,
            maximum_cardinality: v.maximum_cardinality,
            see_also: v.see_also,
            structured_pattern: v.structured_pattern,
            annotations: v.annotations,
        }
    }

    fn intern(&self, pool: &mut StringPool) -> (r: SlotDefinitionV2) {
        let name = pool.intern(self.name.as_str());
        let slot_uri = pool.intern_option(&self.slot_uri);
        let range = pool.intern_option(&self.range);
        let range_type = self.range_type.deep_clone();
        let range_properties = pool.intern_vec(&self.range_properties);
        let is_a = pool.intern_option(&self.is_a);
        let mixins = pool.intern_vec(&self.mixins);
        let inverse = pool.intern_option(&self.inverse);
        let domain = pool.intern_option(&self.domain);
        let pattern = pool.intern_option(&self.pattern);
        let description = opt_text(&self.description);
        let aliases = self.aliases.deep_clone();
        let required = self.required.deep_clone();
        let multivalued = self.multivalued.deep_clone();
        let identifier = self.identifier.deep_clone();
        let symmetric = self.symmetric.deep_clone();
        let asymmetric = self.asymmetric.deep_clone();
        let reflexive = self.reflexive.deep_clone();
        let irreflexive = self.irreflexive.deep_clone();
        let transitive = self.transitive.deep_clone();
        let ifabsent = self.ifabsent.deep_clone();
        let minimum_value = self.minimum_value.deep_clone();
        let maximum_value = self.maximum_value.deep_clone();
        let minimum_cardinality = self.minimum_cardinality.deep_clone();
        let maximum_cardinality = self.maximum_cardinality.deep_clone();
        let see_also = pool.intern_vec(&self.see_also);
        let structured_pattern = self.structured_pattern.deep_clone();
        let annotations = self.annotations.deep_clone();
        SlotDefinitionV2 { name, slot_uri, range, range_type, range_properties, is_a, mixins, inverse, domain, pattern, description, aliases, required, multivalued, identifier, symmetric, asymmetric, reflexive, irreflexive, transitive, ifabsent, minimum_value, maximum_value, minimum_cardinality, maximum_cardinality, see_also, structured_pattern, annotations }
    }
}

/// A class.
#[derive(Debug)]
pub struct ClassDefinitionV2 {
    /// The name.
    pub name: Symbol,
    /// The URI of the class.
    pub class_uri: Option<Symbol>,
    /// The parent class.
    pub is_a: Option<Symbol>,
    /// The mixins.
    pub mixins: Vec<Symbol>,
    /// The names of the slots.
    pub slots: Vec<Symbol>,
    /// What the class overrides in its slots.
    pub slot_usage: OrderedMap<SlotDefinitionV2>,
    /// Slots defined in place.
    pub attributes: OrderedMap<SlotDefinitionV2>,
    /// The classes this one is a subclass of.
    pub subclass_of: Vec<Symbol>,
    /// The description.
    pub description: Option<String>,
    /// Other names.
    pub aliases: Vec<String>,
    /// Whether the class is abstract.
    pub abstract_: Option<bool>,
    /// Whether the class is a mixin.
    pub mixin: Option<bool>,
    /// The prefixes that identifiers may have.
    pub id_prefixes: Vec<Symbol>,
    /// Cross-references.
    pub see_also: Vec<Symbol>,
    /// The annotations.
    pub annotations: Option<OrderedMap<AnnotationValue>>,
}

/// What a [`ClassDefinitionV2`] holds, as mathematical values.
pub struct ClassDefinitionV2View {
    pub name: Seq<char>,
    pub class_uri: Option<Seq<char>>,
    pub is_a: Option<Seq<char>>,
    pub mixins: Seq<Seq<char>>,
    pub slots: Seq<Seq<char>>,
    pub slot_usage: Seq<(Seq<char>, SlotDefinitionV2View)>,
    pub attributes: Seq<(Seq<char>, SlotDefinitionV2View)>,
    pub subclass_of: Seq<Seq<char>>,
    pub description: Option<Seq<char>>,
    pub aliases: Seq<Seq<char>>,
    pub abstract_: Option<bool>,
    pub mixin: Option<bool>,
    pub id_prefixes: Seq<Seq<char>>,
    pub see_also: Seq<Seq<char>>,
    pub annotations: Option<Seq<(Seq<char>, AnnotationValueView)>>,
}

impl DeepView for ClassDefinitionV2 {
    type V = ClassDefinitionV2View;

    open spec fn deep_view(&self) -> ClassDefinitionV2View {
        ClassDefinitionV2View {
            name: self.name.deep_view(),
            class_uri: self.class_uri.deep_view(),
            is_a: self.is_a.deep_view(),
            mixins: self.mixins.deep_view(),
            slots: self.slots.deep_view(),
            slot_usage: self.slot_usage.deep_view(),
            attributes: self.attributes.deep_view(),
            subclass_of: self.subclass_of.deep_view(),
            description: self.description.deep_view(),
            aliases: self.aliases.deep_view(),
            abstract_: self.abstract_.deep_view(),
            mixin: self.mixin.deep_view(),
            id_prefixes: self.id_prefixes.deep_view(),
            see_also: self.see_also.deep_view(),
            annotations: self.annotations.deep_view(),
        }
    }
}

impl DeepValue for ClassDefinitionV2 {
    fn deep_clone(&self) -> (r: Self) {
        ClassDefinitionV2 {
            name: self.name.deep_clone(),
            class_uri: self.class_uri.deep_clone(),
            is_a: self.is_a.deep_clone(),
            mixins: self.mixins.deep_clone(),
            slots: self.slots.deep_clone(),
            slot_usage: self.slot_usage.deep_clone(),
            attributes: self.attributes.deep_clone(),
            subclass_of: self.subclass_of.deep_clone(),
            description: self.description.deep_clone(),
            aliases: self.aliases.deep_clone(),
            abstract_: self.abstract_.deep_clone(),
            mixin: self.mixin.deep_clone(),
            id_prefixes: self.id_prefixes.deep_clone(),
            see_also: self.see_also.deep_clone(),
            annotations: self.annotations.deep_clone(),
        }
    }

    fn deep_eq(&self, other: &Self) -> (r: bool) {
        self.name.deep_eq(&other.name)
            && self.class_uri.deep_eq(&other.class_uri)
            && self.is_a.deep_eq(&other.is_a)
            && self.mixins.deep_eq(&other.mixins)
            && self.slots.deep_eq(&other.slots)
            && self.slot_usage.deep_eq(&other.slot_usage)
            && self.attributes.deep_eq(&other.attributes)
            && self.subclass_of.deep_eq(&other.subclass_of)
            && self.description.deep_eq(&other.description)
            && self.aliases.deep_eq(&other.aliases)
            && self.abstract_.deep_eq(&other.abstract_)
            && self.mixin.deep_eq(&other.mixin)
            && self.id_prefixes.deep_eq(&other.id_prefixes)
            && self.see_also.deep_eq(&other.see_also)
            && self.annotations.deep_eq(&other.annotations)
    }
}

impl Intern for ClassDefinition {
    type Target = ClassDefinitionV2;

    open spec fn spec_intern(v: ClassDefinitionView) -> ClassDefinitionV2View {
        ClassDefinitionV2View {
            name: v.name,
            class_uri: v.class_uri,
            is_a: v.is_a,
            mixins: v.mixins,
            slots: v.slots,
            slot_usage: spec_intern_map::<SlotDefinition>(v.slot_usage),
            attributes: spec_intern_map::<SlotDefinition>(v.attributes),
            subclass_of: v.subclass_of,
            description: spec_opt_text(v.description),
            aliases: v.aliases,
            abstract_: v.abstract_,
            mixin: v.mixin,
            id_prefixes: v.id_prefixes,
            see_also: v.see_also,
            annotations: v.annotations,
        }
    }

    fn intern(&self, pool: &mut StringPool) -> (r: ClassDefinitionV2) {
        let name = pool.intern(self.name.as_str());
        let class_uri = pool.intern_option(&self.class_uri);
        let is_a = pool.intern_option(&self.is_a);
        let mixins = pool.intern_vec(&self.mixins);
        let slots = pool.intern_vec(&self.slots);
        let slot_usage = intern_map(&self.slot_usage, pool);
        let attributes = intern_map(&self.attributes, pool);
        let subclass_of = pool.intern_vec(&self.subclass_of);
        let description = opt_text(&self.description);
        let aliases = self.aliases.deep_clone();
        let abstract_ = self.abstract_.deep_clone();
        let mixin = self.mixin.deep_clone();
        let id_prefixes = pool.intern_vec(&self.id_prefixes);
        let see_also = pool.intern_vec(&self.see_also);
        let annotations = self.annotations.deep_clone();
        ClassDefinitionV2 { name, class_uri, is_a, mixins, slots, slot_usage, attributes, subclass_of, description, aliases, abstract_, mixin, id_prefixes, see_also, annotations }
    }
}

/// What a prefix stands for, with shared identifiers.
#[derive(Debug)]
pub struct PrefixDefinitionV2 {
    /// The prefix.
    pub prefix_prefix: Symbol,
    /// The reference that the prefix expands to.
    pub prefix_reference: Symbol,
}

/// What a [`PrefixDefinitionV2`] holds, as mathematical values.
pub struct PrefixDefinitionV2View {
    pub prefix_prefix: Seq<char>,
    pub prefix_reference: Seq<char>,
}

impl DeepView for PrefixDefinitionV2 {
    type V = PrefixDefinitionV2View;

    open spec fn deep_view(&self) -> PrefixDefinitionV2View {
        PrefixDefinitionV2View {
            prefix_prefix: self.prefix_prefix.deep_view(),
            prefix_reference: self.prefix_reference.deep_view(),
        }
    }
}

impl DeepValue for PrefixDefinitionV2 {
    fn deep_clone(&self) -> (r: Self) {
        PrefixDefinitionV2 {
            prefix_prefix: self.prefix_prefix.deep_clone(),
            prefix_reference: self.prefix_reference.deep_clone(),
        }
    }

    fn deep_eq(&self, other: &Self) -> (r: bool) {
        self.prefix_prefix.deep_eq(&other.prefix_prefix)
            && self.prefix_reference.deep_eq(&other.prefix_reference)
    }
}

impl Intern for PrefixDefinition {
    type Target = PrefixDefinitionV2;

    /// A simple definition stands for itself; a definition without a
    /// reference refers to its prefix.
    open spec fn spec_intern(v: PrefixDefinitionView) -> PrefixDefinitionV2View {
        match v {
            PrefixDefinitionView::Simple(s) => PrefixDefinitionV2View {
                prefix_prefix: s,
                prefix_reference: s,
            },
            PrefixDefinitionView::Complex { prefix_prefix, prefix_reference } => {
                PrefixDefinitionV2View {
                    prefix_prefix,
                    prefix_reference: match prefix_reference {
                        Some(r) => r,
                        None => prefix_prefix,
                    },
                }
            },
        }
    }

    fn intern(&self, pool: &mut StringPool) -> (r: PrefixDefinitionV2) {
        match self {
            PrefixDefinition::Simple(s) => {
                let prefix_prefix = pool.intern(s.as_str());
                let prefix_reference = pool.intern(s.as_str());
                PrefixDefinitionV2 { prefix_prefix, prefix_reference }
            },
            PrefixDefinition::Complex { prefix_prefix, prefix_reference } => {
                let p = pool.intern(prefix_prefix.as_str());
                let r = match prefix_reference {
                    Some(r) => pool.intern(r.as_str()),
                    None => pool.intern(prefix_prefix.as_str()),
                };
                PrefixDefinitionV2 { prefix_prefix: p, prefix_reference: r }
            },
        }
    }
}

/// A canonical schema with shared identifiers.
#[derive(Debug)]
pub struct SchemaDefinitionV2 {
    /// The identifier of the schema.
    pub id: Symbol,
    /// The name of the schema.
    pub name: Symbol,
    /// The prefix of names that have none.
    pub default_prefix: Option<Symbol>,
    /// The range of slots that have none.
    pub default_range: Option<Symbol>,
    /// The version of the metamodel.
    pub metamodel_version: Option<Symbol>,
    /// The status.
    pub status: Option<Symbol>,
    /// The imports, in order.
    pub imports: Vec<Symbol>,
    /// The categories.
    pub categories: Vec<Symbol>,
    /// The keywords.
    pub keywords: Vec<Symbol>,
    /// Cross-references.
    pub see_also: Vec<Symbol>,
    /// The title.
    pub title: Option<String>,
    /// The description.
    pub description: Option<String>,
    /// The version.
    pub version: Option<String>,
    /// The licence.
    pub license: Option<String>,
    /// When the schema was generated.
    pub generation_date: Option<String>,
    /// The file the schema was read from.
    pub source_file: Option<String>,
    /// The prefixes.
    pub prefixes: OrderedMap<PrefixDefinitionV2>,
    /// The classes.
    pub classes: OrderedMap<ClassDefinitionV2>,
    /// The slots.
    pub slots: OrderedMap<SlotDefinitionV2>,
    /// The types.
    pub types: OrderedMap<TypeDefinitionV2>,
    /// The enumerations.
    pub enums: OrderedMap<EnumDefinitionV2>,
    /// The subsets.
    pub subsets: OrderedMap<SubsetDefinitionV2>,
    /// The settings: named patterns.
    pub settings: OrderedMap<String>,
    /// The annotations.
    pub annotations: Option<OrderedMap<AnnotationValue>>,
    /// The contributors.
    pub contributors: Vec<ContributorV2>,
}

/// What a [`SchemaDefinitionV2`] holds, as mathematical values.
pub struct SchemaDefinitionV2View {
    pub id: Seq<char>,
    pub name: Seq<char>,
    pub default_prefix: Option<Seq<char>>,
    pub default_range: Option<Seq<char>>,
    pub metamodel_version: Option<Seq<char>>,
    pub status: Option<Seq<char>>,
    pub imports: Seq<Seq<char>>,
    pub categories: Seq<Seq<char>>,
    pub keywords: Seq<Seq<char>>,
    pub see_also: Seq<Seq<char>>,
    pub title: Option<Seq<char>>,
    pub description: Option<Seq<char>>,
    pub version: Option<Seq<char>>,
    pub license: Option<Seq<char>>,
    pub generation_date: Option<Seq<char>>,
    pub source_file: Option<Seq<char>>,
    pub prefixes: Seq<(Seq<char>, PrefixDefinitionV2View)>,
    pub classes: Seq<(Seq<char>, ClassDefinitionV2View)>,
    pub slots: Seq<(Seq<char>, SlotDefinitionV2View)>,
    pub types: Seq<(Seq<char>, TypeDefinitionV2View)>,
    pub enums: Seq<(Seq<char>, EnumDefinitionV2View)>,
    pub subsets: Seq<(Seq<char>, SubsetDefinitionV2View)>,
    pub settings: Seq<(Seq<char>, Seq<char>)>,
    pub annotations: Option<Seq<(Seq<char>, AnnotationValueView)>>,
    pub contributors: Seq<ContributorV2View>,
}

impl DeepView for SchemaDefinitionV2 {
    type V = SchemaDefinitionV2View;

    open spec fn deep_view(&self) -> SchemaDefinitionV2View {
        SchemaDefinitionV2View {
            id: self.id.deep_view(),
            name: self.name.deep_view(),
            default_prefix: self.default_prefix.deep_view(),
            default_range: self.default_range.deep_view(),
            metamodel_version: self.metamodel_version.deep_view(),
            status: self.status.deep_view(),
            imports: self.imports.deep_view(),
            categories: self.categories.deep_view(),
            keywords: self.keywords.deep_view(),
            see_also: self.see_also.deep_view(),
            title: self.title.deep_view(),
            description: self.description.deep_view(),
            version: self.version.deep_view(),
            license: self.license.deep_view(),
            generation_date: self.generation_date.deep_view(),
            source_file: self.source_file.deep_view(),
            prefixes: self.prefixes.deep_view(),
            classes: self.classes.deep_view(),
            slots: self.slots.deep_view(),
            types: self.types.deep_view(),
            enums: self.enums.deep_view(),
            subsets: self.subsets.deep_view(),
            settings: self.settings.deep_view(),
            annotations: self.annotations.deep_view(),
            contributors: self.contributors.deep_view(),
        }
    }
}

impl DeepValue for SchemaDefinitionV2 {
    fn deep_clone(&self) -> (r: Self) {
        SchemaDefinitionV2 {
            id: self.id.deep_clone(),
            name: self.name.deep_clone(),
            default_prefix: self.default_prefix.deep_clone(),
            default_range: self.default_range.deep_clone(),
            metamodel_version: self.metamodel_version.deep_clone(),
            status: self.status.deep_clone(),
            imports: self.imports.deep_clone(),
            categories: self.categories.deep_clone(),
            keywords: self.keywords.deep_clone(),
            see_also: self.see_also.deep_clone(),
            title: self.title.deep_clone(),
            description: self.description.deep_clone(),
            version: self.version.deep_clone(),
            license: self.license.deep_clone(),
            generation_date: self.generation_date.deep_clone(),
            source_file: self.source_file.deep_clone(),
            prefixes: self.prefixes.deep_clone(),
            classes: self.classes.deep_clone(),
            slots: self.slots.deep_clone(),
            types: self.types.deep_clone(),
            enums: self.enums.deep_clone(),
            subsets: self.subsets.deep_clone(),
            settings: self.settings.deep_clone(),
            annotations: self.annotations.deep_clone(),
            contributors: self.contributors.deep_clone(),
        }
    }

    fn deep_eq(&self, other: &Self) -> (r: bool) {
        self.id.deep_eq(&other.id)
            && self.name.deep_eq(&other.name)
            && self.default_prefix.deep_eq(&other.default_prefix)
            && self.default_range.deep_eq(&other.default_range)
            && self.metamodel_version.deep_eq(&other.metamodel_version)
            && self.status.deep_eq(&other.status)
            && self.imports.deep_eq(&other.imports)
            && self.categories.deep_eq(&other.categories)
            && self.keywords.deep_eq(&other.keywords)
            && self.see_also.deep_eq(&other.see_also)
            && self.title.deep_eq(&other.title)
            && self.description.deep_eq(&other.description)
            && self.version.deep_eq(&other.version)
            && self.license.deep_eq(&other.license)
            && self.generation_date.deep_eq(&other.generation_date)
            && self.source_file.deep_eq(&other.source_file)
            && self.prefixes.deep_eq(&other.prefixes)
            && self.classes.deep_eq(&other.classes)
            && self.slots.deep_eq(&other.slots)
            && self.types.deep_eq(&other.types)
            && self.enums.deep_eq(&other.enums)
            && self.subsets.deep_eq(&other.subsets)
            && self.settings.deep_eq(&other.settings)
            && self.annotations.deep_eq(&other.annotations)
            && self.contributors.deep_eq(&other.contributors)
    }
}

impl Intern for SchemaDefinition {
    type Target = SchemaDefinitionV2;

    open spec fn spec_intern(v: SchemaDefinitionView) -> SchemaDefinitionV2View {
        SchemaDefinitionV2View {
            id: v.id,
            name: v.name,
            default_prefix: v.default_prefix,
            default_range: v.default_range,
            metamodel_version: v.metamodel_version,
            status: v.status,
            imports: v.imports,
            categories: v.categories,
            keywords: v.keywords,
            see_also: v.see_also,
            title: v.title,
            description: spec_opt_text(v.description),
            version: v.version,
            license: v.license,
            generation_date: v.generation_date,
            source_file: v.source_file,
            prefixes: spec_intern_map::<PrefixDefinition>(v.prefixes),
            classes: spec_intern_map::<ClassDefinition>(v.classes),
            slots: spec_intern_map::<SlotDefinition>(v.slots),
            types: spec_intern_map::<TypeDefinition>(v.types),
            enums: spec_intern_map::<EnumDefinition>(v.enums),
            subsets: spec_intern_map::<SubsetDefinition>(v.subsets),
            settings: v.settings,
            annotations: v.annotations,
            contributors: spec_intern_list::<Contributor>(v.contributors),
        }
    }

    fn intern(&self, pool: &mut StringPool) -> (r: SchemaDefinitionV2) {
        let id = pool.intern(self.id.as_str());
        let name = pool.intern(self.name.as_str());
        let default_prefix = pool.intern_option(&self.default_prefix);
        let default_range = pool.intern_option(&self.default_range);
        let metamodel_version = pool.intern_option(&self.metamodel_version);
        let status = pool.intern_option(&self.status);
        let imports = pool.intern_vec(&self.imports);
        let categories = pool.intern_vec(&self.categories);
        let keywords = pool.intern_vec(&self.keywords);
        let see_also = pool.intern_vec(&self.see_also);
        let title = self.title.deep_clone();
        let description = opt_text(&self.description);
        let version = self.version.deep_clone();
        let license = self.license.deep_clone();
        let generation_date = self.generation_date.deep_clone();
        let source_file = self.source_file.deep_clone();
        let prefixes = intern_map(&self.prefixes, pool);
        let classes = intern_map(&self.classes, pool);
        let slots = intern_map(&self.slots, pool);
        let types = intern_map(&self.types, pool);
        let enums = intern_map(&self.enums, pool);
        let subsets = intern_map(&self.subsets, pool);
        let settings = self.settings.deep_clone();
        let annotations = self.annotations.deep_clone();
        let contributors = intern_list(&self.contributors, pool);
        SchemaDefinitionV2 { id, name, default_prefix, default_range, metamodel_version, status, imports, categories, keywords, see_also, title, description, version, license, generation_date, source_file, prefixes, classes, slots, types, enums, subsets, settings, annotations, contributors }
    }
}

} // verus!
