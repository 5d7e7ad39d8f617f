//! The canonical schema and the promotion of a syntax tree to it.
//!
//! A canonical schema holds what a document declares without the positions
//! at which it was written. Promotion drops the spans, writes permissible
//! values and prefixes as explicit variants, and checks that the schema has
//! its identifier and its name.

use crate::ast::{
    spec_missing_field, AnnotationValueAst, AnnotationValueAstView, AnnotationsAst,
    AnnotationsAstView, ClassAst, ClassAstView, ConditionalRequirementAst,
    ConditionalRequirementAstView, ContributorAst, ContributorAstView, Description,
    DescriptionView, EnumAst, EnumAstView, PermissibleValueAst, PermissibleValueAstView,
    RangeType, RecursionOptionsAst, RecursionOptionsAstView, RuleAst, RuleAstView, SchemaAst,
    SchemaAstView, SlotAst, SlotAstView, StructuredPatternAst, StructuredPatternAstView, SubsetAst,
    SubsetAstView, TypeAst, TypeAstView, UniqueKeyAst, UniqueKeyAstView, ValueAst, ValueAstView,
};
use crate::error::LinkMLError;
use crate::model::DeepValue;
use crate::ordered::OrderedMap;
use crate::span::{Span, Spanned};
use vstd::prelude::*;
use vstd::string::*;

verus! {

/// A part of the syntax tree that has a canonical form.
pub trait Promote: DeepView {
    /// The canonical form.
    type Target: DeepView;

    /// The canonical form of `v`.
    spec fn spec_promote(v: Self::V) -> <Self::Target as DeepView>::V;

    /// The canonical form of `self`.
    fn promote(&self) -> (r: Self::Target)
        ensures
            r.deep_view() == Self::spec_promote(self.deep_view()),
    ;
}

impl Promote for String {
    type Target = String;

    open spec fn spec_promote(v: Seq<char>) -> Seq<char> {
        v
    }

    fn promote(&self) -> (r: String) {
        self.clone()
    }
}

impl Promote for bool {
    type Target = bool;

    open spec fn spec_promote(v: bool) -> bool {
        v
    }

    fn promote(&self) -> (r: bool) {
        *self
    }
}

impl Promote for i64 {
    type Target = i64;

    open spec fn spec_promote(v: i64) -> i64 {
        v
    }

    fn promote(&self) -> (r: i64) {
        *self
    }
}

impl Promote for RangeType {
    type Target = RangeType;

    open spec fn spec_promote(v: RangeType) -> RangeType {
        v
    }

    fn promote(&self) -> (r: RangeType) {
        *self
    }
}

impl Promote for Description {
    type Target = Description;

    open spec fn spec_promote(v: DescriptionView) -> DescriptionView {
        v
    }

    fn promote(&self) -> (r: Description) {
        self.deep_clone()
    }
}

/// The canonical form of an optional value: the value without its span.
pub open spec fn spec_promote_opt<T: Promote>(x: Option<Spanned<T::V>>) -> Option<
    <T::Target as DeepView>::V,
> {
    match x {
        Some(s) => Some(T::spec_promote(s.value)),
        None => None,
    }
}

/// The canonical form of a list: its values without their spans, in order.
pub open spec fn spec_promote_list<T: Promote>(l: Seq<Spanned<T::V>>) -> Seq<
    <T::Target as DeepView>::V,
> {
    Seq::new(l.len(), |i: int| T::spec_promote(l[i].value))
}

/// The canonical form of a mapping: its values without their spans, under
/// the same keys in the same order.
pub open spec fn spec_promote_map<T: Promote>(m: Seq<(Seq<char>, Spanned<T::V>)>) -> Seq<
    (Seq<char>, <T::Target as DeepView>::V),
> {
    Seq::new(m.len(), |i: int| (m[i].0, T::spec_promote(m[i].1.value)))
}

/// Promotes an optional value.
pub fn promote_opt<T: Promote>(x: &Option<Spanned<T>>) -> (r: Option<T::Target>)
    ensures
        r.deep_view() == spec_promote_opt::<T>(x.deep_view()),
{
    match x {
        Some(s) => Some(s.value.promote()),
        None => None,
    }
}

/// Promotes a list.
pub fn promote_list<T: Promote>(l: &Vec<Spanned<T>>) -> (r: Vec<T::Target>)
    ensures
        r.deep_view() == spec_promote_list::<T>(l.deep_view()),
{
    let mut out: Vec<T::Target> = Vec::new();
    let mut i: usize = 0;
    while i < l.len()
        invariant
            i <= l.len(),
            out.len() == i,
            forall|k: int|
                0 <= k < i ==> (#[trigger] out[k]).deep_view() == T::spec_promote(
                    l[k].value.deep_view(),
                ),
        decreases l.len() - i,
    {
        out.push(l[i].value.promote());
        i += 1;
    }
    assert(out.deep_view() =~= spec_promote_list::<T>(l.deep_view()));
    out
}

/// Promotes a mapping.
pub fn promote_map<T: Promote>(m: &OrderedMap<Spanned<T>>) -> (r: OrderedMap<T::Target>)
    ensures
        r.deep_view() == spec_promote_map::<T>(m.deep_view()),
        r.keys() == m.keys(),
{
    let mut out: OrderedMap<T::Target> = OrderedMap::new();
    let n = m.len();
    let mut i: usize = 0;
    while i < n
        invariant
            i <= n,
            n == m.keys().len(),
            m.well_formed(),
            out.well_formed(),
            out.keys() == m.keys().take(i as int),
            out.values().len() == i,
            forall|k: int|
                0 <= k < i ==> (#[trigger] out.values()[k]).deep_view() == T::spec_promote(
                    m.values()[k].value.deep_view(),
                ),
        decreases n - i,
    {
        match m.get_index(i) {
            Some((k, v)) => {
                assert(!out.has(k@)) by {
                    if out.has(k@) {
                        let j = choose|j: int| 0 <= j < out.keys().len() && out.keys()[j] == k@;
                        assert(m.keys()[j] == m.keys()[i as int]);
                    }
                }
                out.insert_new(k.clone(), v.value.promote());
                assert(out.keys() =~= m.keys().take(i + 1));
            },
            None => {},
        }
        i += 1;
    }
    assert(out.keys() =~= m.keys());
    assert(out.deep_view() =~= spec_promote_map::<T>(m.deep_view()));
    out
}

/// A bound of a value constraint.
#[derive(Debug)]
pub enum Value {
    /// A string.
    Text(String),
    /// A number with a fraction or an exponent, in its decimal form.
    Number(String),
    /// A whole number.
    Integer(i64),
}

/// What a [`Value`] holds, as mathematical values.
pub enum ValueView {
    Text(Seq<char>),
    Number(Seq<char>),
    Integer(i64),
}

impl DeepView for Value {
    type V = ValueView;

    open spec fn deep_view(&self) -> ValueView {
        match self {
            Value::Text(x) => ValueView::Text(x.deep_view()),
            Value::Number(x) => ValueView::Number(x.deep_view()),
            Value::Integer(x) => ValueView::Integer(x.deep_view()),
        }
    }
}

impl DeepValue for Value {
    fn deep_clone(&self) -> (r: Self) {
        match self {
            Value::Text(x) => Value::Text(x.deep_clone()),
            Value::Number(x) => Value::Number(x.deep_clone()),
            Value::Integer(x) => Value::Integer(x.deep_clone()),
        }
    }

    fn deep_eq(&self, other: &Self) -> (r: bool) {
        match (self, other) {
            (Value::Text(a), Value::Text(b)) => a.deep_eq(b),
            (Value::Number(a), Value::Number(b)) => a.deep_eq(b),
            (Value::Integer(a), Value::Integer(b)) => a.deep_eq(b),
            _ => false,
        }
    }
}

impl Promote for ValueAst {
    type Target = Value;

    open spec fn spec_promote(v: ValueAstView) -> ValueView {
        match v {
            ValueAstView::Text(s) => ValueView::Text(s),
            ValueAstView::Number(s) => ValueView::Number(s),
            ValueAstView::Integer(n) => ValueView::Integer(n),
        }
    }

    fn promote(&self) -> (r: Value) {
        match self {
            ValueAst::Text(s) => Value::Text(s.clone()),
            ValueAst::Number(s) => Value::Number(s.clone()),
            ValueAst::Integer(n) => Value::Integer(*n),
        }
    }
}

/// The value of one annotation.
#[derive(Debug)]
pub enum AnnotationValue {
    /// A truth value.
    Bool(bool),
    /// A number, in its decimal form.
    Number(String),
    /// A string written on one line.
    Text(String),
    /// A block string.
    Block(String),
    /// A list of strings.
    List(Vec<String>),
}

/// What a [`AnnotationValue`] holds, as mathematical values.
pub enum AnnotationValueView {
    Bool(bool),
    Number(Seq<char>),
    Text(Seq<char>),
    Block(Seq<char>),
    List(Seq<Seq<char>>),
}

impl DeepView for AnnotationValue {
    type V = AnnotationValueView;

    open spec fn deep_view(&self) -> AnnotationValueView {
        match self {
            AnnotationValue::Bool(x) => AnnotationValueView::Bool(x.deep_view()),
            AnnotationValue::Number(x) => AnnotationValueView::Number(x.deep_view()),
            AnnotationValue::Text(x) => AnnotationValueView::Text(x.deep_view()),
            AnnotationValue::Block(x) => AnnotationValueView::Block(x.deep_view()),
            AnnotationValue::List(x) => AnnotationValueView::List(x.deep_view()),
        }
    }
}

impl DeepValue for AnnotationValue {
    fn deep_clone(&self) -> (r: Self) {
        match self {
            AnnotationValue::Bool(x) => AnnotationValue::Bool(x.deep_clone()),
            AnnotationValue::Number(x) => AnnotationValue::Number(x.deep_clone()),
            AnnotationValue::Text(x) => AnnotationValue::Text(x.deep_clone()),
            AnnotationValue::Block(x) => AnnotationValue::Block(x.deep_clone()),
            AnnotationValue::List(x) => AnnotationValue::List(x.deep_clone()),
        }
    }

    fn deep_eq(&self, other: &Self) -> (r: bool) {
        match (self, other) {
            (AnnotationValue::Bool(a), AnnotationValue::Bool(b)) => a.deep_eq(b),
            (AnnotationValue::Number(a), AnnotationValue::Number(b)) => a.deep_eq(b),
            (AnnotationValue::Text(a), AnnotationValue::Text(b)) => a.deep_eq(b),
            (AnnotationValue::Block(a), AnnotationValue::Block(b)) => a.deep_eq(b),
            (AnnotationValue::List(a), AnnotationValue::List(b)) => a.deep_eq(b),
            _ => false,
        }
    }
}

impl Promote for AnnotationValueAst {
    type Target = AnnotationValue;

    open spec fn spec_promote(v: AnnotationValueAstView) -> AnnotationValueView {
        match v {
            AnnotationValueAstView::Bool(b) => AnnotationValueView::Bool(b),
            AnnotationValueAstView::Number(s) => AnnotationValueView::Number(s),
            AnnotationValueAstView::Text(s) => AnnotationValueView::Text(s),
            AnnotationValueAstView::Block(s) => AnnotationValueView::Block(s),
            AnnotationValueAstView::List(l) => AnnotationValueView::List(
                spec_promote_list::<String>(l),
            ),
        }
    }

    fn promote(&self) -> (r: AnnotationValue) {
        match self {
            AnnotationValueAst::Bool(b) => AnnotationValue::Bool(*b),
            AnnotationValueAst::Number(s) => AnnotationValue::Number(s.clone()),
            AnnotationValueAst::Text(s) => AnnotationValue::Text(s.clone()),
            AnnotationValueAst::Block(s) => AnnotationValue::Block(s.clone()),
            AnnotationValueAst::List(l) => AnnotationValue::List(promote_list(l)),
        }
    }
}

impl Promote for AnnotationsAst {
    type Target = OrderedMap<AnnotationValue>;

    open spec fn spec_promote(v: AnnotationsAstView) -> Seq<(Seq<char>, AnnotationValueView)> {
        spec_promote_map::<AnnotationValueAst>(v.entries)
    }

    fn promote(&self) -> (r: OrderedMap<AnnotationValue>) {
        promote_map(&self.entries)
    }
}

/// One value that an enumeration admits.
#[derive(Debug)]
pub enum PermissibleValue {
    /// A value that is only named.
    Simple(String),
    /// A value with a description or a meaning.
    Complex { text: String, description: Option<String>, meaning: Option<String> },
}

/// What a [`PermissibleValue`] holds, as mathematical values.
pub enum PermissibleValueView {
    Simple(Seq<char>),
    Complex { text: Seq<char>, description: Option<Seq<char>>, meaning: Option<Seq<char>> },
}

impl DeepView for PermissibleValue {
    type V = PermissibleValueView;

    open spec fn deep_view(&self) -> PermissibleValueView {
        match self {
            PermissibleValue::Simple(x) => PermissibleValueView::Simple(x.deep_view()),
            PermissibleValue::Complex { text, description, meaning } => {
                PermissibleValueView::Complex { text: text.deep_view(), description: description.deep_view(), meaning: meaning.deep_view() }
            },
        }
    }
}

impl DeepValue for PermissibleValue {
    fn deep_clone(&self) -> (r: Self) {
        match self {
            PermissibleValue::Simple(x) => PermissibleValue::Simple(x.deep_clone()),
            PermissibleValue::Complex { text, description, meaning } => {
                PermissibleValue::Complex { text: text.deep_clone(), description: description.deep_clone(), meaning: meaning.deep_clone() }
            },
        }
    }

    fn deep_eq(&self, other: &Self) -> (r: bool) {
        match (self, other) {
            (PermissibleValue::Simple(a), PermissibleValue::Simple(b)) => a.deep_eq(b),
            (PermissibleValue::Complex { text: a_text, description: a_description, meaning: a_meaning }, PermissibleValue::Complex { text: b_text, description: b_description, meaning: b_meaning }) => {
                a_text.deep_eq(b_text) && a_description.deep_eq(b_description) && a_meaning.deep_eq(
                    b_meaning,
                )
            },
            _ => false,
        }
    }
}

/// The text of a description.
pub open spec fn spec_description_text(d: DescriptionView) -> Seq<char> {
    match d {
        DescriptionView::Inline(s) => s,
        DescriptionView::Block(s) => s,
    }
}

/// The text of a description.
pub fn description_text(d: &Description) -> (r: String)
    ensures
        r@ == spec_description_text(d.deep_view()),
{
    match d {
        Description::Inline(s) => s.clone(),
        Description::Block(s) => s.clone(),
    }
}

impl Promote for PermissibleValueAst {
    type Target = PermissibleValue;

    open spec fn spec_promote(v: PermissibleValueAstView) -> PermissibleValueView {
        if v.description is None && v.meaning is None {
            PermissibleValueView::Simple(v.name)
        } else {
            PermissibleValueView::Complex {
                text: v.name,
                description: match v.description {
                    Some(d) => Some(spec_description_text(d.value)),
                    None => None,
                },
                meaning: match v.meaning {
                    Some(m) => Some(m.value),
                    None => None,
                },
            }
        }
    }

    fn promote(&self) -> (r: PermissibleValue) {
        if self.description.is_none() && self.meaning.is_none() {
            PermissibleValue::Simple(self.name.clone())
        } else {
            PermissibleValue::Complex {
                text: self.name.clone(),
                description: match &self.description {
                    Some(d) => Some(description_text(&d.value)),
                    None => None,
                },
                meaning: match &self.meaning {
                    Some(m) => Some(m.value.clone()),
                    None => None,
                },
            }
        }
    }
}

/// What a prefix stands for.
#[derive(Debug)]
pub enum PrefixDefinition {
    /// The URI that the prefix expands to.
    Simple(String),
    /// A prefix with the reference that it expands to.
    Complex { prefix_prefix: String, prefix_reference: Option<String> },
}

/// What a [`PrefixDefinition`] holds, as mathematical values.
pub enum PrefixDefinitionView {
    Simple(Seq<char>),
    Complex { prefix_prefix: Seq<char>, prefix_reference: Option<Seq<char>> },
}

impl DeepView for PrefixDefinition {
    type V = PrefixDefinitionView;

    open spec fn deep_view(&self) -> PrefixDefinitionView {
        match self {
            PrefixDefinition::Simple(x) => PrefixDefinitionView::Simple(x.deep_view()),
            PrefixDefinition::Complex { prefix_prefix, prefix_reference } => {
                PrefixDefinitionView::Complex { prefix_prefix: prefix_prefix.deep_view(), prefix_reference: prefix_reference.deep_view() }
            },
        }
    }
}

impl DeepValue for PrefixDefinition {
    fn deep_clone(&self) -> (r: Self) {
        match self {
            PrefixDefinition::Simple(x) => PrefixDefinition::Simple(x.deep_clone()),
            PrefixDefinition::Complex { prefix_prefix, prefix_reference } => {
                PrefixDefinition::Complex { prefix_prefix: prefix_prefix.deep_clone(), prefix_reference: prefix_reference.deep_clone() }
            },
        }
    }

    fn deep_eq(&self, other: &Self) -> (r: bool) {
        match (self, other) {
            (PrefixDefinition::Simple(a), PrefixDefinition::Simple(b)) => a.deep_eq(b),
            (PrefixDefinition::Complex { prefix_prefix: a_prefix_prefix, prefix_reference: a_prefix_reference }, PrefixDefinition::Complex { prefix_prefix: b_prefix_prefix, prefix_reference: b_prefix_reference }) => {
                a_prefix_prefix.deep_eq(b_prefix_prefix) && a_prefix_reference.deep_eq(
                    b_prefix_reference,
                )
            },
            _ => false,
        }
    }
}

/// The canonical form of the prefixes of a document: each prefix stands for
/// the URI that was written for it.
pub open spec fn spec_promote_prefixes(m: Seq<(Seq<char>, Spanned<Seq<char>>)>) -> Seq<
    (Seq<char>, PrefixDefinitionView),
> {
    Seq::new(m.len(), |i: int| (m[i].0, PrefixDefinitionView::Simple(m[i].1.value)))
}

/// Promotes the prefixes of a document.
pub fn promote_prefixes(m: &OrderedMap<Spanned<String>>) -> (r: OrderedMap<PrefixDefinition>)
    ensures
        r.deep_view() == spec_promote_prefixes(m.deep_view()),
        r.keys() == m.keys(),
{
    let mut out: OrderedMap<PrefixDefinition> = OrderedMap::new();
    let n = m.len();
    let mut i: usize = 0;
    while i < n
        invariant
            i <= n,
            n == m.keys().len(),
            m.well_formed(),
            out.well_formed(),
            out.keys() == m.keys().take(i as int),
            out.values().len() == i,
            forall|k: int|
                0 <= k < i ==> (#[trigger] out.values()[k]).deep_view()
                    == PrefixDefinitionView::Simple(m.values()[k].value@),
        decreases n - i,
    {
        match m.get_index(i) {
            Some((k, v)) => {
                assert(!out.has(k@)) by {
                    if out.has(k@) {
                        let j = choose|j: int| 0 <= j < out.keys().len() && out.keys()[j] == k@;
                        assert(m.keys()[j] == m.keys()[i as int]);
                    }
                }
                out.insert_new(k.clone(), PrefixDefinition::Simple(v.value.clone()));
                assert(out.keys() =~= m.keys().take(i + 1));
            },
            None => {},
        }
        i += 1;
    }
    assert(out.keys() =~= m.keys());
    assert(out.deep_view() =~= spec_promote_prefixes(m.deep_view()));
    out
}

/// A pattern whose syntax may refer to named pattern settings.
#[derive(Debug)]
pub struct StructuredPattern {
    /// The pattern, possibly with `{name}` placeholders.
    pub syntax: String,
    /// Whether the placeholders are to be replaced.
    pub interpolated: bool,
}

/// What a [`StructuredPattern`] holds, as mathematical values.
pub struct StructuredPatternView {
    pub syntax: Seq<char>,
    pub interpolated: bool,
}

impl DeepView for StructuredPattern {
    type V = StructuredPatternView;

    open spec fn deep_view(&self) -> StructuredPatternView {
        StructuredPatternView {
            syntax: self.syntax.deep_view(),
            interpolated: self.interpolated.deep_view(),
        }
    }
}

impl DeepValue for StructuredPattern {
    fn deep_clone(&self) -> (r: Self) {
        StructuredPattern {
            syntax: self.syntax.deep_clone(),
            interpolated: self.interpolated.deep_clone(),
        }
    }

    fn deep_eq(&self, other: &Self) -> (r: bool) {
        self.syntax.deep_eq(&other.syntax)
            && self.interpolated.deep_eq(&other.interpolated)
    }
}

impl Promote for StructuredPatternAst {
    type Target = StructuredPattern;

    open spec fn spec_promote(v: StructuredPatternAstView) -> StructuredPatternView {
        StructuredPatternView {
            syntax: v.syntax,
            interpolated: v.interpolated,
        }
    }

    fn promote(&self) -> (r: StructuredPattern) {
        StructuredPattern {
            syntax: self.syntax.deep_clone(),
            interpolated: self.interpolated.deep_clone(),
        }
    }
}

/// Someone who contributed to a schema.
#[derive(Debug)]
pub struct Contributor {
    /// The name.
    pub name: String,
    /// The e-mail address.
    pub email: Option<String>,
    /// The ORCID identifier.
    pub orcid: Option<String>,
}

/// What a [`Contributor`] holds, as mathematical values.
pub struct ContributorView {
    pub name: Seq<char>,
    pub email: Option<Seq<char>>,
    pub orcid: Option<Seq<char>>,
}

impl DeepView for Contributor {
    type V = ContributorView;

    open spec fn deep_view(&self) -> ContributorView {
        ContributorView {
            name: self.name.deep_view(),
            email: self.email.deep_view(),
            orcid: self.orcid.deep_view(),
        }
    }
}

impl DeepValue for Contributor {
    fn deep_clone(&self) -> (r: Self) {
        Contributor {
            name: self.name.deep_clone(),
            email: self.email.deep_clone(),
            orcid: self.orcid.deep_clone(),
        }
    }

    fn deep_eq(&self, other: &Self) -> (r: bool) {
        self.name.deep_eq(&other.name)
            && self.email.deep_eq(&other.email)
            && self.orcid.deep_eq(&other.orcid)
    }
}

impl Promote for ContributorAst {
    type Target = Contributor;

    open spec fn spec_promote(v: ContributorAstView) -> ContributorView {
        ContributorView {
            name: v.name,
            email: v.email,
            orcid: v.orcid,
        }
    }

    fn promote(&self) -> (r: Contributor) {
        Contributor {
            name: self.name.deep_clone(),
            email: self.email.deep_clone(),
            orcid: self.orcid.deep_clone(),
        }
    }
}

/// How recursive classes are to be represented.
#[derive(Debug)]
pub struct RecursionOptions {
    /// Whether recursion goes through an owning pointer.
    pub use_box: bool,
    /// The greatest depth of recursion.
    pub max_depth: Option<i64>,
}

/// What a [`RecursionOptions`] holds, as mathematical values.
pub struct RecursionOptionsView {
    pub use_box: bool,
    pub max_depth: Option<i64>,
}

impl DeepView for RecursionOptions {
    type V = RecursionOptionsView;

    open spec fn deep_view(&self) -> RecursionOptionsView {
        RecursionOptionsView {
            use_box: self.use_box.deep_view(),
            max_depth: self.max_depth.deep_view(),
        }
    }
}

impl DeepValue for RecursionOptions {
    fn deep_clone(&self) -> (r: Self) {
        RecursionOptions {
            use_box: self.use_box.deep_clone(),
            max_depth: self.max_depth.deep_clone(),
        }
    }

    fn deep_eq(&self, other: &Self) -> (r: bool) {
        self.use_box.deep_eq(&other.use_box)
            && self.max_depth.deep_eq(&other.max_depth)
    }
}

impl Promote for RecursionOptionsAst {
    type Target = RecursionOptions;

    open spec fn spec_promote(v: RecursionOptionsAstView) -> RecursionOptionsView {
        RecursionOptionsView {
            use_box: v.use_box,
            max_depth: v.max_depth,
        }
    }

    fn promote(&self) -> (r: RecursionOptions) {
        RecursionOptions {
            use_box: self.use_box.deep_clone(),
            max_depth: self.max_depth.deep_clone(),
        }
    }
}

/// A set of slots whose values together identify an instance.
#[derive(Debug)]
pub struct UniqueKey {
    /// The name of the key.
    pub name: String,
    /// The slots that form the key.
    pub unique_key_slots: Vec<String>,
}

/// What a [`UniqueKey`] holds, as mathematical values.
pub struct UniqueKeyView {
    pub name: Seq<char>,
    pub unique_key_slots: Seq<Seq<char>>,
}

impl DeepView for UniqueKey {
    type V = UniqueKeyView;

    open spec fn deep_view(&self) -> UniqueKeyView {
        UniqueKeyView {
            name: self.name.deep_view(),
            unique_key_slots: self.unique_key_slots.deep_view(),
        }
    }
}

impl DeepValue for UniqueKey {
    fn deep_clone(&self) -> (r: Self) {
        UniqueKey {
            name: self.name.deep_clone(),
            unique_key_slots: self.unique_key_slots.deep_clone(),
        }
    }

    fn deep_eq(&self, other: &Self) -> (r: bool) {
        self.name.deep_eq(&other.name)
            && self.unique_key_slots.deep_eq(&other.unique_key_slots)
    }
}

impl Promote for UniqueKeyAst {
    type Target = UniqueKey;

    open spec fn spec_promote(v: UniqueKeyAstView) -> UniqueKeyView {
        UniqueKeyView {
            name: v.name,
            unique_key_slots: spec_promote_list::<String>(v.unique_key_slots),
        }
    }

    fn promote(&self) -> (r: UniqueKey) {
        UniqueKey {
            name: self.name.deep_clone(),
            unique_key_slots: promote_list(&self.unique_key_slots),
        }
    }
}

/// Slots that are required when a condition slot is set.
#[derive(Debug)]
pub struct ConditionalRequirement {
    /// The slot whose presence is the condition.
    pub condition: String,
    /// The slots that are then required.
    pub then_required: Vec<String>,
}

/// What a [`ConditionalRequirement`] holds, as mathematical values.
pub struct ConditionalRequirementView {
    pub condition: Seq<char>,
    pub then_required: Seq<Seq<char>>,
}

impl DeepView for ConditionalRequirement {
    type V = ConditionalRequirementView;

    open spec fn deep_view(&self) -> ConditionalRequirementView {
        ConditionalRequirementView {
            condition: self.condition.deep_view(),
            then_required: self.then_required.deep_view(),
        }
    }
}

impl DeepValue for ConditionalRequirement {
    fn deep_clone(&self) -> (r: Self) {
        ConditionalRequirement {
            condition: self.condition.deep_clone(),
            then_required: self.then_required.deep_clone(),
        }
    }

    fn deep_eq(&self, other: &Self) -> (r: bool) {
        self.condition.deep_eq(&other.condition)
            && self.then_required.deep_eq(&other.then_required)
    }
}

impl Promote for ConditionalRequirementAst {
    type Target = ConditionalRequirement;

    open spec fn spec_promote(v: ConditionalRequirementAstView) -> ConditionalRequirementView {
        ConditionalRequirementView {
            condition: v.condition,
            then_required: spec_promote_list::<String>(v.then_required),
        }
    }

    fn promote(&self) -> (r: ConditionalRequirement) {
        ConditionalRequirement {
            condition: self.condition.deep_clone(),
            then_required: promote_list(&self.then_required),
        }
    }
}

/// A rule: when the pre-conditions hold, the post-conditions must hold.
#[derive(Debug)]
pub struct Rule {
    /// The pre-conditions, in order.
    pub preconditions: OrderedMap<String>,
    /// The post-conditions, in order.
    pub postconditions: OrderedMap<String>,
}

/// What a [`Rule`] holds, as mathematical values.
pub struct RuleView {
    pub preconditions: Seq<(Seq<char>, Seq<char>)>,
    pub postconditions: Seq<(Seq<char>, Seq<char>)>,
}

impl DeepView for Rule {
    type V = RuleView;

    open spec fn deep_view(&self) -> RuleView {
        RuleView {
            preconditions: self.preconditions.deep_view(),
            postconditions: self.postconditions.deep_view(),
        }
    }
}

impl DeepValue for Rule {
    fn deep_clone(&self) -> (r: Self) {
        Rule {
            preconditions: self.preconditions.deep_clone(),
            postconditions: self.postconditions.deep_clone(),
        }
    }

    fn deep_eq(&self, other: &Self) -> (r: bool) {
        self.preconditions.deep_eq(&other.preconditions)
            && self.postconditions.deep_eq(&other.postconditions)
    }
}

impl Promote for RuleAst {
    type Target = Rule;

    open spec fn spec_promote(v: RuleAstView) -> RuleView {
        RuleView {
            preconditions: spec_promote_map::<String>(v.preconditions),
            postconditions: spec_promote_map::<String>(v.postconditions),
        }
    }

    fn promote(&self) -> (r: Rule) {
        Rule {
            preconditions: promote_map(&self.preconditions),
            postconditions: promote_map(&self.postconditions),
        }
    }
}

/// A subset of the elements of a schema.
#[derive(Debug)]
pub struct SubsetDefinition {
    /// The name, taken from the key in the mapping.
    pub name: String,
    /// The description.
    pub description: Option<Description>,
    /// The annotations.
    pub annotations: Option<OrderedMap<AnnotationValue>>,
}

/// What a [`SubsetDefinition`] holds, as mathematical values.
pub struct SubsetDefinitionView {
    pub name: Seq<char>,
    pub description: Option<DescriptionView>,
    pub annotations: Option<Seq<(Seq<char>, AnnotationValueView)>>,
}

impl DeepView for SubsetDefinition {
    type V = SubsetDefinitionView;

    open spec fn deep_view(&self) -> SubsetDefinitionView {
        SubsetDefinitionView {
            name: self.name.deep_view(),
            description: self.description.deep_view(),
            annotations: self.annotations.deep_view(),
        }
    }
}

impl DeepValue for SubsetDefinition {
    fn deep_clone(&self) -> (r: Self) {
        SubsetDefinition {
            name: self.name.deep_clone(),
            description: self.description.deep_clone(),
            annotations: self.annotations.deep_clone(),
        }
    }

    fn deep_eq(&self, other: &Self) -> (r: bool) {
        self.name.deep_eq(&other.name)
            && self.description.deep_eq(&other.description)
            && self.annotations.deep_eq(&other.annotations)
    }
}

impl Promote for SubsetAst {
    type Target = SubsetDefinition;

    open spec fn spec_promote(v: SubsetAstView) -> SubsetDefinitionView {
        SubsetDefinitionView {
            name: v.name,
            description: spec_promote_opt::<Description>(v.description),
            annotations: spec_promote_opt::<AnnotationsAst>(v.annotations),
        }
    }

    fn promote(&self) -> (r: SubsetDefinition) {
        SubsetDefinition {
            name: self.name.deep_clone(),
            description: promote_opt(&self.description),
            annotations: promote_opt(&self.annotations),
        }
    }
}

/// An enumeration.
#[derive(Debug)]
pub struct EnumDefinition {
    /// The name, taken from the key in the mapping.
    pub name: String,
    /// The description.
    pub description: Option<Description>,
    /// The values the enumeration admits.
    pub permissible_values: OrderedMap<PermissibleValue>,
    /// The URI of the code set.
    pub code_set: Option<String>,
    /// The tag of the code set.
    pub code_set_tag: Option<String>,
    /// The version of the code set.
    pub code_set_version: Option<String>,
    /// The annotations.
    pub annotations: Option<OrderedMap<AnnotationValue>>,
}

/// What a [`EnumDefinition`] holds, as mathematical values.
pub struct EnumDefinitionView {
    pub name: Seq<char>,
    pub description: Option<DescriptionView>,
    pub permissible_values: Seq<(Seq<char>, PermissibleValueView)>,
    pub code_set: Option<Seq<char>>,
    pub code_set_tag: Option<Seq<char>>,
    pub code_set_version: Option<Seq<char>>,
    pub annotations: Option<Seq<(Seq<char>, AnnotationValueView)>>,
}

impl DeepView for EnumDefinition {
    type V = EnumDefinitionView;

    open spec fn deep_view(&self) -> EnumDefinitionView {
        EnumDefinitionView {
            name: self.name.deep_view(),
            description: self.description.deep_view(),
            permissible_values: self.permissible_values.deep_view(),
            code_set: self.code_set.deep_view(),
            code_set_tag: self.code_set_tag.deep_view(),
            code_set_version: self.code_set_version.deep_view(),
            annotations: self.annotations.deep_view(),
        }
    }
}

impl DeepValue for EnumDefinition {
    fn deep_clone(&self) -> (r: Self) {
        EnumDefinition {
            name: self.name.deep_clone(),
            description: self.description.deep_clone(),
            permissible_values: self.permissible_values.deep_clone(),
            code_set: self.code_set.deep_clone(),
            code_set_tag: self.code_set_tag.deep_clone(),
            code_set_version: self.code_set_version.deep_clone(),
            annotations: self.annotations.deep_clone(),
        }
    }

    fn deep_eq(&self, other: &Self) -> (r: bool) {
        self.name.deep_eq(&other.name)
            && self.description.deep_eq(&other.description)
            && self.permissible_values.deep_eq(&other.permissible_values)
            && self.code_set.deep_eq(&other.code_set)
            && self.code_set_tag.deep_eq(&other.code_set_tag)
            && self.code_set_version.deep_eq(&other.code_set_version)
            && self.annotations.deep_eq(&other.annotations)
    }
}

impl Promote for EnumAst {
    type Target = EnumDefinition;

    open spec fn spec_promote(v: EnumAstView) -> EnumDefinitionView {
        EnumDefinitionView {
            name: v.name,
            description: spec_promote_opt::<Description>(v.description),
            permissible_values: spec_promote_map::<PermissibleValueAst>(v.permissible_values),
            code_set: spec_promote_opt::<String>(v.code_set),
            code_set_tag: spec_promote_opt::<String>(v.code_set_tag),
            code_set_version: spec_promote_opt::<String>(v.code_set_version),
            annotations: spec_promote_opt::<AnnotationsAst>(v.annotations),
        }
    }

    fn promote(&self) -> (r: EnumDefinition) {
        EnumDefinition {
            name: self.name.deep_clone(),
            description: promote_opt(&self.description),
            permissible_values: promote_map(&self.permissible_values),
            code_set: promote_opt(&self.code_set),
            code_set_tag: promote_opt(&self.code_set_tag),
            code_set_version: promote_opt(&self.code_set_version),
            annotations: promote_opt(&self.annotations),
        }
    }
}

/// A type.
#[derive(Debug)]
pub struct TypeDefinition {
    /// The name, taken from the key in the mapping.
    pub name: String,
    /// The description.
    pub description: Option<Description>,
    /// The parent type.
    pub typeof_: Option<String>,
    /// The primitive the type is based on.
    pub base: Option<String>,
    /// The URI of the type.
    pub uri: Option<String>,
    /// The regular expression that values must match.
    pub pattern: Option<String>,
    /// The least value.
    pub minimum_value: Option<Value>,
    /// The greatest value.
    pub maximum_value: Option<Value>,
    /// The annotations.
    pub annotations: Option<OrderedMap<AnnotationValue>>,
}

/// What a [`TypeDefinition`] holds, as mathematical values.
pub struct TypeDefinitionView {
    pub name: Seq<char>,
    pub description: Option<DescriptionView>,
    pub typeof_: Option<Seq<char>>,
    pub base: Option<Seq<char>>,
    pub uri: Option<Seq<char>>,
    pub pattern: Option<Seq<char>>,
    pub minimum_value: Option<ValueView>,
    pub maximum_value: Option<ValueView>,
    pub annotations: Option<Seq<(Seq<char>, AnnotationValueView)>>,
}

impl DeepView for TypeDefinition {
    type V = TypeDefinitionView;

    open spec fn deep_view(&self) -> TypeDefinitionView {
        TypeDefinitionView {
            name: self.name.deep_view(),
            description: self.description.deep_view(),
            typeof_: self.typeof_.deep_view(),
            base: self.base.deep_view(),
            uri: self.uri.deep_view(),
            pattern: self.pattern.deep_view(),
            minimum_value: self.minimum_value.deep_view(),
            maximum_value: self.maximum_value.deep_view(),
            annotations: self.annotations.deep_view(),
        }
    }
}

impl DeepValue for TypeDefinition {
    fn deep_clone(&self) -> (r: Self) {
        TypeDefinition {
            name: self.name.deep_clone(),
            description: self.description.deep_clone(),
            typeof_: self.typeof_.deep_clone(),
            base: self.base.deep_clone(),
            uri: self.uri.deep_clone(),
            pattern: self.pattern.deep_clone(),
            minimum_value: self.minimum_value.deep_clone(),
            maximum_value: self.maximum_value.deep_clone(),
            annotations: self.annotations.deep_clone(),
        }
    }

    fn deep_eq(&self, other: &Self) -> (r: bool) {
        self.name.deep_eq(&other.name)
            && self.description.deep_eq(&other.description)
            && self.typeof_.deep_eq(&other.typeof_)
            && self.base.deep_eq(&other.base)
            && self.uri.deep_eq(&other.uri)
            && self.pattern.deep_eq(&other.pattern)
            && self.minimum_value.deep_eq(&other.minimum_value)
            && self.maximum_value.deep_eq(&other.maximum_value)
            && self.annotations.deep_eq(&other.annotations)
    }
}

impl Promote for TypeAst {
    type Target = TypeDefinition;

    open spec fn spec_promote(v: TypeAstView) -> TypeDefinitionView {
        TypeDefinitionView {
            name: v.name,
            description: spec_promote_opt::<Description>(v.description),
            typeof_: spec_promote_opt::<String>(v.typeof_),
            base: spec_promote_opt::<String>(v.base),
            uri: spec_promote_opt::<String>(v.uri),
            pattern: spec_promote_opt::<String>(v.pattern),
            minimum_value: spec_promote_opt::<ValueAst>(v.minimum_value),
            maximum_value: spec_promote_opt::<ValueAst>(v.maximum_value),
            annotations: spec_promote_opt::<AnnotationsAst>(v.annotations),
        }
    }

    fn promote(&self) -> (r: TypeDefinition) {
        TypeDefinition {
            name: self.name.deep_clone(),
            description: promote_opt(&self.description),
            typeof_: promote_opt(&self.typeof_),
            base: promote_opt(&self.base),
            uri: promote_opt(&self.uri),
            pattern: promote_opt(&self.pattern),
            minimum_value: promote_opt(&self.minimum_value),
            maximum_value: promote_opt(&self.maximum_value),
            annotations: promote_opt(&self.annotations),
        }
    }
}

/// A slot: a property of a class.
#[derive(Debug)]
pub struct SlotDefinition {
    /// The name, taken from the key in the mapping.
    pub name: String,
    /// The description.
    pub description: Option<Description>,
    /// The range: what values the slot admits.
    pub range: Option<String>,
    /// Whether the range names a class or a set of instances.
    pub range_type: Option<RangeType>,
    /// For an instance-bound slot, the fields whose values are the legal ones.
    pub range_properties: Vec<String>,
    /// Whether a value must be given.
    pub required: Option<bool>,
    /// Whether several values may be given.
    pub multivalued: Option<bool>,
    /// Whether the value identifies the instance.
    pub identifier: Option<bool>,
    /// The regular expression that values must match.
    pub pattern: Option<String>,
    /// The pattern built from named pattern settings.
    pub structured_pattern: Option<StructuredPattern>,
    /// The least value.
    pub minimum_value: Option<Value>,
    /// The greatest value.
    pub maximum_value: Option<Value>,
    /// The least number of values.
    pub minimum_cardinality: Option<i64>,
    /// The greatest number of values.
    pub maximum_cardinality: Option<i64>,
    /// The parent slot.
    pub is_a: Option<String>,
    /// The mixins.
    pub mixins: Vec<String>,
    /// The URI of the slot.
    pub slot_uri: Option<String>,
    /// The class the slot belongs to.
    pub domain: Option<String>,
    /// The inverse slot.
    pub inverse: Option<String>,
    /// Whether the relation is symmetric.
    pub symmetric: Option<bool>,
    /// Whether the relation is asymmetric.
    pub asymmetric: Option<bool>,
    /// Whether the relation is reflexive.
    pub reflexive: Option<bool>,
    /// Whether the relation is irreflexive.
    pub irreflexive: Option<bool>,
    /// Whether the relation is locally reflexive.
    pub locally_reflexive: Option<bool>,
    /// Whether the relation is transitive.
    pub transitive: Option<bool>,
    /// The value to take when none is given.
    pub ifabsent: Option<String>,
    /// The string the value must equal.
    pub equals_string: Option<String>,
    /// The number the value must equal, as it was written.
    pub equals_number: Option<String>,
    /// Other names.
    pub aliases: Vec<String>,
    /// Cross-references.
    pub see_also: Vec<String>,
    /// Imports that hold only for resolving the range of this slot.
    pub imports: Vec<String>,
    /// The annotations.
    pub annotations: Option<OrderedMap<AnnotationValue>>,
}

/// What a [`SlotDefinition`] holds, as mathematical values.
pub struct SlotDefinitionView {
    pub name: Seq<char>,
    pub description: Option<DescriptionView>,
    pub range: Option<Seq<char>>,
    pub range_type: Option<RangeType>,
    pub range_properties: Seq<Seq<char>>,
    pub required: Option<bool>,
    pub multivalued: Option<bool>,
    pub identifier: Option<bool>,
    pub pattern: Option<Seq<char>>,
    pub structured_pattern: Option<StructuredPatternView>,
    pub minimum_value: Option<ValueView>,
    pub maximum_value: Option<ValueView>,
    pub minimum_cardinality: Option<i64>,
    pub maximum_cardinality: Option<i64>,
    pub is_a: Option<Seq<char>>,
    pub mixins: Seq<Seq<char>>,
    pub slot_uri: Option<Seq<char>>,
    pub domain: Option<Seq<char>>,
    pub inverse: Option<Seq<char>>,
    pub symmetric: Option<bool>,
    pub asymmetric: Option<bool>,
    pub reflexive: Option<bool>,
    pub irreflexive: Option<bool>,
    pub locally_reflexive: Option<bool>,
    pub transitive: Option<bool>,
    pub ifabsent: Option<Seq<char>>,
    pub equals_string: Option<Seq<char>>,
    pub equals_number: Option<Seq<char>>,
    pub aliases: Seq<Seq<char>>,
    pub see_also: Seq<Seq<char>>,
    pub imports: Seq<Seq<char>>,
    pub annotations: Option<Seq<(Seq<char>, AnnotationValueView)>>,
}

impl DeepView for SlotDefinition {
    type V = SlotDefinitionView;

    open spec fn deep_view(&self) -> SlotDefinitionView {
        SlotDefinitionView {
            name: self.name.deep_view(),
            description: self.description.deep_view(),
            range: self.range.deep_view(),
            range_type: self.range_type.deep_view(),
            range_properties: self.range_properties.deep_view(),
            required: self.required.deep_view(),
            multivalued: self.multivalued.deep_view(),
            identifier: self.identifier.deep_view(),
            pattern: self.pattern.deep_view(),
            structured_pattern: self.structured_pattern.deep_view(),
            minimum_value: self.minimum_value.deep_view(),
            maximum_value: self.maximum_value.deep_view(),
            minimum_cardinality: self.minimum_cardinality.deep_view(),
            maximum_cardinality: self.maximum_cardinality.deep_view(),
            is_a: self.is_a.deep_view(),
            mixins: self.mixins.deep_view(),
            slot_uri: self.slot_uri.deep_view(),
            domain: self.domain.deep_view(),
            inverse: self.inverse.deep_view(),
            symmetric: self.symmetric.deep_view(),
            asymmetric: self.asymmetric.deep_view(),
            reflexive: self.reflexive.deep_view(),
            irreflexive: self.irreflexive.deep_view(),
            locally_reflexive: self.locally_reflexive.deep_view(),
            transitive: self.transitive.deep_view(),
            ifabsent: self.ifabsent.deep_view(),
            equals_string: self.equals_string.deep_view(),
            equals_number: self.equals_number.deep_view(),
            aliases: self.aliases.deep_view(),
            see_also: self.see_also.deep_view(),
            imports: self.imports.deep_view(),
            annotations: self.annotations.deep_view(),
        }
    }
}

impl DeepValue for SlotDefinition {
    fn deep_clone(&self) -> (r: Self) {
        SlotDefinition {
            name: self.name.deep_clone(),
            description: self.description.deep_clone(),
            range: self.range.deep_clone(),
            range_type: self.range_type.deep_clone(),
            range_properties: self.range_properties.deep_clone(),
            required: self.required.deep_clone(),
            multivalued: self.multivalued.deep_clone(),
            identifier: self.identifier.deep_clone(),
            pattern: self.pattern.deep_clone(),
            structured_pattern: self.structured_pattern.deep_clone(),
            minimum_value: self.minimum_value.deep_clone(),
            maximum_value: self.maximum_value.deep_clone(),
            minimum_cardinality: self.minimum_cardinality.deep_clone(),
            maximum_cardinality: self.maximum_cardinality.deep_clone(),
            is_a: self.is_a.deep_clone(),
            mixins: self.mixins.deep_clone(),
            slot_uri: self.slot_uri.deep_clone(),
            domain: self.domain.deep_clone(),
            inverse: self.inverse.deep_clone(),
            symmetric: self.symmetric.deep_clone(),
            asymmetric: self.asymmetric.deep_clone(),
            reflexive: self.reflexive.deep_clone(),
            irreflexive: self.irreflexive.deep_clone(),
            locally_reflexive: self.locally_reflexive.deep_clone(),
            transitive: self.transitive.deep_clone(),
            ifabsent: self.ifabsent.deep_clone(),
            equals_string: self.equals_string.deep_clone(),
            equals_number: self.equals_number.deep_clone(),
            aliases: self.aliases.deep_clone(),
            see_also: self.see_also.deep_clone(),
            imports: self.imports.deep_clone(),
            annotations: self.annotations.deep_clone(),
        }
    }

    fn deep_eq(&self, other: &Self) -> (r: bool) {
        self.name.deep_eq(&other.name)
            && self.description.deep_eq(&other.description)
            && self.range.deep_eq(&other.range)
            && self.range_type.deep_eq(&other.range_type)
            && self.range_properties.deep_eq(&other.range_properties)
            && self.required.deep_eq(&other.required)
            && self.multivalued.deep_eq(&other.multivalued)
            && self.identifier.deep_eq(&other.identifier)
            && self.pattern.deep_eq(&other.pattern)
            && self.structured_pattern.deep_eq(&other.structured_pattern)
            && self.minimum_value.deep_eq(&other.minimum_value)
            && self.maximum_value.deep_eq(&other.maximum_value)
            && self.minimum_cardinality.deep_eq(&other.minimum_cardinality)
            && self.maximum_cardinality.deep_eq(&other.maximum_cardinality)
            && self.is_a.deep_eq(&other.is_a)
            && self.mixins.deep_eq(&other.mixins)
            && self.slot_uri.deep_eq(&other.slot_uri)
            && self.domain.deep_eq(&other.domain)
            && self.inverse.deep_eq(&other.inverse)
            && self.symmetric.deep_eq(&other.symmetric)
            && self.asymmetric.deep_eq(&other.asymmetric)
            && self.reflexive.deep_eq(&other.reflexive)
            && self.irreflexive.deep_eq(&other.irreflexive)
            && self.locally_reflexive.deep_eq(&other.locally_reflexive)
            && self.transitive.deep_eq(&other.transitive)
            && self.ifabsent.deep_eq(&other.ifabsent)
            && self.equals_string.deep_eq(&other.equals_string)
            && self.equals_number.deep_eq(&other.equals_number)
            && self.aliases.deep_eq(&other.aliases)
            && self.see_also.deep_eq(&other.see_also)
            && self.imports.deep_eq(&other.imports)
            && self.annotations.deep_eq(&other.annotations)
    }
}

impl SlotDefinitionView {
    /// The value that holds `name` and nothing else.
    pub open spec fn named(name: Seq<char>) -> SlotDefinitionView {
        SlotDefinitionView {
            name,
            description: None,
            range: None,
            range_type: None,
            range_properties: Seq::<Seq<char>>::empty(),
            required: None,
            multivalued: None,
            identifier: None,
            pattern: None,
            structured_pattern: None,
            minimum_value: None,
            maximum_value: None,
            minimum_cardinality: None,
            maximum_cardinality: None,
            is_a: None,
            mixins: Seq::<Seq<char>>::empty(),
            slot_uri: None,
            domain: None,
            inverse: None,
            symmetric: None,
            asymmetric: None,
            reflexive: None,
            irreflexive: None,
            locally_reflexive: None,
            transitive: None,
            ifabsent: None,
            equals_string: None,
            equals_number: None,
            aliases: Seq::<Seq<char>>::empty(),
            see_also: Seq::<Seq<char>>::empty(),
            imports: Seq::<Seq<char>>::empty(),
            annotations: None,
        }
    }
}

impl SlotDefinition {
    /// A value that holds `name` and nothing else.
    pub fn named(name: String) -> (r: Self)
        ensures
            r.deep_view() == SlotDefinitionView::named(name@),
    {
        let r = SlotDefinition {
            name,
            description: None,
            range: None,
            range_type: None,
            range_properties: Vec::new(),
            required: None,
            multivalued: None,
            identifier: None,
            pattern: None,
            structured_pattern: None,
            minimum_value: None,
            maximum_value: None,
            minimum_cardinality: None,
            maximum_cardinality: None,
            is_a: None,
            mixins: Vec::new(),
            slot_uri: None,
            domain: None,
            inverse: None,
            symmetric: None,
            asymmetric: None,
            reflexive: None,
            irreflexive: None,
            locally_reflexive: None,
            transitive: None,
            ifabsent: None,
            equals_string: None,
            equals_number: None,
            aliases: Vec::new(),
            see_also: Vec::new(),
            imports: Vec::new(),
            annotations: None,
        };
        proof {
            assert(r.range_properties.deep_view() =~= Seq::empty());
            assert(r.mixins.deep_view() =~= Seq::empty());
            assert(r.aliases.deep_view() =~= Seq::empty());
            assert(r.see_also.deep_view() =~= Seq::empty());
            assert(r.imports.deep_view() =~= Seq::empty());
        }
        r
    }
}

impl Promote for SlotAst {
    type Target = SlotDefinition;

    open spec fn spec_promote(v: SlotAstView) -> SlotDefinitionView {
        SlotDefinitionView {
            name: v.name,
            description: spec_promote_opt::<Description>(v.description),
            range: spec_promote_opt::<String>(v.range),
            range_type: spec_promote_opt::<RangeType>(v.range_type),
            range_properties: spec_promote_list::<String>(v.range_properties),
            required: spec_promote_opt::<bool>(v.required),
            multivalued: spec_promote_opt::<bool>(v.multivalued),
            identifier: spec_promote_opt::<bool>(v.identifier),
            pattern: spec_promote_opt::<String>(v.pattern),
            structured_pattern: spec_promote_opt::<StructuredPatternAst>(v.structured_pattern),
            minimum_value: spec_promote_opt::<ValueAst>(v.minimum_value),
            maximum_value: spec_promote_opt::<ValueAst>(v.maximum_value),
            minimum_cardinality: spec_promote_opt::<i64>(v.minimum_cardinality),
            maximum_cardinality: spec_promote_opt::<i64>(v.maximum_cardinality),
            is_a: spec_promote_opt::<String>(v.is_a),
            mixins: spec_promote_list::<String>(v.mixins),
            slot_uri: spec_promote_opt::<String>(v.slot_uri),
            domain: spec_promote_opt::<String>(v.domain),
            inverse: spec_promote_opt::<String>(v.inverse),
            symmetric: spec_promote_opt::<bool>(v.symmetric),
            asymmetric: spec_promote_opt::<bool>(v.asymmetric),
            reflexive: spec_promote_opt::<bool>(v.reflexive),
            irreflexive: spec_promote_opt::<bool>(v.irreflexive),
            locally_reflexive: spec_promote_opt::<bool>(v.locally_reflexive),
            transitive: spec_promote_opt::<bool>(v.transitive),
            ifabsent: spec_promote_opt::<String>(v.ifabsent),
            equals_string: spec_promote_opt::<String>(v.equals_string),
            equals_number: spec_promote_opt::<String>(v.equals_number),
            aliases: spec_promote_list::<String>(v.aliases),
            see_also: spec_promote_list::<String>(v.see_also),
            imports: spec_promote_list::<String>(v.imports),
            annotations: spec_promote_opt::<AnnotationsAst>(v.annotations),
        }
    }

    fn promote(&self) -> (r: SlotDefinition) {
        SlotDefinition {
            name: self.name.deep_clone(),
            description: promote_opt(&self.description),
            range: promote_opt(&self.range),
            range_type: promote_opt(&self.range_type),
            range_properties: promote_list(&self.range_properties),
            required: promote_opt(&self.required),
            multivalued: promote_opt(&self.multivalued),
            identifier: promote_opt(&self.identifier),
            pattern: promote_opt(&self.pattern),
            structured_pattern: promote_opt(&self.structured_pattern),
            minimum_value: promote_opt(&self.minimum_value),
            maximum_value: promote_opt(&self.maximum_value),
            minimum_cardinality: promote_opt(&self.minimum_cardinality),
            maximum_cardinality: promote_opt(&self.maximum_cardinality),
            is_a: promote_opt(&self.is_a),
            mixins: promote_list(&self.mixins),
            slot_uri: promote_opt(&self.slot_uri),
            domain: promote_opt(&self.domain),
            inverse: promote_opt(&self.inverse),
            symmetric: promote_opt(&self.symmetric),
            asymmetric: promote_opt(&self.asymmetric),
            reflexive: promote_opt(&self.reflexive),
            irreflexive: promote_opt(&self.irreflexive),
            locally_reflexive: promote_opt(&self.locally_reflexive),
            transitive: promote_opt(&self.transitive),
            ifabsent: promote_opt(&self.ifabsent),
            equals_string: promote_opt(&self.equals_string),
            equals_number: promote_opt(&self.equals_number),
            aliases: promote_list(&self.aliases),
            see_also: promote_list(&self.see_also),
            imports: promote_list(&self.imports),
            annotations: promote_opt(&self.annotations),
        }
    }
}

/// A class.
#[derive(Debug)]
pub struct ClassDefinition {
    /// The name, taken from the key in the mapping.
    pub name: String,
    /// The description.
    pub description: Option<Description>,
    /// The parent class.
    pub is_a: Option<String>,
    /// Whether the class is abstract.
    pub abstract_: Option<bool>,
    /// Whether the class is a mixin.
    pub mixin: Option<bool>,
    /// Whether the class is the root of the tree.
    pub tree_root: Option<bool>,
    /// The URI of the class.
    pub class_uri: Option<String>,
    /// The mixins.
    pub mixins: Vec<String>,
    /// The names of the slots.
    pub slots: Vec<String>,
    /// What the class overrides in its slots.
    pub slot_usage: OrderedMap<SlotDefinition>,
    /// Slots defined in place.
    pub attributes: OrderedMap<SlotDefinition>,
    /// The classes this one is a subclass of.
    pub subclass_of: Vec<String>,
    /// The rules.
    pub rules: Vec<Rule>,
    /// The conditional requirements.
    pub if_required: OrderedMap<ConditionalRequirement>,
    /// The unique keys.
    pub unique_keys: OrderedMap<UniqueKey>,
    /// How recursion is represented.
    pub recursion_options: Option<RecursionOptions>,
    /// Other names.
    pub aliases: Vec<String>,
    /// Cross-references.
    pub see_also: Vec<String>,
    /// The prefixes that identifiers may have.
    pub id_prefixes: Vec<String>,
    /// Broad mappings.
    pub broad_mappings: Vec<String>,
    /// Exact mappings.
    pub exact_mappings: Vec<String>,
    /// Narrow mappings.
    pub narrow_mappings: Vec<String>,
    /// Related mappings.
    pub related_mappings: Vec<String>,
    /// Close mappings.
    pub close_mappings: Vec<String>,
    /// The annotations.
    pub annotations: Option<OrderedMap<AnnotationValue>>,
}

/// What a [`ClassDefinition`] holds, as mathematical values.
pub struct ClassDefinitionView {
    pub name: Seq<char>,
    pub description: Option<DescriptionView>,
    pub is_a: Option<Seq<char>>,
    pub abstract_: Option<bool>,
    pub mixin: Option<bool>,
    pub tree_root: Option<bool>,
    pub class_uri: Option<Seq<char>>,
    pub mixins: Seq<Seq<char>>,
    pub slots: Seq<Seq<char>>,
    pub slot_usage: Seq<(Seq<char>, SlotDefinitionView)>,
    pub attributes: Seq<(Seq<char>, SlotDefinitionView)>,
    pub subclass_of: Seq<Seq<char>>,
    pub rules: Seq<RuleView>,
    pub if_required: Seq<(Seq<char>, ConditionalRequirementView)>,
    pub unique_keys: Seq<(Seq<char>, UniqueKeyView)>,
    pub recursion_options: Option<RecursionOptionsView>,
    pub aliases: Seq<Seq<char>>,
    pub see_also: Seq<Seq<char>>,
    pub id_prefixes: Seq<Seq<char>>,
    pub broad_mappings: Seq<Seq<char>>,
    pub exact_mappings: Seq<Seq<char>>,
    pub narrow_mappings: Seq<Seq<char>>,
    pub related_mappings: Seq<Seq<char>>,
    pub close_mappings: Seq<Seq<char>>,
    pub annotations: Option<Seq<(Seq<char>, AnnotationValueView)>>,
}

impl DeepView for ClassDefinition {
    type V = ClassDefinitionView;

    open spec fn deep_view(&self) -> ClassDefinitionView {
        ClassDefinitionView {
            name: self.name.deep_view(),
            description: self.description.deep_view(),
            is_a: self.is_a.deep_view(),
            abstract_: self.abstract_.deep_view(),
            mixin: self.mixin.deep_view(),
            tree_root: self.tree_root.deep_view(),
            class_uri: self.class_uri.deep_view(),
            mixins: self.mixins.deep_view(),
            slots: self.slots.deep_view(),
            slot_usage: self.slot_usage.deep_view(),
            attributes: self.attributes.deep_view(),
            subclass_of: self.subclass_of.deep_view(),
            rules: self.rules.deep_view(),
            if_required: self.if_required.deep_view(),
            unique_keys: self.unique_keys.deep_view(),
            recursion_options: self.recursion_options.deep_view(),
            aliases: self.aliases.deep_view(),
            see_also: self.see_also.deep_view(),
            id_prefixes: self.id_prefixes.deep_view(),
            broad_mappings: self.broad_mappings.deep_view(),
            exact_mappings: self.exact_mappings.deep_view(),
            narrow_mappings: self.narrow_mappings.deep_view(),
            related_mappings: self.related_mappings.deep_view(),
            close_mappings: self.close_mappings.deep_view(),
            annotations: self.annotations.deep_view(),
        }
    }
}

impl DeepValue for ClassDefinition {
    fn deep_clone(&self) -> (r: Self) {
        ClassDefinition {
            name: self.name.deep_clone(),
            description: self.description.deep_clone(),
            is_a: self.is_a.deep_clone(),
            abstract_: self.abstract_.deep_clone(),
            mixin: self.mixin.deep_clone(),
            tree_root: self.tree_root.deep_clone(),
            class_uri: self.class_uri.deep_clone(),
            mixins: self.mixins.deep_clone(),
            slots: self.slots.deep_clone(),
            slot_usage: self.slot_usage.deep_clone(),
            attributes: self.attributes.deep_clone(),
            subclass_of: self.subclass_of.deep_clone(),
            rules: self.rules.deep_clone(),
            if_required: self.if_required.deep_clone(),
            unique_keys: self.unique_keys.deep_clone(),
            recursion_options: self.recursion_options.deep_clone(),
            aliases: self.aliases.deep_clone(),
            see_also: self.see_also.deep_clone(),
            id_prefixes: self.id_prefixes.deep_clone(),
            broad_mappings: self.broad_mappings.deep_clone(),
            exact_mappings: self.exact_mappings.deep_clone(),
            narrow_mappings: self.narrow_mappings.deep_clone(),
            related_mappings: self.related_mappings.deep_clone(),
            close_mappings: self.close_mappings.deep_clone(),
            annotations: self.annotations.deep_clone(),
        }
    }

    fn deep_eq(&self, other: &Self) -> (r: bool) {
        self.name.deep_eq(&other.name)
            && self.description.deep_eq(&other.description)
            && self.is_a.deep_eq(&other.is_a)
            && self.abstract_.deep_eq(&other.abstract_)
            && self.mixin.deep_eq(&other.mixin)
            && self.tree_root.deep_eq(&other.tree_root)
            && self.class_uri.deep_eq(&other.class_uri)
            && self.mixins.deep_eq(&other.mixins)
            && self.slots.deep_eq(&other.slots)
            && self.slot_usage.deep_eq(&other.slot_usage)
            && self.attributes.deep_eq(&other.attributes)
            && self.subclass_of.deep_eq(&other.subclass_of)
            && self.rules.deep_eq(&other.rules)
            && self.if_required.deep_eq(&other.if_required)
            && self.unique_keys.deep_eq(&other.unique_keys)
            && self.recursion_options.deep_eq(&other.recursion_options)
            && self.aliases.deep_eq(&other.aliases)
            && self.see_also.deep_eq(&other.see_also)
            && self.id_prefixes.deep_eq(&other.id_prefixes)
            && self.broad_mappings.deep_eq(&other.broad_mappings)
            && self.exact_mappings.deep_eq(&other.exact_mappings)
            && self.narrow_mappings.deep_eq(&other.narrow_mappings)
            && self.related_mappings.deep_eq(&other.related_mappings)
            && self.close_mappings.deep_eq(&other.close_mappings)
            && self.annotations.deep_eq(&other.annotations)
    }
}

impl ClassDefinitionView {
    /// The value that holds `name` and nothing else.
    pub open spec fn named(name: Seq<char>) -> ClassDefinitionView {
        ClassDefinitionView {
            name,
            description: None,
            is_a: None,
            abstract_: None,
            mixin: None,
            tree_root: None,
            class_uri: None,
            mixins: Seq::<Seq<char>>::empty(),
            slots: Seq::<Seq<char>>::empty(),
            slot_usage: Seq::<(Seq<char>, SlotDefinitionView)>::empty(),
            attributes: Seq::<(Seq<char>, SlotDefinitionView)>::empty(),
            subclass_of: Seq::<Seq<char>>::empty(),
            rules: Seq::<RuleView>::empty(),
            if_required: Seq::<(Seq<char>, ConditionalRequirementView)>::empty(),
            unique_keys: Seq::<(Seq<char>, UniqueKeyView)>::empty(),
            recursion_options: None,
            aliases: Seq::<Seq<char>>::empty(),
            see_also: Seq::<Seq<char>>::empty(),
            id_prefixes: Seq::<Seq<char>>::empty(),
            broad_mappings: Seq::<Seq<char>>::empty(),
            exact_mappings: Seq::<Seq<char>>::empty(),
            narrow_mappings: Seq::<Seq<char>>::empty(),
            related_mappings: Seq::<Seq<char>>::empty(),
            close_mappings: Seq::<Seq<char>>::empty(),
            annotations: None,
        }
    }
}

impl ClassDefinition {
    /// A value that holds `name` and nothing else.
    pub fn named(name: String) -> (r: Self)
        ensures
            r.deep_view() == ClassDefinitionView::named(name@),
    {
        let r = ClassDefinition {
            name,
            description: None,
            is_a: None,
            abstract_: None,
            mixin: None,
            tree_root: None,
            class_uri: None,
            mixins: Vec::new(),
            slots: Vec::new(),
            slot_usage: OrderedMap::new(),
            attributes: OrderedMap::new(),
            subclass_of: Vec::new(),
            rules: Vec::new(),
            if_required: OrderedMap::new(),
            unique_keys: OrderedMap::new(),
            recursion_options: None,
            aliases: Vec::new(),
            see_also: Vec::new(),
            id_prefixes: Vec::new(),
            broad_mappings: Vec::new(),
            exact_mappings: Vec::new(),
            narrow_mappings: Vec::new(),
            related_mappings: Vec::new(),
            close_mappings: Vec::new(),
            annotations: None,
        };
        proof {
            assert(r.mixins.deep_view() =~= Seq::empty());
            assert(r.slots.deep_view() =~= Seq::empty());
            assert(r.slot_usage.deep_view() =~= Seq::empty());
            assert(r.attributes.deep_view() =~= Seq::empty());
            assert(r.subclass_of.deep_view() =~= Seq::empty());
            assert(r.rules.deep_view() =~= Seq::empty());
            assert(r.if_required.deep_view() =~= Seq::empty());
            assert(r.unique_keys.deep_view() =~= Seq::empty());
            assert(r.aliases.deep_view() =~= Seq::empty());
            assert(r.see_also.deep_view() =~= Seq::empty());
            assert(r.id_prefixes.deep_view() =~= Seq::empty());
            assert(r.broad_mappings.deep_view() =~= Seq::empty());
            assert(r.exact_mappings.deep_view() =~= Seq::empty());
            assert(r.narrow_mappings.deep_view() =~= Seq::empty());
            assert(r.related_mappings.deep_view() =~= Seq::empty());
            assert(r.close_mappings.deep_view() =~= Seq::empty());
        }
        r
    }
}

impl Promote for ClassAst {
    type Target = ClassDefinition;

    open spec fn spec_promote(v: ClassAstView) -> ClassDefinitionView {
        ClassDefinitionView {
            name: v.name,
            description: spec_promote_opt::<Description>(v.description),
            is_a: spec_promote_opt::<String>(v.is_a),
            abstract_: spec_promote_opt::<bool>(v.abstract_),
            mixin: spec_promote_opt::<bool>(v.mixin),
            tree_root: spec_promote_opt::<bool>(v.tree_root),
            class_uri: spec_promote_opt::<String>(v.class_uri),
            mixins: spec_promote_list::<String>(v.mixins),
            slots: spec_promote_list::<String>(v.slots),
            slot_usage: spec_promote_map::<SlotAst>(v.slot_usage),
            attributes: spec_promote_map::<SlotAst>(v.attributes),
            subclass_of: spec_promote_list::<String>(v.subclass_of),
            rules: spec_promote_list::<RuleAst>(v.rules),
            if_required: spec_promote_map::<ConditionalRequirementAst>(v.if_required),
            unique_keys: spec_promote_map::<UniqueKeyAst>(v.unique_keys),
            recursion_options: spec_promote_opt::<RecursionOptionsAst>(v.recursion_options),
            aliases: spec_promote_list::<String>(v.aliases),
            see_also: spec_promote_list::<String>(v.see_also),
            id_prefixes: spec_promote_list::<String>(v.id_prefixes),
            broad_mappings: spec_promote_list::<String>(v.broad_mappings),
            exact_mappings: spec_promote_list::<String>(v.exact_mappings),
            narrow_mappings: spec_promote_list::<String>(v.narrow_mappings),
            related_mappings: spec_promote_list::<String>(v.related_mappings),
            close_mappings: spec_promote_list::<String>(v.close_mappings),
            annotations: spec_promote_opt::<AnnotationsAst>(v.annotations),
        }
    }

    fn promote(&self) -> (r: ClassDefinition) {
        ClassDefinition {
            name: self.name.deep_clone(),
            description: promote_opt(&self.description),
            is_a: promote_opt(&self.is_a),
            abstract_: promote_opt(&self.abstract_),
            mixin: promote_opt(&self.mixin),
            tree_root: promote_opt(&self.tree_root),
            class_uri: promote_opt(&self.class_uri),
            mixins: promote_list(&self.mixins),
            slots: promote_list(&self.slots),
            slot_usage: promote_map(&self.slot_usage),
            attributes: promote_map(&self.attributes),
            subclass_of: promote_list(&self.subclass_of),
            rules: promote_list(&self.rules),
            if_required: promote_map(&self.if_required),
            unique_keys: promote_map(&self.unique_keys),
            recursion_options: promote_opt(&self.recursion_options),
            aliases: promote_list(&self.aliases),
            see_also: promote_list(&self.see_also),
            id_prefixes: promote_list(&self.id_prefixes),
            broad_mappings: promote_list(&self.broad_mappings),
            exact_mappings: promote_list(&self.exact_mappings),
            narrow_mappings: promote_list(&self.narrow_mappings),
            related_mappings: promote_list(&self.related_mappings),
            close_mappings: promote_list(&self.close_mappings),
            annotations: promote_opt(&self.annotations),
        }
    }
}

/// A canonical schema: what a document declares, without source positions.
#[derive(Debug)]
pub struct SchemaDefinition {
    /// The identifier of the schema.
    pub id: String,
    /// The name of the schema.
    pub name: String,
    /// The title.
    pub title: Option<String>,
    /// The description.
    pub description: Option<Description>,
    /// The version.
    pub version: Option<String>,
    /// The licence.
    pub license: Option<String>,
    /// When the schema was created.
    pub created_on: Option<String>,
    /// When the schema was last changed.
    pub last_updated_on: Option<String>,
    /// The prefix of names that have none.
    pub default_prefix: Option<String>,
    /// The range of slots that have none.
    pub default_range: Option<String>,
    /// The version of the metamodel.
    pub metamodel_version: Option<String>,
    /// The file the schema was read from.
    pub source_file: Option<String>,
    /// When the schema was generated.
    pub generation_date: Option<String>,
    /// The status.
    pub status: Option<String>,
    /// The prefixes.
    pub prefixes: OrderedMap<PrefixDefinition>,
    /// The imports, in order.
    pub imports: Vec<String>,
    /// The settings: named patterns.
    pub settings: OrderedMap<String>,
    /// The classes.
    pub classes: OrderedMap<ClassDefinition>,
    /// The slots.
    pub slots: OrderedMap<SlotDefinition>,
    /// The types.
    pub types: OrderedMap<TypeDefinition>,
    /// The enumerations.
    pub enums: OrderedMap<EnumDefinition>,
    /// The subsets.
    pub subsets: OrderedMap<SubsetDefinition>,
    /// The contributors.
    pub contributors: Vec<Contributor>,
    /// The categories.
    pub categories: Vec<String>,
    /// The keywords.
    pub keywords: Vec<String>,
    /// Cross-references.
    pub see_also: Vec<String>,
    /// The annotations.
    pub annotations: Option<OrderedMap<AnnotationValue>>,
}

/// What a [`SchemaDefinition`] holds, as mathematical values.
pub struct SchemaDefinitionView {
    pub id: Seq<char>,
    pub name: Seq<char>,
    pub title: Option<Seq<char>>,
    pub description: Option<DescriptionView>,
    pub version: Option<Seq<char>>,
    pub license: Option<Seq<char>>,
    pub created_on: Option<Seq<char>>,
    pub last_updated_on: Option<Seq<char>>,
    pub default_prefix: Option<Seq<char>>,
    pub default_range: Option<Seq<char>>,
    pub metamodel_version: Option<Seq<char>>,
    pub source_file: Option<Seq<char>>,
    pub generation_date: Option<Seq<char>>,
    pub status: Option<Seq<char>>,
    pub prefixes: Seq<(Seq<char>, PrefixDefinitionView)>,
    pub imports: Seq<Seq<char>>,
    pub settings: Seq<(Seq<char>, Seq<char>)>,
    pub classes: Seq<(Seq<char>, ClassDefinitionView)>,
    pub slots: Seq<(Seq<char>, SlotDefinitionView)>,
    pub types: Seq<(Seq<char>, TypeDefinitionView)>,
    pub enums: Seq<(Seq<char>, EnumDefinitionView)>,
    pub subsets: Seq<(Seq<char>, SubsetDefinitionView)>,
    pub contributors: Seq<ContributorView>,
    pub categories: Seq<Seq<char>>,
    pub keywords: Seq<Seq<char>>,
    pub see_also: Seq<Seq<char>>,
    pub annotations: Option<Seq<(Seq<char>, AnnotationValueView)>>,
}

impl DeepView for SchemaDefinition {
    type V = SchemaDefinitionView;

    open spec fn deep_view(&self) -> SchemaDefinitionView {
        SchemaDefinitionView {
            id: self.id.deep_view(),
            name: self.name.deep_view(),
            title: self.title.deep_view(),
            description: self.description.deep_view(),
            version: self.version.deep_view(),
            license: self.license.deep_view(),
            created_on: self.created_on.deep_view(),
            last_updated_on: self.last_updated_on.deep_view(),
            default_prefix: self.default_prefix.deep_view(),
            default_range: self.default_range.deep_view(),
            metamodel_version: self.metamodel_version.deep_view(),
            source_file: self.source_file.deep_view(),
            generation_date: self.generation_date.deep_view(),
            status: self.status.deep_view(),
            prefixes: self.prefixes.deep_view(),
            imports: self.imports.deep_view(),
            settings: self.settings.deep_view(),
            classes: self.classes.deep_view(),
            slots: self.slots.deep_view(),
            types: self.types.deep_view(),
            enums: self.enums.deep_view(),
            subsets: self.subsets.deep_view(),
            contributors: self.contributors.deep_view(),
            categories: self.categories.deep_view(),
            keywords: self.keywords.deep_view(),
            see_also: self.see_also.deep_view(),
            annotations: self.annotations.deep_view(),
        }
    }
}

impl DeepValue for SchemaDefinition {
    fn deep_clone(&self) -> (r: Self) {
        SchemaDefinition {
            id: self.id.deep_clone(),
            name: self.name.deep_clone(),
            title: self.title.deep_clone(),
            description: self.description.deep_clone(),
            version: self.version.deep_clone(),
            license: self.license.deep_clone(),
            created_on: self.created_on.deep_clone(),
            last_updated_on: self.last_updated_on.deep_clone(),
            default_prefix: self.default_prefix.deep_clone(),
            default_range: self.default_range.deep_clone(),
            metamodel_version: self.metamodel_version.deep_clone(),
            source_file: self.source_file.deep_clone(),
            generation_date: self.generation_date.deep_clone(),
            status: self.status.deep_clone(),
            prefixes: self.prefixes.deep_clone(),
            imports: self.imports.deep_clone(),
            settings: self.settings.deep_clone(),
            classes: self.classes.deep_clone(),
            slots: self.slots.deep_clone(),
            types: self.types.deep_clone(),
            enums: self.enums.deep_clone(),
            subsets: self.subsets.deep_clone(),
            contributors: self.contributors.deep_clone(),
            categories: self.categories.deep_clone(),
            keywords: self.keywords.deep_clone(),
            see_also: self.see_also.deep_clone(),
            annotations: self.annotations.deep_clone(),
        }
    }

    fn deep_eq(&self, other: &Self) -> (r: bool) {
        self.id.deep_eq(&other.id)
            && self.name.deep_eq(&other.name)
            && self.title.deep_eq(&other.title)
            && self.description.deep_eq(&other.description)
            && self.version.deep_eq(&other.version)
            && self.license.deep_eq(&other.license)
            && self.created_on.deep_eq(&other.created_on)
            && self.last_updated_on.deep_eq(&other.last_updated_on)
            && self.default_prefix.deep_eq(&other.default_prefix)
            && self.default_range.deep_eq(&other.default_range)
            && self.metamodel_version.deep_eq(&other.metamodel_version)
            && self.source_file.deep_eq(&other.source_file)
            && self.generation_date.deep_eq(&other.generation_date)
            && self.status.deep_eq(&other.status)
            && self.prefixes.deep_eq(&other.prefixes)
            && self.imports.deep_eq(&other.imports)
            && self.settings.deep_eq(&other.settings)
            && self.classes.deep_eq(&other.classes)
            && self.slots.deep_eq(&other.slots)
            && self.types.deep_eq(&other.types)
            && self.enums.deep_eq(&other.enums)
            && self.subsets.deep_eq(&other.subsets)
            && self.contributors.deep_eq(&other.contributors)
            && self.categories.deep_eq(&other.categories)
            && self.keywords.deep_eq(&other.keywords)
            && self.see_also.deep_eq(&other.see_also)
            && self.annotations.deep_eq(&other.annotations)
    }
}

/// The canonical schema that a syntax tree with `id` and `name` is promoted to.
pub open spec fn spec_promote_schema(v: SchemaAstView) -> SchemaDefinitionView {
    SchemaDefinitionView {
        id: v.id->0.value,
        name: v.name->0.value,
        title: spec_promote_opt::<String>(v.title),
        description: spec_promote_opt::<Description>(v.description),
        version: spec_promote_opt::<String>(v.version),
        license: spec_promote_opt::<String>(v.license),
        created_on: spec_promote_opt::<String>(v.created_on),
        last_updated_on: spec_promote_opt::<String>(v.last_updated_on),
        default_prefix: spec_promote_opt::<String>(v.default_prefix),
        default_range: spec_promote_opt::<String>(v.default_range),
        metamodel_version: spec_promote_opt::<String>(v.metamodel_version),
        source_file: spec_promote_opt::<String>(v.source_file),
        generation_date: spec_promote_opt::<String>(v.generation_date),
        status: spec_promote_opt::<String>(v.status),
        prefixes: spec_promote_prefixes(v.prefixes),
        imports: spec_promote_list::<String>(v.imports),
        settings: spec_promote_map::<String>(v.settings),
        classes: spec_promote_map::<ClassAst>(v.classes),
        slots: spec_promote_map::<SlotAst>(v.slots),
        types: spec_promote_map::<TypeAst>(v.types),
        enums: spec_promote_map::<EnumAst>(v.enums),
        subsets: spec_promote_map::<SubsetAst>(v.subsets),
        contributors: spec_promote_list::<ContributorAst>(v.contributors),
        categories: spec_promote_list::<String>(v.categories),
        keywords: spec_promote_list::<String>(v.keywords),
        see_also: spec_promote_list::<String>(v.see_also),
        annotations: spec_promote_opt::<AnnotationsAst>(v.annotations),
    }
}

/// Where one element of a schema was written.
#[derive(Debug)]
pub struct SpanRecord {
    /// The path of the element: its kind, a slash and its name.
    pub path: String,
    /// Where the element stands in the source.
    pub span: Span,
}

/// What a [`SpanRecord`] holds, as mathematical values.
pub struct SpanRecordView {
    pub path: Seq<char>,
    pub span: Span,
}

impl DeepView for SpanRecord {
    type V = SpanRecordView;

    open spec fn deep_view(&self) -> SpanRecordView {
        SpanRecordView {
            path: self.path.deep_view(),
            span: self.span.deep_view(),
        }
    }
}

impl DeepValue for SpanRecord {
    fn deep_clone(&self) -> (r: Self) {
        SpanRecord {
            path: self.path.deep_clone(),
            span: self.span.deep_clone(),
        }
    }

    fn deep_eq(&self, other: &Self) -> (r: bool) {
        self.path.deep_eq(&other.path)
            && self.span.deep_eq(&other.span)
    }
}

/// Promotes a syntax tree to a canonical schema. A tree without `id` or
/// without `name` is no schema; every other tree has its canonical form.
pub fn promote(ast: &SchemaAst) -> (r: Result<SchemaDefinition, LinkMLError>)
    ensures
        match spec_missing_field(ast.id is Some, ast.name is Some) {
            Some(message) => r matches Err(LinkMLError::SchemaValidationError { message: m }) && m@
                == message,
            None => r matches Ok(s) && s.deep_view() == spec_promote_schema(ast.deep_view()),
        },
{
    match ast.validate_required_fields() {
        Err(message) => {
            return Err(LinkMLError::SchemaValidationError { message });
        },
        Ok(_) => {},
    }
    let id = match &ast.id {
        Some(s) => s.value.clone(),
        None => String::new(),
    };
    let name = match &ast.name {
        Some(s) => s.value.clone(),
        None => String::new(),
    };
        Ok(
            SchemaDefinition {
                id,
                name,
                title: promote_opt(&ast.title),
                description: promote_opt(&ast.description),
                version: promote_opt(&ast.version),
                license: promote_opt(&ast.license),
                created_on: promote_opt(&ast.created_on),
                last_updated_on: promote_opt(&ast.last_updated_on),
                default_prefix: promote_opt(&ast.default_prefix),
                default_range: promote_opt(&ast.default_range),
                metamodel_version: promote_opt(&ast.metamodel_version),
                source_file: promote_opt(&ast.source_file),
                generation_date: promote_opt(&ast.generation_date),
                status: promote_opt(&ast.status),
                prefixes: promote_prefixes(&ast.prefixes),
                imports: promote_list(&ast.imports),
                settings: promote_map(&ast.settings),
                classes: promote_map(&ast.classes),
                slots: promote_map(&ast.slots),
                types: promote_map(&ast.types),
                enums: promote_map(&ast.enums),
                subsets: promote_map(&ast.subsets),
                contributors: promote_list(&ast.contributors),
                categories: promote_list(&ast.categories),
                keywords: promote_list(&ast.keywords),
                see_also: promote_list(&ast.see_also),
                annotations: promote_opt(&ast.annotations),
            },
        )
}

/// The records of the spans of the declarations of one kind, from the
/// `i`-th on, after `acc`: each under the path `kind/name`.
pub open spec fn spec_span_records<V>(
    kind: Seq<char>,
    names: Seq<Seq<char>>,
    nodes: Seq<Spanned<V>>,
    i: int,
    acc: Seq<SpanRecordView>,
) -> Seq<SpanRecordView>
    decreases names.len() - i,
{
    if !(0 <= i < names.len() && i < nodes.len()) {
        acc
    } else {
        spec_span_records(
            kind,
            names,
            nodes,
            i + 1,
            acc.push(SpanRecordView { path: kind + "/"@ + names[i], span: nodes[i].span }),
        )
    }
}

/// Appends the records of the spans of the declarations of one kind.
fn span_records<V>(kind: &str, m: &OrderedMap<Spanned<V>>, out: &mut Vec<SpanRecord>)
    ensures
        final(out).deep_view() == spec_span_records(
            kind@,
            m.keys(),
            m.values(),
            0,
            old(out).deep_view(),
        ),
{
    let n = m.len();
    let mut i: usize = 0;
    while i < n
        invariant
            i <= n,
            n == m.keys().len(),
            m.well_formed(),
            spec_span_records(kind@, m.keys(), m.values(), 0, old(out).deep_view())
                == spec_span_records(kind@, m.keys(), m.values(), i as int, out.deep_view()),
        decreases n - i,
    {
        match m.get_index(i) {
            Some((name, node)) => {
                let mut path = String::from_str(kind);
                path.append("/");
                path.append(name.as_str());
                let ghost before = out.deep_view();
                let record = SpanRecord { path, span: node.span };
                out.push(record);
                assert(out.deep_view() =~= before.push(record.deep_view()));
            },
            None => {},
        }
        i += 1;
    }
}

/// The table of the spans of the declarations of a syntax tree, by path:
/// the classes, then the slots, types, enumerations and subsets, each kind in
/// the order in which its declarations were written.
pub fn span_table(ast: &SchemaAst) -> (r: Vec<SpanRecord>)
    ensures
        r.deep_view() == spec_span_records(
            "subsets"@,
            ast.subsets.keys(),
            ast.subsets.values(),
            0,
            spec_span_records(
                "enums"@,
                ast.enums.keys(),
                ast.enums.values(),
                0,
                spec_span_records(
                    "types"@,
                    ast.types.keys(),
                    ast.types.values(),
                    0,
                    spec_span_records(
                        "slots"@,
                        ast.slots.keys(),
                        ast.slots.values(),
                        0,
                        spec_span_records(
                            "classes"@,
                            ast.classes.keys(),
                            ast.classes.values(),
                            0,
                            Seq::empty(),
                        ),
                    ),
                ),
            ),
        ),
{
    let mut out: Vec<SpanRecord> = Vec::new();
    assert(out.deep_view() =~= Seq::empty());
    span_records("classes", &ast.classes, &mut out);
    span_records("slots", &ast.slots, &mut out);
    span_records("types", &ast.types, &mut out);
    span_records("enums", &ast.enums, &mut out);
    span_records("subsets", &ast.subsets, &mut out);
    out
}

} // verus!
