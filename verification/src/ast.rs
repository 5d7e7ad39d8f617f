//! The syntax tree that the grammar parser produces.
//!
//! Every node that was read from source text carries the span it was read
//! from. Mappings keep the order in which their keys were written.

use crate::model::DeepValue;
use crate::ordered::OrderedMap;
use crate::span::{
    lemma_covers_order, lemma_list_widen, lemma_pairs_widen, spec_list_within, spec_opt_within,
    spec_pairs_within, Span, Spanned,
};
use vstd::prelude::*;
use vstd::string::*;

verus! {

/// The kind of a document.
#[derive(Debug, Clone, Copy, PartialEq, Eq, Structural)]
pub enum DocumentType {
    /// A schema document.
    Schema,
    /// An instance document.
    Instance,
}

impl DeepView for DocumentType {
    type V = DocumentType;

    open spec fn deep_view(&self) -> DocumentType {
        *self
    }
}

impl DeepValue for DocumentType {
    fn deep_clone(&self) -> (r: Self) {
        *self
    }

    fn deep_eq(&self, other: &Self) -> (r: bool) {
        *self == *other
    }
}

/// What the range of a slot refers to.
#[derive(Debug, Clone, Copy, PartialEq, Eq, Structural)]
pub enum RangeType {
    /// The range names a class definition.
    Class,
    /// The range names a set of instances: the slot is instance-bound.
    Instance,
}

impl DeepView for RangeType {
    type V = RangeType;

    open spec fn deep_view(&self) -> RangeType {
        *self
    }
}

impl DeepValue for RangeType {
    fn deep_clone(&self) -> (r: Self) {
        *self
    }

    fn deep_eq(&self, other: &Self) -> (r: bool) {
        *self == *other
    }
}

/// A description, written on one line or as a block of lines.
#[derive(Debug)]
pub enum Description {
    /// Written on the line of its key.
    Inline(String),
    /// Written as a block string over several lines.
    Block(String),
}

/// What a [`Description`] holds, as mathematical values.
pub enum DescriptionView {
    Inline(Seq<char>),
    Block(Seq<char>),
}

impl DeepView for Description {
    type V = DescriptionView;

    open spec fn deep_view(&self) -> DescriptionView {
        match self {
            Description::Inline(x) => DescriptionView::Inline(x.deep_view()),
            Description::Block(x) => DescriptionView::Block(x.deep_view()),
        }
    }
}

impl DeepValue for Description {
    fn deep_clone(&self) -> (r: Self) {
        match self {
            Description::Inline(x) => Description::Inline(x.deep_clone()),
            Description::Block(x) => Description::Block(x.deep_clone()),
        }
    }

    fn deep_eq(&self, other: &Self) -> (r: bool) {
        match (self, other) {
            (Description::Inline(a), Description::Inline(b)) => a.deep_eq(b),
            (Description::Block(a), Description::Block(b)) => a.deep_eq(b),
            _ => false,
        }
    }
}

/// A pattern whose syntax may refer to named pattern settings.
#[derive(Debug)]
pub struct StructuredPatternAst {
    /// The pattern, possibly with `{name}` placeholders.
    pub syntax: String,
    /// Whether the placeholders are to be replaced.
    pub interpolated: bool,
}

/// What a [`StructuredPatternAst`] holds, as mathematical values.
pub struct StructuredPatternAstView {
    pub syntax: Seq<char>,
    pub interpolated: bool,
}

impl DeepView for StructuredPatternAst {
    type V = StructuredPatternAstView;

    open spec fn deep_view(&self) -> StructuredPatternAstView {
        StructuredPatternAstView {
            syntax: self.syntax.deep_view(),
            interpolated: self.interpolated.deep_view(),
        }
    }
}

impl DeepValue for StructuredPatternAst {
    fn deep_clone(&self) -> (r: Self) {
        StructuredPatternAst {
            syntax: self.syntax.deep_clone(),
            interpolated: self.interpolated.deep_clone(),
        }
    }

    fn deep_eq(&self, other: &Self) -> (r: bool) {
        self.syntax.deep_eq(&other.syntax)
            && self.interpolated.deep_eq(&other.interpolated)
    }
}

impl StructuredPatternAstView {
    /// Every span written in the value lies inside `outer`, and every part
    /// that has a span of its own holds only spans that lie inside that span.
    pub open spec fn within(self, outer: Span) -> bool {
        true
    }

    /// What lies inside a span lies inside every span that covers it.
    pub proof fn lemma_widen(self, a: Span, b: Span)
        requires
            self.within(a),
            b.covers(a),
        ensures
            self.within(b),
    {
    }
}

/// A bound of a value constraint.
#[derive(Debug)]
pub enum ValueAst {
    /// A string.
    Text(String),
    /// A number with a fraction or an exponent, as it was written.
    Number(String),
    /// A whole number.
    Integer(i64),
}

/// What a [`ValueAst`] holds, as mathematical values.
pub enum ValueAstView {
    Text(Seq<char>),
    Number(Seq<char>),
    Integer(i64),
}

impl DeepView for ValueAst {
    type V = ValueAstView;

    open spec fn deep_view(&self) -> ValueAstView {
        match self {
            ValueAst::Text(x) => ValueAstView::Text(x.deep_view()),
            ValueAst::Number(x) => ValueAstView::Number(x.deep_view()),
            ValueAst::Integer(x) => ValueAstView::Integer(x.deep_view()),
        }
    }
}

impl DeepValue for ValueAst {
    fn deep_clone(&self) -> (r: Self) {
        match self {
            ValueAst::Text(x) => ValueAst::Text(x.deep_clone()),
            ValueAst::Number(x) => ValueAst::Number(x.deep_clone()),
            ValueAst::Integer(x) => ValueAst::Integer(x.deep_clone()),
        }
    }

    fn deep_eq(&self, other: &Self) -> (r: bool) {
        match (self, other) {
            (ValueAst::Text(a), ValueAst::Text(b)) => a.deep_eq(b),
            (ValueAst::Number(a), ValueAst::Number(b)) => a.deep_eq(b),
            (ValueAst::Integer(a), ValueAst::Integer(b)) => a.deep_eq(b),
            _ => false,
        }
    }
}

/// The value of one annotation.
#[derive(Debug)]
pub enum AnnotationValueAst {
    /// A truth value.
    Bool(bool),
    /// A number, as it was written.
    Number(String),
    /// A string written on one line.
    Text(String),
    /// A block string.
    Block(String),
    /// A list of strings.
    List(Vec<Spanned<String>>),
}

/// What a [`AnnotationValueAst`] holds, as mathematical values.
pub enum AnnotationValueAstView {
    Bool(bool),
    Number(Seq<char>),
    Text(Seq<char>),
    Block(Seq<char>),
    List(Seq<Spanned<Seq<char>>>),
}

impl DeepView for AnnotationValueAst {
    type V = AnnotationValueAstView;

    open spec fn deep_view(&self) -> AnnotationValueAstView {
        match self {
            AnnotationValueAst::Bool(x) => AnnotationValueAstView::Bool(x.deep_view()),
            AnnotationValueAst::Number(x) => AnnotationValueAstView::Number(x.deep_view()),
            AnnotationValueAst::Text(x) => AnnotationValueAstView::Text(x.deep_view()),
            AnnotationValueAst::Block(x) => AnnotationValueAstView::Block(x.deep_view()),
            AnnotationValueAst::List(x) => AnnotationValueAstView::List(x.deep_view()),
        }
    }
}

impl DeepValue for AnnotationValueAst {
    fn deep_clone(&self) -> (r: Self) {
        match self {
            AnnotationValueAst::Bool(x) => AnnotationValueAst::Bool(x.deep_clone()),
            AnnotationValueAst::Number(x) => AnnotationValueAst::Number(x.deep_clone()),
            AnnotationValueAst::Text(x) => AnnotationValueAst::Text(x.deep_clone()),
            AnnotationValueAst::Block(x) => AnnotationValueAst::Block(x.deep_clone()),
            AnnotationValueAst::List(x) => AnnotationValueAst::List(x.deep_clone()),
        }
    }

    fn deep_eq(&self, other: &Self) -> (r: bool) {
        match (self, other) {
            (AnnotationValueAst::Bool(a), AnnotationValueAst::Bool(b)) => a.deep_eq(b),
            (AnnotationValueAst::Number(a), AnnotationValueAst::Number(b)) => a.deep_eq(b),
            (AnnotationValueAst::Text(a), AnnotationValueAst::Text(b)) => a.deep_eq(b),
            (AnnotationValueAst::Block(a), AnnotationValueAst::Block(b)) => a.deep_eq(b),
            (AnnotationValueAst::List(a), AnnotationValueAst::List(b)) => a.deep_eq(b),
            _ => false,
        }
    }
}

impl AnnotationValueAstView {
    /// The spans of the elements of a list lie inside `outer`.
    pub open spec fn within(self, outer: Span) -> bool {
        self matches AnnotationValueAstView::List(l) ==> spec_list_within(l, outer)
    }
}

/// Free key-value metadata.
#[derive(Debug)]
pub struct AnnotationsAst {
    /// The annotations, by tag.
    pub entries: OrderedMap<Spanned<AnnotationValueAst>>,
}

/// What a [`AnnotationsAst`] holds, as mathematical values.
pub struct AnnotationsAstView {
    pub entries: Seq<(Seq<char>, Spanned<AnnotationValueAstView>)>,
}

impl DeepView for AnnotationsAst {
    type V = AnnotationsAstView;

    open spec fn deep_view(&self) -> AnnotationsAstView {
        AnnotationsAstView {
            entries: self.entries.deep_view(),
        }
    }
}

impl DeepValue for AnnotationsAst {
    fn deep_clone(&self) -> (r: Self) {
        AnnotationsAst {
            entries: self.entries.deep_clone(),
        }
    }

    fn deep_eq(&self, other: &Self) -> (r: bool) {
        self.entries.deep_eq(&other.entries)
    }
}

impl AnnotationsAstView {
    /// The value that holds nothing.
    pub open spec fn empty() -> AnnotationsAstView {
        AnnotationsAstView {
            entries: Seq::<(Seq<char>, Spanned<AnnotationValueAstView>)>::empty(),
        }
    }
}

impl AnnotationsAst {
    /// A value that holds nothing.
    pub fn new() -> (r: Self)
        ensures
            r.deep_view() == AnnotationsAstView::empty(),
    {
        let r = AnnotationsAst {
            entries: OrderedMap::new(),
        };
        proof {
            assert(r.entries.deep_view() =~= Seq::empty());
        }
        r
    }
}

impl AnnotationsAstView {
    /// Every span written in the value lies inside `outer`, and every part
    /// that has a span of its own holds only spans that lie inside that span.
    pub open spec fn within(self, outer: Span) -> bool {
        &&& spec_pairs_within(self.entries, outer)
        &&& forall|i: int|
            0 <= i < self.entries.len() ==> (#[trigger] self.entries[i]).1.value.within(
                self.entries[i].1.span,
            )
    }

    /// What lies inside a span lies inside every span that covers it.
    pub proof fn lemma_widen(self, a: Span, b: Span)
        requires
            self.within(a),
            b.covers(a),
        ensures
            self.within(b),
    {
        lemma_covers_order(b, a, a);
        lemma_pairs_widen(self.entries, a, b);
    }
}

/// Someone who contributed to a schema.
#[derive(Debug)]
pub struct ContributorAst {
    /// The name.
    pub name: String,
    /// The e-mail address.
    pub email: Option<String>,
    /// The ORCID identifier.
    pub orcid: Option<String>,
}

/// What a [`ContributorAst`] holds, as mathematical values.
pub struct ContributorAstView {
    pub name: Seq<char>,
    pub email: Option<Seq<char>>,
    pub orcid: Option<Seq<char>>,
}

impl DeepView for ContributorAst {
    type V = ContributorAstView;

    open spec fn deep_view(&self) -> ContributorAstView {
        ContributorAstView {
            name: self.name.deep_view(),
            email: self.email.deep_view(),
            orcid: self.orcid.deep_view(),
        }
    }
}

impl DeepValue for ContributorAst {
    fn deep_clone(&self) -> (r: Self) {
        ContributorAst {
            name: self.name.deep_clone(),
            email: self.email.deep_clone(),
            orcid: self.orcid.deep_clone(),
        }
    }

    fn deep_eq(&self, other: &Self) -> (r: bool) {
        self.name.deep_eq(&other.name)
            && self.email.deep_eq(&other.email)
            && self.orcid.deep_eq(&other.orcid)
    }
}

impl ContributorAstView {
    /// The value that holds `name` and nothing else.
    pub open spec fn named(name: Seq<char>) -> ContributorAstView {
        ContributorAstView {
            name,
            email: None,
            orcid: None,
        }
    }
}

impl ContributorAst {
    /// A value that holds `name` and nothing else.
    pub fn named(name: String) -> (r: Self)
        ensures
            r.deep_view() == ContributorAstView::named(name@),
    {
        let r = ContributorAst {
            name,
            email: None,
            orcid: None,
        };
        r
    }
}

impl ContributorAstView {
    /// Every span written in the value lies inside `outer`, and every part
    /// that has a span of its own holds only spans that lie inside that span.
    pub open spec fn within(self, outer: Span) -> bool {
        true
    }

    /// What lies inside a span lies inside every span that covers it.
    pub proof fn lemma_widen(self, a: Span, b: Span)
        requires
            self.within(a),
            b.covers(a),
        ensures
            self.within(b),
    {
    }
}

/// How recursive classes are to be represented.
#[derive(Debug)]
pub struct RecursionOptionsAst {
    /// Whether recursion goes through an owning pointer.
    pub use_box: bool,
    /// The greatest depth of recursion.
    pub max_depth: Option<i64>,
}

/// What a [`RecursionOptionsAst`] holds, as mathematical values.
pub struct RecursionOptionsAstView {
    pub use_box: bool,
    pub max_depth: Option<i64>,
}

impl DeepView for RecursionOptionsAst {
    type V = RecursionOptionsAstView;

    open spec fn deep_view(&self) -> RecursionOptionsAstView {
        RecursionOptionsAstView {
            use_box: self.use_box.deep_view(),
            max_depth: self.max_depth.deep_view(),
        }
    }
}

impl DeepValue for RecursionOptionsAst {
    fn deep_clone(&self) -> (r: Self) {
        RecursionOptionsAst {
            use_box: self.use_box.deep_clone(),
            max_depth: self.max_depth.deep_clone(),
        }
    }

    fn deep_eq(&self, other: &Self) -> (r: bool) {
        self.use_box.deep_eq(&other.use_box)
            && self.max_depth.deep_eq(&other.max_depth)
    }
}

impl RecursionOptionsAstView {
    /// Every span written in the value lies inside `outer`, and every part
    /// that has a span of its own holds only spans that lie inside that span.
    pub open spec fn within(self, outer: Span) -> bool {
        true
    }

    /// What lies inside a span lies inside every span that covers it.
    pub proof fn lemma_widen(self, a: Span, b: Span)
        requires
            self.within(a),
            b.covers(a),
        ensures
            self.within(b),
    {
    }
}

/// A set of slots whose values together identify an instance.
#[derive(Debug)]
pub struct UniqueKeyAst {
    /// The name of the key.
    pub name: String,
    /// The slots that form the key.
    pub unique_key_slots: Vec<Spanned<String>>,
}

/// What a [`UniqueKeyAst`] holds, as mathematical values.
pub struct UniqueKeyAstView {
    pub name: Seq<char>,
    pub unique_key_slots: Seq<Spanned<Seq<char>>>,
}

impl DeepView for UniqueKeyAst {
    type V = UniqueKeyAstView;

    open spec fn deep_view(&self) -> UniqueKeyAstView {
        UniqueKeyAstView {
            name: self.name.deep_view(),
            unique_key_slots: self.unique_key_slots.deep_view(),
        }
    }
}

impl DeepValue for UniqueKeyAst {
    fn deep_clone(&self) -> (r: Self) {
        UniqueKeyAst {
            name: self.name.deep_clone(),
            unique_key_slots: self.unique_key_slots.deep_clone(),
        }
    }

    fn deep_eq(&self, other: &Self) -> (r: bool) {
        self.name.deep_eq(&other.name)
            && self.unique_key_slots.deep_eq(&other.unique_key_slots)
    }
}

impl UniqueKeyAstView {
    /// The value that holds `name` and nothing else.
    pub open spec fn named(name: Seq<char>) -> UniqueKeyAstView {
        UniqueKeyAstView {
            name,
            unique_key_slots: Seq::<Spanned<Seq<char>>>::empty(),
        }
    }
}

impl UniqueKeyAst {
    /// A value that holds `name` and nothing else.
    pub fn named(name: String) -> (r: Self)
        ensures
            r.deep_view() == UniqueKeyAstView::named(name@),
    {
        let r = UniqueKeyAst {
            name,
            unique_key_slots: Vec::new(),
        };
        proof {
            assert(r.unique_key_slots.deep_view() =~= Seq::empty());
        }
        r
    }
}

impl UniqueKeyAstView {
    /// Every span written in the value lies inside `outer`, and every part
    /// that has a span of its own holds only spans that lie inside that span.
    pub open spec fn within(self, outer: Span) -> bool {
        &&& spec_list_within(self.unique_key_slots, outer)
    }

    /// What lies inside a span lies inside every span that covers it.
    pub proof fn lemma_widen(self, a: Span, b: Span)
        requires
            self.within(a),
            b.covers(a),
        ensures
            self.within(b),
    {
        lemma_covers_order(b, a, a);
        lemma_list_widen(self.unique_key_slots, a, b);
    }
}

/// Slots that are required when a condition slot is set.
#[derive(Debug)]
pub struct ConditionalRequirementAst {
    /// The slot whose presence is the condition.
    pub condition: String,
    /// The slots that are then required.
    pub then_required: Vec<Spanned<String>>,
}

/// What a [`ConditionalRequirementAst`] holds, as mathematical values.
pub struct ConditionalRequirementAstView {
    pub condition: Seq<char>,
    pub then_required: Seq<Spanned<Seq<char>>>,
}

impl DeepView for ConditionalRequirementAst {
    type V = ConditionalRequirementAstView;

    open spec fn deep_view(&self) -> ConditionalRequirementAstView {
        ConditionalRequirementAstView {
            condition: self.condition.deep_view(),
            then_required: self.then_required.deep_view(),
        }
    }
}

impl DeepValue for ConditionalRequirementAst {
    fn deep_clone(&self) -> (r: Self) {
        ConditionalRequirementAst {
            condition: self.condition.deep_clone(),
            then_required: self.then_required.deep_clone(),
        }
    }

    fn deep_eq(&self, other: &Self) -> (r: bool) {
        self.condition.deep_eq(&other.condition)
            && self.then_required.deep_eq(&other.then_required)
    }
}

impl ConditionalRequirementAstView {
    /// Every span written in the value lies inside `outer`, and every part
    /// that has a span of its own holds only spans that lie inside that span.
    pub open spec fn within(self, outer: Span) -> bool {
        &&& spec_list_within(self.then_required, outer)
    }

    /// What lies inside a span lies inside every span that covers it.
    pub proof fn lemma_widen(self, a: Span, b: Span)
        requires
            self.within(a),
            b.covers(a),
        ensures
            self.within(b),
    {
        lemma_covers_order(b, a, a);
        lemma_list_widen(self.then_required, a, b);
    }
}

/// A rule: when the pre-conditions hold, the post-conditions must hold.
#[derive(Debug)]
pub struct RuleAst {
    /// The pre-conditions, in order.
    pub preconditions: OrderedMap<Spanned<String>>,
    /// The post-conditions, in order.
    pub postconditions: OrderedMap<Spanned<String>>,
}

/// What a [`RuleAst`] holds, as mathematical values.
pub struct RuleAstView {
    pub preconditions: Seq<(Seq<char>, Spanned<Seq<char>>)>,
    pub postconditions: Seq<(Seq<char>, Spanned<Seq<char>>)>,
}

impl DeepView for RuleAst {
    type V = RuleAstView;

    open spec fn deep_view(&self) -> RuleAstView {
        RuleAstView {
            preconditions: self.preconditions.deep_view(),
            postconditions: self.postconditions.deep_view(),
        }
    }
}

impl DeepValue for RuleAst {
    fn deep_clone(&self) -> (r: Self) {
        RuleAst {
            preconditions: self.preconditions.deep_clone(),
            postconditions: self.postconditions.deep_clone(),
        }
    }

    fn deep_eq(&self, other: &Self) -> (r: bool) {
        self.preconditions.deep_eq(&other.preconditions)
            && self.postconditions.deep_eq(&other.postconditions)
    }
}

impl RuleAstView {
    /// The value that holds nothing.
    pub open spec fn empty() -> RuleAstView {
        RuleAstView {
            preconditions: Seq::<(Seq<char>, Spanned<Seq<char>>)>::empty(),
            postconditions: Seq::<(Seq<char>, Spanned<Seq<char>>)>::empty(),
        }
    }
}

impl RuleAst {
    /// A value that holds nothing.
    pub fn new() -> (r: Self)
        ensures
            r.deep_view() == RuleAstView::empty(),
    {
        let r = RuleAst {
            preconditions: OrderedMap::new(),
            postconditions: OrderedMap::new(),
        };
        proof {
            assert(r.preconditions.deep_view() =~= Seq::empty());
            assert(r.postconditions.deep_view() =~= Seq::empty());
        }
        r
    }
}

impl RuleAstView {
    /// Every span written in the value lies inside `outer`, and every part
    /// that has a span of its own holds only spans that lie inside that span.
    pub open spec fn within(self, outer: Span) -> bool {
        &&& spec_pairs_within(self.preconditions, outer)
        &&& spec_pairs_within(self.postconditions, outer)
    }

    /// What lies inside a span lies inside every span that covers it.
    pub proof fn lemma_widen(self, a: Span, b: Span)
        requires
            self.within(a),
            b.covers(a),
        ensures
            self.within(b),
    {
        lemma_covers_order(b, a, a);
        lemma_pairs_widen(self.preconditions, a, b);
        lemma_pairs_widen(self.postconditions, a, b);
    }
}

/// A subset of the elements of a schema.
#[derive(Debug)]
pub struct SubsetAst {
    /// The name, taken from the key in the mapping.
    pub name: String,
    /// The description.
    pub description: Option<Spanned<Description>>,
    /// The annotations.
    pub annotations: Option<Spanned<AnnotationsAst>>,
}

/// What a [`SubsetAst`] holds, as mathematical values.
pub struct SubsetAstView {
    pub name: Seq<char>,
    pub description: Option<Spanned<DescriptionView>>,
    pub annotations: Option<Spanned<AnnotationsAstView>>,
}

impl DeepView for SubsetAst {
    type V = SubsetAstView;

    open spec fn deep_view(&self) -> SubsetAstView {
        SubsetAstView {
            name: self.name.deep_view(),
            description: self.description.deep_view(),
            annotations: self.annotations.deep_view(),
        }
    }
}

impl DeepValue for SubsetAst {
    fn deep_clone(&self) -> (r: Self) {
        SubsetAst {
            name: self.name.deep_clone(),
            description: self.description.deep_clone(),
            annotations: self.annotations.deep_clone(),
        }
    }

    fn deep_eq(&self, other: &Self) -> (r: bool) {
        self.name.deep_eq(&other.name)
            && self.description.deep_eq(&other.description)
            && self.annotations.deep_eq(&other.annotations)
    }
}

impl SubsetAstView {
    /// The value that holds `name` and nothing else.
    pub open spec fn named(name: Seq<char>) -> SubsetAstView {
        SubsetAstView {
            name,
            description: None,
            annotations: None,
        }
    }
}

impl SubsetAst {
    /// A value that holds `name` and nothing else.
    pub fn named(name: String) -> (r: Self)
        ensures
            r.deep_view() == SubsetAstView::named(name@),
    {
        let r = SubsetAst {
            name,
            description: None,
            annotations: None,
        };
        r
    }
}

impl SubsetAstView {
    /// Every span written in the value lies inside `outer`, and every part
    /// that has a span of its own holds only spans that lie inside that span.
    pub open spec fn within(self, outer: Span) -> bool {
        &&& spec_opt_within(self.description, outer)
        &&& spec_opt_within(self.annotations, outer)
        &&& (self.annotations matches Some(x) ==> x.value.within(x.span))
    }

    /// What lies inside a span lies inside every span that covers it.
    pub proof fn lemma_widen(self, a: Span, b: Span)
        requires
            self.within(a),
            b.covers(a),
        ensures
            self.within(b),
    {
        lemma_covers_order(b, a, a);
    }
}

/// One value that an enumeration admits.
#[derive(Debug)]
pub struct PermissibleValueAst {
    /// The value, taken from the key in the mapping.
    pub name: String,
    /// The description.
    pub description: Option<Spanned<Description>>,
    /// The URI that states the meaning.
    pub meaning: Option<Spanned<String>>,
    /// Other names.
    pub aliases: Vec<Spanned<String>>,
    /// Cross-references.
    pub see_also: Vec<Spanned<String>>,
}

/// What a [`PermissibleValueAst`] holds, as mathematical values.
pub struct PermissibleValueAstView {
    pub name: Seq<char>,
    pub description: Option<Spanned<DescriptionView>>,
    pub meaning: Option<Spanned<Seq<char>>>,
    pub aliases: Seq<Spanned<Seq<char>>>,
    pub see_also: Seq<Spanned<Seq<char>>>,
}

impl DeepView for PermissibleValueAst {
    type V = PermissibleValueAstView;

    open spec fn deep_view(&self) -> PermissibleValueAstView {
        PermissibleValueAstView {
            name: self.name.deep_view(),
            description: self.description.deep_view(),
            meaning: self.meaning.deep_view(),
            aliases: self.aliases.deep_view(),
            see_also: self.see_also.deep_view(),
        }
    }
}

impl DeepValue for PermissibleValueAst {
    fn deep_clone(&self) -> (r: Self) {
        PermissibleValueAst {
            name: self.name.deep_clone(),
            description: self.description.deep_clone(),
            meaning: self.meaning.deep_clone(),
            aliases: self.aliases.deep_clone(),
            see_also: self.see_also.deep_clone(),
        }
    }

    fn deep_eq(&self, other: &Self) -> (r: bool) {
        self.name.deep_eq(&other.name)
            && self.description.deep_eq(&other.description)
            && self.meaning.deep_eq(&other.meaning)
            && self.aliases.deep_eq(&other.aliases)
            && self.see_also.deep_eq(&other.see_also)
    }
}

impl PermissibleValueAstView {
    /// The value that holds `name` and nothing else.
    pub open spec fn named(name: Seq<char>) -> PermissibleValueAstView {
        PermissibleValueAstView {
            name,
            description: None,
            meaning: None,
            aliases: Seq::<Spanned<Seq<char>>>::empty(),
            see_also: Seq::<Spanned<Seq<char>>>::empty(),
        }
    }
}

impl PermissibleValueAst {
    /// A value that holds `name` and nothing else.
    pub fn named(name: String) -> (r: Self)
        ensures
            r.deep_view() == PermissibleValueAstView::named(name@),
    {
        let r = PermissibleValueAst {
            name,
            description: None,
            meaning: None,
            aliases: Vec::new(),
            see_also: Vec::new(),
        };
        proof {
            assert(r.aliases.deep_view() =~= Seq::empty());
            assert(r.see_also.deep_view() =~= Seq::empty());
        }
        r
    }
}

impl PermissibleValueAstView {
    /// Every span written in the value lies inside `outer`, and every part
    /// that has a span of its own holds only spans that lie inside that span.
    pub open spec fn within(self, outer: Span) -> bool {
        &&& spec_opt_within(self.description, outer)
        &&& spec_opt_within(self.meaning, outer)
        &&& spec_list_within(self.aliases, outer)
        &&& spec_list_within(self.see_also, outer)
    }

    /// What lies inside a span lies inside every span that covers it.
    pub proof fn lemma_widen(self, a: Span, b: Span)
        requires
            self.within(a),
            b.covers(a),
        ensures
            self.within(b),
    {
        lemma_covers_order(b, a, a);
        lemma_list_widen(self.aliases, a, b);
        lemma_list_widen(self.see_also, a, b);
    }
}

/// An enumeration.
#[derive(Debug)]
pub struct EnumAst {
    /// The name, taken from the key in the mapping.
    pub name: String,
    /// The description.
    pub description: Option<Spanned<Description>>,
    /// The values the enumeration admits.
    pub permissible_values: OrderedMap<Spanned<PermissibleValueAst>>,
    /// The URI of the code set.
    pub code_set: Option<Spanned<String>>,
    /// The tag of the code set.
    pub code_set_tag: Option<Spanned<String>>,
    /// The version of the code set.
    pub code_set_version: Option<Spanned<String>>,
    /// The annotations.
    pub annotations: Option<Spanned<AnnotationsAst>>,
}

/// What a [`EnumAst`] holds, as mathematical values.
pub struct EnumAstView {
    pub name: Seq<char>,
    pub description: Option<Spanned<DescriptionView>>,
    pub permissible_values: Seq<(Seq<char>, Spanned<PermissibleValueAstView>)>,
    pub code_set: Option<Spanned<Seq<char>>>,
    pub code_set_tag: Option<Spanned<Seq<char>>>,
    pub code_set_version: Option<Spanned<Seq<char>>>,
    pub annotations: Option<Spanned<AnnotationsAstView>>,
}

impl DeepView for EnumAst {
    type V = EnumAstView;

    open spec fn deep_view(&self) -> EnumAstView {
        EnumAstView {
            name: self.name.deep_view(),
            description: self.description.deep_view(),
            permissible_values: self.permissible_values.deep_view(),
            code_set: self.code_set.deep_view(),
            code_set_tag: self.code_set_tag.deep_view(),
            code_set_version: self.code_set_version.deep_view(),
            annotations: self.annotations.deep_view(),
        }
    }
}

impl DeepValue for EnumAst {
    fn deep_clone(&self) -> (r: Self) {
        EnumAst {
            name: self.name.deep_clone(),
            description: self.description.deep_clone(),
            permissible_values: self.permissible_values.deep_clone(),
            code_set: self.code_set.deep_clone(),
            code_set_tag: self.code_set_tag.deep_clone(),
            code_set_version: self.code_set_version.deep_clone(),
            annotations: self.annotations.deep_clone(),
        }
    }

    fn deep_eq(&self, other: &Self) -> (r: bool) {
        self.name.deep_eq(&other.name)
            && self.description.deep_eq(&other.description)
            && self.permissible_values.deep_eq(&other.permissible_values)
            && self.code_set.deep_eq(&other.code_set)
            && self.code_set_tag.deep_eq(&other.code_set_tag)
            && self.code_set_version.deep_eq(&other.code_set_version)
            && self.annotations.deep_eq(&other.annotations)
    }
}

impl EnumAstView {
    /// The value that holds `name` and nothing else.
    pub open spec fn named(name: Seq<char>) -> EnumAstView {
        EnumAstView {
            name,
            description: None,
            permissible_values: Seq::<(Seq<char>, Spanned<PermissibleValueAstView>)>::empty(),
            code_set: None,
            code_set_tag: None,
            code_set_version: None,
            annotations: None,
        }
    }
}

impl EnumAst {
    /// A value that holds `name` and nothing else.
    pub fn named(name: String) -> (r: Self)
        ensures
            r.deep_view() == EnumAstView::named(name@),
    {
        let r = EnumAst {
            name,
            description: None,
            permissible_values: OrderedMap::new(),
            code_set: None,
            code_set_tag: None,
            code_set_version: None,
            annotations: None,
        };
        proof {
            assert(r.permissible_values.deep_view() =~= Seq::empty());
        }
        r
    }
}

impl EnumAstView {
    /// Every span written in the value lies inside `outer`, and every part
    /// that has a span of its own holds only spans that lie inside that span.
    pub open spec fn within(self, outer: Span) -> bool {
        &&& spec_opt_within(self.description, outer)
        &&& spec_pairs_within(self.permissible_values, outer)
        &&& forall|i: int|
            0 <= i < self.permissible_values.len() ==> (#[trigger] self.permissible_values[i]).1.value.within(self.permissible_values[i].1.span)
        &&& spec_opt_within(self.code_set, outer)
        &&& spec_opt_within(self.code_set_tag, outer)
        &&& spec_opt_within(self.code_set_version, outer)
        &&& spec_opt_within(self.annotations, outer)
        &&& (self.annotations matches Some(x) ==> x.value.within(x.span))
    }

    /// What lies inside a span lies inside every span that covers it.
    pub proof fn lemma_widen(self, a: Span, b: Span)
        requires
            self.within(a),
            b.covers(a),
        ensures
            self.within(b),
    {
        lemma_covers_order(b, a, a);
        lemma_pairs_widen(self.permissible_values, a, b);
    }
}

/// A type.
#[derive(Debug)]
pub struct TypeAst {
    /// The name, taken from the key in the mapping.
    pub name: String,
    /// The description.
    pub description: Option<Spanned<Description>>,
    /// The parent type.
    pub typeof_: Option<Spanned<String>>,
    /// The primitive the type is based on.
    pub base: Option<Spanned<String>>,
    /// The URI of the type.
    pub uri: Option<Spanned<String>>,
    /// The regular expression that values must match.
    pub pattern: Option<Spanned<String>>,
    /// The least value.
    pub minimum_value: Option<Spanned<ValueAst>>,
    /// The greatest value.
    pub maximum_value: Option<Spanned<ValueAst>>,
    /// The annotations.
    pub annotations: Option<Spanned<AnnotationsAst>>,
}

/// What a [`TypeAst`] holds, as mathematical values.
pub struct TypeAstView {
    pub name: Seq<char>,
    pub description: Option<Spanned<DescriptionView>>,
    pub typeof_: Option<Spanned<Seq<char>>>,
    pub base: Option<Spanned<Seq<char>>>,
    pub uri: Option<Spanned<Seq<char>>>,
    pub pattern: Option<Spanned<Seq<char>>>,
    pub minimum_value: Option<Spanned<ValueAstView>>,
    pub maximum_value: Option<Spanned<ValueAstView>>,
    pub annotations: Option<Spanned<AnnotationsAstView>>,
}

impl DeepView for TypeAst {
    type V = TypeAstView;

    open spec fn deep_view(&self) -> TypeAstView {
        TypeAstView {
            name: self.name.deep_view(),
            description: self.description.deep_view(),
            typeof_: self.typeof_.deep_view(),
            base: self.base.deep_view(),
            uri: self.uri.deep_view(),
            pattern: self.pattern.deep_view(),
            minimum_value: self.minimum_value.deep_view(),
            maximum_value: self.maximum_value.deep_view(),
            annotations: self.annotations.deep_view(),
        }
    }
}

impl DeepValue for TypeAst {
    fn deep_clone(&self) -> (r: Self) {
        TypeAst {
            name: self.name.deep_clone(),
            description: self.description.deep_clone(),
            typeof_: self.typeof_.deep_clone(),
            base: self.base.deep_clone(),
            uri: self.uri.deep_clone(),
            pattern: self.pattern.deep_clone(),
            minimum_value: self.minimum_value.deep_clone(),
            maximum_value: self.maximum_value.deep_clone(),
            annotations: self.annotations.deep_clone(),
        }
    }

    fn deep_eq(&self, other: &Self) -> (r: bool) {
        self.name.deep_eq(&other.name)
            && self.description.deep_eq(&other.description)
            && self.typeof_.deep_eq(&other.typeof_)
            && self.base.deep_eq(&other.base)
            && self.uri.deep_eq(&other.uri)
            && self.pattern.deep_eq(&other.pattern)
            && self.minimum_value.deep_eq(&other.minimum_value)
            && self.maximum_value.deep_eq(&other.maximum_value)
            && self.annotations.deep_eq(&other.annotations)
    }
}

impl TypeAstView {
    /// The value that holds `name` and nothing else.
    pub open spec fn named(name: Seq<char>) -> TypeAstView {
        TypeAstView {
            name,
            description: None,
            typeof_: None,
            base: None,
            uri: None,
            pattern: None,
            minimum_value: None,
            maximum_value: None,
            annotations: None,
        }
    }
}

impl TypeAst {
    /// A value that holds `name` and nothing else.
    pub fn named(name: String) -> (r: Self)
        ensures
            r.deep_view() == TypeAstView::named(name@),
    {
        let r = TypeAst {
            name,
            description: None,
            typeof_: None,
            base: None,
            uri: None,
            pattern: None,
            minimum_value: None,
            maximum_value: None,
            annotations: None,
        };
        r
    }
}

impl TypeAstView {
    /// Every span written in the value lies inside `outer`, and every part
    /// that has a span of its own holds only spans that lie inside that span.
    pub open spec fn within(self, outer: Span) -> bool {
        &&& spec_opt_within(self.description, outer)
        &&& spec_opt_within(self.typeof_, outer)
        &&& spec_opt_within(self.base, outer)
        &&& spec_opt_within(self.uri, outer)
        &&& spec_opt_within(self.pattern, outer)
        &&& spec_opt_within(self.minimum_value, outer)
        &&& spec_opt_within(self.maximum_value, outer)
        &&& spec_opt_within(self.annotations, outer)
        &&& (self.annotations matches Some(x) ==> x.value.within(x.span))
    }

    /// What lies inside a span lies inside every span that covers it.
    pub proof fn lemma_widen(self, a: Span, b: Span)
        requires
            self.within(a),
            b.covers(a),
        ensures
            self.within(b),
    {
        lemma_covers_order(b, a, a);
    }
}

/// A slot: a property of a class.
#[derive(Debug)]
pub struct SlotAst {
    /// The name, taken from the key in the mapping.
    pub name: String,
    /// The description.
    pub description: Option<Spanned<Description>>,
    /// The range: what values the slot admits.
    pub range: Option<Spanned<String>>,
    /// Whether the range names a class or a set of instances.
    pub range_type: Option<Spanned<RangeType>>,
    /// For an instance-bound slot, the fields whose values are the legal ones.
    pub range_properties: Vec<Spanned<String>>,
    /// Whether a value must be given.
    pub required: Option<Spanned<bool>>,
    /// Whether several values may be given.
    pub multivalued: Option<Spanned<bool>>,
    /// Whether the value identifies the instance.
    pub identifier: Option<Spanned<bool>>,
    /// The regular expression that values must match.
    pub pattern: Option<Spanned<String>>,
    /// The pattern built from named pattern settings.
    pub structured_pattern: Option<Spanned<StructuredPatternAst>>,
    /// The least value.
    pub minimum_value: Option<Spanned<ValueAst>>,
    /// The greatest value.
    pub maximum_value: Option<Spanned<ValueAst>>,
    /// The least number of values.
    pub minimum_cardinality: Option<Spanned<i64>>,
    /// The greatest number of values.
    pub maximum_cardinality: Option<Spanned<i64>>,
    /// The parent slot.
    pub is_a: Option<Spanned<String>>,
    /// The mixins.
    pub mixins: Vec<Spanned<String>>,
    /// The URI of the slot.
    pub slot_uri: Option<Spanned<String>>,
    /// The class the slot belongs to.
    pub domain: Option<Spanned<String>>,
    /// The inverse slot.
    pub inverse: Option<Spanned<String>>,
    /// Whether the relation is symmetric.
    pub symmetric: Option<Spanned<bool>>,
    /// Whether the relation is asymmetric.
    pub asymmetric: Option<Spanned<bool>>,
    /// Whether the relation is reflexive.
    pub reflexive: Option<Spanned<bool>>,
    /// Whether the relation is irreflexive.
    pub irreflexive: Option<Spanned<bool>>,
    /// Whether the relation is locally reflexive.
    pub locally_reflexive: Option<Spanned<bool>>,
    /// Whether the relation is transitive.
    pub transitive: Option<Spanned<bool>>,
    /// The value to take when none is given.
    pub ifabsent: Option<Spanned<String>>,
    /// The string the value must equal.
    pub equals_string: Option<Spanned<String>>,
    /// The number the value must equal, as it was written.
    pub equals_number: Option<Spanned<String>>,
    /// Other names.
    pub aliases: Vec<Spanned<String>>,
    /// Cross-references.
    pub see_also: Vec<Spanned<String>>,
    /// Imports that hold only for resolving the range of this slot.
    pub imports: Vec<Spanned<String>>,
    /// The annotations.
    pub annotations: Option<Spanned<AnnotationsAst>>,
}

/// What a [`SlotAst`] holds, as mathematical values.
pub struct SlotAstView {
    pub name: Seq<char>,
    pub description: Option<Spanned<DescriptionView>>,
    pub range: Option<Spanned<Seq<char>>>,
    pub range_type: Option<Spanned<RangeType>>,
    pub range_properties: Seq<Spanned<Seq<char>>>,
    pub required: Option<Spanned<bool>>,
    pub multivalued: Option<Spanned<bool>>,
    pub identifier: Option<Spanned<bool>>,
    pub pattern: Option<Spanned<Seq<char>>>,
    pub structured_pattern: Option<Spanned<StructuredPatternAstView>>,
    pub minimum_value: Option<Spanned<ValueAstView>>,
    pub maximum_value: Option<Spanned<ValueAstView>>,
    pub minimum_cardinality: Option<Spanned<i64>>,
    pub maximum_cardinality: Option<Spanned<i64>>,
    pub is_a: Option<Spanned<Seq<char>>>,
    pub mixins: Seq<Spanned<Seq<char>>>,
    pub slot_uri: Option<Spanned<Seq<char>>>,
    pub domain: Option<Spanned<Seq<char>>>,
    pub inverse: Option<Spanned<Seq<char>>>,
    pub symmetric: Option<Spanned<bool>>,
    pub asymmetric: Option<Spanned<bool>>,
    pub reflexive: Option<Spanned<bool>>,
    pub irreflexive: Option<Spanned<bool>>,
    pub locally_reflexive: Option<Spanned<bool>>,
    pub transitive: Option<Spanned<bool>>,
    pub ifabsent: Option<Spanned<Seq<char>>>,
    pub equals_string: Option<Spanned<Seq<char>>>,
    pub equals_number: Option<Spanned<Seq<char>>>,
    pub aliases: Seq<Spanned<Seq<char>>>,
    pub see_also: Seq<Spanned<Seq<char>>>,
    pub imports: Seq<Spanned<Seq<char>>>,
    pub annotations: Option<Spanned<AnnotationsAstView>>,
}

impl DeepView for SlotAst {
    type V = SlotAstView;

    open spec fn deep_view(&self) -> SlotAstView {
        SlotAstView {
            name: self.name.deep_view(),
            description: self.description.deep_view(),
            range: self.range.deep_view(),
            range_type: self.range_type.deep_view(),
            range_properties: self.range_properties.deep_view(),
            required: self.required.deep_view(),
            multivalued: self.multivalued.deep_view(),
            identifier: self.identifier.deep_view(),
            pattern: self.pattern.deep_view(),
            structured_pattern: self.structured_pattern.deep_view(),
            minimum_value: self.minimum_value.deep_view(),
            maximum_value: self.maximum_value.deep_view(),
            minimum_cardinality: self.minimum_cardinality.deep_view(),
            maximum_cardinality: self.maximum_cardinality.deep_view(),
            is_a: self.is_a.deep_view(),
            mixins: self.mixins.deep_view(),
            slot_uri: self.slot_uri.deep_view(),
            domain: self.domain.deep_view(),
            inverse: self.inverse.deep_view(),
            symmetric: self.symmetric.deep_view(),
            asymmetric: self.asymmetric.deep_view(),
            reflexive: self.reflexive.deep_view(),
            irreflexive: self.irreflexive.deep_view(),
            locally_reflexive: self.locally_reflexive.deep_view(),
            transitive: self.transitive.deep_view(),
            ifabsent: self.ifabsent.deep_view(),
            equals_string: self.equals_string.deep_view(),
            equals_number: self.equals_number.deep_view(),
            aliases: self.aliases.deep_view(),
            see_also: self.see_also.deep_view(),
            imports: self.imports.deep_view(),
            annotations: self.annotations.deep_view(),
        }
    }
}

impl DeepValue for SlotAst {
    fn deep_clone(&self) -> (r: Self) {
        SlotAst {
            name: self.name.deep_clone(),
            description: self.description.deep_clone(),
            range: self.range.deep_clone(),
            range_type: self.range_type.deep_clone(),
            range_properties: self.range_properties.deep_clone(),
            required: self.required.deep_clone(),
            multivalued: self.multivalued.deep_clone(),
            identifier: self.identifier.deep_clone(),
            pattern: self.pattern.deep_clone(),
            structured_pattern: self.structured_pattern.deep_clone(),
            minimum_value: self.minimum_value.deep_clone(),
            maximum_value: self.maximum_value.deep_clone(),
            minimum_cardinality: self.minimum_cardinality.deep_clone(),
            maximum_cardinality: self.maximum_cardinality.deep_clone(),
            is_a: self.is_a.deep_clone(),
            mixins: self.mixins.deep_clone(),
            slot_uri: self.slot_uri.deep_clone(),
            domain: self.domain.deep_clone(),
            inverse: self.inverse.deep_clone(),
            symmetric: self.symmetric.deep_clone(),
            asymmetric: self.asymmetric.deep_clone(),
            reflexive: self.reflexive.deep_clone(),
            irreflexive: self.irreflexive.deep_clone(),
            locally_reflexive: self.locally_reflexive.deep_clone(),
            transitive: self.transitive.deep_clone(),
            ifabsent: self.ifabsent.deep_clone(),
            equals_string: self.equals_string.deep_clone(),
            equals_number: self.equals_number.deep_clone(),
            aliases: self.aliases.deep_clone(),
            see_also: self.see_also.deep_clone(),
            imports: self.imports.deep_clone(),
            annotations: self.annotations.deep_clone(),
        }
    }

    fn deep_eq(&self, other: &Self) -> (r: bool) {
        self.name.deep_eq(&other.name)
            && self.description.deep_eq(&other.description)
            && self.range.deep_eq(&other.range)
            && self.range_type.deep_eq(&other.range_type)
            && self.range_properties.deep_eq(&other.range_properties)
            && self.required.deep_eq(&other.required)
            && self.multivalued.deep_eq(&other.multivalued)
            && self.identifier.deep_eq(&other.identifier)
            && self.pattern.deep_eq(&other.pattern)
            && self.structured_pattern.deep_eq(&other.structured_pattern)
            && self.minimum_value.deep_eq(&other.minimum_value)
            && self.maximum_value.deep_eq(&other.maximum_value)
            && self.minimum_cardinality.deep_eq(&other.minimum_cardinality)
            && self.maximum_cardinality.deep_eq(&other.maximum_cardinality)
            && self.is_a.deep_eq(&other.is_a)
            && self.mixins.deep_eq(&other.mixins)
            && self.slot_uri.deep_eq(&other.slot_uri)
            && self.domain.deep_eq(&other.domain)
            && self.inverse.deep_eq(&other.inverse)
            && self.symmetric.deep_eq(&other.symmetric)
            && self.asymmetric.deep_eq(&other.asymmetric)
            && self.reflexive.deep_eq(&other.reflexive)
            && self.irreflexive.deep_eq(&other.irreflexive)
            && self.locally_reflexive.deep_eq(&other.locally_reflexive)
            && self.transitive.deep_eq(&other.transitive)
            && self.ifabsent.deep_eq(&other.ifabsent)
            && self.equals_string.deep_eq(&other.equals_string)
            && self.equals_number.deep_eq(&other.equals_number)
            && self.aliases.deep_eq(&other.aliases)
            && self.see_also.deep_eq(&other.see_also)
            && self.imports.deep_eq(&other.imports)
            && self.annotations.deep_eq(&other.annotations)
    }
}

impl SlotAstView {
    /// The value that holds `name` and nothing else.
    pub open spec fn named(name: Seq<char>) -> SlotAstView {
        SlotAstView {
            name,
            description: None,
            range: None,
            range_type: None,
            range_properties: Seq::<Spanned<Seq<char>>>::empty(),
            required: None,
            multivalued: None,
            identifier: None,
            pattern: None,
            structured_pattern: None,
            minimum_value: None,
            maximum_value: None,
            minimum_cardinality: None,
            maximum_cardinality: None,
            is_a: None,
            mixins: Seq::<Spanned<Seq<char>>>::empty(),
            slot_uri: None,
            domain: None,
            inverse: None,
            symmetric: None,
            asymmetric: None,
            reflexive: None,
            irreflexive: None,
            locally_reflexive: None,
            transitive: None,
            ifabsent: None,
            equals_string: None,
            equals_number: None,
            aliases: Seq::<Spanned<Seq<char>>>::empty(),
            see_also: Seq::<Spanned<Seq<char>>>::empty(),
            imports: Seq::<Spanned<Seq<char>>>::empty(),
            annotations: None,
        }
    }
}

impl SlotAst {
    /// A value that holds `name` and nothing else.
    pub fn named(name: String) -> (r: Self)
        ensures
            r.deep_view() == SlotAstView::named(name@),
    {
        let r = SlotAst {
            name,
            description: None,
            range: None,
            range_type: None,
            range_properties: Vec::new(),
            required: None,
            multivalued: None,
            identifier: None,
            pattern: None,
            structured_pattern: None,
            minimum_value: None,
            maximum_value: None,
            minimum_cardinality: None,
            maximum_cardinality: None,
            is_a: None,
            mixins: Vec::new(),
            slot_uri: None,
            domain: None,
            inverse: None,
            symmetric: None,
            asymmetric: None,
            reflexive: None,
            irreflexive: None,
            locally_reflexive: None,
            transitive: None,
            ifabsent: None,
            equals_string: None,
            equals_number: None,
            aliases: Vec::new(),
            see_also: Vec::new(),
            imports: Vec::new(),
            annotations: None,
        };
        proof {
            assert(r.range_properties.deep_view() =~= Seq::empty());
            assert(r.mixins.deep_view() =~= Seq::empty());
            assert(r.aliases.deep_view() =~= Seq::empty());
            assert(r.see_also.deep_view() =~= Seq::empty());
            assert(r.imports.deep_view() =~= Seq::empty());
        }
        r
    }
}

impl SlotAstView {
    /// Every span written in the value lies inside `outer`, and every part
    /// that has a span of its own holds only spans that lie inside that span.
    pub open spec fn within(self, outer: Span) -> bool {
        &&& spec_opt_within(self.description, outer)
        &&& spec_opt_within(self.range, outer)
        &&& spec_opt_within(self.range_type, outer)
        &&& spec_list_within(self.range_properties, outer)
        &&& spec_opt_within(self.required, outer)
        &&& spec_opt_within(self.multivalued, outer)
        &&& spec_opt_within(self.identifier, outer)
        &&& spec_opt_within(self.pattern, outer)
        &&& spec_opt_within(self.structured_pattern, outer)
        &&& (self.structured_pattern matches Some(x) ==> x.value.within(x.span))
        &&& spec_opt_within(self.minimum_value, outer)
        &&& spec_opt_within(self.maximum_value, outer)
        &&& spec_opt_within(self.minimum_cardinality, outer)
        &&& spec_opt_within(self.maximum_cardinality, outer)
        &&& spec_opt_within(self.is_a, outer)
        &&& spec_list_within(self.mixins, outer)
        &&& spec_opt_within(self.slot_uri, outer)
        &&& spec_opt_within(self.domain, outer)
        &&& spec_opt_within(self.inverse, outer)
        &&& spec_opt_within(self.symmetric, outer)
        &&& spec_opt_within(self.asymmetric, outer)
        &&& spec_opt_within(self.reflexive, outer)
        &&& spec_opt_within(self.irreflexive, outer)
        &&& spec_opt_within(self.locally_reflexive, outer)
        &&& spec_opt_within(self.transitive, outer)
        &&& spec_opt_within(self.ifabsent, outer)
        &&& spec_opt_within(self.equals_string, outer)
        &&& spec_opt_within(self.equals_number, outer)
        &&& spec_list_within(self.aliases, outer)
        &&& spec_list_within(self.see_also, outer)
        &&& spec_list_within(self.imports, outer)
        &&& spec_opt_within(self.annotations, outer)
        &&& (self.annotations matches Some(x) ==> x.value.within(x.span))
    }

    /// What lies inside a span lies inside every span that covers it.
    pub proof fn lemma_widen(self, a: Span, b: Span)
        requires
            self.within(a),
            b.covers(a),
        ensures
            self.within(b),
    {
        lemma_covers_order(b, a, a);
        lemma_list_widen(self.range_properties, a, b);
        lemma_list_widen(self.mixins, a, b);
        lemma_list_widen(self.aliases, a, b);
        lemma_list_widen(self.see_also, a, b);
        lemma_list_widen(self.imports, a, b);
    }
}

/// A class.
#[derive(Debug)]
pub struct ClassAst {
    /// The name, taken from the key in the mapping.
    pub name: String,
    /// The description.
    pub description: Option<Spanned<Description>>,
    /// The parent class.
    pub is_a: Option<Spanned<String>>,
    /// Whether the class is abstract.
    pub abstract_: Option<Spanned<bool>>,
    /// Whether the class is a mixin.
    pub mixin: Option<Spanned<bool>>,
    /// Whether the class is the root of the tree.
    pub tree_root: Option<Spanned<bool>>,
    /// The URI of the class.
    pub class_uri: Option<Spanned<String>>,
    /// The mixins.
    pub mixins: Vec<Spanned<String>>,
    /// The names of the slots.
    pub slots: Vec<Spanned<String>>,
    /// What the class overrides in its slots.
    pub slot_usage: OrderedMap<Spanned<SlotAst>>,
    /// Slots defined in place.
    pub attributes: OrderedMap<Spanned<SlotAst>>,
    /// The classes this one is a subclass of.
    pub subclass_of: Vec<Spanned<String>>,
    /// The rules.
    pub rules: Vec<Spanned<RuleAst>>,
    /// The conditional requirements.
    pub if_required: OrderedMap<Spanned<ConditionalRequirementAst>>,
    /// The unique keys.
    pub unique_keys: OrderedMap<Spanned<UniqueKeyAst>>,
    /// How recursion is represented.
    pub recursion_options: Option<Spanned<RecursionOptionsAst>>,
    /// Other names.
    pub aliases: Vec<Spanned<String>>,
    /// Cross-references.
    pub see_also: Vec<Spanned<String>>,
    /// The prefixes that identifiers may have.
    pub id_prefixes: Vec<Spanned<String>>,
    /// Broad mappings.
    pub broad_mappings: Vec<Spanned<String>>,
    /// Exact mappings.
    pub exact_mappings: Vec<Spanned<String>>,
    /// Narrow mappings.
    pub narrow_mappings: Vec<Spanned<String>>,
    /// Related mappings.
    pub related_mappings: Vec<Spanned<String>>,
    /// Close mappings.
    pub close_mappings: Vec<Spanned<String>>,
    /// The annotations.
    pub annotations: Option<Spanned<AnnotationsAst>>,
}

/// What a [`ClassAst`] holds, as mathematical values.
pub struct ClassAstView {
    pub name: Seq<char>,
    pub description: Option<Spanned<DescriptionView>>,
    pub is_a: Option<Spanned<Seq<char>>>,
    pub abstract_: Option<Spanned<bool>>,
    pub mixin: Option<Spanned<bool>>,
    pub tree_root: Option<Spanned<bool>>,
    pub class_uri: Option<Spanned<Seq<char>>>,
    pub mixins: Seq<Spanned<Seq<char>>>,
    pub slots: Seq<Spanned<Seq<char>>>,
    pub slot_usage: Seq<(Seq<char>, Spanned<SlotAstView>)>,
    pub attributes: Seq<(Seq<char>, Spanned<SlotAstView>)>,
    pub subclass_of: Seq<Spanned<Seq<char>>>,
    pub rules: Seq<Spanned<RuleAstView>>,
    pub if_required: Seq<(Seq<char>, Spanned<ConditionalRequirementAstView>)>,
    pub unique_keys: Seq<(Seq<char>, Spanned<UniqueKeyAstView>)>,
    pub recursion_options: Option<Spanned<RecursionOptionsAstView>>,
    pub aliases: Seq<Spanned<Seq<char>>>,
    pub see_also: Seq<Spanned<Seq<char>>>,
    pub id_prefixes: Seq<Spanned<Seq<char>>>,
    pub broad_mappings: Seq<Spanned<Seq<char>>>,
    pub exact_mappings: Seq<Spanned<Seq<char>>>,
    pub narrow_mappings: Seq<Spanned<Seq<char>>>,
    pub related_mappings: Seq<Spanned<Seq<char>>>,
    pub close_mappings: Seq<Spanned<Seq<char>>>,
    pub annotations: Option<Spanned<AnnotationsAstView>>,
}

impl DeepView for ClassAst {
    type V = ClassAstView;

    open spec fn deep_view(&self) -> ClassAstView {
        ClassAstView {
            name: self.name.deep_view(),
            description: self.description.deep_view(),
            is_a: self.is_a.deep_view(),
            abstract_: self.abstract_.deep_view(),
            mixin: self.mixin.deep_view(),
            tree_root: self.tree_root.deep_view(),
            class_uri: self.class_uri.deep_view(),
            mixins: self.mixins.deep_view(),
            slots: self.slots.deep_view(),
            slot_usage: self.slot_usage.deep_view(),
            attributes: self.attributes.deep_view(),
            subclass_of: self.subclass_of.deep_view(),
            rules: self.rules.deep_view(),
            if_required: self.if_required.deep_view(),
            unique_keys: self.unique_keys.deep_view(),
            recursion_options: self.recursion_options.deep_view(),
            aliases: self.aliases.deep_view(),
            see_also: self.see_also.deep_view(),
            id_prefixes: self.id_prefixes.deep_view(),
            broad_mappings: self.broad_mappings.deep_view(),
            exact_mappings: self.exact_mappings.deep_view(),
            narrow_mappings: self.narrow_mappings.deep_view(),
            related_mappings: self.related_mappings.deep_view(),
            close_mappings: self.close_mappings.deep_view(),
            annotations: self.annotations.deep_view(),
        }
    }
}

impl DeepValue for ClassAst {
    fn deep_clone(&self) -> (r: Self) {
        ClassAst {
            name: self.name.deep_clone(),
            description: self.description.deep_clone(),
            is_a: self.is_a.deep_clone(),
            abstract_: self.abstract_.deep_clone(),
            mixin: self.mixin.deep_clone(),
            tree_root: self.tree_root.deep_clone(),
            class_uri: self.class_uri.deep_clone(),
            mixins: self.mixins.deep_clone(),
            slots: self.slots.deep_clone(),
            slot_usage: self.slot_usage.deep_clone(),
            attributes: self.attributes.deep_clone(),
            subclass_of: self.subclass_of.deep_clone(),
            rules: self.rules.deep_clone(),
            if_required: self.if_required.deep_clone(),
            unique_keys: self.unique_keys.deep_clone(),
            recursion_options: self.recursion_options.deep_clone(),
            aliases: self.aliases.deep_clone(),
            see_also: self.see_also.deep_clone(),
            id_prefixes: self.id_prefixes.deep_clone(),
            broad_mappings: self.broad_mappings.deep_clone(),
            exact_mappings: self.exact_mappings.deep_clone(),
            narrow_mappings: self.narrow_mappings.deep_clone(),
            related_mappings: self.related_mappings.deep_clone(),
            close_mappings: self.close_mappings.deep_clone(),
            annotations: self.annotations.deep_clone(),
        }
    }

    fn deep_eq(&self, other: &Self) -> (r: bool) {
        self.name.deep_eq(&other.name)
            && self.description.deep_eq(&other.description)
            && self.is_a.deep_eq(&other.is_a)
            && self.abstract_.deep_eq(&other.abstract_)
            && self.mixin.deep_eq(&other.mixin)
            && self.tree_root.deep_eq(&other.tree_root)
            && self.class_uri.deep_eq(&other.class_uri)
            && self.mixins.deep_eq(&other.mixins)
            && self.slots.deep_eq(&other.slots)
            && self.slot_usage.deep_eq(&other.slot_usage)
            && self.attributes.deep_eq(&other.attributes)
            && self.subclass_of.deep_eq(&other.subclass_of)
            && self.rules.deep_eq(&other.rules)
            && self.if_required.deep_eq(&other.if_required)
            && self.unique_keys.deep_eq(&other.unique_keys)
            && self.recursion_options.deep_eq(&other.recursion_options)
            && self.aliases.deep_eq(&other.aliases)
            && self.see_also.deep_eq(&other.see_also)
            && self.id_prefixes.deep_eq(&other.id_prefixes)
            && self.broad_mappings.deep_eq(&other.broad_mappings)
            && self.exact_mappings.deep_eq(&other.exact_mappings)
            && self.narrow_mappings.deep_eq(&other.narrow_mappings)
            && self.related_mappings.deep_eq(&other.related_mappings)
            && self.close_mappings.deep_eq(&other.close_mappings)
            && self.annotations.deep_eq(&other.annotations)
    }
}

impl ClassAstView {
    /// The value that holds `name` and nothing else.
    pub open spec fn named(name: Seq<char>) -> ClassAstView {
        ClassAstView {
            name,
            description: None,
            is_a: None,
            abstract_: None,
            mixin: None,
            tree_root: None,
            class_uri: None,
            mixins: Seq::<Spanned<Seq<char>>>::empty(),
            slots: Seq::<Spanned<Seq<char>>>::empty(),
            slot_usage: Seq::<(Seq<char>, Spanned<SlotAstView>)>::empty(),
            attributes: Seq::<(Seq<char>, Spanned<SlotAstView>)>::empty(),
            subclass_of: Seq::<Spanned<Seq<char>>>::empty(),
            rules: Seq::<Spanned<RuleAstView>>::empty(),
            if_required: Seq::<(Seq<char>, Spanned<ConditionalRequirementAstView>)>::empty(),
            unique_keys: Seq::<(Seq<char>, Spanned<UniqueKeyAstView>)>::empty(),
            recursion_options: None,
            aliases: Seq::<Spanned<Seq<char>>>::empty(),
            see_also: Seq::<Spanned<Seq<char>>>::empty(),
            id_prefixes: Seq::<Spanned<Seq<char>>>::empty(),
            broad_mappings: Seq::<Spanned<Seq<char>>>::empty(),
            exact_mappings: Seq::<Spanned<Seq<char>>>::empty(),
            narrow_mappings: Seq::<Spanned<Seq<char>>>::empty(),
            related_mappings: Seq::<Spanned<Seq<char>>>::empty(),
            close_mappings: Seq::<Spanned<Seq<char>>>::empty(),
            annotations: None,
        }
    }
}

impl ClassAst {
    /// A value that holds `name` and nothing else.
    pub fn named(name: String) -> (r: Self)
        ensures
            r.deep_view() == ClassAstView::named(name@),
    {
        let r = ClassAst {
            name,
            description: None,
            is_a: None,
            abstract_: None,
            mixin: None,
            tree_root: None,
            class_uri: None,
            mixins: Vec::new(),
            slots: Vec::new(),
            slot_usage: OrderedMap::new(),
            attributes: OrderedMap::new(),
            subclass_of: Vec::new(),
            rules: Vec::new(),
            if_required: OrderedMap::new(),
            unique_keys: OrderedMap::new(),
            recursion_options: None,
            aliases: Vec::new(),
            see_also: Vec::new(),
            id_prefixes: Vec::new(),
            broad_mappings: Vec::new(),
            exact_mappings: Vec::new(),
            narrow_mappings: Vec::new(),
            related_mappings: Vec::new(),
            close_mappings: Vec::new(),
            annotations: None,
        };
        proof {
            assert(r.mixins.deep_view() =~= Seq::empty());
            assert(r.slots.deep_view() =~= Seq::empty());
            assert(r.slot_usage.deep_view() =~= Seq::empty());
            assert(r.attributes.deep_view() =~= Seq::empty());
            assert(r.subclass_of.deep_view() =~= Seq::empty());
            assert(r.rules.deep_view() =~= Seq::empty());
            assert(r.if_required.deep_view() =~= Seq::empty());
            assert(r.unique_keys.deep_view() =~= Seq::empty());
            assert(r.aliases.deep_view() =~= Seq::empty());
            assert(r.see_also.deep_view() =~= Seq::empty());
            assert(r.id_prefixes.deep_view() =~= Seq::empty());
            assert(r.broad_mappings.deep_view() =~= Seq::empty());
            assert(r.exact_mappings.deep_view() =~= Seq::empty());
            assert(r.narrow_mappings.deep_view() =~= Seq::empty());
            assert(r.related_mappings.deep_view() =~= Seq::empty());
            assert(r.close_mappings.deep_view() =~= Seq::empty());
        }
        r
    }
}

impl ClassAstView {
    /// Every span written in the value lies inside `outer`, and every part
    /// that has a span of its own holds only spans that lie inside that span.
    pub open spec fn within(self, outer: Span) -> bool {
        &&& spec_opt_within(self.description, outer)
        &&& spec_opt_within(self.is_a, outer)
        &&& spec_opt_within(self.abstract_, outer)
        &&& spec_opt_within(self.mixin, outer)
        &&& spec_opt_within(self.tree_root, outer)
        &&& spec_opt_within(self.class_uri, outer)
        &&& spec_list_within(self.mixins, outer)
        &&& spec_list_within(self.slots, outer)
        &&& spec_pairs_within(self.slot_usage, outer)
        &&& forall|i: int|
            0 <= i < self.slot_usage.len() ==> (#[trigger] self.slot_usage[i]).1.value.within(
                self.slot_usage[i].1.span,
            )
        &&& spec_pairs_within(self.attributes, outer)
        &&& forall|i: int|
            0 <= i < self.attributes.len() ==> (#[trigger] self.attributes[i]).1.value.within(
                self.attributes[i].1.span,
            )
        &&& spec_list_within(self.subclass_of, outer)
        &&& spec_list_within(self.rules, outer)
        &&& forall|i: int|
            0 <= i < self.rules.len() ==> (#[trigger] self.rules[i]).value.within(
                self.rules[i].span,
            )
        &&& spec_pairs_within(self.if_required, outer)
        &&& forall|i: int|
            0 <= i < self.if_required.len() ==> (#[trigger] self.if_required[i]).1.value.within(
                self.if_required[i].1.span,
            )
        &&& spec_pairs_within(self.unique_keys, outer)
        &&& forall|i: int|
            0 <= i < self.unique_keys.len() ==> (#[trigger] self.unique_keys[i]).1.value.within(
                self.unique_keys[i].1.span,
            )
        &&& spec_opt_within(self.recursion_options, outer)
        &&& (self.recursion_options matches Some(x) ==> x.value.within(x.span))
        &&& spec_list_within(self.aliases, outer)
        &&& spec_list_within(self.see_also, outer)
        &&& spec_list_within(self.id_prefixes, outer)
        &&& spec_list_within(self.broad_mappings, outer)
        &&& spec_list_within(self.exact_mappings, outer)
        &&& spec_list_within(self.narrow_mappings, outer)
        &&& spec_list_within(self.related_mappings, outer)
        &&& spec_list_within(self.close_mappings, outer)
        &&& spec_opt_within(self.annotations, outer)
        &&& (self.annotations matches Some(x) ==> x.value.within(x.span))
    }

    /// What lies inside a span lies inside every span that covers it.
    pub proof fn lemma_widen(self, a: Span, b: Span)
        requires
            self.within(a),
            b.covers(a),
        ensures
            self.within(b),
    {
        lemma_covers_order(b, a, a);
        lemma_list_widen(self.mixins, a, b);
        lemma_list_widen(self.slots, a, b);
        lemma_pairs_widen(self.slot_usage, a, b);
        lemma_pairs_widen(self.attributes, a, b);
        lemma_list_widen(self.subclass_of, a, b);
        lemma_list_widen(self.rules, a, b);
        lemma_pairs_widen(self.if_required, a, b);
        lemma_pairs_widen(self.unique_keys, a, b);
        lemma_list_widen(self.aliases, a, b);
        lemma_list_widen(self.see_also, a, b);
        lemma_list_widen(self.id_prefixes, a, b);
        lemma_list_widen(self.broad_mappings, a, b);
        lemma_list_widen(self.exact_mappings, a, b);
        lemma_list_widen(self.narrow_mappings, a, b);
        lemma_list_widen(self.related_mappings, a, b);
        lemma_list_widen(self.close_mappings, a, b);
    }
}

/// The root of a document.
#[derive(Debug)]
pub struct SchemaAst {
    /// The kind of the document.
    pub document_type: Option<DocumentType>,
    /// The identifier of the schema. Required.
    pub id: Option<Spanned<String>>,
    /// The name of the schema. Required.
    pub name: Option<Spanned<String>>,
    /// The title.
    pub title: Option<Spanned<String>>,
    /// The description.
    pub description: Option<Spanned<Description>>,
    /// The version.
    pub version: Option<Spanned<String>>,
    /// The licence.
    pub license: Option<Spanned<String>>,
    /// When the schema was created.
    pub created_on: Option<Spanned<String>>,
    /// When the schema was last changed.
    pub last_updated_on: Option<Spanned<String>>,
    /// The prefix of names that have none.
    pub default_prefix: Option<Spanned<String>>,
    /// The range of slots that have none.
    pub default_range: Option<Spanned<String>>,
    /// The version of the metamodel.
    pub metamodel_version: Option<Spanned<String>>,
    /// The file the schema was read from.
    pub source_file: Option<Spanned<String>>,
    /// When the schema was generated.
    pub generation_date: Option<Spanned<String>>,
    /// The status.
    pub status: Option<Spanned<String>>,
    /// The prefixes.
    pub prefixes: OrderedMap<Spanned<String>>,
    /// The imports, in order.
    pub imports: Vec<Spanned<String>>,
    /// The settings: named patterns.
    pub settings: OrderedMap<Spanned<String>>,
    /// The classes.
    pub classes: OrderedMap<Spanned<ClassAst>>,
    /// The slots.
    pub slots: OrderedMap<Spanned<SlotAst>>,
    /// The types.
    pub types: OrderedMap<Spanned<TypeAst>>,
    /// The enumerations.
    pub enums: OrderedMap<Spanned<EnumAst>>,
    /// The subsets.
    pub subsets: OrderedMap<Spanned<SubsetAst>>,
    /// The contributors.
    pub contributors: Vec<Spanned<ContributorAst>>,
    /// The categories.
    pub categories: Vec<Spanned<String>>,
    /// The keywords.
    pub keywords: Vec<Spanned<String>>,
    /// Cross-references.
    pub see_also: Vec<Spanned<String>>,
    /// The annotations.
    pub annotations: Option<Spanned<AnnotationsAst>>,
}

/// What a [`SchemaAst`] holds, as mathematical values.
pub struct SchemaAstView {
    pub document_type: Option<DocumentType>,
    pub id: Option<Spanned<Seq<char>>>,
    pub name: Option<Spanned<Seq<char>>>,
    pub title: Option<Spanned<Seq<char>>>,
    pub description: Option<Spanned<DescriptionView>>,
    pub version: Option<Spanned<Seq<char>>>,
    pub license: Option<Spanned<Seq<char>>>,
    pub created_on: Option<Spanned<Seq<char>>>,
    pub last_updated_on: Option<Spanned<Seq<char>>>,
    pub default_prefix: Option<Spanned<Seq<char>>>,
    pub default_range: Option<Spanned<Seq<char>>>,
    pub metamodel_version: Option<Spanned<Seq<char>>>,
    pub source_file: Option<Spanned<Seq<char>>>,
    pub generation_date: Option<Spanned<Seq<char>>>,
    pub status: Option<Spanned<Seq<char>>>,
    pub prefixes: Seq<(Seq<char>, Spanned<Seq<char>>)>,
    pub imports: Seq<Spanned<Seq<char>>>,
    pub settings: Seq<(Seq<char>, Spanned<Seq<char>>)>,
    pub classes: Seq<(Seq<char>, Spanned<ClassAstView>)>,
    pub slots: Seq<(Seq<char>, Spanned<SlotAstView>)>,
    pub types: Seq<(Seq<char>, Spanned<TypeAstView>)>,
    pub enums: Seq<(Seq<char>, Spanned<EnumAstView>)>,
    pub subsets: Seq<(Seq<char>, Spanned<SubsetAstView>)>,
    pub contributors: Seq<Spanned<ContributorAstView>>,
    pub categories: Seq<Spanned<Seq<char>>>,
    pub keywords: Seq<Spanned<Seq<char>>>,
    pub see_also: Seq<Spanned<Seq<char>>>,
    pub annotations: Option<Spanned<AnnotationsAstView>>,
}

impl DeepView for SchemaAst {
    type V = SchemaAstView;

    open spec fn deep_view(&self) -> SchemaAstView {
        SchemaAstView {
            document_type: self.document_type.deep_view(),
            id: self.id.deep_view(),
            name: self.name.deep_view(),
            title: self.title.deep_view(),
            description: self.description.deep_view(),
            version: self.version.deep_view(),
            license: self.license.deep_view(),
            created_on: self.created_on.deep_view(),
            last_updated_on: self.last_updated_on.deep_view(),
            default_prefix: self.default_prefix.deep_view(),
            default_range: self.default_range.deep_view(),
            metamodel_version: self.metamodel_version.deep_view(),
            source_file: self.source_file.deep_view(),
            generation_date: self.generation_date.deep_view(),
            status: self.status.deep_view(),
            prefixes: self.prefixes.deep_view(),
            imports: self.imports.deep_view(),
            settings: self.settings.deep_view(),
            classes: self.classes.deep_view(),
            slots: self.slots.deep_view(),
            types: self.types.deep_view(),
            enums: self.enums.deep_view(),
            subsets: self.subsets.deep_view(),
            contributors: self.contributors.deep_view(),
            categories: self.categories.deep_view(),
            keywords: self.keywords.deep_view(),
            see_also: self.see_also.deep_view(),
            annotations: self.annotations.deep_view(),
        }
    }
}

impl DeepValue for SchemaAst {
    fn deep_clone(&self) -> (r: Self) {
        SchemaAst {
            document_type: self.document_type.deep_clone(),
            id: self.id.deep_clone(),
            name: self.name.deep_clone(),
            title: self.title.deep_clone(),
            description: self.description.deep_clone(),
            version: self.version.deep_clone(),
            license: self.license.deep_clone(),
            created_on: self.created_on.deep_clone(),
            last_updated_on: self.last_updated_on.deep_clone(),
            default_prefix: self.default_prefix.deep_clone(),
            default_range: self.default_range.deep_clone(),
            metamodel_version: self.metamodel_version.deep_clone(),
            source_file: self.source_file.deep_clone(),
            generation_date: self.generation_date.deep_clone(),
            status: self.status.deep_clone(),
            prefixes: self.prefixes.deep_clone(),
            imports: self.imports.deep_clone(),
            settings: self.settings.deep_clone(),
            classes: self.classes.deep_clone(),
            slots: self.slots.deep_clone(),
            types: self.types.deep_clone(),
            enums: self.enums.deep_clone(),
            subsets: self.subsets.deep_clone(),
            contributors: self.contributors.deep_clone(),
            categories: self.categories.deep_clone(),
            keywords: self.keywords.deep_clone(),
            see_also: self.see_also.deep_clone(),
            annotations: self.annotations.deep_clone(),
        }
    }

    fn deep_eq(&self, other: &Self) -> (r: bool) {
        self.document_type.deep_eq(&other.document_type)
            && self.id.deep_eq(&other.id)
            && self.name.deep_eq(&other.name)
            && self.title.deep_eq(&other.title)
            && self.description.deep_eq(&other.description)
            && self.version.deep_eq(&other.version)
            && self.license.deep_eq(&other.license)
            && self.created_on.deep_eq(&other.created_on)
            && self.last_updated_on.deep_eq(&other.last_updated_on)
            && self.default_prefix.deep_eq(&other.default_prefix)
            && self.default_range.deep_eq(&other.default_range)
            && self.metamodel_version.deep_eq(&other.metamodel_version)
            && self.source_file.deep_eq(&other.source_file)
            && self.generation_date.deep_eq(&other.generation_date)
            && self.status.deep_eq(&other.status)
            && self.prefixes.deep_eq(&other.prefixes)
            && self.imports.deep_eq(&other.imports)
            && self.settings.deep_eq(&other.settings)
            && self.classes.deep_eq(&other.classes)
            && self.slots.deep_eq(&other.slots)
            && self.types.deep_eq(&other.types)
            && self.enums.deep_eq(&other.enums)
            && self.subsets.deep_eq(&other.subsets)
            && self.contributors.deep_eq(&other.contributors)
            && self.categories.deep_eq(&other.categories)
            && self.keywords.deep_eq(&other.keywords)
            && self.see_also.deep_eq(&other.see_also)
            && self.annotations.deep_eq(&other.annotations)
    }
}

impl SchemaAstView {
    /// The value that holds nothing.
    pub open spec fn empty() -> SchemaAstView {
        SchemaAstView {
            document_type: None,
            id: None,
            name: None,
            title: None,
            description: None,
            version: None,
            license: None,
            created_on: None,
            last_updated_on: None,
            default_prefix: None,
            default_range: None,
            metamodel_version: None,
            source_file: None,
            generation_date: None,
            status: None,
            prefixes: Seq::<(Seq<char>, Spanned<Seq<char>>)>::empty(),
            imports: Seq::<Spanned<Seq<char>>>::empty(),
            settings: Seq::<(Seq<char>, Spanned<Seq<char>>)>::empty(),
            classes: Seq::<(Seq<char>, Spanned<ClassAstView>)>::empty(),
            slots: Seq::<(Seq<char>, Spanned<SlotAstView>)>::empty(),
            types: Seq::<(Seq<char>, Spanned<TypeAstView>)>::empty(),
            enums: Seq::<(Seq<char>, Spanned<EnumAstView>)>::empty(),
            subsets: Seq::<(Seq<char>, Spanned<SubsetAstView>)>::empty(),
            contributors: Seq::<Spanned<ContributorAstView>>::empty(),
            categories: Seq::<Spanned<Seq<char>>>::empty(),
            keywords: Seq::<Spanned<Seq<char>>>::empty(),
            see_also: Seq::<Spanned<Seq<char>>>::empty(),
            annotations: None,
        }
    }
}

impl SchemaAst {
    /// A value that holds nothing.
    pub fn new() -> (r: Self)
        ensures
            r.deep_view() == SchemaAstView::empty(),
    {
        let r = SchemaAst {
            document_type: None,
            id: None,
            name: None,
            title: None,
            description: None,
            version: None,
            license: None,
            created_on: None,
            last_updated_on: None,
            default_prefix: None,
            default_range: None,
            metamodel_version: None,
            source_file: None,
            generation_date: None,
            status: None,
            prefixes: OrderedMap::new(),
            imports: Vec::new(),
            settings: OrderedMap::new(),
            classes: OrderedMap::new(),
            slots: OrderedMap::new(),
            types: OrderedMap::new(),
            enums: OrderedMap::new(),
            subsets: OrderedMap::new(),
            contributors: Vec::new(),
            categories: Vec::new(),
            keywords: Vec::new(),
            see_also: Vec::new(),
            annotations: None,
        };
        proof {
            assert(r.prefixes.deep_view() =~= Seq::empty());
            assert(r.imports.deep_view() =~= Seq::empty());
            assert(r.settings.deep_view() =~= Seq::empty());
            assert(r.classes.deep_view() =~= Seq::empty());
            assert(r.slots.deep_view() =~= Seq::empty());
            assert(r.types.deep_view() =~= Seq::empty());
            assert(r.enums.deep_view() =~= Seq::empty());
            assert(r.subsets.deep_view() =~= Seq::empty());
            assert(r.contributors.deep_view() =~= Seq::empty());
            assert(r.categories.deep_view() =~= Seq::empty());
            assert(r.keywords.deep_view() =~= Seq::empty());
            assert(r.see_also.deep_view() =~= Seq::empty());
        }
        r
    }
}

impl SchemaAstView {
    /// Every span written in the value lies inside `outer`, and every part
    /// that has a span of its own holds only spans that lie inside that span.
    pub open spec fn within(self, outer: Span) -> bool {
        &&& spec_opt_within(self.id, outer)
        &&& spec_opt_within(self.name, outer)
        &&& spec_opt_within(self.title, outer)
        &&& spec_opt_within(self.description, outer)
        &&& spec_opt_within(self.version, outer)
        &&& spec_opt_within(self.license, outer)
        &&& spec_opt_within(self.created_on, outer)
        &&& spec_opt_within(self.last_updated_on, outer)
        &&& spec_opt_within(self.default_prefix, outer)
        &&& spec_opt_within(self.default_range, outer)
        &&& spec_opt_within(self.metamodel_version, outer)
        &&& spec_opt_within(self.source_file, outer)
        &&& spec_opt_within(self.generation_date, outer)
        &&& spec_opt_within(self.status, outer)
        &&& spec_pairs_within(self.prefixes, outer)
        &&& spec_list_within(self.imports, outer)
        &&& spec_pairs_within(self.settings, outer)
        &&& spec_pairs_within(self.classes, outer)
        &&& forall|i: int|
            0 <= i < self.classes.len() ==> (#[trigger] self.classes[i]).1.value.within(
                self.classes[i].1.span,
            )
        &&& spec_pairs_within(self.slots, outer)
        &&& forall|i: int|
            0 <= i < self.slots.len() ==> (#[trigger] self.slots[i]).1.value.within(
                self.slots[i].1.span,
            )
        &&& spec_pairs_within(self.types, outer)
        &&& forall|i: int|
            0 <= i < self.types.len() ==> (#[trigger] self.types[i]).1.value.within(
                self.types[i].1.span,
            )
        &&& spec_pairs_within(self.enums, outer)
        &&& forall|i: int|
            0 <= i < self.enums.len() ==> (#[trigger] self.enums[i]).1.value.within(
                self.enums[i].1.span,
            )
        &&& spec_pairs_within(self.subsets, outer)
        &&& forall|i: int|
            0 <= i < self.subsets.len() ==> (#[trigger] self.subsets[i]).1.value.within(
                self.subsets[i].1.span,
            )
        &&& spec_list_within(self.contributors, outer)
        &&& forall|i: int|
            0 <= i < self.contributors.len() ==> (#[trigger] self.contributors[i]).value.within(
                self.contributors[i].span,
            )
        &&& spec_list_within(self.categories, outer)
        &&& spec_list_within(self.keywords, outer)
        &&& spec_list_within(self.see_also, outer)
        &&& spec_opt_within(self.annotations, outer)
        &&& (self.annotations matches Some(x) ==> x.value.within(x.span))
    }

    /// What lies inside a span lies inside every span that covers it.
    pub proof fn lemma_widen(self, a: Span, b: Span)
        requires
            self.within(a),
            b.covers(a),
        ensures
            self.within(b),
    {
        lemma_covers_order(b, a, a);
        lemma_pairs_widen(self.prefixes, a, b);
        lemma_list_widen(self.imports, a, b);
        lemma_pairs_widen(self.settings, a, b);
        lemma_pairs_widen(self.classes, a, b);
        lemma_pairs_widen(self.slots, a, b);
        lemma_pairs_widen(self.types, a, b);
        lemma_pairs_widen(self.enums, a, b);
        lemma_pairs_widen(self.subsets, a, b);
        lemma_list_widen(self.contributors, a, b);
        lemma_list_widen(self.categories, a, b);
        lemma_list_widen(self.keywords, a, b);
        lemma_list_widen(self.see_also, a, b);
    }
}

/// A document is a schema or a file of instances; both have the same form.
pub type LinkMLDocument = SchemaAst;

/// Which of the two required fields of a schema is missing, if any.
pub open spec fn spec_missing_field(id: bool, name: bool) -> Option<Seq<char>> {
    if !id {
        Some("Schema 'id' field is required"@)
    } else if !name {
        Some("Schema 'name' field is required"@)
    } else {
        None
    }
}

impl SchemaAst {
    /// Checks that the fields every schema must have are present: `id`
    /// first, then `name`.
    pub fn validate_required_fields(&self) -> (r: Result<(), String>)
        ensures
            match spec_missing_field(self.id is Some, self.name is Some) {
                Some(message) => r matches Err(m) && m@ == message,
                None => r is Ok,
            },
    {
        if self.id.is_none() {
            return Err(String::from_str("Schema 'id' field is required"));
        }
        if self.name.is_none() {
            return Err(String::from_str("Schema 'name' field is required"));
        }
        Ok(())
    }
}

} // verus!
