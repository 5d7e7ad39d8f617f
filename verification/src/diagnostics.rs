//! References that name nothing.
//!
//! A schema is loaded even where a class names a parent, a mixin or a slot
//! that is declared nowhere. Such references are found here, for those who
//! validate against the schema.

use crate::error::DeclarationKind;
use crate::model::DeepValue;
use crate::ordered::OrderedMap;
use crate::types::{
    ClassDefinition, ClassDefinitionView, SchemaDefinition, SchemaDefinitionView, SlotDefinition,
    SlotDefinitionView, TypeDefinition, TypeDefinitionView,
};
use vstd::prelude::*;

verus! {

/// What a reference is.
#[derive(Debug, Clone, Copy, PartialEq, Eq, Structural)]
pub enum ReferenceRole {
    /// The parent of a class or of a slot.
    IsA,
    /// A mixin of a class or of a slot.
    Mixin,
    /// A class that a class is a subclass of.
    SubclassOf,
    /// A slot of a class.
    Slot,
    /// The parent of a type.
    TypeOf,
}

impl DeepView for ReferenceRole {
    type V = ReferenceRole;

    open spec fn deep_view(&self) -> ReferenceRole {
        *self
    }
}

impl DeepValue for ReferenceRole {
    fn deep_clone(&self) -> (r: Self) {
        *self
    }

    fn deep_eq(&self, other: &Self) -> (r: bool) {
        *self == *other
    }
}

/// A reference that names no declaration.
#[derive(Debug)]
pub struct UnresolvedReference {
    /// The kind of the declaration that holds the reference.
    pub owner_kind: DeclarationKind,
    /// The name of the declaration that holds the reference.
    pub owner: String,
    /// What the reference is.
    pub role: ReferenceRole,
    /// The name that is declared nowhere.
    pub reference: String,
}

/// What a [`UnresolvedReference`] holds, as mathematical values.
pub struct UnresolvedReferenceView {
    pub owner_kind: DeclarationKind,
    pub owner: Seq<char>,
    pub role: ReferenceRole,
    pub reference: Seq<char>,
}

impl DeepView for UnresolvedReference {
    type V = UnresolvedReferenceView;

    open spec fn deep_view(&self) -> UnresolvedReferenceView {
        UnresolvedReferenceView {
            owner_kind: self.owner_kind.deep_view(),
            owner: self.owner.deep_view(),
            role: self.role.deep_view(),
            reference: self.reference.deep_view(),
        }
    }
}

impl DeepValue for UnresolvedReference {
    fn deep_clone(&self) -> (r: Self) {
        UnresolvedReference {
            owner_kind: self.owner_kind.deep_clone(),
            owner: self.owner.deep_clone(),
            role: self.role.deep_clone(),
            reference: self.reference.deep_clone(),
        }
    }

    fn deep_eq(&self, other: &Self) -> (r: bool) {
        self.owner_kind.deep_eq(&other.owner_kind)
            && self.owner.deep_eq(&other.owner)
            && self.role.deep_eq(&other.role)
            && self.reference.deep_eq(&other.reference)
    }
}

/// The names under which a mapping holds its values.
pub open spec fn spec_names<V>(pairs: Seq<(Seq<char>, V)>) -> Seq<Seq<char>> {
    Seq::new(pairs.len(), |i: int| pairs[i].0)
}

/// `acc` with the record of a reference, unless one of the two lists of
/// names holds it.
pub open spec fn spec_check(
    acc: Seq<UnresolvedReferenceView>,
    known: Seq<Seq<char>>,
    local: Seq<Seq<char>>,
    owner_kind: DeclarationKind,
    owner: Seq<char>,
    role: ReferenceRole,
    reference: Seq<char>,
) -> Seq<UnresolvedReferenceView> {
    if known.contains(reference) || local.contains(reference) {
        acc
    } else {
        acc.push(UnresolvedReferenceView { owner_kind, owner, role, reference })
    }
}

/// `acc` with the record of an optional reference that names nothing.
pub open spec fn spec_check_opt(
    acc: Seq<UnresolvedReferenceView>,
    known: Seq<Seq<char>>,
    owner_kind: DeclarationKind,
    owner: Seq<char>,
    role: ReferenceRole,
    reference: Option<Seq<char>>,
) -> Seq<UnresolvedReferenceView> {
    match reference {
        Some(r) => spec_check(acc, known, Seq::empty(), owner_kind, owner, role, r),
        None => acc,
    }
}

/// `acc` with the records of the references of a list, from the `i`-th on,
/// that name nothing.
pub open spec fn spec_check_list(
    acc: Seq<UnresolvedReferenceView>,
    known: Seq<Seq<char>>,
    local: Seq<Seq<char>>,
    owner_kind: DeclarationKind,
    owner: Seq<char>,
    role: ReferenceRole,
    list: Seq<Seq<char>>,
    i: int,
) -> Seq<UnresolvedReferenceView>
    decreases list.len() - i,
{
    if !(0 <= i < list.len()) {
        acc
    } else {
        spec_check_list(
            spec_check(acc, known, local, owner_kind, owner, role, list[i]),
            known,
            local,
            owner_kind,
            owner,
            role,
            list,
            i + 1,
        )
    }
}

/// `acc` with the records of one class: its parent, its mixins and the
/// classes it is a subclass of must be classes; its slots must be slots of
/// the schema or attributes of the class.
pub open spec fn spec_check_class(
    acc: Seq<UnresolvedReferenceView>,
    schema: SchemaDefinitionView,
    name: Seq<char>,
    c: ClassDefinitionView,
) -> Seq<UnresolvedReferenceView> {
    let classes = spec_names(schema.classes);
    let none = Seq::<Seq<char>>::empty();
    let kind = DeclarationKind::Class;
    let acc = spec_check_opt(acc, classes, kind, name, ReferenceRole::IsA, c.is_a);
    let acc = spec_check_list(acc, classes, none, kind, name, ReferenceRole::Mixin, c.mixins, 0);
    let acc = spec_check_list(
        acc,
        classes,
        none,
        kind,
        name,
        ReferenceRole::SubclassOf,
        c.subclass_of,
        0,
    );
    spec_check_list(
        acc,
        spec_names(schema.slots),
        spec_names(c.attributes),
        kind,
        name,
        ReferenceRole::Slot,
        c.slots,
        0,
    )
}

/// `acc` with the records of one slot: its parent and its mixins must be
/// slots.
pub open spec fn spec_check_slot(
    acc: Seq<UnresolvedReferenceView>,
    schema: SchemaDefinitionView,
    name: Seq<char>,
    s: SlotDefinitionView,
) -> Seq<UnresolvedReferenceView> {
    let slots = spec_names(schema.slots);
    let kind = DeclarationKind::Slot;
    let acc = spec_check_opt(acc, slots, kind, name, ReferenceRole::IsA, s.is_a);
    spec_check_list(acc, slots, Seq::empty(), kind, name, ReferenceRole::Mixin, s.mixins, 0)
}

/// `acc` with the records of the classes from the `i`-th on.
pub open spec fn spec_check_classes(
    acc: Seq<UnresolvedReferenceView>,
    schema: SchemaDefinitionView,
    i: int,
) -> Seq<UnresolvedReferenceView>
    decreases schema.classes.len() - i,
{
    if !(0 <= i < schema.classes.len()) {
        acc
    } else {
        spec_check_classes(
            spec_check_class(acc, schema, schema.classes[i].0, schema.classes[i].1),
            schema,
            i + 1,
        )
    }
}

/// `acc` with the records of the slots from the `i`-th on.
pub open spec fn spec_check_slots(
    acc: Seq<UnresolvedReferenceView>,
    schema: SchemaDefinitionView,
    i: int,
) -> Seq<UnresolvedReferenceView>
    decreases schema.slots.len() - i,
{
    if !(0 <= i < schema.slots.len()) {
        acc
    } else {
        spec_check_slots(
            spec_check_slot(acc, schema, schema.slots[i].0, schema.slots[i].1),
            schema,
            i + 1,
        )
    }
}

/// `acc` with the records of the types from the `i`-th on: the parent of a
/// type must be a type.
pub open spec fn spec_check_types(
    acc: Seq<UnresolvedReferenceView>,
    schema: SchemaDefinitionView,
    i: int,
) -> Seq<UnresolvedReferenceView>
    decreases schema.types.len() - i,
{
    if !(0 <= i < schema.types.len()) {
        acc
    } else {
        spec_check_types(
            spec_check_opt(
                acc,
                spec_names(schema.types),
                DeclarationKind::Type,
                schema.types[i].0,
                ReferenceRole::TypeOf,
                schema.types[i].1.typeof_,
            ),
            schema,
            i + 1,
        )
    }
}

/// The references of a schema that name nothing: those of the classes, then
/// those of the slots, then those of the types, in the order in which the
/// declarations and their references stand.
pub open spec fn spec_unresolved(schema: SchemaDefinitionView) -> Seq<UnresolvedReferenceView> {
    spec_check_types(
        spec_check_slots(spec_check_classes(Seq::empty(), schema, 0), schema, 0),
        schema,
        0,
    )
}

/// Records a reference unless one of the two mappings holds its name.
fn check<A, B>(
    out: &mut Vec<UnresolvedReference>,
    known: &OrderedMap<A>,
    local: Option<&OrderedMap<B>>,
    owner_kind: DeclarationKind,
    owner: &String,
    role: ReferenceRole,
    reference: &String,
)
    ensures
        final(out).deep_view() == spec_check(
            old(out).deep_view(),
            known.keys(),
            match local {
                Some(m) => m.keys(),
                None => Seq::empty(),
            },
            owner_kind,
            owner@,
            role,
            reference@,
        ),
{
    let found = known.contains_key(reference.as_str()) || match local {
        Some(m) => m.contains_key(reference.as_str()),
        None => false,
    };
    if !found {
        let ghost before = out.deep_view();
        let record = UnresolvedReference {
            owner_kind,
            owner: owner.clone(),
            role,
            reference: reference.clone(),
        };
        out.push(record);
        assert(out.deep_view() =~= before.push(record.deep_view()));
    }
}

/// Records the references of a list that name nothing.
fn check_list<A, B>(
    out: &mut Vec<UnresolvedReference>,
    known: &OrderedMap<A>,
    local: Option<&OrderedMap<B>>,
    owner_kind: DeclarationKind,
    owner: &String,
    role: ReferenceRole,
    list: &Vec<String>,
)
    ensures
        final(out).deep_view() == spec_check_list(
            old(out).deep_view(),
            known.keys(),
            match local {
                Some(m) => m.keys(),
                None => Seq::empty(),
            },
            owner_kind,
            owner@,
            role,
            list.deep_view(),
            0,
        ),
{
    let ghost names = match local {
        Some(m) => m.keys(),
        None => Seq::empty(),
    };
    let mut i: usize = 0;
    while i < list.len()
        invariant
            i <= list.len(),
            names == match local {
                Some(m) => m.keys(),
                None => Seq::<Seq<char>>::empty(),
            },
            spec_check_list(
                old(out).deep_view(),
                known.keys(),
                names,
                owner_kind,
                owner@,
                role,
                list.deep_view(),
                0,
            ) == spec_check_list(
                out.deep_view(),
                known.keys(),
                names,
                owner_kind,
                owner@,
                role,
                list.deep_view(),
                i as int,
            ),
        decreases list.len() - i,
    {
        check(out, known, local, owner_kind, owner, role, &list[i]);
        i += 1;
    }
}

/// Records an optional reference that names nothing.
fn check_opt<A>(
    out: &mut Vec<UnresolvedReference>,
    known: &OrderedMap<A>,
    owner_kind: DeclarationKind,
    owner: &String,
    role: ReferenceRole,
    reference: &Option<String>,
)
    ensures
        final(out).deep_view() == spec_check_opt(
            old(out).deep_view(),
            known.keys(),
            owner_kind,
            owner@,
            role,
            reference.deep_view(),
        ),
{
    match reference {
        Some(r) => {
            let none: Option<&OrderedMap<A>> = None;
            check(out, known, none, owner_kind, owner, role, r);
        },
        None => {},
    }
}

/// The names of a mapping are the names of what it holds.
proof fn lemma_names<V: DeepView>(m: &OrderedMap<V>)
    ensures
        spec_names(m.deep_view()) == m.keys(),
{
    assert(spec_names(m.deep_view()) =~= m.keys());
}

/// The references of a schema that name nothing. Loading does not fail on
/// them: they are for those who validate against the schema.
#[verifier::loop_isolation(false)]
pub fn unresolved_references(schema: &SchemaDefinition) -> (r: Vec<UnresolvedReference>)
    ensures
        r.deep_view() == spec_unresolved(schema.deep_view()),
{
    let mut out: Vec<UnresolvedReference> = Vec::new();
    assert(out.deep_view() =~= Seq::empty());
    let ghost view = schema.deep_view();
    proof {
        lemma_names(&schema.classes);
        lemma_names(&schema.slots);
        lemma_names(&schema.types);
    }
    let none_classes: Option<&OrderedMap<ClassDefinition>> = None;
    let n = schema.classes.len();
    let mut i: usize = 0;
    while i < n
        invariant
            i <= n,
            n == schema.classes.keys().len(),
            view == schema.deep_view(),
            spec_names(view.classes) == schema.classes.keys(),
            spec_names(view.slots) == schema.slots.keys(),
            spec_check_classes(Seq::empty(), view, 0) == spec_check_classes(
                out.deep_view(),
                view,
                i as int,
            ),
        decreases n - i,
    {
        match schema.classes.get_index(i) {
            Some((name, c)) => {
                proof {
                    lemma_names(&c.attributes);
                    assert(c.deep_view() == view.classes[i as int].1);
                }
                let kind = DeclarationKind::Class;
                check_opt(&mut out, &schema.classes, kind, name, ReferenceRole::IsA, &c.is_a);
                check_list(
                    &mut out,
                    &schema.classes,
                    none_classes,
                    kind,
                    name,
                    ReferenceRole::Mixin,
                    &c.mixins,
                );
                check_list(
                    &mut out,
                    &schema.classes,
                    none_classes,
                    kind,
                    name,
                    ReferenceRole::SubclassOf,
                    &c.subclass_of,
                );
                check_list(
                    &mut out,
                    &schema.slots,
                    Some(&c.attributes),
                    kind,
                    name,
                    ReferenceRole::Slot,
                    &c.slots,
                );
            },
            None => {},
        }
        i += 1;
    }
    let ghost after_classes = out.deep_view();
    let none_slots: Option<&OrderedMap<SlotDefinition>> = None;
    let n = schema.slots.len();
    let mut i: usize = 0;
    while i < n
        invariant
            i <= n,
            n == schema.slots.keys().len(),
            view == schema.deep_view(),
            spec_names(view.slots) == schema.slots.keys(),
            spec_check_slots(after_classes, view, 0) == spec_check_slots(
                out.deep_view(),
                view,
                i as int,
            ),
        decreases n - i,
    {
        match schema.slots.get_index(i) {
            Some((name, s)) => {
                proof {
                    assert(s.deep_view() == view.slots[i as int].1);
                }
                let kind = DeclarationKind::Slot;
                check_opt(&mut out, &schema.slots, kind, name, ReferenceRole::IsA, &s.is_a);
                check_list(
                    &mut out,
                    &schema.slots,
                    none_slots,
                    kind,
                    name,
                    ReferenceRole::Mixin,
                    &s.mixins,
                );

            },
            None => {},
        }
        i += 1;
    }
    let ghost after_slots = out.deep_view();
    let n = schema.types.len();
    let mut i: usize = 0;
    while i < n
        invariant
            i <= n,
            n == schema.types.keys().len(),
            view == schema.deep_view(),
            spec_names(view.types) == schema.types.keys(),
            spec_check_types(after_slots, view, 0) == spec_check_types(
                out.deep_view(),
                view,
                i as int,
            ),
        decreases n - i,
    {
        match schema.types.get_index(i) {
            Some((name, t)) => {
                proof {
                    assert(t.deep_view() == view.types[i as int].1);
                }
                check_opt(
                    &mut out,
                    &schema.types,
                    DeclarationKind::Type,
                    name,
                    ReferenceRole::TypeOf,
                    &t.typeof_,
                );
            },
            None => {},
        }
        i += 1;
    }
    out
}

} // verus!
