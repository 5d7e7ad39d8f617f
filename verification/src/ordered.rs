//! Maps from names to values that keep the order in which names were added.

use crate::model::DeepValue;
use indexmap::IndexMap;
use vstd::prelude::*;

verus! {

/// `indexmap::IndexMap`: a hash map that keeps its pairs in the order in
/// which their keys were first inserted. Nothing is known of a value of the
/// type but what the functions below state of it.
#[verifier::external_type_specification]
#[verifier::external_body]
#[verifier::reject_recursive_types(K)]
#[verifier::reject_recursive_types(V)]
#[verifier::reject_recursive_types(S)]
pub struct ExIndexMap<K, V, S>(IndexMap<K, V, S>);

/// The pairs of name and position that an index holds, in the order in which
/// the names were inserted.
pub uninterp spec fn index_pairs(m: IndexMap<String, usize>) -> Seq<(Seq<char>, usize)>;

/// `IndexMap::new`: the new map holds no pair.
#[verifier::external_body]
fn index_new() -> (m: IndexMap<String, usize>)
    ensures
        index_pairs(m) == Seq::<(Seq<char>, usize)>::empty(),
{
    IndexMap::new()
}

/// `IndexMap::get`: the value stored for `key` if the map holds a pair with
/// that key, and `None` if it holds none.
#[verifier::external_body]
fn index_get(m: &IndexMap<String, usize>, key: &str) -> (r: Option<usize>)
    ensures
        match r {
            Some(v) => exists|i: int|
                0 <= i < index_pairs(*m).len() && #[trigger] index_pairs(*m)[i] == (key@, v),
            None => forall|i: int|
                0 <= i < index_pairs(*m).len() ==> (#[trigger] index_pairs(*m)[i]).0 != key@,
        },
{
    m.get(key).copied()
}

/// `IndexMap::insert`: a key that the map does not hold is added last with its
/// value and `None` is returned; for a key that it holds, the pair keeps its
/// place, takes the new value, and the value it had is returned.
#[verifier::external_body]
fn index_insert(m: &mut IndexMap<String, usize>, key: String, value: usize) -> (r: Option<usize>)
    ensures
        match r {
            None => {
                &&& forall|i: int|
                    0 <= i < index_pairs(*old(m)).len() ==> (#[trigger] index_pairs(
                        *old(m),
                    )[i]).0 != key@
                &&& index_pairs(*final(m)) == index_pairs(*old(m)).push((key@, value))
            },
            Some(prev) => exists|i: int|
                {
                    &&& 0 <= i < index_pairs(*old(m)).len()
                    &&& #[trigger] index_pairs(*old(m))[i] == (key@, prev)
                    &&& index_pairs(*final(m)) == index_pairs(*old(m)).update(i, (key@, value))
                },
        },
{
    m.insert(key, value)
}

/// The value that stands with `key` in a list of pairs, if any does.
pub open spec fn spec_lookup<V>(pairs: Seq<(Seq<char>, V)>, key: Seq<char>) -> Option<V>
    decreases pairs.len(),
{
    if pairs.len() == 0 {
        None
    } else if pairs.last().0 == key {
        Some(pairs.last().1)
    } else {
        spec_lookup(pairs.drop_last(), key)
    }
}

/// In a list without repeated keys, looking a key up gives the value of the
/// one pair that holds it.
pub proof fn lemma_lookup_unique<V>(pairs: Seq<(Seq<char>, V)>, key: Seq<char>, i: int)
    requires
        0 <= i < pairs.len(),
        pairs[i].0 == key,
        forall|a: int, b: int| 0 <= a < b < pairs.len() ==> pairs[a].0 != pairs[b].0,
    ensures
        spec_lookup(pairs, key) == Some(pairs[i].1),
    decreases pairs.len(),
{
    if i != pairs.len() - 1 {
        assert(pairs.last().0 != key);
        lemma_lookup_unique(pairs.drop_last(), key, i);
    }
}

/// A key that no pair holds is not found.
pub proof fn lemma_lookup_absent<V>(pairs: Seq<(Seq<char>, V)>, key: Seq<char>)
    requires
        forall|a: int| 0 <= a < pairs.len() ==> pairs[a].0 != key,
    ensures
        spec_lookup(pairs, key) is None,
    decreases pairs.len(),
{
    if pairs.len() > 0 {
        lemma_lookup_absent(pairs.drop_last(), key);
    }
}

/// A key that is found stands in one of the pairs.
pub proof fn lemma_lookup_found<V>(pairs: Seq<(Seq<char>, V)>, key: Seq<char>)
    ensures
        spec_lookup(pairs, key) matches Some(v) ==> exists|i: int|
            0 <= i < pairs.len() && pairs[i] == (key, v),
        spec_lookup(pairs, key) is None ==> forall|i: int|
            0 <= i < pairs.len() ==> (#[trigger] pairs[i]).0 != key,
    decreases pairs.len(),
{
    if pairs.len() > 0 {
        lemma_lookup_found(pairs.drop_last(), key);
        if pairs.last().0 != key {
            if spec_lookup(pairs, key) is Some {
                let v = spec_lookup(pairs, key)->0;
                let i = choose|i: int|
                    0 <= i < pairs.drop_last().len() && pairs.drop_last()[i] == (key, v);
                assert(pairs[i] == (key, v));
            } else {
                assert forall|i: int| 0 <= i < pairs.len() implies (#[trigger] pairs[i]).0
                    != key by {
                    if i < pairs.len() - 1 {
                        assert(pairs.drop_last()[i].0 != key);
                    }
                }
            }
        } else {
            assert(pairs[pairs.len() - 1] == (key, pairs.last().1));
        }
    }
}

/// A map from names to values that remembers the order in which the names
/// were first inserted. Names are found through a hash index; the values are
/// kept in insertion order.
#[derive(Debug)]
pub struct OrderedMap<V> {
    index: IndexMap<String, usize>,
    names: Vec<String>,
    items: Vec<V>,
}

impl<V> OrderedMap<V> {
    #[verifier::type_invariant]
    closed spec fn inv(&self) -> bool {
        &&& self.names.len() == self.items.len()
        &&& index_pairs(self.index).len() == self.names.len()
        &&& forall|i: int|
            0 <= i < self.names.len() ==> #[trigger] index_pairs(self.index)[i] == (
                self.names[i]@,
                i as usize,
            )
        &&& forall|i: int, j: int|
            0 <= i < j < self.names.len() ==> self.names[i]@ != self.names[j]@
    }

    /// The names, in insertion order.
    pub closed spec fn keys(&self) -> Seq<Seq<char>> {
        Seq::new(self.names.len() as nat, |i: int| self.names[i]@)
    }

    /// The values, in the order of their names.
    pub closed spec fn values(&self) -> Seq<V> {
        self.items@
    }

    /// No name occurs twice and every name has one value.
    pub open spec fn well_formed(&self) -> bool {
        &&& self.keys().len() == self.values().len()
        &&& forall|i: int, j: int|
            0 <= i < j < self.keys().len() ==> self.keys()[i] != self.keys()[j]
    }

    /// Whether `key` is one of the names.
    pub open spec fn has(&self, key: Seq<char>) -> bool {
        self.keys().contains(key)
    }

    /// The pairs of name and value, in insertion order.
    pub open spec fn pairs(&self) -> Seq<(Seq<char>, V)> {
        Seq::new(self.keys().len(), |i: int| (self.keys()[i], self.values()[i]))
    }

    /// The value stored under `key`, if there is one.
    pub fn find(&self, key: &str) -> (r: Option<&V>)
        ensures
            self.well_formed(),
            match r {
                Some(v) => spec_lookup(self.pairs(), key@) == Some(*v),
                None => spec_lookup(self.pairs(), key@) is None,
            },
    {
        let r = self.get(key);
        proof {
            match r {
                Some(v) => {
                    let i = choose|i: int|
                        0 <= i < self.keys().len() && self.keys()[i] == key@ && self.values()[i]
                            == *v;
                    lemma_lookup_unique(self.pairs(), key@, i);
                },
                None => {
                    lemma_lookup_absent(self.pairs(), key@);
                },
            }
        }
        r
    }

    /// What a lookup in the index says about the names.
    proof fn lemma_lookup(&self, key: Seq<char>, r: Option<usize>)
        requires
            self.inv(),
            match r {
                Some(v) => exists|i: int|
                    0 <= i < index_pairs(self.index).len() && #[trigger] index_pairs(
                        self.index,
                    )[i] == (key, v),
                None => forall|i: int|
                    0 <= i < index_pairs(self.index).len() ==> (#[trigger] index_pairs(
                        self.index,
                    )[i]).0 != key,
            },
        ensures
            self.well_formed(),
            match r {
                Some(i) => i < self.keys().len() && self.keys()[i as int] == key,
                None => !self.has(key),
            },
    {
        match r {
            Some(v) => {
                let i = choose|i: int|
                    0 <= i < index_pairs(self.index).len() && #[trigger] index_pairs(
                        self.index,
                    )[i] == (key, v);
                assert(index_pairs(self.index)[i] == (self.names[i]@, i as usize));
            },
            None => {
                assert forall|j: int| 0 <= j < self.keys().len() implies self.keys()[j]
                    != key by {
                    assert(index_pairs(self.index)[j].0 != key);
                }
            },
        }
    }

    /// A map without entries.
    pub fn new() -> (m: Self)
        ensures
            m.keys() == Seq::<Seq<char>>::empty(),
            m.values() == Seq::<V>::empty(),
            m.well_formed(),
    {
        let m = OrderedMap { index: index_new(), names: Vec::new(), items: Vec::new() };
        assert(m.keys() =~= Seq::<Seq<char>>::empty());
        m
    }

    /// The number of entries.
    pub fn len(&self) -> (n: usize)
        ensures
            n == self.keys().len(),
            self.well_formed(),
    {
        proof {
            use_type_invariant(self);
        }
        self.names.len()
    }

    /// The position of `key` among the names, if it is one of them.
    pub fn get_index_of(&self, key: &str) -> (r: Option<usize>)
        ensures
            self.well_formed(),
            match r {
                Some(i) => i < self.keys().len() && self.keys()[i as int] == key@,
                None => !self.has(key@),
            },
    {
        proof {
            use_type_invariant(self);
        }
        let r = index_get(&self.index, key);
        proof {
            self.lemma_lookup(key@, r);
        }
        r
    }

    /// Whether `key` is one of the names.
    pub fn contains_key(&self, key: &str) -> (r: bool)
        ensures
            self.well_formed(),
            r == self.has(key@),
    {
        self.get_index_of(key).is_some()
    }

    /// The value stored under `key`, if there is one.
    pub fn get(&self, key: &str) -> (r: Option<&V>)
        ensures
            self.well_formed(),
            match r {
                Some(v) => exists|i: int|
                    0 <= i < self.keys().len() && self.keys()[i] == key@ && self.values()[i]
                        == *v,
                None => !self.has(key@),
            },
    {
        proof {
            use_type_invariant(self);
        }
        let r = index_get(&self.index, key);
        proof {
            self.lemma_lookup(key@, r);
        }
        match r {
            Some(i) => Some(&self.items[i]),
            None => None,
        }
    }

    /// The name and value at position `i`, if there are that many entries.
    pub fn get_index(&self, i: usize) -> (r: Option<(&String, &V)>)
        ensures
            self.well_formed(),
            match r {
                Some((k, v)) => i < self.keys().len() && k@ == self.keys()[i as int] && *v
                    == self.values()[i as int],
                None => i >= self.keys().len(),
            },
    {
        proof {
            use_type_invariant(self);
        }
        if i < self.names.len() {
            Some((&self.names[i], &self.items[i]))
        } else {
            None
        }
    }

    /// Stores `value` under `key`. A new name is added last; a name that is
    /// already there keeps its place, takes the new value, and the value it
    /// had is returned.
    pub fn insert(&mut self, key: String, value: V) -> (r: Option<V>)
        ensures
            final(self).well_formed(),
            match r {
                None => {
                    &&& !old(self).has(key@)
                    &&& final(self).keys() == old(self).keys().push(key@)
                    &&& final(self).values() == old(self).values().push(value)
                },
                Some(prev) => exists|i: int|
                    {
                        &&& 0 <= i < old(self).keys().len()
                        &&& old(self).keys()[i] == key@
                        &&& old(self).values()[i] == prev
                        &&& final(self).keys() == old(self).keys()
                        &&& final(self).values() == old(self).values().update(i, value)
                    },
            },
    {
        proof {
            use_type_invariant(&*self);
        }
        let mut taken = OrderedMap { index: index_new(), names: Vec::new(), items: Vec::new() };
        std::mem::swap(self, &mut taken);
        let ghost before = taken;
        let OrderedMap { mut index, mut names, mut items } = taken;
        let found = index_get(&index, key.as_str());
        proof {
            before.lemma_lookup(key@, found);
        }
        let r = match found {
            Some(i) => {
                items.push(value);
                let prev = items.swap_remove(i);
                assert(items@ =~= before.items@.update(i as int, value));
                Some(prev)
            },
            None => {
                let n = names.len();
                let copy = key.clone();
                let added = index_insert(&mut index, copy, n);
                proof {
                    if added is Some {
                        let j = choose|j: int|
                            0 <= j < index_pairs(before.index).len() && #[trigger] index_pairs(
                                before.index,
                            )[j] == (key@, added->0);
                        assert(before.keys()[j] == key@);
                    }
                }
                names.push(key);
                items.push(value);
                None
            },
        };
        proof {
            assert forall|i: int| 0 <= i < names.len() implies #[trigger] index_pairs(index)[i]
                == (names[i]@, i as usize) by {
                if i < before.names.len() {
                    assert(index_pairs(before.index)[i] == (before.names[i]@, i as usize));
                }
            }
            assert forall|i: int, j: int| 0 <= i < j < names.len() implies names[i]@
                != names[j]@ by {
                if j == before.names.len() {
                    assert(before.keys()[i] == before.names[i]@);
                }
            }
        }
        *self = OrderedMap { index, names, items };
        proof {
            if found is None {
                assert(final(self).keys() =~= before.keys().push(key@));
            } else {
                assert(final(self).keys() =~= before.keys());
            }
        }
        r
    }
}

impl<V: DeepView> DeepView for OrderedMap<V> {
    type V = Seq<(Seq<char>, V::V)>;

    open spec fn deep_view(&self) -> Seq<(Seq<char>, V::V)> {
        Seq::new(self.keys().len(), |i: int| (self.keys()[i], self.values()[i].deep_view()))
    }
}

impl<V: DeepView> OrderedMap<V> {
    /// The value stored under `key`, if there is one, by what the map holds.
    pub fn find_value(&self, key: &str) -> (r: Option<&V>)
        ensures
            self.well_formed(),
            match r {
                Some(v) => spec_lookup(self.deep_view(), key@) == Some(v.deep_view()),
                None => spec_lookup(self.deep_view(), key@) is None && !self.has(key@),
            },
    {
        let r = self.get(key);
        proof {
            match r {
                Some(v) => {
                    let i = choose|i: int|
                        0 <= i < self.keys().len() && self.keys()[i] == key@ && self.values()[i]
                            == *v;
                    lemma_lookup_unique(self.deep_view(), key@, i);
                },
                None => {
                    lemma_lookup_absent(self.deep_view(), key@);
                },
            }
        }
        r
    }

    /// Adds `value` under a name that the map does not hold yet.
    pub fn insert_new(&mut self, key: String, value: V)
        requires
            !old(self).has(key@),
        ensures
            final(self).well_formed(),
            final(self).keys() == old(self).keys().push(key@),
            final(self).values() == old(self).values().push(value),
            final(self).deep_view() == old(self).deep_view().push((key@, value.deep_view())),
    {
        let ghost before = self.deep_view();
        let prev = self.insert(key, value);
        proof {
            assert(prev is None);
            assert(self.deep_view() =~= before.push((key@, value.deep_view())));
        }
    }
}

impl<V: DeepValue> DeepValue for OrderedMap<V> {
    fn deep_clone(&self) -> (r: Self) {
        let mut out: OrderedMap<V> = OrderedMap::new();
        let n = self.len();
        let mut i: usize = 0;
        while i < n
            invariant
                i <= n,
                n == self.keys().len(),
                self.well_formed(),
                out.well_formed(),
                out.keys() == self.keys().take(i as int),
                out.values().len() == i,
                forall|j: int|
                    0 <= j < i ==> out.values()[j].deep_view() == self.values()[j].deep_view(),
            decreases n - i,
        {
            match self.get_index(i) {
                Some((k, v)) => {
                    assert(!out.keys().contains(k@)) by {
                        if out.keys().contains(k@) {
                            let j = choose|j: int| 0 <= j < out.keys().len() && out.keys()[j] == k@;
                            assert(self.keys()[j] == self.keys()[i as int]);
                        }
                    }
                    let prev = out.insert(k.deep_clone(), v.deep_clone());
                    assert(prev is None);
                    assert(out.keys() =~= self.keys().take(i + 1));
                },
                None => {},
            }
            i += 1;
        }
        assert(out.keys() =~= self.keys());
        assert(out.deep_view() =~= self.deep_view());
        out
    }

    fn deep_eq(&self, other: &Self) -> (r: bool) {
        let n = self.len();
        if n != other.len() {
            assert(self.deep_view().len() != other.deep_view().len());
            return false;
        }
        let mut i: usize = 0;
        while i < n
            invariant
                i <= n,
                n == self.keys().len(),
                n == other.keys().len(),
                self.well_formed(),
                other.well_formed(),
                forall|j: int| 0 <= j < i ==> self.deep_view()[j] == other.deep_view()[j],
            decreases n - i,
        {
            match (self.get_index(i), other.get_index(i)) {
                (Some((ka, va)), Some((kb, vb))) => {
                    if !(ka.deep_eq(kb) && va.deep_eq(vb)) {
                        assert(self.deep_view()[i as int] != other.deep_view()[i as int]);
                        return false;
                    }
                },
                _ => {},
            }
            i += 1;
        }
        assert(self.deep_view() =~= other.deep_view());
        true
    }
}

} // verus!
