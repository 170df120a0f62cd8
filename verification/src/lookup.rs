//! A small table whose keys are plain values.

use crate::datum::Datum;
use vstd::prelude::*;

verus! {

broadcast use vstd::map_lib::lemma_map_new_domain;

/// One row of a lookup.
pub struct Row<K, V> {
    pub key: K,
    pub value: V,
}

/// Keys and values in the order in which the keys were first set. No key occurs twice.
pub struct Lookup<K: Datum, V> {
    rows: Vec<Row<K, V>>,
}

/// No key occurs twice.
pub open spec fn distinct_rows<K: DeepView, V>(rows: Seq<Row<K, V>>) -> bool {
    forall|i: int, j: int|
        0 <= i < j < rows.len() ==> (#[trigger] rows[i]).key.deep_view() != (
        #[trigger] rows[j]).key.deep_view()
}

/// Some row has the key.
pub open spec fn has_row<K: DeepView, V>(rows: Seq<Row<K, V>>, key: K::V) -> bool {
    exists|i: int| 0 <= i < rows.len() && (#[trigger] rows[i]).key.deep_view() == key
}

/// The row of a key.
pub open spec fn row_at<K: DeepView, V>(rows: Seq<Row<K, V>>, key: K::V) -> int {
    choose|i: int| 0 <= i < rows.len() && (#[trigger] rows[i]).key.deep_view() == key
}

/// The map that the rows describe.
pub open spec fn lookup_map<K: DeepView, V>(rows: Seq<Row<K, V>>) -> Map<K::V, V> {
    Map::new(|key: K::V| has_row(rows, key), |key: K::V| rows[row_at(rows, key)].value)
}

impl<K: Datum, V> View for Lookup<K, V> {
    type V = Map<K::V, V>;

    closed spec fn view(&self) -> Map<K::V, V> {
        lookup_map(self.rows@)
    }
}

impl<K: Datum, V: DeepView> DeepView for Lookup<K, V> {
    type V = Map<K::V, V::V>;

    open spec fn deep_view(&self) -> Map<K::V, V::V> {
        self@.map_values(|value: V| value.deep_view())
    }
}

proof fn row_found<K: DeepView, V>(rows: Seq<Row<K, V>>, i: int)
    requires
        distinct_rows(rows),
        0 <= i < rows.len(),
    ensures
        has_row(rows, rows[i].key.deep_view()),
        row_at(rows, rows[i].key.deep_view()) == i,
        lookup_map(rows)[rows[i].key.deep_view()] == rows[i].value,
{
    let j = row_at(rows, rows[i].key.deep_view());
    assert(0 <= j < rows.len() && rows[j].key.deep_view() == rows[i].key.deep_view());
}

impl<K: Datum, V> Lookup<K, V> {
    #[verifier::type_invariant]
    spec fn well_formed(self) -> bool {
        distinct_rows(self.rows@)
    }
}

impl<K: Datum, V: DeepView> Lookup<K, V> {
    /// The keys in their order.
    pub closed spec fn keys(&self) -> Seq<K::V> {
        Seq::new(self.rows@.len(), |i: int| self.rows@[i].key.deep_view())
    }

    /// An empty lookup.
    pub fn new() -> (r: Lookup<K, V>)
        ensures
            r.deep_view() == Map::<K::V, V::V>::empty(),
            r@ == Map::<K::V, V>::empty(),
    {
        let r = Lookup { rows: Vec::new() };
        assert(r@ =~= Map::<K::V, V>::empty());
        assert(r.deep_view() =~= Map::<K::V, V::V>::empty());
        r
    }

    /// The number of rows. No key occurs twice.
    pub fn len(&self) -> (r: usize)
        ensures
            r == self.keys().len(),
            self.keys().no_duplicates(),
            forall|key: K::V| #[trigger] self@.contains_key(key) <==> self.keys().contains(key),
    {
        proof {
            use_type_invariant(self);
            assert forall|key: K::V| #[trigger] self@.contains_key(key) <==> self.keys().contains(
                key,
            ) by {
                if self@.contains_key(key) {
                    let i = row_at(self.rows@, key);
                    assert(self.keys()[i] == key);
                }
                if self.keys().contains(key) {
                    let i = choose|i: int| 0 <= i < self.keys().len() && self.keys()[i] == key;
                    assert(self.rows@[i].key.deep_view() == key);
                }
            }
        }
        self.rows.len()
    }

    /// The key of a row.
    pub fn key_at(&self, i: usize) -> (r: &K)
        requires
            i < self.keys().len(),
        ensures
            r.deep_view() == self.keys()[i as int],
            self@.contains_key(r.deep_view()),
    {
        proof {
            use_type_invariant(self);
            row_found(self.rows@, i as int);
        }
        &self.rows[i].key
    }

    fn locate(&self, key: &K) -> (r: Option<usize>)
        ensures
            r matches Some(i) ==> i < self.rows@.len() && self.rows@[i as int].key.deep_view()
                == key.deep_view(),
            r is None ==> !has_row(self.rows@, key.deep_view()),
    {
        let mut i: usize = 0;
        while i < self.rows.len()
            invariant
                i <= self.rows@.len(),
                forall|j: int|
                    0 <= j < i ==> (#[trigger] self.rows@[j]).key.deep_view() != key.deep_view(),
            decreases self.rows@.len() - i,
        {
            if self.rows[i].key.same_as(key) {
                return Some(i);
            }
            i = i + 1;
        }
        None
    }

    /// The value of a key.
    pub fn get(&self, key: &K) -> (r: Option<&V>)
        ensures
            r matches Some(value) ==> self@.contains_key(key.deep_view()) && *value
                == self@[key.deep_view()] && self.deep_view().contains_key(key.deep_view())
                && self.deep_view()[key.deep_view()] == value.deep_view(),
            r is None ==> !self@.contains_key(key.deep_view()) && !self.deep_view().contains_key(
                key.deep_view(),
            ),
    {
        match self.locate(key) {
            Some(i) => {
                proof {
                    use_type_invariant(self);
                    row_found(self.rows@, i as int);
                }
                Some(&self.rows[i].value)
            },
            None => None,
        }
    }

    /// Sets the value of a key.
    pub fn insert(&mut self, key: K, value: V)
        ensures
            final(self)@ == old(self)@.insert(key.deep_view(), value),
            final(self).deep_view() == old(self).deep_view().insert(
                key.deep_view(),
                value.deep_view(),
            ),
    {
        proof {
            use_type_invariant(&*self);
        }
        let located = self.locate(&key);
        let ghost before = self.rows@;
        let ghost name = key.deep_view();
        let mut rows: Vec<Row<K, V>> = Vec::new();
        std::mem::swap(&mut rows, &mut self.rows);
        match located {
            Some(i) => {
                rows.set(i, Row { key, value });
            },
            None => {
                rows.push(Row { key, value });
            },
        }
        proof {
            let after = rows@;
            let at: int = match located {
                Some(i) => i as int,
                None => before.len() as int,
            };
            assert(distinct_rows(after)) by {
                assert forall|i: int, j: int| 0 <= i < j < after.len() implies (
                #[trigger] after[i]).key.deep_view() != (#[trigger] after[j]).key.deep_view() by {
                    if i != at {
                        assert(after[i] == before[i]);
                    }
                    if j != at {
                        assert(after[j] == before[j]);
                    }
                    if located is Some {
                        assert(before[i].key.deep_view() == after[i].key.deep_view());
                        assert(before[j].key.deep_view() == after[j].key.deep_view());
                    }
                }
            }
            assert(after[at].key.deep_view() == name && after[at].value == value);
            row_found(after, at);
            assert forall|k: K::V| k != name implies has_row(after, k) == has_row(before, k) && (
            has_row(before, k) ==> lookup_map(after)[k] == lookup_map(before)[k]) by {
                if has_row(before, k) {
                    let j = row_at(before, k);
                    assert(after[j] == before[j]);
                    row_found(after, j);
                    row_found(before, j);
                }
                if has_row(after, k) {
                    let j = row_at(after, k);
                    assert(after[j] == before[j]);
                }
            }
            assert(lookup_map(after) =~= lookup_map(before).insert(name, value));
        }
        self.rows = rows;
        assert(self.deep_view() =~= old(self).deep_view().insert(name, value.deep_view()));
    }

    /// Takes the row of a key away.
    pub fn remove(&mut self, key: &K) -> (r: Option<V>)
        ensures
            final(self)@ == old(self)@.remove(key.deep_view()),
            final(self).deep_view() == old(self).deep_view().remove(key.deep_view()),
            r matches Some(value) ==> old(self)@.contains_key(key.deep_view()) && value
                == old(self)@[key.deep_view()],
            r is None ==> !old(self)@.contains_key(key.deep_view()),
    {
        proof {
            use_type_invariant(&*self);
        }
        let ghost before = self.rows@;
        let ghost name = key.deep_view();
        match self.locate(key) {
            None => {
                assert(self@ =~= old(self)@.remove(name));
                assert(self.deep_view() =~= old(self).deep_view().remove(name));
                None
            },
            Some(i) => {
                let mut rows: Vec<Row<K, V>> = Vec::new();
                std::mem::swap(&mut rows, &mut self.rows);
                let row = rows.remove(i);
                proof {
                    let after = rows@;
                    row_found(before, i as int);
                    assert forall|a: int, b: int| 0 <= a < b < after.len() implies (
                    #[trigger] after[a]).key.deep_view() != (#[trigger] after[b]).key.deep_view() by {
                        assert(after[a] == before[if a < i { a } else { a + 1 }]);
                        assert(after[b] == before[if b < i { b } else { b + 1 }]);
                    }
                    assert forall|k: K::V| has_row(after, k) == (has_row(before, k) && k != name)
                        && (has_row(after, k) ==> lookup_map(after)[k] == lookup_map(before)[k]) by {
                        if has_row(before, k) && k != name {
                            let j = row_at(before, k);
                            let n = if j < i { j } else { j - 1 };
                            assert(after[n] == before[j]);
                        }
                        if has_row(after, k) {
                            let n = row_at(after, k);
                            let j = if n < i { n } else { n + 1 };
                            assert(after[n] == before[j]);
                            row_found(after, n);
                            row_found(before, j);
                        }
                    }
                    assert(lookup_map(after) =~= lookup_map(before).remove(name));
                }
                self.rows = rows;
                assert(self.deep_view() =~= old(self).deep_view().remove(name));
                Some(row.value)
            },
        }
    }
}

} // verus!
