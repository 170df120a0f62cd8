//! An ordered table from texts to values.

use crate::datum::Datum;
use crate::text::{is_before, same_text};
use vstd::prelude::*;

verus! {

broadcast use vstd::map_lib::lemma_map_new_domain;

/// One row of a table.
#[derive(Debug, PartialEq, Eq)]
pub struct Entry<V> {
    pub key: String,
    pub value: V,
}

/// A finite map whose keys are kept in ascending order of their bytes.
#[derive(Debug, PartialEq, Eq)]
pub struct Table<V> {
    pub(crate) entries: Vec<Entry<V>>,
}

/// Each key comes before all later ones.
pub open spec fn ascending<V>(entries: Seq<Entry<V>>) -> bool {
    forall|i: int, j: int|
        0 <= i < j < entries.len() ==> crate::text::text_before(
            (#[trigger] entries[i]).key@,
            (#[trigger] entries[j]).key@,
        )
}

/// Some row has the key.
pub open spec fn has_key<V>(entries: Seq<Entry<V>>, key: Seq<char>) -> bool {
    exists|i: int| 0 <= i < entries.len() && (#[trigger] entries[i]).key@ == key
}

/// The row of a key.
pub open spec fn row_of<V>(entries: Seq<Entry<V>>, key: Seq<char>) -> int {
    choose|i: int| 0 <= i < entries.len() && (#[trigger] entries[i]).key@ == key
}

/// The map that the rows describe.
pub open spec fn rows_map<V>(entries: Seq<Entry<V>>) -> Map<Seq<char>, V> {
    Map::new(|key: Seq<char>| has_key(entries, key), |key: Seq<char>| entries[row_of(entries, key)].value)
}

proof fn row_is_unique<V>(entries: Seq<Entry<V>>, i: int)
    requires
        ascending(entries),
        0 <= i < entries.len(),
    ensures
        has_key(entries, entries[i].key@),
        row_of(entries, entries[i].key@) == i,
        rows_map(entries)[entries[i].key@] == entries[i].value,
{
    let key = entries[i].key@;
    let j = row_of(entries, key);
    crate::text::text_before_irreflexive(key);
    assert(0 <= j < entries.len() && entries[j].key@ == key);
}

pub(crate) proof fn view_is_rows_map<V>(table: Table<V>)
    ensures
        table@ == rows_map(table.entries@),
{
}

impl<V> View for Table<V> {
    type V = Map<Seq<char>, V>;

    closed spec fn view(&self) -> Map<Seq<char>, V> {
        rows_map(self.entries@)
    }
}

impl<V: DeepView> DeepView for Table<V> {
    type V = Map<Seq<char>, V::V>;

    open spec fn deep_view(&self) -> Map<Seq<char>, V::V> {
        self@.map_values(|value: V| value.deep_view())
    }
}

impl<V> Table<V> {
    #[verifier::type_invariant]
    pub(crate) closed spec fn well_formed(self) -> bool {
        ascending(self.entries@)
    }

    /// The keys in their order.
    pub closed spec fn keys(&self) -> Seq<Seq<char>> {
        Seq::new(self.entries@.len(), |i: int| self.entries@[i].key@)
    }

    /// An empty table.
    pub fn new() -> (r: Table<V>)
        ensures
            r@ == Map::<Seq<char>, V>::empty(),
            r.keys().len() == 0,
    {
        let r = Table { entries: Vec::new() };
        assert(r@ =~= Map::<Seq<char>, V>::empty());
        r
    }

    /// The number of rows. The keys stand in ascending order, each of them once.
    pub fn len(&self) -> (r: usize)
        ensures
            r == self.keys().len(),
            forall|key: Seq<char>| #[trigger] self@.contains_key(key) <==> self.keys().contains(key),
            forall|i: int, j: int|
                0 <= i < j < self.keys().len() ==> crate::text::text_before(
                    #[trigger] self.keys()[i],
                    #[trigger] self.keys()[j],
                ),
    {
        proof {
            use_type_invariant(self);
            assert forall|key: Seq<char>| #[trigger]
                self@.contains_key(key) <==> self.keys().contains(key) by {
                if self@.contains_key(key) {
                    let i = row_of(self.entries@, key);
                    assert(self.keys()[i] == key);
                }
                if self.keys().contains(key) {
                    let i = choose|i: int| 0 <= i < self.keys().len() && self.keys()[i] == key;
                    assert(self.entries@[i].key@ == key);
                }
            }
        }
        self.entries.len()
    }

    /// The key of a row.
    pub fn key_at(&self, i: usize) -> (r: &String)
        requires
            i < self.keys().len(),
        ensures
            r@ == self.keys()[i as int],
            self@.contains_key(r@),
    {
        proof {
            use_type_invariant(self);
            row_is_unique(self.entries@, i as int);
        }
        &self.entries[i].key
    }

    /// The value of a row.
    pub fn value_at(&self, i: usize) -> (r: &V)
        requires
            i < self.keys().len(),
        ensures
            *r == self@[self.keys()[i as int]],
            self@.contains_key(self.keys()[i as int]),
            decreases_to!(*self => *r),
    {
        proof {
            use_type_invariant(self);
            row_is_unique(self.entries@, i as int);
        }
        &self.entries[i].value
    }

    /// The rows below the result come before the key; the row at the result, if
    /// any, has the key or comes after it.
    fn locate(&self, key: &str) -> (r: (usize, bool))
        ensures
            r.0 <= self.entries@.len(),
            forall|j: int|
                0 <= j < r.0 ==> crate::text::text_before((#[trigger] self.entries@[j]).key@, key@),
            r.1 ==> r.0 < self.entries@.len() && self.entries@[r.0 as int].key@ == key@,
            !r.1 ==> !has_key(self.entries@, key@),
            !r.1 ==> forall|j: int|
                r.0 <= j < self.entries@.len() ==> crate::text::text_before(
                    key@,
                    (#[trigger] self.entries@[j]).key@,
                ),
    {
        proof {
            use_type_invariant(self);
            crate::text::text_before_irreflexive(key@);
        }
        let mut i: usize = 0;
        while i < self.entries.len()
            invariant
                i <= self.entries@.len(),
                ascending(self.entries@),
                !crate::text::text_before(key@, key@),
                forall|j: int|
                    0 <= j < i ==> crate::text::text_before(
                        (#[trigger] self.entries@[j]).key@,
                        key@,
                    ),
            decreases self.entries@.len() - i,
        {
            if same_text(self.entries[i].key.as_str(), key) {
                return (i, true);
            }
            if !is_before(self.entries[i].key.as_str(), key) {
                proof {
                    crate::text::text_before_total(self.entries@[i as int].key@, key@);
                    assert forall|j: int| i <= j < self.entries@.len() implies crate::text::text_before(
                        key@,
                        (#[trigger] self.entries@[j]).key@,
                    ) by {
                        if j > i {
                            crate::text::text_before_transitive(
                                key@,
                                self.entries@[i as int].key@,
                                self.entries@[j].key@,
                            );
                        }
                    }
                }
                return (i, false);
            }
            i = i + 1;
        }
        (i, false)
    }

    /// Whether the table has the key.
    pub fn contains_key(&self, key: &str) -> (r: bool)
        ensures
            r == self@.contains_key(key@),
    {
        self.locate(key).1
    }

    /// The value of a key.
    pub fn get(&self, key: &str) -> (r: Option<&V>)
        ensures
            r matches Some(value) ==> self@.contains_key(key@) && *value == self@[key@],
            r is None ==> !self@.contains_key(key@),
    {
        let (i, found) = self.locate(key);
        if found {
            proof {
                use_type_invariant(self);
                row_is_unique(self.entries@, i as int);
            }
            Some(&self.entries[i].value)
        } else {
            None
        }
    }

    /// Sets the value of a key.
    pub fn insert(&mut self, key: String, value: V)
        ensures
            final(self)@ == old(self)@.insert(key@, value),
    {
        proof {
            use_type_invariant(&*self);
        }
        let (i, found) = self.locate(key.as_str());
        let ghost before = self.entries@;
        let ghost entry = Entry { key, value };
        let mut entries: Vec<Entry<V>> = Vec::new();
        std::mem::swap(&mut entries, &mut self.entries);
        if found {
            entries.set(i, Entry { key, value });
        } else {
            entries.insert(i, Entry { key, value });
        }
        proof {
            let after = entries@;
            assert forall|a: int, b: int| 0 <= a < b < after.len() implies crate::text::text_before(
                (#[trigger] after[a]).key@,
                (#[trigger] after[b]).key@,
            ) by {
                if found {
                    assert(before[a].key@ == after[a].key@ && before[b].key@ == after[b].key@);
                } else {
                    if a < i && b > i {
                        assert(after[a] == before[a] && after[b] == before[b - 1]);
                    } else if a < i && b < i {
                        assert(after[a] == before[a] && after[b] == before[b]);
                    } else if a > i {
                        assert(after[a] == before[a - 1] && after[b] == before[b - 1]);
                    } else if a == i {
                        assert(after[b] == before[b - 1]);
                    } else {
                        assert(after[a] == before[a]);
                    }
                }
            }
            assert(after[i as int] == entry);
            row_is_unique(after, i as int);
            assert forall|k: Seq<char>| k != key@ implies has_key(after, k) == has_key(before, k)
                && (has_key(before, k) ==> rows_map(after)[k] == rows_map(before)[k]) by {
                if has_key(before, k) {
                    let j = row_of(before, k);
                    let n = if found || j < i { j } else { j + 1 };
                    assert(after[n] == before[j]);
                    row_is_unique(after, n);
                    row_is_unique(before, j);
                }
                if has_key(after, k) {
                    let n = row_of(after, k);
                    let j = if found || n < i { n } else { n - 1 };
                    assert(after[n] == before[j]);
                }
            }
            assert(rows_map(after) =~= rows_map(before).insert(key@, value));
        }
        self.entries = entries;
    }

    /// Takes the row of a key away.
    pub fn remove(&mut self, key: &str)
        ensures
            final(self)@ == old(self)@.remove(key@),
    {
        proof {
            use_type_invariant(&*self);
        }
        let (i, found) = self.locate(key);
        let ghost before = self.entries@;
        if found {
            let mut entries: Vec<Entry<V>> = Vec::new();
            std::mem::swap(&mut entries, &mut self.entries);
            let _ = entries.remove(i);
            proof {
                let after = entries@;
                row_is_unique(before, i as int);
                assert forall|a: int, b: int| 0 <= a < b < after.len() implies crate::text::text_before(
                    (#[trigger] after[a]).key@,
                    (#[trigger] after[b]).key@,
                ) by {
                    assert(after[a] == before[if a < i { a } else { a + 1 }]);
                    assert(after[b] == before[if b < i { b } else { b + 1 }]);
                }
                assert forall|k: Seq<char>| has_key(after, k) == (has_key(before, k) && k != key@)
                    && (has_key(after, k) ==> rows_map(after)[k] == rows_map(before)[k]) by {
                    if has_key(before, k) && k != key@ {
                        let j = row_of(before, k);
                        let n = if j < i { j } else { j - 1 };
                        assert(after[n] == before[j]);
                    }
                    if has_key(after, k) {
                        let n = row_of(after, k);
                        let j = if n < i { n } else { n + 1 };
                        assert(after[n] == before[j]);
                        row_is_unique(after, n);
                        row_is_unique(before, j);
                    }
                }
                assert(rows_map(after) =~= rows_map(before).remove(key@));
            }
            self.entries = entries;
        } else {
            assert(self@ =~= old(self)@.remove(key@));
        }
    }
}

impl<V: DeepView> Table<V> {
    /// Sets the value of a key.
    pub fn put(&mut self, key: String, value: V)
        ensures
            final(self)@ == old(self)@.insert(key@, value),
            final(self).deep_view() == old(self).deep_view().insert(key@, value.deep_view()),
    {
        self.insert(key, value);
        assert(self.deep_view() =~= old(self).deep_view().insert(key@, value.deep_view()));
    }

    /// The value of a key.
    pub fn find(&self, key: &str) -> (r: Option<&V>)
        ensures
            r matches Some(value) ==> self.deep_view().contains_key(key@)
                && self.deep_view()[key@] == value.deep_view() && self@.contains_key(key@)
                && self@[key@] == *value,
            r is None ==> !self.deep_view().contains_key(key@) && !self@.contains_key(key@),
    {
        self.get(key)
    }
}

/// Two tables agree when each holds the keys of the other, with the same values.
pub(crate) proof fn tables_agree<V: DeepView>(a: Table<V>, b: Table<V>)
    requires
        forall|key: Seq<char>| #[trigger] a@.contains_key(key) <==> a.keys().contains(key),
        forall|key: Seq<char>| #[trigger] b@.contains_key(key) <==> b.keys().contains(key),
        forall|j: int|
            0 <= j < a.keys().len() ==> b@.contains_key(#[trigger] a.keys()[j])
                && b@[a.keys()[j]].deep_view() == a@[a.keys()[j]].deep_view(),
        forall|j: int| 0 <= j < b.keys().len() ==> a@.contains_key(#[trigger] b.keys()[j]),
    ensures
        a.deep_view() == b.deep_view(),
{
    assert forall|k: Seq<char>| a@.contains_key(k) implies b@.contains_key(k) && b@[k].deep_view()
        == a@[k].deep_view() by {
        let j = choose|j: int| 0 <= j < a.keys().len() && a.keys()[j] == k;
        assert(a.keys()[j] == k);
    }
    assert forall|k: Seq<char>| b@.contains_key(k) implies a@.contains_key(k) by {
        let j = choose|j: int| 0 <= j < b.keys().len() && b.keys()[j] == k;
        assert(b.keys()[j] == k);
    }
    assert(a.deep_view() =~= b.deep_view());
}

impl<V: Datum> Datum for Table<V> {
    fn duplicate(&self) -> (r: Table<V>) {
        proof {
            use_type_invariant(self);
        }
        let mut entries: Vec<Entry<V>> = Vec::new();
        let mut i: usize = 0;
        while i < self.entries.len()
            invariant
                i <= self.entries@.len(),
                entries@.len() == i,
                forall|j: int|
                    0 <= j < i ==> (#[trigger] entries@[j]).key@ == self.entries@[j].key@
                        && entries@[j].value.deep_view() == self.entries@[j].value.deep_view(),
            decreases self.entries@.len() - i,
        {
            let entry = Entry {
                key: self.entries[i].key.clone(),
                value: self.entries[i].value.duplicate(),
            };
            entries.push(entry);
            i = i + 1;
        }
        proof {
            let a = self.entries@;
            let b = entries@;
            assert forall|i: int, j: int| 0 <= i < j < b.len() implies crate::text::text_before(
                (#[trigger] b[i]).key@,
                (#[trigger] b[j]).key@,
            ) by {
                assert(a[i].key@ == b[i].key@ && a[j].key@ == b[j].key@);
            }
            assert forall|k: Seq<char>| has_key(a, k) == has_key(b, k) && (has_key(a, k)
                ==> rows_map(a)[k].deep_view() == rows_map(b)[k].deep_view()) by {
                if has_key(a, k) {
                    let j = row_of(a, k);
                    assert(b[j].key@ == k);
                    row_is_unique(a, j);
                    row_is_unique(b, j);
                }
                if has_key(b, k) {
                    let j = row_of(b, k);
                    assert(a[j].key@ == k);
                }
            }
        }
        let r = Table { entries };
        assert(r.deep_view() =~= self.deep_view());
        r
    }

    fn same_as(&self, other: &Table<V>) -> (r: bool) {
        let n = self.len();
        let m = other.len();
        let mut i: usize = 0;
        while i < n
            invariant
                i <= n,
                n == self.keys().len(),
                forall|j: int|
                    0 <= j < i ==> other@.contains_key(#[trigger] self.keys()[j])
                        && other@[self.keys()[j]].deep_view() == self@[self.keys()[j]].deep_view(),
            decreases n - i,
        {
            let key = self.key_at(i);
            match other.get(key.as_str()) {
                Some(value) => {
                    if !self.value_at(i).same_as(value) {
                        assert(self.deep_view()[key@] != other.deep_view()[key@]);
                        return false;
                    }
                },
                None => {
                    assert(self.deep_view().contains_key(key@));
                    assert(!other.deep_view().contains_key(key@));
                    return false;
                },
            }
            i = i + 1;
        }
        let mut i: usize = 0;
        while i < m
            invariant
                i <= m,
                m == other.keys().len(),
                forall|j: int| 0 <= j < i ==> self@.contains_key(#[trigger] other.keys()[j]),
            decreases m - i,
        {
            let key = other.key_at(i);
            if !self.contains_key(key.as_str()) {
                assert(!self.deep_view().contains_key(key@));
                assert(other.deep_view().contains_key(key@));
                return false;
            }
            i = i + 1;
        }
        proof {
            tables_agree(*self, *other);
        }
        true
    }
}

/// A prefix of the keys that is longer by one holds one key more.
pub(crate) proof fn prefix_grows(keys: Seq<Seq<char>>, i: int)
    requires
        0 <= i < keys.len(),
    ensures
        forall|key: Seq<char>| #[trigger]
            keys.take(i + 1).contains(key) <==> keys.take(i).contains(key) || key == keys[i],
{
    let more = keys.take(i + 1);
    let fewer = keys.take(i);
    assert forall|key: Seq<char>| #[trigger]
        more.contains(key) <==> fewer.contains(key) || key == keys[i] by {
        assert(more[i] == keys[i]);
        if fewer.contains(key) {
            let j = choose|j: int| 0 <= j < fewer.len() && fewer[j] == key;
            assert(more[j] == key);
        }
        if more.contains(key) && key != keys[i] {
            let j = choose|j: int| 0 <= j < more.len() && more[j] == key;
            assert(fewer[j] == key);
        }
    }
}

/// There are as many keys as rows.
pub(crate) proof fn keys_are_counted<V: DeepView>(rows: Map<Seq<char>, V::V>, keys: Seq<Seq<char>>)
    requires
        forall|key: Seq<char>| #[trigger] rows.contains_key(key) <==> keys.contains(key),
        forall|i: int, j: int|
            0 <= i < j < keys.len() ==> crate::text::text_before(
                #[trigger] keys[i],
                #[trigger] keys[j],
            ),
    ensures
        rows.dom().finite(),
        rows.dom().len() == keys.len(),
{
    assert forall|i: int, j: int| 0 <= i < keys.len() && 0 <= j < keys.len() && i != j implies keys[i]
        != keys[j] by {
        crate::text::text_before_irreflexive(keys[i]);
    }
    assert(keys.no_duplicates());
    keys.unique_seq_to_set();
    assert(rows.dom() =~= keys.to_set());
}

} // verus!
