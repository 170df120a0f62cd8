//! Plain values: what can be copied and compared without changing its meaning.

use crate::text::same_text;
use std::sync::Arc;
use vstd::prelude::*;

verus! {

/// A value that its deep view describes completely.
pub trait Datum: DeepView + Sized {
    /// A copy with the same contents.
    fn duplicate(&self) -> (r: Self)
        ensures
            r.deep_view() == self.deep_view(),
    ;

    /// Whether both values have the same contents.
    fn same_as(&self, other: &Self) -> (r: bool)
        ensures
            r == (self.deep_view() == other.deep_view()),
    ;
}

/// The deep view of a result: that of its value or of its error.
pub open spec fn outcome<T: DeepView, E: DeepView>(r: Result<T, E>) -> Result<T::V, E::V> {
    match r {
        Ok(value) => Ok(value.deep_view()),
        Err(error) => Err(error.deep_view()),
    }
}

/// `Arc::clone`: another handle of the same value.
#[verifier::external_body]
pub(crate) fn share<T>(value: &Arc<T>) -> (r: Arc<T>)
    ensures
        r == *value,
{
    Arc::clone(value)
}

impl Datum for bool {
    fn duplicate(&self) -> (r: bool) {
        *self
    }

    fn same_as(&self, other: &bool) -> (r: bool) {
        *self == *other
    }
}

impl Datum for u8 {
    fn duplicate(&self) -> (r: u8) {
        *self
    }

    fn same_as(&self, other: &u8) -> (r: bool) {
        *self == *other
    }
}

impl Datum for u32 {
    fn duplicate(&self) -> (r: u32) {
        *self
    }

    fn same_as(&self, other: &u32) -> (r: bool) {
        *self == *other
    }
}

impl Datum for u64 {
    fn duplicate(&self) -> (r: u64) {
        *self
    }

    fn same_as(&self, other: &u64) -> (r: bool) {
        *self == *other
    }
}

impl Datum for usize {
    fn duplicate(&self) -> (r: usize) {
        *self
    }

    fn same_as(&self, other: &usize) -> (r: bool) {
        *self == *other
    }
}

impl Datum for i64 {
    fn duplicate(&self) -> (r: i64) {
        *self
    }

    fn same_as(&self, other: &i64) -> (r: bool) {
        *self == *other
    }
}

impl Datum for String {
    fn duplicate(&self) -> (r: String) {
        self.clone()
    }

    fn same_as(&self, other: &String) -> (r: bool) {
        same_text(self.as_str(), other.as_str())
    }
}

impl<T: Datum> Datum for Option<T> {
    fn duplicate(&self) -> (r: Option<T>) {
        match self {
            Some(value) => Some(value.duplicate()),
            None => None,
        }
    }

    fn same_as(&self, other: &Option<T>) -> (r: bool) {
        match (self, other) {
            (Some(a), Some(b)) => a.same_as(b),
            (None, None) => true,
            _ => false,
        }
    }
}

impl<T: Datum> Datum for Box<T> {
    fn duplicate(&self) -> (r: Box<T>) {
        Box::new((**self).duplicate())
    }

    fn same_as(&self, other: &Box<T>) -> (r: bool) {
        (**self).same_as(&**other)
    }
}

impl<T: Datum> Datum for Arc<T> {
    fn duplicate(&self) -> (r: Arc<T>) {
        share(self)
    }

    fn same_as(&self, other: &Arc<T>) -> (r: bool) {
        (**self).same_as(&**other)
    }
}

impl<T: Datum> Datum for Vec<T> {
    fn duplicate(&self) -> (r: Vec<T>) {
        let mut r: Vec<T> = Vec::new();
        let mut i: usize = 0;
        while i < self.len()
            invariant
                i <= self.len(),
                r.len() == i,
                forall|j: int| 0 <= j < i ==> (#[trigger] r@[j]).deep_view() == self@[j].deep_view(),
            decreases self.len() - i,
        {
            r.push(self[i].duplicate());
            i = i + 1;
        }
        assert(r.deep_view() =~= self.deep_view());
        r
    }

    fn same_as(&self, other: &Vec<T>) -> (r: bool) {
        if self.len() != other.len() {
            assert(self.deep_view().len() != other.deep_view().len());
            return false;
        }
        let mut i: usize = 0;
        while i < self.len()
            invariant
                i <= self.len(),
                self.len() == other.len(),
                forall|j: int| 0 <= j < i ==> (#[trigger] self@[j]).deep_view() == other@[j].deep_view(),
            decreases self.len() - i,
        {
            if !self[i].same_as(&other[i]) {
                assert(self.deep_view()[i as int] != other.deep_view()[i as int]);
                return false;
            }
            i = i + 1;
        }
        assert(self.deep_view() =~= other.deep_view());
        true
    }
}

/// Whether the list holds the value.
pub fn holds<T: Datum>(list: &Vec<T>, value: &T) -> (r: bool)
    ensures
        r == list.deep_view().contains(value.deep_view()),
{
    let mut i: usize = 0;
    while i < list.len()
        invariant
            i <= list.len(),
            forall|j: int| 0 <= j < i ==> (#[trigger] list.deep_view()[j]) != value.deep_view(),
        decreases list.len() - i,
    {
        if list[i].same_as(value) {
            assert(list.deep_view()[i as int] == value.deep_view());
            return true;
        }
        i = i + 1;
    }
    false
}

/// Every member of `inner` is a member of `outer`.
pub open spec fn included<T>(inner: Seq<T>, outer: Seq<T>) -> bool {
    forall|i: int| 0 <= i < inner.len() ==> outer.contains(#[trigger] inner[i])
}

/// Whether every member of `inner` is a member of `outer`.
pub fn is_included<T: Datum>(inner: &Vec<T>, outer: &Vec<T>) -> (r: bool)
    ensures
        r == included(inner.deep_view(), outer.deep_view()),
{
    let mut i: usize = 0;
    while i < inner.len()
        invariant
            i <= inner.len(),
            forall|j: int|
                0 <= j < i ==> outer.deep_view().contains(#[trigger] inner.deep_view()[j]),
        decreases inner.len() - i,
    {
        if !holds(outer, &inner[i]) {
            assert(!outer.deep_view().contains(inner.deep_view()[i as int]));
            return false;
        }
        i = i + 1;
    }
    true
}

/// A list without the members that equal a value.
pub open spec fn without<T>(list: Seq<T>, value: T) -> Seq<T>
    decreases list.len(),
{
    if list.len() == 0 {
        list
    } else {
        let rest = without(list.drop_last(), value);
        if list.last() == value {
            rest
        } else {
            rest.push(list.last())
        }
    }
}

/// A list without the members that equal a value.
pub fn leave_out<T: Datum>(list: &Vec<T>, value: &T) -> (r: Vec<T>)
    ensures
        r.deep_view() == without(list.deep_view(), value.deep_view()),
{
    let ghost all = list.deep_view();
    let mut r: Vec<T> = Vec::new();
    let mut i: usize = 0;
    assert(r.deep_view() =~= without(all.take(0), value.deep_view()));
    while i < list.len()
        invariant
            i <= list.len(),
            all == list.deep_view(),
            r.deep_view() == without(all.take(i as int), value.deep_view()),
        decreases list.len() - i,
    {
        assert(all.take(i + 1).drop_last() =~= all.take(i as int));
        assert(all.take(i + 1).last() == list@[i as int].deep_view());
        if !list[i].same_as(value) {
            append(&mut r, list[i].duplicate());
        }
        i = i + 1;
    }
    assert(all.take(list.len() as int) =~= all);
    r
}

/// Adds a value at the end of a list.
pub fn append<T: Datum>(list: &mut Vec<T>, value: T)
    ensures
        final(list)@ == old(list)@.push(value),
        final(list).deep_view() == old(list).deep_view().push(value.deep_view()),
{
    list.push(value);
    assert(list.deep_view() =~= old(list).deep_view().push(value.deep_view()));
}

} // verus!
