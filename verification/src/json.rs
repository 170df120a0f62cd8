//! JSON values.

use crate::datum::Datum;
use crate::table::{has_key, row_of, rows_map, Table};
use vstd::prelude::*;

verus! {

/// A JSON number: a non-negative integer, a negative one, or the bits of a
/// double-precision number.
#[derive(Debug, Clone, Copy, PartialEq, Eq, Structural)]
pub enum JsonNumber {
    PosInt(u64),
    NegInt(i64),
    Float(u64),
}

/// A JSON value. The members of an object have distinct names.
#[derive(Debug, PartialEq, Eq)]
pub enum Json {
    Null,
    Bool(bool),
    Number(JsonNumber),
    Text(String),
    Array(Vec<Json>),
    Object(Table<Json>),
}

/// What a JSON value says.
pub enum JsonView {
    Null,
    Bool(bool),
    Number(JsonNumber),
    Text(Seq<char>),
    Array(Seq<JsonView>),
    Object(Map<Seq<char>, JsonView>),
}

/// The two zeros of a double-precision number are the same number.
pub open spec fn number_view(n: JsonNumber) -> JsonNumber {
    if n == JsonNumber::Float(0x8000_0000_0000_0000) {
        JsonNumber::Float(0)
    } else {
        n
    }
}

/// What a JSON value says.
pub closed spec fn json_view(value: Json) -> JsonView
    decreases value,
{
    match value {
        Json::Null => JsonView::Null,
        Json::Bool(b) => JsonView::Bool(b),
        Json::Number(n) => JsonView::Number(number_view(n)),
        Json::Text(s) => JsonView::Text(s@),
        Json::Array(items) => JsonView::Array(
            Seq::new(
                items@.len(),
                |i: int|
                    if 0 <= i < items@.len() {
                        json_view(items@[i])
                    } else {
                        JsonView::Null
                    },
            ),
        ),
        Json::Object(members) => JsonView::Object(
            Map::new(
                |name: Seq<char>| has_key(members.entries@, name),
                |name: Seq<char>|
                    if 0 <= row_of(members.entries@, name) < members.entries@.len() {
                        json_view(members.entries@[row_of(members.entries@, name)].value)
                    } else {
                        JsonView::Null
                    },
            ),
        ),
    }
}

impl DeepView for Json {
    type V = JsonView;

    open spec fn deep_view(&self) -> JsonView {
        json_view(*self)
    }
}

/// An array says what its items say, in their order.
pub broadcast proof fn array_view(items: Vec<Json>)
    ensures
        #[trigger] json_view(Json::Array(items)) == JsonView::Array(items.deep_view()),
{
    match json_view(Json::Array(items)) {
        JsonView::Array(views) => {
            assert(views =~= items.deep_view());
        },
        _ => {},
    }
}

/// An object says what its members say, under their names.
pub broadcast proof fn object_view(members: Table<Json>)
    ensures
        #[trigger] json_view(Json::Object(members)) == JsonView::Object(members.deep_view()),
{
    broadcast use vstd::map_lib::lemma_map_new_domain;

    match json_view(Json::Object(members)) {
        JsonView::Object(views) => {
            assert forall|name: Seq<char>| has_key(members.entries@, name) implies 0 <= row_of(
                members.entries@,
                name,
            ) < members.entries@.len() by {}
            assert(members@ == rows_map(members.entries@)) by {
                crate::table::view_is_rows_map(members);
            }
            assert(views =~= members.deep_view());
        },
        _ => {},
    }
}

/// The other values say themselves.
pub broadcast proof fn scalar_view(value: Json)
    ensures
        value is Null ==> #[trigger] json_view(value) == JsonView::Null,
        value matches Json::Bool(b) ==> json_view(value) == JsonView::Bool(b),
        value matches Json::Number(n) ==> json_view(value) == JsonView::Number(number_view(n)),
        value matches Json::Text(s) ==> json_view(value) == JsonView::Text(s@),
        value is Array <==> json_view(value) is Array,
        value is Object <==> json_view(value) is Object,
{
}

/// The facts that define what a JSON value says.
pub broadcast group json_views {
    array_view,
    object_view,
    scalar_view,
}

fn same_number(a: JsonNumber, b: JsonNumber) -> (r: bool)
    ensures
        r == (number_view(a) == number_view(b)),
{
    let zero = JsonNumber::Float(0);
    let negative_zero = JsonNumber::Float(0x8000_0000_0000_0000);
    a == b || (a == zero && b == negative_zero) || (a == negative_zero && b == zero)
}

impl Json {
    fn copied(&self) -> (r: Json)
        ensures
            r.deep_view() == self.deep_view(),
        decreases self,
    {
        broadcast use json_views;

        match self {
            Json::Null => Json::Null,
            Json::Bool(b) => Json::Bool(*b),
            Json::Number(n) => Json::Number(*n),
            Json::Text(s) => Json::Text(s.clone()),
            Json::Array(items) => {
                let mut r: Vec<Json> = Vec::new();
                let mut i: usize = 0;
                while i < items.len()
                    invariant
                        i <= items.len(),
                        r.len() == i,
                        decreases_to!(self => items),
                        forall|j: int|
                            0 <= j < i ==> (#[trigger] r@[j]).deep_view() == items@[j].deep_view(),
                    decreases items.len() - i,
                {
                    r.push(items[i].copied());
                    i = i + 1;
                }
                assert(r.deep_view() =~= items.deep_view());
                Json::Array(r)
            },
            Json::Object(members) => {
                let n = members.len();
                let mut r: Table<Json> = Table::new();
                let mut i: usize = 0;
                while i < n
                    invariant
                        i <= n,
                        n == members.keys().len(),
                        decreases_to!(self => members),
                        forall|k: Seq<char>| #[trigger]
                            r@.contains_key(k) <==> exists|j: int| 0 <= j < i && members.keys()[j] == k,
                        forall|k: Seq<char>| #[trigger]
                            r@.contains_key(k) ==> members@.contains_key(k) && r@[k].deep_view()
                                == members@[k].deep_view(),
                    decreases n - i,
                {
                    let ghost prior = r@;
                    r.insert(members.key_at(i).clone(), members.value_at(i).copied());
                    assert forall|k: Seq<char>| #[trigger] r@.contains_key(k) implies members@.contains_key(k)
                        && r@[k].deep_view() == members@[k].deep_view() by {
                        if k != members.keys()[i as int] {
                            assert(prior.contains_key(k) && prior[k] == r@[k]);
                        }
                    }
                    i = i + 1;
                }
                assert(r.deep_view() =~= members.deep_view());
                Json::Object(r)
            },
        }
    }

    fn equals(&self, other: &Json) -> (r: bool)
        ensures
            r == (self.deep_view() == other.deep_view()),
        decreases self,
    {
        broadcast use json_views;

        match (self, other) {
            (Json::Null, Json::Null) => true,
            (Json::Bool(a), Json::Bool(b)) => *a == *b,
            (Json::Number(a), Json::Number(b)) => same_number(*a, *b),
            (Json::Text(a), Json::Text(b)) => a.same_as(b),
            (Json::Array(a), Json::Array(b)) => {
                if a.len() != b.len() {
                    assert(a.deep_view().len() != b.deep_view().len());
                    return false;
                }
                let mut i: usize = 0;
                while i < a.len()
                    invariant
                        i <= a.len(),
                        a.len() == b.len(),
                        self.deep_view() == JsonView::Array(a.deep_view()),
                        other.deep_view() == JsonView::Array(b.deep_view()),
                        decreases_to!(self => a),
                        forall|j: int|
                            0 <= j < i ==> (#[trigger] a@[j]).deep_view() == b@[j].deep_view(),
                    decreases a.len() - i,
                {
                    if !a[i].equals(&b[i]) {
                        assert(a.deep_view()[i as int] != b.deep_view()[i as int]);
                        return false;
                    }
                    i = i + 1;
                }
                assert(a.deep_view() =~= b.deep_view());
                true
            },
            (Json::Object(a), Json::Object(b)) => {
                let n = a.len();
                let m = b.len();
                let mut i: usize = 0;
                while i < n
                    invariant
                        i <= n,
                        n == a.keys().len(),
                        self.deep_view() == JsonView::Object(a.deep_view()),
                        other.deep_view() == JsonView::Object(b.deep_view()),
                        decreases_to!(self => a),
                        forall|j: int|
                            0 <= j < i ==> b@.contains_key(#[trigger] a.keys()[j])
                                && b@[a.keys()[j]].deep_view() == a@[a.keys()[j]].deep_view(),
                    decreases n - i,
                {
                    let name = a.key_at(i);
                    match b.get(name.as_str()) {
                        Some(value) => {
                            if !a.value_at(i).equals(value) {
                                assert(a.deep_view()[name@] != b.deep_view()[name@]);
                                return false;
                            }
                        },
                        None => {
                            assert(a.deep_view().contains_key(name@));
                            assert(!b.deep_view().contains_key(name@));
                            return false;
                        },
                    }
                    i = i + 1;
                }
                let mut i: usize = 0;
                while i < m
                    invariant
                        i <= m,
                        m == b.keys().len(),
                        self.deep_view() == JsonView::Object(a.deep_view()),
                        other.deep_view() == JsonView::Object(b.deep_view()),
                        forall|j: int| 0 <= j < i ==> a@.contains_key(#[trigger] b.keys()[j]),
                    decreases m - i,
                {
                    let name = b.key_at(i);
                    if !a.contains_key(name.as_str()) {
                        assert(!a.deep_view().contains_key(name@));
                        assert(b.deep_view().contains_key(name@));
                        return false;
                    }
                    i = i + 1;
                }
                proof {
                    crate::table::tables_agree(*a, *b);
                }
                true
            },
            _ => false,
        }
    }
}

impl Json {
    /// The member of an object.
    pub open spec fn field(self, name: Seq<char>) -> Option<Json> {
        match self {
            Json::Object(members) => if members@.contains_key(name) {
                Some(members@[name])
            } else {
                None
            },
            _ => None,
        }
    }

    /// The member of an object.
    pub fn get(&self, name: &str) -> (r: Option<&Json>)
        ensures
            match r {
                Some(value) => self.field(name@) == Some(*value),
                None => self.field(name@) is None,
            },
    {
        match self {
            Json::Object(members) => members.get(name),
            _ => None,
        }
    }
}

impl Datum for Json {
    fn duplicate(&self) -> (r: Json) {
        self.copied()
    }

    fn same_as(&self, other: &Json) -> (r: bool) {
        self.equals(other)
    }
}

/// A member of an object. Where there is none, there is nothing.
pub open spec fn at(value: JsonView, name: Seq<char>) -> JsonView {
    match value {
        JsonView::Object(members) => if members.contains_key(name) {
            members[name]
        } else {
            JsonView::Null
        },
        _ => JsonView::Null,
    }
}

/// A member of an object.
pub fn find_at<'a>(value: &'a Json, name: &str) -> (r: Option<&'a Json>)
    ensures
        match r {
            Some(found) => found.deep_view() == at(value.deep_view(), name@),
            None => at(value.deep_view(), name@) == JsonView::Null,
        },
{
    broadcast use json_views;

    match value {
        Json::Object(members) => members.find(name),
        _ => None,
    }
}

/// A text.
pub open spec fn text_of(value: JsonView) -> Option<Seq<char>> {
    match value {
        JsonView::Text(text) => Some(text),
        _ => None,
    }
}

/// The text of a member.
pub fn text_at<'a>(value: &'a Json, name: &str) -> (r: Option<&'a String>)
    ensures
        match r {
            Some(text) => text_of(at(value.deep_view(), name@)) == Some(text@),
            None => text_of(at(value.deep_view(), name@)) is None,
        },
{
    broadcast use json_views;

    match find_at(value, name) {
        Some(Json::Text(text)) => Some(text),
        _ => None,
    }
}

/// Whether the text of a member is this one.
pub fn says_at(value: &Json, name: &str, text: &str) -> (r: bool)
    ensures
        r == (text_of(at(value.deep_view(), name@)) == Some(text@)),
{
    match text_at(value, name) {
        Some(found) => crate::text::same_text(found.as_str(), text),
        None => false,
    }
}

} // verus!
