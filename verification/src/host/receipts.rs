//! Evidence as readers of the host see it.

use crate::acp::recording::member;
use crate::datum::Datum;
use crate::host::frames::new_member;
use crate::json::{at, json_views, number_view, says_at, Json, JsonNumber, JsonView};
use crate::lookup::Lookup;
use crate::records::receipts::ReceiptError;
use crate::table::{prefix_grows, Table};
use crate::text::{decimal, decimal_text, same_text, signed_decimal, signed_decimal_text};
use vstd::prelude::*;
use vstd::string::*;

verus! {

/// The text of a fraction is known, whichever zero it is.
pub open spec fn fraction_told(n: JsonNumber, fractions: Map<u64, Seq<char>>) -> bool {
    forall|bits: u64|
        number_view(JsonNumber::Float(bits)) == n ==> #[trigger] fractions.contains_key(bits)
}

/// The texts of all fractions in a value are known. Deeper than `depth` nothing is said.
pub open spec fn fractions_told(
    value: JsonView,
    fractions: Map<u64, Seq<char>>,
    depth: nat,
) -> bool
    decreases depth,
{
    if depth == 0 {
        true
    } else {
        match value {
            JsonView::Number(n) => fraction_told(n, fractions),
            JsonView::Array(items) => forall|i: int|
                0 <= i < items.len() ==> fractions_told(
                    #[trigger] items[i],
                    fractions,
                    (depth - 1) as nat,
                ),
            JsonView::Object(members) => forall|name: Seq<char>| #[trigger]
                members.contains_key(name) ==> fractions_told(
                    members[name],
                    fractions,
                    (depth - 1) as nat,
                ),
            _ => true,
        }
    }
}

/// The texts of all fractions in a value are known.
pub open spec fn all_fractions_told(value: JsonView, fractions: Map<u64, Seq<char>>) -> bool {
    forall|depth: nat| #[trigger] fractions_told(value, fractions, depth)
}

/// The text is that of the fraction. The two zeros are one number, with a text each.
pub open spec fn fraction_written(
    n: JsonNumber,
    written: JsonView,
    fractions: Map<u64, Seq<char>>,
) -> bool {
    exists|bits: u64|
        number_view(JsonNumber::Float(bits)) == n && #[trigger] fractions.contains_key(bits)
            && written == JsonView::Text(fractions[bits])
}

/// A number as a text.
pub open spec fn number_written(
    n: JsonNumber,
    written: JsonView,
    fractions: Map<u64, Seq<char>>,
) -> bool {
    match n {
        JsonNumber::PosInt(v) => written == JsonView::Text(decimal(v as nat)),
        JsonNumber::NegInt(v) => written == JsonView::Text(signed_decimal(v as int)),
        JsonNumber::Float(_) => fraction_written(n, written, fractions),
    }
}

/// Two values agree but for their numbers, which the second one writes as texts, except
/// in what is named `version`. Deeper than `depth` nothing is said.
pub open spec fn written_out(
    value: JsonView,
    written: JsonView,
    fractions: Map<u64, Seq<char>>,
    depth: nat,
) -> bool
    decreases depth,
{
    if depth == 0 {
        true
    } else {
        match value {
            JsonView::Number(n) => number_written(n, written, fractions),
            JsonView::Array(items) => written matches JsonView::Array(others) && others.len()
                == items.len() && forall|i: int|
                0 <= i < items.len() ==> written_out(
                    #[trigger] items[i],
                    others[i],
                    fractions,
                    (depth - 1) as nat,
                ),
            JsonView::Object(members) => {
                &&& written is Object
                &&& forall|name: Seq<char>| #[trigger]
                    members.contains_key(name) <==> written->Object_0.contains_key(name)
                &&& forall|name: Seq<char>| #[trigger]
                    members.contains_key(name) ==> if name == "version"@ {
                        written->Object_0[name] == members[name]
                    } else {
                        written_out(
                            members[name],
                            written->Object_0[name],
                            fractions,
                            (depth - 1) as nat,
                        )
                    }
            },
            _ => written == value,
        }
    }
}

proof fn items_are_told(items: Seq<JsonView>, fractions: Map<u64, Seq<char>>, i: int)
    requires
        all_fractions_told(JsonView::Array(items), fractions),
        0 <= i < items.len(),
    ensures
        all_fractions_told(items[i], fractions),
{
    assert forall|depth: nat| #[trigger] fractions_told(items[i], fractions, depth) by {
        item_is_told(items, fractions, i, depth + 1);
    }
}

proof fn item_is_told(
    items: Seq<JsonView>,
    fractions: Map<u64, Seq<char>>,
    i: int,
    depth: nat,
)
    requires
        fractions_told(JsonView::Array(items), fractions, depth),
        0 <= i < items.len(),
        depth > 0,
    ensures
        fractions_told(items[i], fractions, (depth - 1) as nat),
{
    assert(JsonView::Array(items)->Array_0 == items);
    assert(forall|j: int|
        0 <= j < items.len() ==> fractions_told(
            #[trigger] items[j],
            fractions,
            (depth - 1) as nat,
        ));
}

proof fn members_are_told(
    members: Map<Seq<char>, JsonView>,
    fractions: Map<u64, Seq<char>>,
    name: Seq<char>,
)
    requires
        all_fractions_told(JsonView::Object(members), fractions),
        members.contains_key(name),
    ensures
        all_fractions_told(members[name], fractions),
{
    assert forall|depth: nat| #[trigger] fractions_told(members[name], fractions, depth) by {
        member_is_told(members, fractions, name, depth + 1);
    }
}

proof fn member_is_told(
    members: Map<Seq<char>, JsonView>,
    fractions: Map<u64, Seq<char>>,
    name: Seq<char>,
    depth: nat,
)
    requires
        fractions_told(JsonView::Object(members), fractions, depth),
        members.contains_key(name),
        depth > 0,
    ensures
        fractions_told(members[name], fractions, (depth - 1) as nat),
{
    assert(JsonView::Object(members)->Object_0 == members);
    assert(forall|other: Seq<char>| #[trigger]
        members.contains_key(other) ==> fractions_told(
            members[other],
            fractions,
            (depth - 1) as nat,
        ));
}

/// The numbers of a value, written as texts: readers would round large ones. `fractions`
/// holds the texts of the fractions in the value, by their bits.
pub fn decimal_numbers(value: &Json, fractions: &Lookup<u64, String>) -> (r: Json)
    requires
        all_fractions_told(value.deep_view(), fractions.deep_view()),
    ensures
        forall|depth: nat| #[trigger]
            written_out(value.deep_view(), r.deep_view(), fractions.deep_view(), depth),
    decreases value,
{
    broadcast use json_views;

    match value {
        Json::Number(n) => {
            let r = match n {
                JsonNumber::PosInt(v) => Json::Text(decimal_text(*v)),
                JsonNumber::NegInt(v) => Json::Text(signed_decimal_text(*v)),
                JsonNumber::Float(bits) => {
                    assert(fractions_told(value.deep_view(), fractions.deep_view(), 1));
                    assert(fractions.deep_view().contains_key(*bits));
                    match fractions.get(bits) {
                        Some(text) => Json::Text(text.clone()),
                        None => Json::Null,
                    }
                },
            };
            r
        },
        Json::Array(items) => {
            let mut others: Vec<Json> = Vec::new();
            let mut i: usize = 0;
            while i < items.len()
                invariant
                    i <= items.len(),
                    others.len() == i,
                    decreases_to!(value => items),
                    all_fractions_told(
                        JsonView::Array(items.deep_view()),
                        fractions.deep_view(),
                    ),
                    forall|j: int, depth: nat|
                        0 <= j < i ==> #[trigger] written_out(
                            items.deep_view()[j],
                            others.deep_view()[j],
                            fractions.deep_view(),
                            depth,
                        ),
                decreases items.len() - i,
            {
                assert(items.deep_view()[i as int] == items@[i as int].deep_view());
                proof {
                    items_are_told(items.deep_view(), fractions.deep_view(), i as int);
                }
                let item = decimal_numbers(&items[i], fractions);
                let ghost before = others.deep_view();
                others.push(item);
                assert(others.deep_view()[i as int] == item.deep_view());
                assert forall|j: int, depth: nat| 0 <= j < i + 1 implies #[trigger] written_out(
                    items.deep_view()[j],
                    others.deep_view()[j],
                    fractions.deep_view(),
                    depth,
                ) by {
                    if j < i {
                        assert(others.deep_view()[j] == before[j]);
                    }
                }
                i = i + 1;
            }
            let ghost given = items.deep_view();
            let ghost made = others.deep_view();
            let r = Json::Array(others);
            assert(value.deep_view() == JsonView::Array(given));
            assert(r.deep_view() == JsonView::Array(made));
            assert forall|depth: nat| #[trigger]
                written_out(value.deep_view(), r.deep_view(), fractions.deep_view(), depth) by {
                assert(forall|i: int|
                    0 <= i < given.len() && depth > 0 ==> written_out(
                        #[trigger] given[i],
                        made[i],
                        fractions.deep_view(),
                        (depth - 1) as nat,
                    ));
            }
            r
        },
        Json::Object(members) => {
            let n: usize = members.len();
            let ghost all = members.deep_view();
            let ghost names = members.keys();
            let mut others: Table<Json> = Table::new();
            let mut i: usize = 0;
            assert(others.deep_view() =~= Map::<Seq<char>, JsonView>::empty());
            while i < n
                invariant
                    i <= n,
                    n == members.keys().len(),
                    all == members.deep_view(),
                    names == members.keys(),
                    decreases_to!(value => members),
                    all_fractions_told(JsonView::Object(all), fractions.deep_view()),
                    forall|name: Seq<char>| #[trigger]
                        others.deep_view().contains_key(name) <==> names.take(i as int).contains(
                            name,
                        ),
                    forall|name: Seq<char>|
                        others.deep_view().contains_key(name) && name == "version"@ ==> #[trigger]
                        others.deep_view()[name] == all[name],
                    forall|name: Seq<char>, depth: nat|
                        others.deep_view().contains_key(name) && name != "version"@ ==> #[trigger]
                        written_out(
                            all[name],
                            others.deep_view()[name],
                            fractions.deep_view(),
                            depth,
                        ),
                decreases n - i,
            {
                let name = members.key_at(i);
                let member = members.value_at(i);
                assert(all[name@] == member.deep_view());
                proof {
                    prefix_grows(names, i as int);
                    members_are_told(all, fractions.deep_view(), name@);
                }
                let ghost before = others.deep_view();
                let other = if same_text(name.as_str(), "version") {
                    member.duplicate()
                } else {
                    decimal_numbers(member, fractions)
                };
                others.put(name.clone(), other);
                assert forall|key: Seq<char>, depth: nat|
                    others.deep_view().contains_key(key) && key
                        != "version"@ implies #[trigger] written_out(
                    all[key],
                    others.deep_view()[key],
                    fractions.deep_view(),
                    depth,
                ) by {
                    if key != name@ {
                        assert(before.contains_key(key));
                        assert(others.deep_view()[key] == before[key]);
                    }
                }
                i = i + 1;
            }
            assert(names.take(n as int) =~= names);
            assert forall|name: Seq<char>| #[trigger] all.contains_key(name) <==> names.contains(
                name,
            ) by {
                assert(members@.contains_key(name) <==> names.contains(name));
            }
            let ghost made = others.deep_view();
            let r = Json::Object(others);
            assert(value.deep_view() == JsonView::Object(all));
            assert(r.deep_view() == JsonView::Object(made));
            assert forall|depth: nat| #[trigger]
                written_out(value.deep_view(), r.deep_view(), fractions.deep_view(), depth) by {
                assert forall|name: Seq<char>| #[trigger]
                    all.contains_key(name) <==> made.contains_key(name) by {
                    assert(names.contains(name) <==> made.contains_key(name));
                }
                if depth > 0 {
                    assert forall|name: Seq<char>| #[trigger]
                        all.contains_key(name) && name != "version"@ implies written_out(
                        all[name],
                        made[name],
                        fractions.deep_view(),
                        (depth - 1) as nat,
                    ) by {
                        assert(made.contains_key(name));
                    }
                }
            }
            r
        },
        _ => value.duplicate(),
    }
}

/// What a receipt shows of its data: not the text that was sent, and of a tool call not
/// what the application said, which are kept once, in the record itself.
pub open spec fn shown_data(kind: JsonView, data: JsonView) -> JsonView {
    match data {
        JsonView::Object(members) => if kind == JsonView::Text("tool_invocation"@) {
            JsonView::Object(members.remove("wire_text"@).remove("input"@).remove("outcome"@))
        } else {
            JsonView::Object(members.remove("wire_text"@))
        },
        _ => data,
    }
}

/// What a receipt shows.
pub open spec fn shown(receipt: JsonView) -> JsonView {
    match receipt {
        JsonView::Object(members) => if members.contains_key("data"@) {
            JsonView::Object(
                members.insert("data"@, shown_data(at(receipt, "kind"@), members["data"@])),
            )
        } else {
            receipt
        },
        _ => receipt,
    }
}

fn show_data(tool: bool, data: &Json) -> (r: Json)
    ensures
        forall|kind: JsonView|
            tool == (kind == JsonView::Text("tool_invocation"@)) ==> r.deep_view()
                == #[trigger] shown_data(kind, data.deep_view()),
{
    broadcast use json_views;

    match data {
        Json::Object(members) => {
            let mut members = members.duplicate();
            let ghost before = members.deep_view();
            members.remove("wire_text");
            assert(members.deep_view() =~= before.remove("wire_text"@));
            if tool {
                members.remove("input");
                members.remove("outcome");
                assert(members.deep_view() =~= before.remove("wire_text"@).remove("input"@).remove(
                    "outcome"@,
                ));
            }
            Json::Object(members)
        },
        _ => data.duplicate(),
    }
}

fn show(receipt: &Json) -> (r: Json)
    ensures
        r.deep_view() == shown(receipt.deep_view()),
{
    broadcast use json_views;

    match receipt {
        Json::Object(members) => {
            let tool = says_at(receipt, "kind", "tool_invocation");
            assert(tool == (at(receipt.deep_view(), "kind"@) == JsonView::Text(
                "tool_invocation"@,
            )));
            match members.find("data") {
                Some(data) => {
                    let data = show_data(tool, data);
                    let mut members = members.duplicate();
                    members.put("data".to_owned(), data);
                    Json::Object(members)
                },
                None => receipt.duplicate(),
            }
        },
        _ => receipt.duplicate(),
    }
}

proof fn data_is_told(kind: JsonView, data: JsonView, fractions: Map<u64, Seq<char>>, depth: nat)
    requires
        fractions_told(data, fractions, depth),
    ensures
        fractions_told(shown_data(kind, data), fractions, depth),
{
}

proof fn shown_is_told(receipt: JsonView, fractions: Map<u64, Seq<char>>)
    requires
        all_fractions_told(receipt, fractions),
    ensures
        all_fractions_told(shown(receipt), fractions),
{
    assert forall|depth: nat| #[trigger] fractions_told(shown(receipt), fractions, depth) by {
        assert(fractions_told(receipt, fractions, depth));
        match receipt {
            JsonView::Object(members) => {
                if depth > 0 && members.contains_key("data"@) {
                    data_is_told(
                        at(receipt, "kind"@),
                        members["data"@],
                        fractions,
                        (depth - 1) as nat,
                    );
                }
            },
            _ => {},
        }
    }
}

/// What readers see of the evidence in a record, given the receipt in JSON, if there is
/// one, or why it cannot be read. `fractions` holds the texts of the fractions in the
/// receipt, by their bits.
pub fn view(
    receipt: Result<Option<Json>, ReceiptError>,
    fractions: &Lookup<u64, String>,
) -> (r: Json)
    requires
        receipt matches Ok(Some(value)) ==> all_fractions_told(
            value.deep_view(),
            fractions.deep_view(),
        ),
    ensures
        match receipt {
            Ok(None) => r.deep_view() == JsonView::Null,
            Ok(Some(value)) => forall|depth: nat| #[trigger]
                written_out(
                    shown(value.deep_view()),
                    r.deep_view(),
                    fractions.deep_view(),
                    depth,
                ),
            Err(e) => r.deep_view() == JsonView::Object(
                member("kind"@, JsonView::Text("invalid"@)).insert(
                    "data"@,
                    JsonView::Object(
                        member("name"@, JsonView::Text(e.name@)).insert(
                            "reason"@,
                            JsonView::Text(e.reason@),
                        ),
                    ),
                ),
            ),
        },
{
    broadcast use json_views;

    match receipt {
        Ok(None) => Json::Null,
        Ok(Some(value)) => {
            proof {
                shown_is_told(value.deep_view(), fractions.deep_view());
            }
            decimal_numbers(&show(&value), fractions)
        },
        Err(e) => {
            let mut data = new_member("name", Json::Text(e.name));
            data.put("reason".to_owned(), Json::Text(e.reason));
            let mut members = new_member("kind", Json::Text("invalid".to_owned()));
            members.put("data".to_owned(), Json::Object(data));
            Json::Object(members)
        },
    }
}

} // verus!
