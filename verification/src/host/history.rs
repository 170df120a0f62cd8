//! Requests that read what is stored, and the answers to them.

use crate::acp::recording::member;
use crate::datum::{outcome, Datum};
use crate::host::frames::{new_member, parameter, put_text, string};
use crate::id::SessionId;
use crate::json::{at, find_at, json_views, Json, JsonNumber, JsonView};
use crate::records::sqlite::changes::{
    last_sequence, next_after, ChangeCursor, ChangeCursorView, StatePage,
};
use crate::records::sqlite::{name_of, state_name};
use crate::records::{Snapshot, SnapshotView};
use crate::text::{blank, decimal, decimal_text, digit, digit_value, same_text};
use std::sync::Arc;
use vstd::prelude::*;
use vstd::string::*;

verus! {

/// What remains to be read of a decimal number, after digits of this value.
pub open spec fn digits_read(s: Seq<char>, value: nat) -> Result<u64, Seq<char>>
    decreases s.len(),
{
    if s.len() == 0 {
        Ok(value as u64)
    } else if !('0' <= s[0] && s[0] <= '9') {
        Err("invalid digit found in string"@)
    } else {
        let next = value * 10 + (s[0] as nat - 48) as nat;
        if next > u64::MAX {
            Err("number too large to fit in target type"@)
        } else {
            digits_read(s.skip(1), next)
        }
    }
}

/// The number that a text writes in decimal digits, perhaps after a plus sign.
pub open spec fn unsigned_of(s: Seq<char>) -> Result<u64, Seq<char>> {
    if s.len() == 0 {
        Err("cannot parse integer from empty string"@)
    } else if s[0] == '+' {
        if s.len() == 1 {
            Err("invalid digit found in string"@)
        } else {
            digits_read(s.skip(1), 0)
        }
    } else {
        digits_read(s, 0)
    }
}

/// Reads a decimal number.
pub fn read_unsigned(s: &str) -> (r: Result<u64, String>)
    ensures
        match r {
            Ok(n) => unsigned_of(s@) == Ok::<u64, Seq<char>>(n),
            Err(e) => unsigned_of(s@) == Err::<u64, Seq<char>>(e@),
        },
{
    let n: usize = s.unicode_len();
    if n == 0 {
        return Err("cannot parse integer from empty string".to_owned());
    }
    let start: usize = if s.get_char(0) == '+' {
        1
    } else {
        0
    };
    if start == n {
        return Err("invalid digit found in string".to_owned());
    }
    let ghost expected = unsigned_of(s@);
    assert(s@.skip(0) =~= s@);
    let mut value: u64 = 0;
    let mut i: usize = start;
    while i < n
        invariant
            i <= n,
            n == s@.len(),
            expected == unsigned_of(s@),
            digits_read(s@.skip(i as int), value as nat) == expected,
        decreases n - i,
    {
        let c = s.get_char(i);
        assert(s@.skip(i as int)[0] == c);
        assert(s@.skip(i as int).skip(1) =~= s@.skip(i + 1));
        match digit_value(c) {
            None => return Err("invalid digit found in string".to_owned()),
            Some(d) => {
                let next: u128 = value as u128 * 10 + d as u128;
                if next > u64::MAX as u128 {
                    return Err("number too large to fit in target type".to_owned());
                }
                value = next as u64;
            },
        }
        i = i + 1;
    }
    Ok(value)
}

/// The member is there, even if it says nothing.
pub open spec fn given(params: JsonView, name: Seq<char>) -> bool {
    params matches JsonView::Object(members) && members.contains_key(name)
}

fn find_given<'a>(params: &'a Json, name: &str) -> (r: Option<&'a Json>)
    ensures
        r is Some <==> given(params.deep_view(), name@),
        r matches Some(value) ==> value.deep_view() == at(params.deep_view(), name@),
{
    broadcast use json_views;

    match params {
        Json::Object(members) => members.find(name),
        _ => None,
    }
}

/// A number that is not negative.
pub open spec fn unsigned(value: JsonView) -> Option<u64> {
    match value {
        JsonView::Number(JsonNumber::PosInt(n)) => Some(n),
        _ => None,
    }
}

/// A limit between one and a thousand.
pub open spec fn limit_of(params: JsonView, default: u64, complaint: Seq<char>) -> Result<
    u64,
    Seq<char>,
> {
    let limit = if given(params, "limit"@) {
        unsigned(at(params, "limit"@))
    } else {
        Some(default)
    };
    match limit {
        None => Err(complaint),
        Some(limit) => if 1 <= limit <= 1000 {
            Ok(limit)
        } else {
            Err("limit must be 1..=1000"@)
        },
    }
}

fn read_limit(params: &Json, default: u64, complaint: &str) -> (r: Result<u64, String>)
    ensures
        match r {
            Ok(n) => limit_of(params.deep_view(), default, complaint@) == Ok::<u64, Seq<char>>(n),
            Err(e) => limit_of(params.deep_view(), default, complaint@) == Err::<u64, Seq<char>>(
                e@,
            ),
        },
{
    broadcast use json_views;

    let limit: u64 = match find_given(params, "limit") {
        None => default,
        Some(Json::Number(JsonNumber::PosInt(n))) => *n,
        Some(_) => return Err(complaint.to_owned()),
    };
    if limit < 1 || limit > 1000 {
        return Err("limit must be 1..=1000".to_owned());
    }
    Ok(limit)
}

/// An exclusive position that a text gives, where one is given.
pub open spec fn after_of(params: JsonView, complaint: Seq<char>) -> Result<
    Option<u64>,
    Seq<char>,
> {
    match at(params, "after"@) {
        JsonView::Null => Ok(None),
        JsonView::Text(text) => match unsigned_of(text) {
            Ok(n) => Ok(Some(n)),
            Err(_) => Err(complaint),
        },
        _ => Err(complaint),
    }
}

fn read_after(params: &Json, complaint: &str) -> (r: Result<Option<u64>, String>)
    ensures
        match r {
            Ok(after) => after_of(params.deep_view(), complaint@) == Ok::<
                Option<u64>,
                Seq<char>,
            >(after),
            Err(e) => after_of(params.deep_view(), complaint@) == Err::<Option<u64>, Seq<char>>(e@),
        },
{
    broadcast use json_views;

    match find_at(params, "after") {
        None | Some(Json::Null) => Ok(None),
        Some(Json::Text(text)) => match read_unsigned(text.as_str()) {
            Ok(n) => Ok(Some(n)),
            Err(_) => Err(complaint.to_owned()),
        },
        _ => Err(complaint.to_owned()),
    }
}

/// An identity that a parameter gives.
pub open spec fn session_of(params: JsonView) -> Result<Seq<char>, Seq<char>> {
    match parameter(params, "session_id"@) {
        Err(e) => Err(e),
        Ok(id) => if blank(id) {
            Err("an identifier cannot be empty or whitespace-only"@)
        } else {
            Ok(id)
        },
    }
}

fn read_session(params: &Json) -> (r: Result<SessionId, String>)
    ensures
        outcome(r) == session_of(params.deep_view()),
{
    match string(params, "session_id") {
        Err(e) => Err(e),
        Ok(id) => match SessionId::new(id.clone()) {
            Err(e) => Err(e.to_string()),
            Ok(id) => Ok(id),
        },
    }
}

/// A position in the changes that a value gives.
pub open spec fn cursor_of(value: JsonView) -> Result<ChangeCursorView, Seq<char>> {
    match parameter(value, "epoch"@) {
        Err(e) => Err(e),
        Ok(epoch) => match session_of(value) {
            Err(e) => Err(e),
            Ok(session_id) => match parameter(value, "position"@) {
                Err(e) => Err(e),
                Ok(position) => match unsigned_of(position) {
                    Err(e) => Err(e),
                    Ok(position) => Ok(ChangeCursorView { epoch, session_id, position }),
                },
            },
        },
    }
}

fn read_cursor(value: &Json) -> (r: Result<ChangeCursor, String>)
    ensures
        outcome(r) == cursor_of(value.deep_view()),
{
    let epoch = match string(value, "epoch") {
        Err(e) => return Err(e),
        Ok(epoch) => epoch.clone(),
    };
    let session_id = match read_session(value) {
        Err(e) => return Err(e),
        Ok(id) => id,
    };
    let position: u64 = match string(value, "position") {
        Err(e) => return Err(e),
        Ok(position) => match read_unsigned(position.as_str()) {
            Err(e) => return Err(e),
            Ok(position) => position,
        },
    };
    Ok(ChangeCursor { epoch, session_id, position })
}

/// The position in the changes that a request gives, where it gives one.
pub open spec fn optional_cursor(params: JsonView, session: Seq<char>) -> Result<
    Option<ChangeCursorView>,
    Seq<char>,
> {
    if at(params, "cursor"@) == JsonView::Null {
        Ok(None)
    } else {
        match cursor_of(at(params, "cursor"@)) {
            Err(e) => Err(e),
            Ok(cursor) => if cursor.session_id == session {
                Ok(Some(cursor))
            } else {
                Err("cursor belongs to another session"@)
            },
        }
    }
}

fn read_optional_cursor(params: &Json, session: &SessionId) -> (r: Result<
    Option<ChangeCursor>,
    String,
>)
    ensures
        outcome(r) == optional_cursor(params.deep_view(), session.deep_view()),
{
    broadcast use json_views;

    match find_at(params, "cursor") {
        None | Some(Json::Null) => Ok(None),
        Some(value) => match read_cursor(value) {
            Err(e) => Err(e),
            Ok(cursor) => {
                if cursor.session_id.same_as(session) {
                    Ok(Some(cursor))
                } else {
                    Err("cursor belongs to another session".to_owned())
                }
            },
        },
    }
}

/// What is to be read.
#[allow(inconsistent_fields)]
pub enum HistoryQuery {
    Snapshot { session: SessionId, cursor: Option<ChangeCursor>, after: Option<u64>, limit: usize },
    Changes { cursor: ChangeCursor, limit: usize },
    List { session: SessionId, after: Option<u64>, limit: usize },
}

/// What is to be read.
#[allow(inconsistent_fields)]
pub enum HistoryQueryView {
    Snapshot {
        session: Seq<char>,
        cursor: Option<ChangeCursorView>,
        after: Option<u64>,
        limit: usize,
    },
    Changes { cursor: ChangeCursorView, limit: usize },
    List { session: Seq<char>, after: Option<u64>, limit: usize },
}

impl DeepView for HistoryQuery {
    type V = HistoryQueryView;

    open spec fn deep_view(&self) -> HistoryQueryView {
        match self {
            HistoryQuery::Snapshot { session, cursor, after, limit } => HistoryQueryView::Snapshot {
                session: session.deep_view(),
                cursor: cursor.deep_view(),
                after: *after,
                limit: *limit,
            },
            HistoryQuery::Changes { cursor, limit } => HistoryQueryView::Changes {
                cursor: cursor.deep_view(),
                limit: *limit,
            },
            HistoryQuery::List { session, after, limit } => HistoryQueryView::List {
                session: session.deep_view(),
                after: *after,
                limit: *limit,
            },
        }
    }
}

/// What a request asks to be read, once its database is open.
pub open spec fn query_of(method: Seq<char>, params: JsonView) -> Result<
    HistoryQueryView,
    Seq<char>,
> {
    match session_of(params) {
        Err(e) => Err(e),
        Ok(session) => if method == "snapshot"@ || method == "changes"@ {
            match optional_cursor(params, session) {
                Err(e) => Err(e),
                Ok(cursor) => match limit_of(params, 100, "invalid limit"@) {
                    Err(e) => Err(e),
                    Ok(limit) => if method == "changes"@ {
                        match cursor {
                            None => Err("cursor required"@),
                            Some(cursor) => Ok(
                                HistoryQueryView::Changes { cursor, limit: limit as usize },
                            ),
                        }
                    } else {
                        match after_of(params, "invalid after"@) {
                            Err(e) => Err(e),
                            Ok(after) => Ok(
                                HistoryQueryView::Snapshot {
                                    session,
                                    cursor,
                                    after,
                                    limit: limit as usize,
                                },
                            ),
                        }
                    },
                },
            }
        } else {
            match after_of(params, "after must be an unsigned decimal string"@) {
                Err(e) => Err(e),
                Ok(after) => match limit_of(params, 1000, "limit must be an unsigned integer"@) {
                    Err(e) => Err(e),
                    Ok(limit) => Ok(
                        HistoryQueryView::List { session, after, limit: limit as usize },
                    ),
                },
            }
        },
    }
}

/// What a request asks to be read, once its database is open.
pub fn query(method: &str, params: &Json) -> (r: Result<HistoryQuery, String>)
    ensures
        outcome(r) == query_of(method@, params.deep_view()),
{
    let session = match read_session(params) {
        Err(e) => return Err(e),
        Ok(session) => session,
    };
    let changes = same_text(method, "changes");
    if changes || same_text(method, "snapshot") {
        let cursor = match read_optional_cursor(params, &session) {
            Err(e) => return Err(e),
            Ok(cursor) => cursor,
        };
        let limit: u64 = match read_limit(params, 100, "invalid limit") {
            Err(e) => return Err(e),
            Ok(limit) => limit,
        };
        if changes {
            return match cursor {
                None => Err("cursor required".to_owned()),
                Some(cursor) => Ok(HistoryQuery::Changes { cursor, limit: limit as usize }),
            };
        }
        return match read_after(params, "invalid after") {
            Err(e) => Err(e),
            Ok(after) => Ok(
                HistoryQuery::Snapshot { session, cursor, after, limit: limit as usize },
            ),
        };
    }
    match read_after(params, "after must be an unsigned decimal string") {
        Err(e) => Err(e),
        Ok(after) => match read_limit(params, 1000, "limit must be an unsigned integer") {
            Err(e) => Err(e),
            Ok(limit) => Ok(HistoryQuery::List { session, after, limit: limit as usize }),
        },
    }
}

/// A text, or nothing.
pub open spec fn optional_text(text: Option<Seq<char>>) -> JsonView {
    match text {
        Some(text) => JsonView::Text(text),
        None => JsonView::Null,
    }
}

/// A record in an answer. Its numbers are texts, so that no reader rounds them.
pub open spec fn record_json(
    value: SnapshotView,
    payload: JsonView,
    receipt: JsonView,
    source: JsonView,
) -> JsonView {
    let record = value.record;
    JsonView::Object(
        member("id"@, JsonView::Text(record.id)).insert(
            "session_id"@,
            JsonView::Text(record.session_id),
        ).insert("run_id"@, optional_text(record.run_id)).insert(
            "actor"@,
            JsonView::Text(record.actor),
        ).insert("sequence"@, JsonView::Text(decimal(record.sequence as nat))).insert(
            "revision"@,
            JsonView::Text(decimal(value.revision as nat)),
        ).insert("state"@, JsonView::Text(name_of(value.state))).insert("payload"@, payload).insert(
            "receipt"@,
            receipt,
        ).insert("reply_to_id"@, optional_text(record.reply_to_id)).insert("source"@, source),
    )
}

/// A record in an answer, given its payload, its receipt and its source in JSON.
pub fn snapshot(value: &Snapshot, payload: Json, receipt: Json, source: Json) -> (r: Json)
    ensures
        r.deep_view() == record_json(
            value.deep_view(),
            payload.deep_view(),
            receipt.deep_view(),
            source.deep_view(),
        ),
{
    broadcast use json_views;

    let record = &value.record;
    let mut members = new_member("id", Json::Text(record.id.as_str().to_owned()));
    put_text(&mut members, "session_id", record.session_id.as_str());
    members.put(
        "run_id".to_owned(),
        match &record.run_id {
            Some(run) => Json::Text(run.as_str().to_owned()),
            None => Json::Null,
        },
    );
    put_text(&mut members, "actor", record.actor.as_str());
    put_text(&mut members, "sequence", decimal_text(record.sequence).as_str());
    put_text(&mut members, "revision", decimal_text(value.revision).as_str());
    put_text(&mut members, "state", state_name(value.state));
    members.put("payload".to_owned(), payload);
    members.put("receipt".to_owned(), receipt);
    members.put(
        "reply_to_id".to_owned(),
        match &record.reply_to_id {
            Some(reply) => Json::Text(reply.as_str().to_owned()),
            None => Json::Null,
        },
    );
    members.put("source".to_owned(), source);
    Json::Object(members)
}

/// A position in an answer.
pub open spec fn next_json(next: Option<u64>) -> JsonView {
    match next {
        Some(next) => JsonView::Text(decimal(next as nat)),
        None => JsonView::Null,
    }
}

fn make_next(next: Option<u64>) -> (r: Json)
    ensures
        r.deep_view() == next_json(next),
{
    broadcast use json_views;

    match next {
        Some(next) => Json::Text(decimal_text(next)),
        None => Json::Null,
    }
}

/// The answer to a list of at most so many records, given them in JSON too.
pub fn list_reply(listed: &Vec<Arc<Snapshot>>, limit: usize, records: Vec<Json>) -> (r: Json)
    ensures
        r.deep_view() == JsonView::Object(
            member("records"@, JsonView::Array(records.deep_view())).insert(
                "next_after"@,
                next_json(next_after(listed.deep_view())),
            ).insert("page_full"@, JsonView::Bool(listed.len() == limit)),
        ),
{
    broadcast use json_views;

    let mut members = new_member("records", Json::Array(records));
    members.put("next_after".to_owned(), make_next(last_sequence(listed)));
    members.put("page_full".to_owned(), Json::Bool(listed.len() == limit));
    Json::Object(members)
}

/// A position in the changes in an answer.
pub open spec fn cursor_json(cursor: ChangeCursorView) -> JsonView {
    JsonView::Object(
        member("epoch"@, JsonView::Text(cursor.epoch)).insert(
            "session_id"@,
            JsonView::Text(cursor.session_id),
        ).insert("position"@, JsonView::Text(decimal(cursor.position as nat))),
    )
}

/// The answer to a page of a session's state or changes, given its records in JSON.
pub fn page_reply(page: &StatePage, records: Vec<Json>) -> (r: Json)
    ensures
        r.deep_view() == JsonView::Object(
            member("records"@, JsonView::Array(records.deep_view())).insert(
                "cursor"@,
                cursor_json(page.deep_view().cursor),
            ).insert("next_after"@, next_json(page.next_after)).insert(
                "page_full"@,
                JsonView::Bool(page.page_full),
            ),
        ),
{
    broadcast use json_views;

    let mut cursor = new_member("epoch", Json::Text(page.cursor.epoch.clone()));
    put_text(&mut cursor, "session_id", page.cursor.session_id.as_str());
    put_text(&mut cursor, "position", decimal_text(page.cursor.position).as_str());
    let mut members = new_member("records", Json::Array(records));
    members.put("cursor".to_owned(), Json::Object(cursor));
    members.put("next_after".to_owned(), make_next(page.next_after));
    members.put("page_full".to_owned(), Json::Bool(page.page_full));
    Json::Object(members)
}

proof fn digits_are_read_in_turn(a: Seq<char>, b: Seq<char>, value: nat)
    requires
        value <= u64::MAX,
    ensures
        digits_read(a + b, value) == match digits_read(a, value) {
            Ok(n) => digits_read(b, n as nat),
            Err(e) => Err(e),
        },
    decreases a.len(),
{
    if a.len() == 0 {
        assert(a + b =~= b);
    } else {
        assert((a + b)[0] == a[0]);
        assert((a + b).skip(1) =~= a.skip(1) + b);
        if '0' <= a[0] && a[0] <= '9' {
            let next = value * 10 + (a[0] as nat - 48) as nat;
            if next <= u64::MAX {
                digits_are_read_in_turn(a.skip(1), b, next);
            }
        }
    }
}

proof fn decimals_are_read(n: nat)
    requires
        n <= u64::MAX,
    ensures
        digits_read(decimal(n), 0) == Ok::<u64, Seq<char>>(n as u64),
    decreases n,
{
    let last = seq![digit(n % 10)];
    assert(last.skip(1) =~= Seq::empty());
    assert(last[0] as nat == n % 10 + 48);
    if n < 10 {
        assert(decimal(n) =~= last);
        assert(digits_read(last.skip(1), n) == Ok::<u64, Seq<char>>(n as u64));
    } else {
        decimals_are_read(n / 10);
        assert(decimal(n) =~= decimal(n / 10) + last);
        digits_are_read_in_turn(decimal(n / 10), last, 0);
        assert((n / 10) * 10 + n % 10 == n);
        assert(digits_read(last.skip(1), n) == Ok::<u64, Seq<char>>(n as u64));
    }
}

/// A position that an answer gives can be given in a request.
pub proof fn positions_can_be_read(position: u64)
    ensures
        unsigned_of(decimal(position as nat)) == Ok::<u64, Seq<char>>(position),
{
    decimals_are_read(position as nat);
    crate::text::decimal_is_digits(position as nat);
}

/// A position in the changes that an answer gives can be given in a request.
pub proof fn cursors_can_be_read(cursor: ChangeCursorView)
    requires
        cursor.epoch.len() > 0,
        !blank(cursor.session_id),
    ensures
        cursor_of(cursor_json(cursor)) == Ok::<ChangeCursorView, Seq<char>>(cursor),
{
    reveal_strlit("epoch");
    reveal_strlit("session_id");
    reveal_strlit("position");
    assert("epoch"@.len() == 5);
    assert("session_id"@.len() == 10);
    assert("position"@.len() == 8);
    positions_can_be_read(cursor.position);
    crate::text::decimal_is_digits(cursor.position as nat);
    assert(cursor.session_id.len() > 0);
}

} // verus!
