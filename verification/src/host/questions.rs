//! Questions that the application asks while one of its tools is called.

use crate::acp::recording::member;
use crate::datum::{outcome, Datum};
use crate::host::frames::{
    error, error_json, event, new_event, new_member, ok, ok_json, parameter, put_text, string,
};
use crate::host::tool_hub::{transportable, valid_json, Ticket, TicketView};
use crate::id::{ActorId, RecordId};
use crate::json::{at, find_at, json_views, says_at, text_of, Json, JsonView};
use crate::questions::{
    answered_as, question_opened, PendingQuestion, PendingQuestionView, QuestionError,
    QuestionErrorView,
};
use crate::records::question::{
    AnswerOutcome, AnswerOutcomeView, Question, QuestionField, QuestionFieldKind,
    QuestionFieldKindView, QuestionFieldView, QuestionView,
};
use crate::records::store::{environmental, RecordStore};
use crate::records::{
    Draft, DraftView, Payload, PayloadView, RecordState, Snapshot, SnapshotView, SourceRef,
    SourceRefView, StoreErrorView,
};
use crate::table::{keys_are_counted, prefix_grows, Table};
use crate::text::{blank, decimal, decimal_text, same_text, text_before};
use std::sync::Arc;
use vstd::prelude::*;
use vstd::string::*;

verus! {

/// The most questions that are kept.
pub const MAX_QUESTIONS: usize = 128;

/// The most questions of one call.
pub const MAX_CALL_QUESTIONS: usize = 8;

/// The most operations on questions that go on at a time.
pub const MAX_OPERATIONS: usize = 32;

/// A question of a call.
pub struct Entry {
    pub owner: Ticket,
    pub question: PendingQuestion,
    /// The question in JSON.
    pub definition: Json,
    /// Whether it was answered.
    pub resolved: bool,
    /// Whether the call is over.
    pub ended: bool,
}

/// What an `Entry` holds.
#[verifier::ext_equal]
pub struct EntryView {
    pub owner: TicketView,
    pub question: PendingQuestionView,
    pub definition: JsonView,
    pub resolved: bool,
    pub ended: bool,
}

impl DeepView for Entry {
    type V = EntryView;

    open spec fn deep_view(&self) -> EntryView {
        EntryView {
            owner: self.owner.deep_view(),
            question: self.question.deep_view(),
            definition: self.definition.deep_view(),
            resolved: self.resolved,
            ended: self.ended,
        }
    }
}

impl Datum for Entry {
    fn duplicate(&self) -> (r: Entry) {
        Entry {
            owner: self.owner.duplicate(),
            question: self.question.duplicate(),
            definition: self.definition.duplicate(),
            resolved: self.resolved,
            ended: self.ended,
        }
    }

    fn same_as(&self, other: &Entry) -> (r: bool) {
        self.owner.same_as(&other.owner) && self.question.same_as(&other.question)
            && self.definition.same_as(&other.definition) && self.resolved == other.resolved
            && self.ended == other.ended
    }
}

/// The questions by id.
pub type Entries = Map<Seq<char>, EntryView>;

impl EntryView {
    /// The members that name the question and its call.
    pub open spec fn named(self, members: Map<Seq<char>, JsonView>) -> Map<Seq<char>, JsonView> {
        members.insert("question_id"@, JsonView::Text(self.question.request.record.id)).insert(
            "revision"@,
            JsonView::Text(decimal(self.question.request.revision as nat)),
        ).insert("call_id"@, JsonView::Text(self.owner.call)).insert(
            "binding_id"@,
            JsonView::Text(self.owner.binding),
        ).insert("session_id"@, JsonView::Text(self.owner.scope.session)).insert(
            "slot_id"@,
            JsonView::Text(self.owner.scope.slot),
        ).insert("definition"@, self.definition)
    }

    /// The parameters name this question, its revision and its call, which is not over.
    pub open spec fn matched_by(self, params: JsonView) -> bool {
        &&& text_of(at(params, "call_id"@)) == Some(self.owner.call)
        &&& self.owner.named_by(params)
        &&& text_of(at(params, "revision"@)) == Some(
            decimal(self.question.request.revision as nat),
        )
        &&& !self.ended
    }

    /// The question is listed as unanswered.
    pub open spec fn awaits(self, params: JsonView) -> bool {
        &&& !self.resolved
        &&& !self.ended
        &&& (params matches JsonView::Object(members) && members.contains_key("session_id"@))
            ==> text_of(at(params, "session_id"@)) == Some(self.owner.scope.session)
    }
}

impl Entry {
    fn name(&self, members: Table<Json>) -> (r: Table<Json>)
        ensures
            r.deep_view() == self.deep_view().named(members.deep_view()),
    {
        let mut members = members;
        let request = self.question.question();
        put_text(&mut members, "question_id", request.record.id.as_str());
        put_text(&mut members, "revision", decimal_text(request.revision).as_str());
        put_text(&mut members, "call_id", self.owner.call.as_str());
        put_text(&mut members, "binding_id", self.owner.binding.as_str());
        put_text(&mut members, "session_id", self.owner.scope.session.as_str());
        put_text(&mut members, "slot_id", self.owner.scope.slot.as_str());
        members.put("definition".to_owned(), self.definition.duplicate());
        members
    }

    fn is_matched_by(&self, params: &Json) -> (r: bool)
        ensures
            r == self.deep_view().matched_by(params.deep_view()),
    {
        says_at(params, "call_id", self.owner.call.as_str()) && says_at(
            params,
            "binding_id",
            self.owner.binding.as_str(),
        ) && says_at(params, "session_id", self.owner.scope.session.as_str()) && says_at(
            params,
            "slot_id",
            self.owner.scope.slot.as_str(),
        ) && says_at(
            params,
            "revision",
            decimal_text(self.question.question().revision).as_str(),
        ) && !self.ended
    }

    fn is_awaiting(&self, params: &Json) -> (r: bool)
        ensures
            r == self.deep_view().awaits(params.deep_view()),
    {
        broadcast use json_views;

        if self.resolved || self.ended {
            return false;
        }
        let given = match params {
            Json::Object(members) => members.find("session_id").is_some(),
            _ => false,
        };
        !given || says_at(params, "session_id", self.owner.scope.session.as_str())
    }
}

/// The field fits into what readers can take.
pub open spec fn field_fits(field: QuestionFieldView) -> bool {
    match field.kind {
        QuestionFieldKindView::Text { max_bytes } => max_bytes <= 16384,
        QuestionFieldKindView::Integer { min, max } => min >= -9007199254740991 && max
            <= 9007199254740991,
        _ => true,
    }
}

/// All fields fit.
pub open spec fn fields_fit(fields: Seq<QuestionFieldView>) -> bool {
    forall|i: int| 0 <= i < fields.len() ==> field_fits(#[trigger] fields[i])
}

fn do_fields_fit(fields: &Vec<QuestionField>) -> (r: bool)
    ensures
        r == fields_fit(fields.deep_view()),
{
    let mut i: usize = 0;
    while i < fields.len()
        invariant
            i <= fields.len(),
            forall|j: int| 0 <= j < i ==> field_fits(#[trigger] fields.deep_view()[j]),
        decreases fields.len() - i,
    {
        assert(fields.deep_view()[i as int] == fields@[i as int].deep_view());
        let fits = match &fields[i].kind {
            QuestionFieldKind::Text { max_bytes } => *max_bytes <= 16384,
            QuestionFieldKind::Integer { min, max } => *min >= -9007199254740991 && *max
                <= 9007199254740991,
            _ => true,
        };
        if !fits {
            return false;
        }
        i = i + 1;
    }
    true
}

/// What is said of a question that makes no sense.
pub open spec fn bad_question() -> Seq<char> {
    "record store: "@ + StoreErrorView::InvalidPayload.debug()
}

/// Why a question cannot be asked, whoever asks it. `question` is the definition as it
/// was decoded.
pub open spec fn definition_objection(
    definition: JsonView,
    bytes: usize,
    question: Result<QuestionView, Seq<char>>,
) -> Option<Seq<char>> {
    if bytes > 16384 || !transportable(definition, 0) {
        Some("question exceeds JSON limits"@)
    } else {
        match question {
            Err(e) => Some(e),
            Ok(question) => if !question.valid() {
                Some(bad_question())
            } else if !fields_fit(question.fields) {
                Some("question field exceeds transport bounds"@)
            } else {
                None
            },
        }
    }
}

/// The questions whose calls are not over.
pub open spec fn living(entries: Entries) -> Entries {
    Map::new(
        |id: Seq<char>| entries.contains_key(id) && !entries[id].ended,
        |id: Seq<char>| entries[id],
    )
}

/// The question after a call is over.
pub open spec fn ended_with(entry: EntryView, call: Seq<char>) -> EntryView {
    if entry.owner.call == call {
        EntryView { ended: true, ..entry }
    } else {
        entry
    }
}

/// The questions after a call is over.
pub open spec fn call_ended(entries: Entries, call: Seq<char>) -> Entries {
    entries.map_values(|entry: EntryView| ended_with(entry, call))
}

/// The questions of a call.
pub open spec fn of_call(entries: Entries, call: Seq<char>) -> Set<Seq<char>> {
    entries.dom().filter(|id: Seq<char>| entries[id].owner.call == call)
}

/// A question of a call waits for its answer.
pub open spec fn waits(entries: Entries, call: Seq<char>) -> bool {
    exists|id: Seq<char>| #[trigger]
        entries.contains_key(id) && entries[id].owner.call == call && !entries[id].resolved
}

/// Another question of a call may be asked.
pub open spec fn has_room(entries: Entries, call: Seq<char>) -> bool {
    entries.dom().len() < MAX_QUESTIONS && of_call(entries, call).len() < MAX_CALL_QUESTIONS
        && !waits(entries, call)
}

/// The record of a question.
pub open spec fn question_draft(owner: TicketView, id: Seq<char>, question: QuestionView) -> DraftView {
    DraftView {
        id,
        session_id: owner.scope.session,
        run_id: None,
        actor: "host"@,
        reply_to_id: None,
        source: Some(SourceRefView { namespace: "agent_bridge.tool_invocation"@, id: owner.call }),
        payload: PayloadView::Question(question),
        state: RecordState::Open,
    }
}

/// Why a question of this call cannot be asked now.
pub open spec fn ask_objection(entries: Entries, call: Seq<char>, over: bool) -> Option<Seq<char>> {
    if over {
        Some("invocation ended"@)
    } else if !has_room(living(entries), call) {
        Some("question limit reached or invocation already has a pending question"@)
    } else {
        None
    }
}

/// The questions that calls have asked.
pub struct Service {
    entries: Table<Entry>,
    operations: usize,
}

fn keep_living(entries: &Table<Entry>) -> (r: Table<Entry>)
    ensures
        r.deep_view() == living(entries.deep_view()),
{
    let n: usize = entries.len();
    let ghost all = entries.deep_view();
    let ghost ids = entries.keys();
    let mut kept: Table<Entry> = Table::new();
    let mut i: usize = 0;
    assert(kept.deep_view() =~= Map::<Seq<char>, EntryView>::empty());
    while i < n
        invariant
            i <= n,
            n == entries.keys().len(),
            all == entries.deep_view(),
            ids == entries.keys(),
            forall|id: Seq<char>| #[trigger]
                kept.deep_view().contains_key(id) <==> ids.take(i as int).contains(id)
                    && !all[id].ended,
            forall|id: Seq<char>| #[trigger]
                kept.deep_view().contains_key(id) ==> kept.deep_view()[id] == all[id],
        decreases n - i,
    {
        let id = entries.key_at(i);
        let entry = entries.value_at(i);
        let ghost name = id@;
        assert(all[name] == entry.deep_view());
        let ghost before = kept.deep_view();
        proof {
            prefix_grows(ids, i as int);
        }
        if !entry.ended {
            kept.put(id.clone(), entry.duplicate());
        }
        assert forall|other: Seq<char>| #[trigger]
            kept.deep_view().contains_key(other) <==> ids.take(i + 1).contains(other)
                && !all[other].ended by {
            assert(ids.take(i + 1).contains(other) <==> ids.take(i as int).contains(other) || other
                == name);
            assert(before.contains_key(other) <==> ids.take(i as int).contains(other)
                && !all[other].ended);
        }
        i = i + 1;
    }
    assert(ids.take(n as int) =~= ids);
    assert forall|id: Seq<char>| #[trigger] ids.contains(id) <==> all.contains_key(id) by {
        assert(entries@.contains_key(id) <==> ids.contains(id));
    }
    assert(kept.deep_view() =~= living(all));
    kept
}

fn mark_ended(entries: &Table<Entry>, call: &str) -> (r: Table<Entry>)
    ensures
        r.deep_view() == call_ended(entries.deep_view(), call@),
{
    let n: usize = entries.len();
    let ghost all = entries.deep_view();
    let ghost ids = entries.keys();
    let mut marked: Table<Entry> = Table::new();
    let mut i: usize = 0;
    assert(marked.deep_view() =~= Map::<Seq<char>, EntryView>::empty());
    while i < n
        invariant
            i <= n,
            n == entries.keys().len(),
            all == entries.deep_view(),
            ids == entries.keys(),
            forall|id: Seq<char>| #[trigger]
                marked.deep_view().contains_key(id) <==> ids.take(i as int).contains(id),
            forall|id: Seq<char>| #[trigger]
                marked.deep_view().contains_key(id) ==> marked.deep_view()[id] == ended_with(
                    all[id],
                    call@,
                ),
        decreases n - i,
    {
        let id = entries.key_at(i);
        let mut entry = entries.value_at(i).duplicate();
        assert(all[id@] == entry.deep_view());
        proof {
            prefix_grows(ids, i as int);
        }
        if same_text(entry.owner.call.as_str(), call) {
            entry.ended = true;
        }
        assert(entry.deep_view() == ended_with(all[id@], call@));
        marked.put(id.clone(), entry);
        i = i + 1;
    }
    assert(ids.take(n as int) =~= ids);
    assert forall|id: Seq<char>| #[trigger] ids.contains(id) <==> all.contains_key(id) by {
        assert(entries@.contains_key(id) <==> ids.contains(id));
    }
    assert(marked.deep_view() =~= call_ended(all, call@));
    marked
}

fn is_room_left(entries: &Table<Entry>, call: &str) -> (r: bool)
    ensures
        r == has_room(entries.deep_view(), call@),
{
    let n: usize = entries.len();
    let ghost all = entries.deep_view();
    let ghost ids = entries.keys();
    let ghost mut found: Set<Seq<char>> = Set::empty();
    let mut same: usize = 0;
    let mut waiting = false;
    let mut i: usize = 0;
    proof {
        assert forall|id: Seq<char>| #[trigger] all.contains_key(id) <==> ids.contains(id) by {
            assert(entries@.contains_key(id) <==> ids.contains(id));
        }
        keys_are_counted::<Entry>(all, ids);
    }
    while i < n
        invariant
            i <= n,
            n == entries.keys().len(),
            all == entries.deep_view(),
            ids == entries.keys(),
            forall|a: int, b: int|
                0 <= a < b < ids.len() ==> text_before(#[trigger] ids[a], #[trigger] ids[b]),
            found.finite(),
            found.len() == same,
            same <= i,
            forall|id: Seq<char>| #[trigger]
                found.contains(id) <==> ids.take(i as int).contains(id) && all[id].owner.call
                    == call@,
            waiting == exists|id: Seq<char>| #[trigger]
                ids.take(i as int).contains(id) && all[id].owner.call == call@ && !all[id].resolved,
        decreases n - i,
    {
        let entry = entries.value_at(i);
        let ghost name = ids[i as int];
        assert(all[name] == entry.deep_view());
        proof {
            prefix_grows(ids, i as int);
            assert(!ids.take(i as int).contains(name)) by {
                if ids.take(i as int).contains(name) {
                    let j = choose|j: int| 0 <= j < i && ids.take(i as int)[j] == name;
                    assert(text_before(ids[j], ids[i as int]));
                    crate::text::text_before_irreflexive(name);
                }
            }
        }
        let ghost was_waiting = waiting;
        if same_text(entry.owner.call.as_str(), call) {
            same = same + 1;
            proof {
                found = found.insert(name);
            }
            if !entry.resolved {
                waiting = true;
                assert(ids.take(i + 1).contains(name));
            }
        }
        assert(waiting == exists|id: Seq<char>| #[trigger]
            ids.take(i + 1).contains(id) && all[id].owner.call == call@ && !all[id].resolved) by {
            if was_waiting {
                let id = choose|id: Seq<char>| #[trigger]
                    ids.take(i as int).contains(id) && all[id].owner.call == call@
                        && !all[id].resolved;
                assert(ids.take(i + 1).contains(id));
            }
        }
        i = i + 1;
    }
    assert(ids.take(n as int) =~= ids);
    assert(found =~= of_call(all, call@));
    assert(waiting == waits(all, call@)) by {
        if waiting {
            let id = choose|id: Seq<char>| #[trigger]
                ids.take(n as int).contains(id) && all[id].owner.call == call@ && !all[id].resolved;
            assert(all.contains_key(id));
        }
        if waits(all, call@) {
            let id = choose|id: Seq<char>| #[trigger]
                all.contains_key(id) && all[id].owner.call == call@ && !all[id].resolved;
            assert(ids.take(n as int).contains(id));
        }
    }
    n < MAX_QUESTIONS && same < MAX_CALL_QUESTIONS && !waiting
}

fn make_actor(name: &str) -> (r: ActorId)
    requires
        name@.len() > 0 && !blank(name@),
    ensures
        r.deep_view() == name@,
{
    ActorId::new(name.to_owned()).unwrap()
}

impl Service {
    /// The questions.
    pub closed spec fn asked(&self) -> Entries {
        self.entries.deep_view()
    }

    /// The operations that go on.
    pub closed spec fn busy(&self) -> usize {
        self.operations
    }

    /// No question was asked.
    pub fn new() -> (r: Service)
        ensures
            r.asked() == Map::<Seq<char>, EntryView>::empty(),
            r.busy() == 0,
    {
        let r = Service { entries: Table::new(), operations: 0 };
        assert(r.asked() =~= Map::<Seq<char>, EntryView>::empty());
        r
    }

    /// Lets an operation begin, or answers that there are too many.
    pub fn begin(&mut self, id: &str) -> (r: Option<Json>)
        ensures
            final(self).asked() == old(self).asked(),
            if old(self).busy() >= MAX_OPERATIONS {
                &&& r is Some && r->0.deep_view() == error_json(
                    id@,
                    "question_capacity"@,
                    "too many question operations"@,
                )
                &&& final(self).busy() == old(self).busy()
            } else {
                r is None && final(self).busy() == old(self).busy() + 1
            },
    {
        if self.operations >= MAX_OPERATIONS {
            return Some(error(id, "question_capacity", "too many question operations"));
        }
        self.operations = self.operations + 1;
        None
    }

    /// An operation is over.
    pub fn finish(&mut self)
        ensures
            final(self).asked() == old(self).asked(),
            final(self).busy() == if old(self).busy() == 0 {
                0int
            } else {
                old(self).busy() - 1
            },
    {
        if self.operations > 0 {
            self.operations = self.operations - 1;
        }
    }

    /// Asks a question: it is stored, and kept until its call is over. `bytes` is the
    /// length of the definition's JSON text, `question` is the definition as it was
    /// decoded, `shown` is that question in JSON, and `over` tells whether the call is
    /// over or the host stops.
    pub fn open<S: RecordStore>(
        &mut self,
        store: &mut S,
        owner: Ticket,
        definition: &Json,
        bytes: usize,
        question: Result<Question, String>,
        shown: Json,
        id: RecordId,
        over: bool,
    ) -> (r: Result<Json, String>)
        ensures
            final(store).dependable() == old(store).dependable(),
            final(self).busy() == old(self).busy(),
            match definition_objection(definition.deep_view(), bytes, outcome(question)) {
                Some(e) => outcome(r) == Err::<JsonView, Seq<char>>(e) && final(self).asked()
                    == old(self).asked() && final(store).contents() == old(store).contents(),
                None => match ask_objection(old(self).asked(), owner.deep_view().call, over) {
                    Some(e) => outcome(r) == Err::<JsonView, Seq<char>>(e) && final(self).asked()
                        == living(old(self).asked()) && final(store).contents() == old(
                        store,
                    ).contents(),
                    None => {
                        let opening = question_opened(
                            old(store).contents(),
                            question_draft(
                                owner.deep_view(),
                                id.deep_view(),
                                outcome(question)->Ok_0,
                            ),
                            "host"@,
                        );
                        ||| {
                            &&& opening.reply matches Ok(pending) && {
                                let entry = EntryView {
                                    owner: owner.deep_view(),
                                    question: pending,
                                    definition: shown.deep_view(),
                                    resolved: false,
                                    ended: false,
                                };
                                &&& outcome(r) == Ok::<JsonView, Seq<char>>(
                                    JsonView::Object(entry.named(event("question_opened"@))),
                                )
                                &&& final(self).asked() == living(old(self).asked()).insert(
                                    id.deep_view(),
                                    entry,
                                )
                            }
                            &&& final(store).contents() == opening.store
                        }
                        ||| {
                            &&& opening.reply matches Err(e) && outcome(r) == Err::<
                                JsonView,
                                Seq<char>,
                            >("question: "@ + e.debug())
                            &&& final(self).asked() == living(old(self).asked())
                            &&& final(store).contents() == opening.store
                        }
                        ||| {
                            &&& !old(store).dependable()
                            &&& exists|e: StoreErrorView|
                                environmental(e) && outcome(r) == Err::<JsonView, Seq<char>>(
                                    "question: "@ + #[trigger] QuestionErrorView::Store(e).debug(),
                                )
                            &&& final(self).asked() == living(old(self).asked())
                            &&& final(store).contents() == old(store).contents()
                        }
                    },
                },
            },
    {
        broadcast use json_views;

        if bytes > 16384 || !valid_json(definition, 0) {
            return Err("question exceeds JSON limits".to_owned());
        }
        let question = match question {
            Err(e) => return Err(e),
            Ok(question) => question,
        };
        match question.validate() {
            Err(e) => return Err(e.to_string()),
            Ok(_) => {},
        }
        if !do_fields_fit(&question.fields) {
            return Err("question field exceeds transport bounds".to_owned());
        }
        self.entries = keep_living(&self.entries);
        if over {
            return Err("invocation ended".to_owned());
        }
        if !is_room_left(&self.entries, owner.call.as_str()) {
            return Err(
                "question limit reached or invocation already has a pending question".to_owned(),
            );
        }
        proof {
            reveal_strlit("host");
            assert("host"@[0] == 'h');
            assert(!blank("host"@));
        }
        let draft = Draft {
            id: id.duplicate(),
            session_id: owner.scope.session.duplicate(),
            run_id: None,
            actor: make_actor("host"),
            reply_to_id: None,
            source: Some(
                SourceRef {
                    namespace: "agent_bridge.tool_invocation".to_owned(),
                    id: owner.call.clone(),
                },
            ),
            payload: Payload::Question(question),
            state: RecordState::Open,
        };
        let pending = match PendingQuestion::open(store, draft, make_actor("host")) {
            Err(e) => {
                let message = e.to_string();
                proof {
                    match e {
                        QuestionError::Store(inner) => {
                            assert(QuestionErrorView::Store(inner.deep_view()).debug()
                                == e.deep_view().debug());
                        },
                        _ => {},
                    }
                }
                return Err(message);
            },
            Ok(pending) => pending,
        };
        let entry = Entry {
            owner,
            question: pending,
            definition: shown,
            resolved: false,
            ended: false,
        };
        let frame = Json::Object(entry.name(new_event("question_opened")));
        self.entries.put(id.as_str().to_owned(), entry);
        Ok(frame)
    }

    /// The answer to a question, or why it is refused before the store is asked.
    pub open spec fn answer_objection(
        entries: Entries,
        params: JsonView,
        bytes: usize,
        chosen: Result<AnswerOutcomeView, Seq<char>>,
    ) -> Result<(Seq<char>, AnswerOutcomeView), Seq<char>> {
        match parameter(params, "question_id"@) {
            Err(e) => Err(e),
            Ok(id) => if !entries.contains_key(id) {
                Err("question is no longer live"@)
            } else if !entries[id].matched_by(params) {
                Err("stale or foreign question response"@)
            } else if bytes > 60000 || !transportable(at(params, "outcome"@), 0) {
                Err("answer exceeds JSON limits"@)
            } else {
                match chosen {
                    Err(e) => Err(e),
                    Ok(chosen) => Ok((id, chosen)),
                }
            },
        }
    }

    /// Answers a question for the user. `bytes` is the length of the outcome's JSON text,
    /// and `chosen` is the outcome as it was decoded.
    pub fn answer<S: RecordStore>(
        &mut self,
        store: &mut S,
        params: &Json,
        bytes: usize,
        chosen: Result<AnswerOutcome, String>,
    ) -> (r: Result<Json, String>)
        ensures
            final(store).dependable() == old(store).dependable(),
            final(self).busy() == old(self).busy(),
            match Service::answer_objection(
                old(self).asked(),
                params.deep_view(),
                bytes,
                outcome(chosen),
            ) {
                Err(e) => outcome(r) == Err::<JsonView, Seq<char>>(e) && final(self).asked() == old(
                    self,
                ).asked() && final(store).contents() == old(store).contents(),
                Ok((id, given)) => exists|
                    reply: Result<SnapshotView, QuestionErrorView>,
                    question: PendingQuestionView,
                |
                    {
                        &&& #[trigger] answered_as(
                            reply,
                            question,
                            final(store).contents(),
                            old(self).asked()[id].question,
                            old(store).contents(),
                            old(self).asked()[id].question.answered(
                                old(store).contents(),
                                "user"@,
                                given,
                                false,
                            ),
                            old(store).dependable(),
                        )
                        &&& final(self).asked() == old(self).asked().insert(
                            id,
                            EntryView {
                                question,
                                resolved: old(self).asked()[id].resolved || reply is Ok,
                                ..old(self).asked()[id]
                            },
                        )
                        &&& outcome(r) == match reply {
                            Ok(answer) => Ok::<JsonView, Seq<char>>(
                                JsonView::Object(
                                    member("question_id"@, JsonView::Text(id)).insert(
                                        "answer_record_id"@,
                                        JsonView::Text(answer.record.id),
                                    ).insert("stored"@, JsonView::Bool(true)),
                                ),
                            ),
                            Err(e) => Err("question: "@ + e.debug()),
                        }
                    },
            },
    {
        broadcast use json_views;

        let id = match string(params, "question_id") {
            Err(e) => return Err(e),
            Ok(id) => id,
        };
        let mut entry = match self.entries.find(id.as_str()) {
            None => return Err("question is no longer live".to_owned()),
            Some(entry) => {
                if !entry.is_matched_by(params) {
                    return Err("stale or foreign question response".to_owned());
                }
                entry.duplicate()
            },
        };
        let fits = match find_at(params, "outcome") {
            Some(value) => bytes <= 60000 && valid_json(value, 0),
            None => bytes <= 60000,
        };
        if !fits {
            return Err("answer exceeds JSON limits".to_owned());
        }
        let chosen = match chosen {
            Err(e) => return Err(e),
            Ok(chosen) => chosen,
        };
        proof {
            reveal_strlit("user");
            assert("user"@[0] == 'u');
            assert(!blank("user"@));
        }
        let ghost before = entry.deep_view();
        let ghost given = chosen.deep_view();
        let reply = entry.question.answer(store, make_actor("user"), chosen);
        assert(answered_as(
            outcome(reply),
            entry.question.deep_view(),
            store.contents(),
            before.question,
            old(store).contents(),
            before.question.answered(old(store).contents(), "user"@, given, false),
            old(store).dependable(),
        ));
        match reply {
            Err(e) => {
                self.entries.put(id.clone(), entry);
                Err(e.to_string())
            },
            Ok(answer) => {
                entry.resolved = true;
                self.entries.put(id.clone(), entry);
                let mut members = new_member("question_id", Json::Text(id.clone()));
                put_text(&mut members, "answer_record_id", answer.record.id.as_str());
                members.put("stored".to_owned(), Json::Bool(true));
                Ok(Json::Object(members))
            },
        }
    }

    /// The questions that wait for an answer, in the order of their ids.
    pub open spec fn listing(entries: Entries, ids: Seq<Seq<char>>, params: JsonView) -> Seq<
        JsonView,
    >
        decreases ids.len(),
    {
        if ids.len() == 0 {
            Seq::empty()
        } else {
            let before = Service::listing(entries, ids.drop_last(), params);
            let entry = entries[ids.last()];
            if entry.awaits(params) {
                before.push(JsonView::Object(entry.named(Map::empty())))
            } else {
                before
            }
        }
    }

    /// The questions that wait for an answer, in the order of their ids.
    pub fn pending(&self, params: &Json) -> (r: Json)
        ensures
            exists|ids: Seq<Seq<char>>| #[trigger]
                lists_ids(self.asked(), ids) && r.deep_view() == JsonView::Array(
                    Service::listing(self.asked(), ids, params.deep_view()),
                ),
    {
        broadcast use json_views;

        let n: usize = self.entries.len();
        let ghost all = self.entries.deep_view();
        let ghost ids = self.entries.keys();
        let mut frames: Vec<Json> = Vec::new();
        let mut i: usize = 0;
        assert(ids.take(0) =~= Seq::empty());
        assert(frames.deep_view() =~= Seq::<JsonView>::empty());
        while i < n
            invariant
                i <= n,
                n == self.entries.keys().len(),
                all == self.entries.deep_view(),
                ids == self.entries.keys(),
                frames.deep_view() == Service::listing(
                    all,
                    ids.take(i as int),
                    params.deep_view(),
                ),
            decreases n - i,
        {
            broadcast use json_views;

            let entry = self.entries.value_at(i);
            assert(all[ids[i as int]] == entry.deep_view());
            assert(ids.take(i + 1).drop_last() =~= ids.take(i as int));
            if entry.is_awaiting(params) {
                let empty: Table<Json> = Table::new();
                assert(empty.deep_view() =~= Map::<Seq<char>, JsonView>::empty());
                let frame = Json::Object(entry.name(empty));
                let ghost before = frames.deep_view();
                let ghost view = frame.deep_view();
                frames.push(frame);
                assert(frames.deep_view() =~= before.push(view));
            }
            i = i + 1;
        }
        assert(ids.take(n as int) =~= ids);
        assert(lists_ids(all, ids)) by {
            assert forall|id: Seq<char>| #[trigger] all.contains_key(id) <==> ids.contains(id) by {
                assert(self.entries@.contains_key(id) <==> ids.contains(id));
            }
        }
        let ghost shown = frames.deep_view();
        let r = Json::Array(frames);
        assert(r.deep_view() matches JsonView::Array(inner) && inner =~= shown);
        assert(self.asked() == all);
        r
    }

    /// Ends the wait for an answer: unless there is one, the question is answered as
    /// cancelled by the host. The answer is handed out.
    pub fn close<S: RecordStore>(&mut self, store: &mut S, id: &str) -> (r: Result<
        Arc<Snapshot>,
        String,
    >)
        ensures
            final(store).dependable() == old(store).dependable(),
            final(self).busy() == old(self).busy(),
            if !old(self).asked().contains_key(id@) {
                &&& outcome(r) == Err::<SnapshotView, Seq<char>>("question is no longer live"@)
                &&& final(self).asked() == old(self).asked()
                &&& final(store).contents() == old(store).contents()
            } else {
                exists|
                    reply: Result<SnapshotView, QuestionErrorView>,
                    question: PendingQuestionView,
                |
                    {
                        &&& #[trigger] answered_as(
                            reply,
                            question,
                            final(store).contents(),
                            old(self).asked()[id@].question,
                            old(store).contents(),
                            old(self).asked()[id@].question.answered(
                                old(store).contents(),
                                old(self).asked()[id@].question.host,
                                AnswerOutcomeView::Cancelled,
                                true,
                            ),
                            old(store).dependable(),
                        )
                        &&& final(self).asked() == old(self).asked().insert(
                            id@,
                            EntryView { question, resolved: true, ..old(self).asked()[id@] },
                        )
                        &&& outcome(r) == match reply {
                            Ok(answer) => Ok::<SnapshotView, Seq<char>>(answer),
                            Err(e) => Err("question: "@ + e.debug()),
                        }
                    }
            },
    {
        let mut entry = match self.entries.find(id) {
            None => return Err("question is no longer live".to_owned()),
            Some(entry) => entry.duplicate(),
        };
        let ghost before = entry.deep_view();
        let reply = entry.question.cancel(store);
        assert(answered_as(
            outcome(reply),
            entry.question.deep_view(),
            store.contents(),
            before.question,
            old(store).contents(),
            before.question.answered(
                old(store).contents(),
                before.question.host,
                AnswerOutcomeView::Cancelled,
                true,
            ),
            old(store).dependable(),
        ));
        entry.resolved = true;
        self.entries.put(id.to_owned(), entry);
        match reply {
            Err(e) => Err(e.to_string()),
            Ok(answer) => Ok(answer),
        }
    }

    /// A call is over: its questions can no longer be answered.
    pub fn end_call(&mut self, call: &str)
        ensures
            final(self).busy() == old(self).busy(),
            final(self).asked() == call_ended(old(self).asked(), call@),
    {
        self.entries = mark_ended(&self.entries, call);
    }

    /// The call of a question is over: the question is forgotten.
    pub fn forget(&mut self, id: &str)
        ensures
            final(self).busy() == old(self).busy(),
            final(self).asked() == old(self).asked().remove(id@),
    {
        self.entries.remove(id);
        assert(self.asked() =~= old(self).asked().remove(id@));
    }
}

/// The ids in ascending order.
pub open spec fn lists_ids(entries: Entries, ids: Seq<Seq<char>>) -> bool {
    &&& forall|id: Seq<char>| #[trigger] entries.contains_key(id) <==> ids.contains(id)
    &&& forall|i: int, j: int|
        0 <= i < j < ids.len() ==> text_before(#[trigger] ids[i], #[trigger] ids[j])
}

/// The frame that tells that a question is closed.
pub fn closed_frame(id: &str, owner: &Ticket) -> (r: Json)
    ensures
        r.deep_view() == JsonView::Object(
            event("question_closed"@).insert("question_id"@, JsonView::Text(id@)).insert(
                "call_id"@,
                JsonView::Text(owner.deep_view().call),
            ).insert("binding_id"@, JsonView::Text(owner.deep_view().binding)).insert(
                "session_id"@,
                JsonView::Text(owner.deep_view().scope.session),
            ).insert("slot_id"@, JsonView::Text(owner.deep_view().scope.slot)),
        ),
{
    broadcast use json_views;

    let mut members = new_event("question_closed");
    put_text(&mut members, "question_id", id);
    put_text(&mut members, "call_id", owner.call.as_str());
    put_text(&mut members, "binding_id", owner.binding.as_str());
    put_text(&mut members, "session_id", owner.scope.session.as_str());
    put_text(&mut members, "slot_id", owner.scope.slot.as_str());
    Json::Object(members)
}

/// The answer to the request that asked a question, given the outcome and the delivery in
/// JSON.
pub fn answered_reply(
    request: &str,
    question: &str,
    chosen: Json,
    delivery: Json,
    answer: &RecordId,
    active: bool,
) -> (r: Json)
    ensures
        r.deep_view() == ok_json(
            request@,
            JsonView::Object(
                member("question_id"@, JsonView::Text(question@)).insert(
                    "outcome"@,
                    chosen.deep_view(),
                ).insert("delivery"@, delivery.deep_view()).insert(
                    "answer_record_id"@,
                    JsonView::Text(answer.deep_view()),
                ).insert("invocation_active"@, JsonView::Bool(active)),
            ),
        ),
{
    broadcast use json_views;

    let mut members = new_member("question_id", Json::Text(question.to_owned()));
    members.put("outcome".to_owned(), chosen);
    members.put("delivery".to_owned(), delivery);
    put_text(&mut members, "answer_record_id", answer.as_str());
    members.put("invocation_active".to_owned(), Json::Bool(active));
    ok(request, Json::Object(members))
}

/// Once a call is over, none of its questions can be answered, and none is listed as
/// unanswered.
pub proof fn questions_end_with_their_call(
    entries: Entries,
    call: Seq<char>,
    id: Seq<char>,
    params: JsonView,
)
    requires
        entries.contains_key(id),
        entries[id].owner.call == call,
    ensures
        !call_ended(entries, call)[id].matched_by(params),
        !call_ended(entries, call)[id].awaits(params),
        !living(call_ended(entries, call)).contains_key(id),
{
}

/// A call has one unanswered question at most: while one waits, no other can be asked.
pub proof fn questions_of_a_call_do_not_overlap(
    entries: Entries,
    call: Seq<char>,
    id: Seq<char>,
    over: bool,
)
    requires
        entries.contains_key(id),
        entries[id].owner.call == call,
        !entries[id].resolved,
        !entries[id].ended,
    ensures
        ask_objection(entries, call, over) is Some,
{
    assert(living(entries).contains_key(id));
}

} // verus!
