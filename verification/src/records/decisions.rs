//! What holds of every request and of what answers it.

use crate::questions::{
    answer_id, answered_as, question_opened, PendingQuestionView, QuestionErrorView,
};
use crate::records::question::{
    AnswerDelivery, AnswerOutcomeView, AnswerValueView, QuestionFieldKindView, QuestionFieldView,
    QuestionView,
};
use crate::records::rules::{answers, checkpointed, request_resolved};
use crate::records::store::{environmental, StoreView};
use crate::records::{
    DraftView, PayloadView, PermissionOutcomeView, RecordState, SnapshotView, StoreErrorView,
};
use crate::text::{blank, decimal, white_space};
use vstd::prelude::*;
use vstd::utf8::encode_utf8;

verus! {

/// Whether a value answers a Boolean field depends only on its being a Boolean. A text
/// answers a text field when it has no more bytes than the field allows and, where the
/// field is required, more than white space. A number answers an integer field when it
/// lies between the bounds, both included. A choice answers a selection when one of the
/// options has its id. No value answers a field of another kind.
pub proof fn fields_are_answered_in_kind(field: QuestionFieldView, value: AnswerValueView)
    ensures
        field.kind is Boolean ==> (field.accepts(value) <==> value is Boolean),
        field.kind matches QuestionFieldKindView::Text { max_bytes } ==> (field.accepts(value)
            <==> (value matches AnswerValueView::Text(text) && encode_utf8(text).len() <= max_bytes
            && (!field.required || exists|i: int|
            0 <= i < text.len() && !white_space(#[trigger] text[i])))),
        field.kind matches QuestionFieldKindView::Integer { min, max } ==> (field.accepts(value)
            <==> (value matches AnswerValueView::Integer(n) && min <= n && n <= max)),
        field.kind matches QuestionFieldKindView::Select { options } ==> (field.accepts(value)
            <==> (value matches AnswerValueView::Selected(id) && exists|i: int|
            0 <= i < options.len() && (#[trigger] options[i]).id == id)),
{
}

/// True and false answer the same questions: in an accepted answer the value of a Boolean
/// field can be replaced by either.
pub proof fn both_booleans_are_accepted(
    question: QuestionView,
    values: Map<Seq<char>, AnswerValueView>,
    i: int,
    choice: bool,
)
    requires
        question.valid(),
        0 <= i < question.fields.len(),
        question.fields[i].kind is Boolean,
        question.accepts(AnswerOutcomeView::Submitted(values)),
    ensures
        question.accepts(
            AnswerOutcomeView::Submitted(
                values.insert(question.fields[i].id, AnswerValueView::Boolean(choice)),
            ),
        ),
{
    let id = question.fields[i].id;
    let changed = values.insert(id, AnswerValueView::Boolean(choice));
    assert(question.asks(id));
    assert forall|j: int| 0 <= j < question.fields.len() implies {
        let field = #[trigger] question.fields[j];
        if changed.contains_key(field.id) {
            field.accepts(changed[field.id])
        } else {
            !field.required
        }
    } by {
        let field = question.fields[j];
        if field.id == id {
            assert(i == j);
        }
    }
}

proof fn accepted_answers_were_asked(
    question: QuestionView,
    values: Map<Seq<char>, AnswerValueView>,
)
    requires
        question.accepts(AnswerOutcomeView::Submitted(values)),
    ensures
        forall|id: Seq<char>| #[trigger]
            values.contains_key(id) ==> exists|i: int|
                0 <= i < question.fields.len() && (#[trigger] question.fields[i]).id == id,
{
    let outcome = AnswerOutcomeView::Submitted(values);
    assert forall|id: Seq<char>| #[trigger] values.contains_key(id) implies exists|i: int|
        0 <= i < question.fields.len() && (#[trigger] question.fields[i]).id == id by {
        assert(outcome->Submitted_0.contains_key(id));
        assert(question.asks(id));
    }
}

/// A submitted answer is accepted exactly when it answers every required field, answers
/// nothing that was not asked, and gives each field that it answers a value in its kind.
/// Declining and cancelling are always accepted.
pub proof fn answers_fit_their_question(
    question: QuestionView,
    values: Map<Seq<char>, AnswerValueView>,
)
    ensures
        question.accepts(AnswerOutcomeView::Declined),
        question.accepts(AnswerOutcomeView::Cancelled),
        question.accepts(AnswerOutcomeView::Submitted(values)) <==> {
            &&& forall|i: int|
                0 <= i < question.fields.len() && (#[trigger] question.fields[i]).required
                    ==> values.contains_key(question.fields[i].id)
            &&& forall|id: Seq<char>| #[trigger]
                values.contains_key(id) ==> exists|i: int|
                    0 <= i < question.fields.len() && (#[trigger] question.fields[i]).id == id
            &&& forall|i: int|
                0 <= i < question.fields.len() && values.contains_key(
                    (#[trigger] question.fields[i]).id,
                ) ==> question.fields[i].accepts(values[question.fields[i].id])
        },
        (forall|i: int| 0 <= i < question.fields.len() ==> !(#[trigger] question.fields[i]).required)
            <==> question.accepts(AnswerOutcomeView::Submitted(Map::empty())),
{
    if question.accepts(AnswerOutcomeView::Submitted(values)) {
        accepted_answers_were_asked(question, values);
    }
    let none = Map::<Seq<char>, AnswerValueView>::empty();
    assert forall|i: int|
        0 <= i < question.fields.len() && question.accepts(
            AnswerOutcomeView::Submitted(none),
        ) implies !(#[trigger] question.fields[i]).required by {
        assert(!none.contains_key(question.fields[i].id));
    }
}

/// A field can be asked exactly when it has an id and a label, room for text, bounds in
/// order, and at a selection one to two hundred and fifty-six options with an id and a
/// label each and no id twice.
pub proof fn askable_fields_are_told_by_their_parts(field: QuestionFieldView)
    ensures
        field.valid() ==> {
            &&& exists|k: int| 0 <= k < field.id.len() && !white_space(#[trigger] field.id[k])
            &&& exists|k: int| 0 <= k < field.label.len() && !white_space(#[trigger] field.label[k])
        },
        (forall|k: int| 0 <= k < field.id.len() ==> white_space(#[trigger] field.id[k]))
            ==> !field.valid(),
        (forall|k: int| 0 <= k < field.label.len() ==> white_space(#[trigger] field.label[k]))
            ==> !field.valid(),
        ({
            let named = (exists|k: int|
                0 <= k < field.id.len() && !white_space(#[trigger] field.id[k])) && exists|k: int|
                0 <= k < field.label.len() && !white_space(#[trigger] field.label[k]);
            &&& field.kind is Boolean ==> (field.valid() <==> named)
            &&& field.kind matches QuestionFieldKindView::Text { max_bytes } ==> (field.valid()
                <==> named && max_bytes >= 1)
            &&& field.kind matches QuestionFieldKindView::Integer { min, max } ==> (field.valid()
                <==> named && min <= max)
            &&& field.kind matches QuestionFieldKindView::Select { options } ==> (field.valid()
                <==> {
                &&& named
                &&& 1 <= options.len() <= 256
                &&& forall|a: int, b: int|
                    0 <= a < b < options.len() ==> (#[trigger] options[a]).id != (
                    #[trigger] options[b]).id
                &&& forall|a: int|
                    0 <= a < options.len() ==> !blank((#[trigger] options[a]).id) && !blank(
                        options[a].label,
                    )
            })
        }),
{
}

/// A question can be asked exactly when it has a title and one to sixty-four fields that
/// can be asked, no two with the same id.
pub proof fn askable_questions_are_told_by_their_parts(question: QuestionView)
    ensures
        question.valid() <==> {
            &&& exists|k: int|
                0 <= k < question.title.len() && !white_space(#[trigger] question.title[k])
            &&& 1 <= question.fields.len() <= 64
            &&& forall|i: int, j: int|
                0 <= i < j < question.fields.len() ==> (#[trigger] question.fields[i]).id != (
                #[trigger] question.fields[j]).id
            &&& forall|i: int|
                0 <= i < question.fields.len() ==> (#[trigger] question.fields[i]).valid()
        },
{
}

/// A permission is answered by the choice of one of its options or by its cancellation,
/// a question by an answer that fits it. The answer names the request, its session and
/// its run. No other record answers a request, and no record answers anything else.
pub proof fn requests_are_answered_in_kind(original: SnapshotView, decision: DraftView)
    ensures
        answers(original, decision) is Ok <==> {
            &&& decision.reply_to_id == Some(original.record.id)
            &&& decision.session_id == original.record.session_id
            &&& decision.run_id == original.record.run_id
            &&& match original.record.payload {
                PayloadView::Permission { options, .. } => decision.payload matches PayloadView::Decision {
                    outcome,
                    ..
                } && (outcome is Cancelled || exists|i: int|
                    0 <= i < options.len() && PermissionOutcomeView::Selected(
                        (#[trigger] options[i]).id,
                    ) == outcome),
                PayloadView::Question(question) => decision.payload matches PayloadView::Answer {
                    outcome,
                    ..
                } && question.valid() && question.accepts(outcome),
                _ => false,
            }
        },
{
    if original.record.payload is Permission && decision.payload is Decision {
        let options = original.record.payload->Permission_options;
        let outcome = decision.payload->Decision_outcome;
        if outcome is Selected {
            let id = outcome->Selected_0;
            if crate::records::rules::offered(options, id) {
                let i = choose|i: int| 0 <= i < options.len() && (#[trigger] options[i]).id == id;
                assert(PermissionOutcomeView::Selected(options[i].id) == outcome);
            }
        }
    }
}

/// An open request of the expected revision is resolved by whatever answers it: the
/// request is complete, one revision further and otherwise as it was. A request of another
/// revision, and one that is no longer open, is not.
pub proof fn answered_requests_are_complete(
    original: SnapshotView,
    expected: u64,
    decision: DraftView,
)
    ensures
        ({
            let reply = request_resolved(original, expected, decision);
            &&& original.revision != expected ==> reply == Err::<SnapshotView, StoreErrorView>(
                StoreErrorView::RevisionConflict,
            )
            &&& original.revision == expected && original.state != RecordState::Open ==> reply
                == Err::<SnapshotView, StoreErrorView>(StoreErrorView::Finalized)
            &&& original.revision == expected && expected < u64::MAX && original.state
                == RecordState::Open ==> (reply is Ok <==> answers(original, decision) is Ok)
            &&& reply matches Ok(after) ==> after.record == original.record && after.source
                == original.source && after.revision == original.revision + 1 && after.state
                == RecordState::Complete
        }),
{
}

/// An open record of the expected revision takes every payload of its own kind and every
/// state: it then holds that payload in that state, one revision further, and is otherwise
/// the record that it was. A message keeps its speaker. A permission keeps its contents
/// and is not completed, and another kind is refused, as are an expected revision that is
/// not the record's and a record that is no longer open.
pub proof fn open_records_take_their_checkpoints(
    current: SnapshotView,
    expected: u64,
    payload: PayloadView,
    next: RecordState,
)
    requires
        expected < u64::MAX,
        current.record.payload != payload || current.state != next,
    ensures
        ({
            let reply = checkpointed(current, expected, payload, next);
            let held = current.record.payload;
            let refused = |e: StoreErrorView| reply == Err::<SnapshotView, StoreErrorView>(e);
            &&& current.revision != expected ==> refused(StoreErrorView::RevisionConflict)
            &&& current.revision == expected && current.state != RecordState::Open ==> refused(
                StoreErrorView::Finalized,
            )
            &&& current.revision == expected && current.state == RecordState::Open ==> {
                let after = reply->Ok_0;
                let taken = reply is Ok && after.record.payload == payload && after.state == next
                    && after.revision == expected + 1 && after.source == current.source
                    && after.record.id == current.record.id && after.record.session_id
                    == current.record.session_id && after.record.run_id == current.record.run_id
                    && after.record.sequence == current.record.sequence && after.record.actor
                    == current.record.actor && after.record.reply_to_id
                    == current.record.reply_to_id;
                let other = refused(StoreErrorView::InvalidPayload);
                match held {
                    PayloadView::Message { kind, .. } => if payload is Message
                        && payload->Message_kind == kind {
                        taken
                    } else {
                        other
                    },
                    PayloadView::Tool(_) => if payload is Tool { taken } else { other },
                    PayloadView::Question(_) => if payload is Question { taken } else { other },
                    PayloadView::Failure { .. } => if payload is Failure { taken } else { other },
                    PayloadView::RunFinished { .. } => if payload is RunFinished {
                        taken
                    } else {
                        other
                    },
                    PayloadView::Extension { .. } => if payload is Extension {
                        taken
                    } else {
                        other
                    },
                    PayloadView::Answer { .. } => if payload is Answer { taken } else { other },
                    PayloadView::Decision { .. } => if payload is Decision
                        && next == RecordState::Complete {
                        taken
                    } else {
                        other
                    },
                    PayloadView::Permission { .. } => if !(payload is Permission) {
                        other
                    } else if payload != held || next == RecordState::Complete {
                        refused(StoreErrorView::InvalidDecision)
                    } else {
                        taken || other
                    },
                }
            }
        }),
{
}

/// A new record is stored when its session is known, its run is one of that session, what
/// it replies to is known, and its payload can stand in its state: it is then the last of
/// its session and holds what was given. Nothing else that the store holds is changed.
pub proof fn new_records_are_stored(store: StoreView, draft: DraftView)
    requires
        !store.records.contains_key(draft.id),
        store.sessions.contains_key(draft.session_id),
        store.sessions[draft.session_id].len() <= u64::MAX,
        draft.run_id matches Some(run) ==> store.runs.contains_key(run)
            && store.runs[run].session_id == draft.session_id,
        draft.reply_to_id matches Some(reply) ==> store.records.contains_key(reply),
        !(draft.payload is Decision),
        !(draft.payload is Answer),
        draft.payload is Question ==> draft.state == RecordState::Open,
        draft.payload matches PayloadView::Permission { options, .. } ==> {
            &&& draft.state == RecordState::Open
            &&& forall|i: int|
                0 <= i < options.len() ==> exists|k: int|
                    0 <= k < (#[trigger] options[i]).id.len() && !white_space(
                        #[trigger] options[i].id[k],
                    )
            &&& forall|i: int, j: int|
                0 <= i < j < options.len() ==> (#[trigger] options[i]).id != (
                #[trigger] options[j]).id
        },
    ensures
        store.inserted(draft) matches Ok((snapshot, after)) && {
            &&& snapshot.record.id == draft.id
            &&& snapshot.record.session_id == draft.session_id
            &&& snapshot.record.run_id == draft.run_id
            &&& snapshot.record.actor == draft.actor
            &&& snapshot.record.reply_to_id == draft.reply_to_id
            &&& snapshot.record.payload == draft.payload
            &&& snapshot.source == draft.source
            &&& snapshot.state == draft.state
            &&& snapshot.revision == 0
            &&& snapshot.record.sequence == store.sessions[draft.session_id].len()
            &&& after.sessions[draft.session_id] == store.sessions[draft.session_id].push(draft.id)
            &&& after.records.contains_key(draft.id)
            &&& after.records[draft.id].current == snapshot
            &&& forall|id: Seq<char>|
                id != draft.id ==> (#[trigger] after.records.contains_key(id)
                    <==> store.records.contains_key(id)) && after.records[id] == store.records[id]
            &&& forall|id: Seq<char>|
                id != draft.session_id ==> (#[trigger] after.sessions.contains_key(id)
                    <==> store.sessions.contains_key(id)) && after.sessions[id]
                    == store.sessions[id]
            &&& after.runs == store.runs
            &&& after.decisions == store.decisions
            &&& after.continuations == store.continuations
            &&& after.relations == store.relations
        },
{
}

/// A record that cannot be stored is refused for what is wrong with it.
pub proof fn unfit_records_are_refused(store: StoreView, draft: DraftView)
    ensures
        ({
            let refused = |e: StoreErrorView|
                store.inserted(draft) == Err::<(SnapshotView, StoreView), StoreErrorView>(e);
            let fresh = !store.records.contains_key(draft.id);
            &&& draft.payload is Decision ==> refused(StoreErrorView::InvalidDecision)
            &&& draft.payload is Answer ==> refused(StoreErrorView::InvalidDecision)
            &&& fresh && draft.payload is Question && draft.state != RecordState::Open ==> refused(
                StoreErrorView::InvalidPayload,
            )
            &&& fresh && draft.payload is Permission && draft.state != RecordState::Open
                ==> refused(StoreErrorView::InvalidPayload)
            &&& fresh && (draft.payload is Message || draft.payload is Tool) ==> {
                &&& !store.sessions.contains_key(draft.session_id) ==> refused(
                    StoreErrorView::MissingSession,
                )
                &&& store.sessions.contains_key(draft.session_id) ==> {
                    &&& draft.run_id is Some && !store.runs.contains_key(draft.run_id->0) ==> refused(
                        StoreErrorView::MissingRun,
                    )
                    &&& draft.run_id is Some && store.runs.contains_key(draft.run_id->0)
                        && store.runs[draft.run_id->0].session_id != draft.session_id ==> refused(
                        StoreErrorView::WrongSession,
                    )
                    &&& draft.run_id is None && draft.reply_to_id is Some && !store.records.contains_key(
                        draft.reply_to_id->0,
                    ) ==> refused(
                        StoreErrorView::MissingRecord,
                    )
                }
            }
        }),
{
}

/// A question that was asked is stored open, and the first answer that fits it is stored
/// as a complete record beside it: by the actor who gave it, in reply to the question, in
/// its session and run, with what was said, and with nothing claimed of its delivery. The
/// question itself is complete from then on.
pub proof fn first_answers_are_stored(
    store: StoreView,
    draft: DraftView,
    host: Seq<char>,
    actor: Seq<char>,
    outcome: AnswerOutcomeView,
    accept_existing: bool,
)
    requires
        draft.payload is Question,
        draft.state == RecordState::Open,
        !store.records.contains_key(draft.id),
        store.sessions.contains_key(draft.session_id),
        store.sessions[draft.session_id].len() < u64::MAX,
        draft.run_id matches Some(run) ==> store.runs.contains_key(run)
            && store.runs[run].session_id == draft.session_id,
        draft.reply_to_id matches Some(reply) ==> store.records.contains_key(reply),
        !store.decisions.contains_key(draft.id),
        draft.payload->Question_0.valid(),
        draft.payload->Question_0.accepts(outcome),
    ensures
        question_opened(store, draft, host).reply matches Ok(pending) && {
            let opened = question_opened(store, draft, host).store;
            let (reply, asked, after) = pending.answered(
                opened,
                actor,
                outcome,
                accept_existing,
            );
            let request = pending.request;
            &&& request.record.id == draft.id
            &&& request.record.payload == draft.payload
            &&& request.record.actor == draft.actor
            &&& request.state == RecordState::Open
            &&& pending.host == host
            &&& pending.resolved is None
            &&& !opened.records.contains_key(crate::questions::answer_id(draft.id)) ==> {
                let answer = reply->Ok_0;
                &&& reply is Ok
                &&& asked.resolved == Some(answer)
                &&& answer.record.actor == actor
                &&& answer.record.reply_to_id == Some(draft.id)
                &&& answer.record.session_id == draft.session_id
                &&& answer.record.run_id == draft.run_id
                &&& answer.record.payload == (PayloadView::Answer {
                    outcome,
                    delivery: AnswerDelivery::Stored,
                })
                &&& answer.state == RecordState::Complete
                &&& answer.record.sequence == request.record.sequence + 1
                &&& after.record(answer.record.id) == Ok::<SnapshotView, StoreErrorView>(answer)
                &&& after.decisions[draft.id] == answer.record.id
                &&& after.records[draft.id].current.state == RecordState::Complete
                &&& after.records[draft.id].current.record == request.record
            }
        },
{
}

/// A question that was answered keeps its answer: the same actor saying the same again is
/// given it back, as is anyone who accepts what is there, and anyone else is refused.
pub proof fn later_answers_are_compared(
    question: PendingQuestionView,
    store: StoreView,
    existing: SnapshotView,
    actor: Seq<char>,
    outcome: AnswerOutcomeView,
    accept_existing: bool,
)
    requires
        question.resolved == Some(existing),
    ensures
        ({
            let (reply, asked, after) = question.answered(store, actor, outcome, accept_existing);
            let same = existing.record.actor == actor && existing.record.payload == (
            PayloadView::Answer { outcome, delivery: AnswerDelivery::Stored });
            &&& asked == question
            &&& after == store
            &&& reply is Ok <==> (accept_existing || same)
            &&& reply matches Ok(answer) ==> answer == existing
            &&& reply matches Err(e) ==> e == crate::questions::QuestionErrorView::Store(
                StoreErrorView::AlreadyResolved,
            )
        }),
{
}

/// An answer comes to what it should. Only a store that cannot be depended on may keep it
/// from that, with an error of its own and without a change, and a question that has its
/// answer needs no store.
pub proof fn answers_come_to_what_they_should(
    reply: Result<SnapshotView, QuestionErrorView>,
    question: PendingQuestionView,
    store: StoreView,
    before: PendingQuestionView,
    before_store: StoreView,
    expected: (Result<SnapshotView, QuestionErrorView>, PendingQuestionView, StoreView),
    dependable: bool,
)
    requires
        answered_as(reply, question, store, before, before_store, expected, dependable),
    ensures
        reply is Ok ==> (reply, question, store) == expected,
        dependable || before.resolved is Some ==> (reply, question, store) == expected,
        (reply, question, store) != expected ==> question == before && store == before_store && (
        reply matches Err(QuestionErrorView::Store(e)) && environmental(e)),
{
}

/// The answer to a question has an id of its own, by which it can be found.
pub proof fn answers_are_found_by_their_question(question: Seq<char>)
    ensures
        answer_id(question) == "question/"@ + decimal(encode_utf8(question).len()) + ":"@ + question
            + "/answer"@,
{
}

/// A record that is known is inserted again only as what it was created as: the same session,
/// run, actor, reply, source, payload and state. It is then given as it is now. Any other
/// under its id is refused.
pub proof fn known_records_are_compared_in_full(store: StoreView, draft: DraftView)
    requires
        store.records.contains_key(draft.id),
        store.records[draft.id].initial.record.id == draft.id,
        !(draft.payload is Decision),
        !(draft.payload is Answer),
    ensures
        ({
            let created = store.records[draft.id].initial;
            let same = created.record.session_id == draft.session_id && created.record.run_id
                == draft.run_id && created.record.actor == draft.actor && created.record.reply_to_id
                == draft.reply_to_id && created.record.payload == draft.payload && created.source
                == draft.source && created.state == draft.state;
            if same {
                store.inserted(draft) == Ok::<(SnapshotView, StoreView), StoreErrorView>(
                    (store.records[draft.id].current, store),
                )
            } else {
                store.inserted(draft) == Err::<(SnapshotView, StoreView), StoreErrorView>(
                    StoreErrorView::IdentityConflict,
                )
            }
        }),
{
}

/// A checkpoint that changes nothing is recognised at the revision that it was made from or
/// led to, and refused at any other.
pub proof fn repeated_checkpoints_are_recognised(
    current: SnapshotView,
    expected: u64,
    payload: PayloadView,
    next: RecordState,
)
    requires
        current.record.payload == payload,
        current.state == next,
    ensures
        ({
            let reply = checkpointed(current, expected, payload, next);
            let fresh = current.revision == expected || current.revision == expected + 1;
            &&& fresh ==> reply == Ok::<SnapshotView, StoreErrorView>(current)
            &&& !fresh ==> reply == Err::<SnapshotView, StoreErrorView>(
                StoreErrorView::RevisionConflict,
            )
        }),
{
}

/// A request whose options cannot be told apart, or are not named, is refused.
pub proof fn options_are_named_apart(store: StoreView, draft: DraftView, i: int, j: int)
    requires
        !store.records.contains_key(draft.id),
        draft.payload is Permission,
        0 <= i < j < draft.payload->Permission_options.len(),
    ensures
        ({
            let options = draft.payload->Permission_options;
            options[i].id == options[j].id || blank(options[i].id) || blank(options[j].id)
                ==> store.inserted(draft) == Err::<(SnapshotView, StoreView), StoreErrorView>(
                StoreErrorView::InvalidPayload,
            )
        }),
{
}

/// What was decided is found under the request, and only what was stored as the decision.
pub proof fn decisions_are_found_by_their_request(
    store: StoreView,
    request: Seq<char>,
    expected: u64,
    decision: DraftView,
)
    requires
        !store.decisions.contains_key(request),
    ensures
        ({
            let reply = store.resolved(request, expected, decision);
            &&& store.records.contains_key(decision.id) ==> reply == Err::<
                (SnapshotView, StoreView),
                StoreErrorView,
            >(StoreErrorView::IdentityConflict)
            &&& !store.records.contains_key(decision.id) && !store.records.contains_key(request)
                ==> reply == Err::<(SnapshotView, StoreView), StoreErrorView>(
                StoreErrorView::MissingRecord,
            )
            &&& reply matches Ok((stored, after)) ==> {
                &&& after.decisions == store.decisions.insert(request, decision.id)
                &&& stored.record.id == decision.id
                &&& stored.record.actor == decision.actor
                &&& stored.record.payload == decision.payload
                &&& stored.record.reply_to_id == decision.reply_to_id
                &&& stored.record.session_id == decision.session_id
                &&& stored.record.run_id == decision.run_id
                &&& stored.source == decision.source
                &&& stored.state == decision.state
                &&& stored.revision == 0
                &&& after.records[decision.id].current == stored
                &&& after.records[request].current.state == RecordState::Complete
                &&& after.records[request].current.record == store.records[request].current.record
                &&& after.runs == store.runs
            }
        }),
{
}

} // verus!
