//! What a record may say and how it may change.

use crate::datum::{outcome, share, Datum};
use crate::records::{
    Draft, DraftView, Payload, PayloadView, PermissionOption, PermissionOptionView,
    PermissionOutcome, PermissionOutcomeView, RecordState, Snapshot, SnapshotView, StoreError,
    StoreErrorView,
};
use crate::model::{Record, RecordView};
use crate::text::{blank, is_blank};
use std::sync::Arc;
use vstd::prelude::*;

verus! {

/// The draft that gives rise to a snapshot: everything but its sequence and its
/// revision.
pub open spec fn draft_of(snapshot: SnapshotView) -> DraftView {
    DraftView {
        id: snapshot.record.id,
        session_id: snapshot.record.session_id,
        run_id: snapshot.record.run_id,
        actor: snapshot.record.actor,
        reply_to_id: snapshot.record.reply_to_id,
        source: snapshot.source,
        payload: snapshot.record.payload,
        state: snapshot.state,
    }
}

/// Whether the snapshot arose from a draft like this one.
pub(crate) fn same_draft(snapshot: &Snapshot, draft: &Draft) -> (r: bool)
    ensures
        r == (draft_of(snapshot.deep_view()) == draft.deep_view()),
{
    let record = &snapshot.record;
    record.id.same_as(&draft.id) && record.session_id.same_as(&draft.session_id)
        && record.run_id.same_as(&draft.run_id) && record.actor.same_as(&draft.actor)
        && record.reply_to_id.same_as(&draft.reply_to_id) && record.payload.same_as(&draft.payload)
        && snapshot.source.same_as(&draft.source) && snapshot.state == draft.state
}

/// The options can be told apart.
pub open spec fn valid_options(options: Seq<PermissionOptionView>) -> bool {
    &&& forall|i: int| 0 <= i < options.len() ==> !blank((#[trigger] options[i]).id)
    &&& forall|i: int, j: int|
        0 <= i < j < options.len() ==> (#[trigger] options[i]).id != (#[trigger] options[j]).id
}

/// Some option has the id.
pub open spec fn offered(options: Seq<PermissionOptionView>, id: Seq<char>) -> bool {
    exists|i: int| 0 <= i < options.len() && (#[trigger] options[i]).id == id
}

/// A record that somebody has to answer.
pub open spec fn is_request(payload: PayloadView) -> bool {
    payload is Permission || payload is Question
}

/// A record that answers a request.
pub open spec fn is_decision(payload: PayloadView) -> bool {
    payload is Decision || payload is Answer
}

/// The payload makes sense in a record of this state.
pub open spec fn valid_payload(payload: PayloadView, state: RecordState) -> bool {
    &&& payload matches PayloadView::Permission { options, .. } ==> valid_options(options)
    &&& payload is Decision ==> state is Complete
}

fn options_valid(options: &Vec<PermissionOption>) -> (r: bool)
    ensures
        r == valid_options(options.deep_view()),
{
    let ghost views = options.deep_view();
    let mut i: usize = 0;
    while i < options.len()
        invariant
            i <= options.len(),
            views == options.deep_view(),
            forall|a: int| 0 <= a < i ==> !blank((#[trigger] views[a]).id),
            forall|a: int, b: int|
                0 <= a < b < i ==> (#[trigger] views[a]).id != (#[trigger] views[b]).id,
        decreases options.len() - i,
    {
        let option = &options[i];
        assert(views[i as int] == option.deep_view());
        if is_blank(option.id.as_str()) {
            return false;
        }
        let mut j: usize = 0;
        while j < i
            invariant
                j <= i < options.len(),
                views == options.deep_view(),
                option == options@[i as int],
                forall|a: int| 0 <= a < j ==> (#[trigger] views[a]).id != option.id@,
            decreases i - j,
        {
            assert(views[j as int] == options@[j as int].deep_view());
            if options[j].id.same_as(&option.id) {
                assert(views[j as int].id == views[i as int].id);
                return false;
            }
            j = j + 1;
        }
        i = i + 1;
    }
    true
}

fn is_offered(options: &Vec<PermissionOption>, id: &String) -> (r: bool)
    ensures
        r == offered(options.deep_view(), id@),
{
    let ghost views = options.deep_view();
    let mut i: usize = 0;
    while i < options.len()
        invariant
            i <= options.len(),
            views == options.deep_view(),
            forall|a: int| 0 <= a < i ==> (#[trigger] views[a]).id != id@,
        decreases options.len() - i,
    {
        assert(views[i as int] == options@[i as int].deep_view());
        if options[i].id.same_as(id) {
            return true;
        }
        i = i + 1;
    }
    false
}

/// Refuses a payload that makes no sense in a record of this state.
pub(crate) fn validate(payload: &Payload, state: RecordState) -> (r: Result<(), StoreError>)
    ensures
        r is Ok <==> valid_payload(payload.deep_view(), state),
        r matches Err(e) ==> e == StoreError::InvalidPayload,
{
    match payload {
        Payload::Permission { options, .. } => {
            if !options_valid(options) {
                return Err(StoreError::InvalidPayload);
            }
        },
        Payload::Decision { .. } => {
            if state != RecordState::Complete {
                return Err(StoreError::InvalidPayload);
            }
        },
        _ => {},
    }
    Ok(())
}

/// Both payloads are of the same variant.
pub open spec fn same_variant(a: PayloadView, b: PayloadView) -> bool {
    match a {
        PayloadView::Message { .. } => b is Message,
        PayloadView::Tool(_) => b is Tool,
        PayloadView::Permission { .. } => b is Permission,
        PayloadView::Decision { .. } => b is Decision,
        PayloadView::Question(_) => b is Question,
        PayloadView::Answer { .. } => b is Answer,
        PayloadView::Failure { .. } => b is Failure,
        PayloadView::RunFinished { .. } => b is RunFinished,
        PayloadView::Extension { .. } => b is Extension,
    }
}

fn is_same_variant(a: &Payload, b: &Payload) -> (r: bool)
    ensures
        r == same_variant(a.deep_view(), b.deep_view()),
{
    match (a, b) {
        (Payload::Message { .. }, Payload::Message { .. }) => true,
        (Payload::Tool(_), Payload::Tool(_)) => true,
        (Payload::Permission { .. }, Payload::Permission { .. }) => true,
        (Payload::Decision { .. }, Payload::Decision { .. }) => true,
        (Payload::Question(_), Payload::Question(_)) => true,
        (Payload::Answer { .. }, Payload::Answer { .. }) => true,
        (Payload::Failure { .. }, Payload::Failure { .. }) => true,
        (Payload::RunFinished { .. }, Payload::RunFinished { .. }) => true,
        (Payload::Extension { .. }, Payload::Extension { .. }) => true,
        _ => false,
    }
}

/// Both payloads are of the same kind: the same variant and, for messages, the
/// same kind of message.
pub open spec fn same_kind(a: PayloadView, b: PayloadView) -> bool {
    &&& same_variant(a, b)
    &&& a matches PayloadView::Message { kind: old_kind, .. } ==> b matches PayloadView::Message {
        kind: new_kind,
        ..
    } && old_kind == new_kind
}

fn is_same_kind(a: &Payload, b: &Payload) -> (r: bool)
    ensures
        r == same_kind(a.deep_view(), b.deep_view()),
{
    if !is_same_variant(a, b) {
        return false;
    }
    match (a, b) {
        (Payload::Message { kind: old_kind, .. }, Payload::Message { kind: new_kind, .. }) => {
            *old_kind == *new_kind
        },
        _ => true,
    }
}

/// A repetition of the checkpoint that led to the current revision, or one that
/// changes nothing.
pub open spec fn checkpoint_replayed(
    current: SnapshotView,
    expected_revision: u64,
    payload: PayloadView,
    next: RecordState,
) -> bool {
    &&& current.record.payload == payload
    &&& current.state == next
    &&& (current.revision == expected_revision || current.revision == expected_revision + 1)
}

/// The snapshot that a checkpoint leads to, or why it is refused.
pub open spec fn checkpointed(
    current: SnapshotView,
    expected_revision: u64,
    payload: PayloadView,
    next: RecordState,
) -> Result<SnapshotView, StoreErrorView> {
    if checkpoint_replayed(current, expected_revision, payload, next) {
        Ok(current)
    } else if current.revision != expected_revision {
        Err(StoreErrorView::RevisionConflict)
    } else if current.state.finished() {
        Err(StoreErrorView::Finalized)
    } else if !same_kind(current.record.payload, payload) {
        Err(StoreErrorView::InvalidPayload)
    } else if payload is Permission && (payload != current.record.payload || next is Complete) {
        Err(StoreErrorView::InvalidDecision)
    } else if !valid_payload(payload, next) {
        Err(StoreErrorView::InvalidPayload)
    } else if current.revision == u64::MAX {
        Err(StoreErrorView::SequenceExhausted)
    } else {
        Ok(
            SnapshotView {
                record: RecordView { payload, ..current.record },
                source: current.source,
                revision: (current.revision + 1) as u64,
                state: next,
            },
        )
    }
}

/// Replaces the payload of a live record.
pub(crate) fn checkpoint(
    current: &Arc<Snapshot>,
    expected_revision: u64,
    payload: Payload,
    next: RecordState,
) -> (r: Result<Arc<Snapshot>, StoreError>)
    ensures
        outcome(r) == checkpointed(current.deep_view(), expected_revision, payload.deep_view(), next),
{
    let unchanged = current.record.payload.same_as(&payload);
    if unchanged && current.state == next && (current.revision == expected_revision || (
    expected_revision < u64::MAX && current.revision == expected_revision + 1)) {
        return Ok(share(current));
    }
    if current.revision != expected_revision {
        return Err(StoreError::RevisionConflict);
    }
    if current.state.is_final() {
        return Err(StoreError::Finalized);
    }
    if !is_same_kind(&current.record.payload, &payload) {
        return Err(StoreError::InvalidPayload);
    }
    if matches!(payload, Payload::Permission { .. }) && (!unchanged || next
        == RecordState::Complete) {
        return Err(StoreError::InvalidDecision);
    }
    match validate(&payload, next) {
        Err(e) => return Err(e),
        Ok(_) => {},
    }
    if current.revision == u64::MAX {
        return Err(StoreError::SequenceExhausted);
    }
    let snapshot = Snapshot {
        record: Record {
            id: current.record.id.duplicate(),
            session_id: current.record.session_id.duplicate(),
            run_id: current.record.run_id.duplicate(),
            sequence: current.record.sequence,
            actor: current.record.actor.duplicate(),
            reply_to_id: current.record.reply_to_id.duplicate(),
            payload,
        },
        source: current.source.duplicate(),
        revision: current.revision + 1,
        state: next,
    };
    Ok(Arc::new(snapshot))
}

/// The decision may answer the request: it is a reply to it in the same session
/// and run, and it gives an answer that the request admits.
pub open spec fn answers(original: SnapshotView, decision: DraftView) -> Result<(), StoreErrorView> {
    let addressed = decision.reply_to_id == Some(original.record.id) && decision.session_id
        == original.record.session_id && decision.run_id == original.record.run_id;
    match (original.record.payload, decision.payload) {
        (
            PayloadView::Permission { options, .. },
            PayloadView::Decision { outcome: chosen, .. },
        ) => if addressed && (chosen matches PermissionOutcomeView::Selected(id) ==> offered(
            options,
            id,
        )) {
            Ok(())
        } else {
            Err(StoreErrorView::InvalidDecision)
        },
        (PayloadView::Question(question), PayloadView::Answer { outcome: given, .. }) => {
            if !addressed {
                Err(StoreErrorView::InvalidDecision)
            } else if !question.valid() {
                Err(StoreErrorView::InvalidPayload)
            } else if !question.accepts(given) {
                Err(StoreErrorView::InvalidDecision)
            } else {
                Ok(())
            }
        },
        _ => Err(StoreErrorView::InvalidDecision),
    }
}

/// The request after the decision, or why the decision is refused.
pub open spec fn request_resolved(
    original: SnapshotView,
    expected_revision: u64,
    decision: DraftView,
) -> Result<SnapshotView, StoreErrorView> {
    if original.revision != expected_revision {
        Err(StoreErrorView::RevisionConflict)
    } else if original.state.finished() {
        Err(StoreErrorView::Finalized)
    } else if answers(original, decision) is Err {
        Err(answers(original, decision)->Err_0)
    } else if original.revision == u64::MAX {
        Err(StoreErrorView::SequenceExhausted)
    } else {
        Ok(
            SnapshotView {
                revision: (original.revision + 1) as u64,
                state: RecordState::Complete,
                ..original
            },
        )
    }
}

fn check_answer(original: &Snapshot, decision: &Draft) -> (r: Result<(), StoreError>)
    ensures
        outcome(r) == answers(original.deep_view(), decision.deep_view()),
{
    let addressed = match &decision.reply_to_id {
        Some(id) => id.same_as(&original.record.id),
        None => false,
    } && decision.session_id.same_as(&original.record.session_id) && decision.run_id.same_as(
        &original.record.run_id,
    );
    match (&original.record.payload, &decision.payload) {
        (Payload::Permission { options, .. }, Payload::Decision { outcome: chosen, .. }) => {
            let admitted = match chosen {
                PermissionOutcome::Selected(id) => is_offered(options, id),
                PermissionOutcome::Cancelled => true,
            };
            if addressed && admitted {
                Ok(())
            } else {
                Err(StoreError::InvalidDecision)
            }
        },
        (Payload::Question(question), Payload::Answer { outcome: given, .. }) => {
            if addressed {
                question.validate_answer(given)
            } else {
                Err(StoreError::InvalidDecision)
            }
        },
        _ => Err(StoreError::InvalidDecision),
    }
}

/// Finalizes a request that the decision answers.
pub(crate) fn resolve_request(
    original: &Snapshot,
    expected_revision: u64,
    decision: &Draft,
) -> (r: Result<Snapshot, StoreError>)
    ensures
        outcome(r) == request_resolved(
            original.deep_view(),
            expected_revision,
            decision.deep_view(),
        ),
{
    if original.revision != expected_revision {
        return Err(StoreError::RevisionConflict);
    }
    if original.state != RecordState::Open {
        return Err(StoreError::Finalized);
    }
    match check_answer(original, decision) {
        Err(e) => return Err(e),
        Ok(_) => {},
    }
    if original.revision == u64::MAX {
        return Err(StoreError::SequenceExhausted);
    }
    Ok(
        Snapshot {
            record: original.record.duplicate(),
            source: original.source.duplicate(),
            revision: original.revision + 1,
            state: RecordState::Complete,
        },
    )
}

/// A finalized record keeps its payload and its state, whatever checkpoint is tried.
pub proof fn finalized_records_are_immutable(
    current: SnapshotView,
    expected_revision: u64,
    payload: PayloadView,
    next: RecordState,
)
    requires
        current.state.finished(),
    ensures
        checkpointed(current, expected_revision, payload, next) matches Ok(after) ==> after
            == current,
{
}

/// An accepted checkpoint changes neither the identity nor the order of a record.
pub proof fn checkpoints_keep_identity(
    current: SnapshotView,
    expected_revision: u64,
    payload: PayloadView,
    next: RecordState,
)
    ensures
        checkpointed(current, expected_revision, payload, next) matches Ok(after) ==> {
            &&& after.record == (RecordView { payload: after.record.payload, ..current.record })
            &&& after.source == current.source
            &&& same_kind(current.record.payload, after.record.payload)
            &&& current.revision <= after.revision <= current.revision + 1
        },
{
}

/// Repeating an accepted checkpoint gives the same snapshot again.
pub proof fn checkpoints_can_be_replayed(
    current: SnapshotView,
    expected_revision: u64,
    payload: PayloadView,
    next: RecordState,
)
    ensures
        checkpointed(current, expected_revision, payload, next) matches Ok(after) ==> checkpointed(
            after,
            expected_revision,
            payload,
            next,
        ) == Ok::<SnapshotView, StoreErrorView>(after),
{
}

/// A permission request is never completed by a checkpoint, and never changed by one.
pub proof fn permissions_complete_by_decision_alone(
    current: SnapshotView,
    expected_revision: u64,
    payload: PayloadView,
    next: RecordState,
)
    requires
        current.record.payload is Permission,
        current.state is Open,
    ensures
        checkpointed(current, expected_revision, payload, next) matches Ok(after) ==> !(
        after.state is Complete) && after.record.payload == current.record.payload,
{
}

/// A resolved request is final, one revision later, and otherwise unchanged.
pub proof fn resolution_finalizes_the_request(
    original: SnapshotView,
    expected_revision: u64,
    decision: DraftView,
)
    ensures
        request_resolved(original, expected_revision, decision) matches Ok(after) ==> {
            &&& original.state is Open
            &&& after.state is Complete
            &&& after.record == original.record
            &&& after.source == original.source
            &&& after.revision == original.revision + 1
            &&& is_request(original.record.payload)
            &&& is_decision(decision.payload)
        },
{
}

} // verus!
