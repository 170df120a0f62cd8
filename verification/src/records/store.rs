//! What a store holds and what each operation does to it.
//!
//! Local synchronous storage semantics, not a distributed execution scheduler.

use crate::datum::outcome;
use crate::execution::{Assignment, ExecutionRelation, ExecutionRelationView};
use crate::id::{ContinuationId, RecordId, RunId, SessionId};
use crate::model::RecordView;
use crate::records::continuation::{
    claimed, found, registry_consistent, saved, Continuation, ContinuationRecord,
    ContinuationRecordView, ContinuationView, Continuations,
};
use crate::records::rules::{
    checkpointed, draft_of, is_decision, is_request, request_resolved, valid_payload,
};
use crate::records::{
    Draft, DraftView, Payload, PayloadView, RecordState, Snapshot, SnapshotView, StoreError,
    StoreErrorView,
};
use crate::run::RunSpec;
use crate::text::text_before;
use std::sync::Arc;
use vstd::prelude::*;

verus! {

/// A record as it was created and as it is now.
#[verifier::ext_equal]
pub struct EntryView {
    pub initial: SnapshotView,
    pub current: SnapshotView,
}

/// The edges of the execution graph by child.
pub type Relations = Map<Seq<char>, ExecutionRelationView>;

/// Everything that a store holds.
#[verifier::ext_equal]
pub struct StoreView {
    /// The ids of the records of each session, in the order of their sequences.
    pub sessions: Map<Seq<char>, Seq<Seq<char>>>,
    pub runs: Map<Seq<char>, Assignment>,
    pub records: Map<Seq<char>, EntryView>,
    /// The decision of each resolved request.
    pub decisions: Map<Seq<char>, Seq<char>>,
    pub continuations: Continuations,
    pub relations: Relations,
}

/// The run that is `n` edges above a run.
pub open spec fn ancestor(relations: Relations, run: Seq<char>, n: nat) -> Option<Seq<char>>
    decreases n,
{
    if n == 0 {
        Some(run)
    } else {
        match ancestor(relations, run, (n - 1) as nat) {
            Some(below) => if relations.contains_key(below) {
                Some(relations[below].parent)
            } else {
                None
            },
            None => None,
        }
    }
}

/// The target is the run itself or above it.
pub open spec fn reaches(relations: Relations, run: Seq<char>, target: Seq<char>) -> bool {
    exists|n: nat| #[trigger] ancestor(relations, run, n) == Some(target)
}

/// No run is above itself.
pub open spec fn acyclic(relations: Relations) -> bool {
    forall|run: Seq<char>, n: nat|
        n > 0 ==> #[trigger] ancestor(relations, run, n) != Some(run)
}

/// Why the records cannot be selected as context, in the order of the selection.
pub open spec fn context_error(records: Map<Seq<char>, EntryView>, ids: Seq<Seq<char>>) -> Option<
    StoreErrorView,
>
    decreases ids.len(),
{
    if ids.len() == 0 {
        None
    } else if !records.contains_key(ids[0]) {
        Some(StoreErrorView::MissingRecord)
    } else if !records[ids[0]].current.state.finished() {
        Some(StoreErrorView::OpenContextRecord)
    } else {
        context_error(records, ids.skip(1))
    }
}

/// Why the records cannot be handed to a child of the session, in their order.
pub open spec fn session_error(
    records: Map<Seq<char>, EntryView>,
    session: Seq<char>,
    ids: Seq<Seq<char>>,
) -> Option<StoreErrorView>
    decreases ids.len(),
{
    if ids.len() == 0 {
        None
    } else if !records.contains_key(ids[0]) {
        Some(StoreErrorView::MissingRecord)
    } else if records[ids[0]].current.record.session_id != session {
        Some(StoreErrorView::WrongSession)
    } else {
        session_error(records, session, ids.skip(1))
    }
}

/// The edges below a parent, in the order of the children's ids.
pub open spec fn lists_children(
    relations: Relations,
    parent: Seq<char>,
    edges: Seq<ExecutionRelationView>,
) -> bool {
    &&& forall|i: int|
        0 <= i < edges.len() ==> {
            let edge = #[trigger] edges[i];
            relations.contains_key(edge.child) && relations[edge.child] == edge && edge.parent
                == parent
        }
    &&& forall|i: int, j: int|
        0 <= i < j < edges.len() ==> text_before(
            (#[trigger] edges[i]).child,
            (#[trigger] edges[j]).child,
        )
    &&& forall|child: Seq<char>| #[trigger]
        relations.contains_key(child) && relations[child].parent == parent ==> edges.contains(
            relations[child],
        )
}

impl StoreView {
    /// A store that holds nothing.
    pub open spec fn empty() -> StoreView {
        StoreView {
            sessions: Map::empty(),
            runs: Map::empty(),
            records: Map::empty(),
            decisions: Map::empty(),
            continuations: Map::empty(),
            relations: Map::empty(),
        }
    }

    /// The store with the session, which is left alone where it exists.
    pub open spec fn session_created(self, id: Seq<char>) -> StoreView {
        if self.sessions.contains_key(id) {
            self
        } else {
            StoreView { sessions: self.sessions.insert(id, Seq::empty()), ..self }
        }
    }

    /// Why the run cannot start from the continuation that it names.
    pub open spec fn origin_error(self, run: Assignment) -> Option<StoreErrorView> {
        match run.continuation {
            None => None,
            Some(id) => match found(self.continuations, id) {
                Err(e) => Some(e),
                Ok(origin) => if origin.state is Claimed && origin.latest
                    && origin.continuation.session_id == run.session_id
                    && origin.continuation.slot_id == run.slot_id {
                    None
                } else {
                    Some(StoreErrorView::InvalidContinuation)
                },
            },
        }
    }

    /// The store with the run, and whether the run is new.
    pub open spec fn run_registered(self, run: Assignment) -> Result<
        (bool, StoreView),
        StoreErrorView,
    > {
        if self.runs.contains_key(run.id) {
            if self.runs[run.id] == run {
                Ok((false, self))
            } else {
                Err(StoreErrorView::IdentityConflict)
            }
        } else if !self.sessions.contains_key(run.session_id) {
            Err(StoreErrorView::MissingSession)
        } else if self.origin_error(run) is Some {
            Err(self.origin_error(run)->0)
        } else if context_error(self.records, run.context.records) is Some {
            Err(context_error(self.records, run.context.records)->0)
        } else {
            Ok((true, StoreView { runs: self.runs.insert(run.id, run), ..self }))
        }
    }

    /// The first snapshot of a new record.
    pub open spec fn prepared(self, draft: DraftView) -> Result<SnapshotView, StoreErrorView> {
        if !valid_payload(draft.payload, draft.state) {
            Err(StoreErrorView::InvalidPayload)
        } else if !self.sessions.contains_key(draft.session_id) {
            Err(StoreErrorView::MissingSession)
        } else if draft.run_id is Some && !self.runs.contains_key(draft.run_id->0) {
            Err(StoreErrorView::MissingRun)
        } else if draft.run_id is Some && self.runs[draft.run_id->0].session_id
            != draft.session_id {
            Err(StoreErrorView::WrongSession)
        } else if draft.reply_to_id is Some && !self.records.contains_key(draft.reply_to_id->0) {
            Err(StoreErrorView::MissingRecord)
        } else {
            Ok(
                SnapshotView {
                    record: RecordView {
                        id: draft.id,
                        session_id: draft.session_id,
                        run_id: draft.run_id,
                        sequence: self.sessions[draft.session_id].len() as u64,
                        actor: draft.actor,
                        reply_to_id: draft.reply_to_id,
                        payload: draft.payload,
                    },
                    source: draft.source,
                    revision: 0,
                    state: draft.state,
                },
            )
        }
    }

    /// The store with a new record at the end of its session.
    pub open spec fn committed(self, snapshot: SnapshotView) -> StoreView {
        let session = snapshot.record.session_id;
        StoreView {
            sessions: self.sessions.insert(
                session,
                self.sessions[session].push(snapshot.record.id),
            ),
            records: self.records.insert(
                snapshot.record.id,
                EntryView { initial: snapshot, current: snapshot },
            ),
            ..self
        }
    }

    /// The store with the record of a draft, and the record as it is now.
    pub open spec fn inserted(self, draft: DraftView) -> Result<
        (SnapshotView, StoreView),
        StoreErrorView,
    > {
        if is_decision(draft.payload) {
            Err(StoreErrorView::InvalidDecision)
        } else if self.records.contains_key(draft.id) {
            if draft_of(self.records[draft.id].initial) == draft {
                Ok((self.records[draft.id].current, self))
            } else {
                Err(StoreErrorView::IdentityConflict)
            }
        } else if is_request(draft.payload) && draft.state.finished() {
            Err(StoreErrorView::InvalidPayload)
        } else {
            match self.prepared(draft) {
                Err(e) => Err(e),
                Ok(snapshot) => Ok((snapshot, self.committed(snapshot))),
            }
        }
    }

    /// The store with another current snapshot of a record.
    pub open spec fn updated(self, id: Seq<char>, current: SnapshotView) -> StoreView {
        StoreView {
            records: self.records.insert(id, EntryView { current, ..self.records[id] }),
            ..self
        }
    }

    /// The store after a checkpoint, and the record as it is then.
    pub open spec fn checkpointed(
        self,
        id: Seq<char>,
        expected_revision: u64,
        payload: PayloadView,
        next: RecordState,
    ) -> Result<(SnapshotView, StoreView), StoreErrorView> {
        if !self.records.contains_key(id) {
            Err(StoreErrorView::MissingRecord)
        } else {
            match checkpointed(self.records[id].current, expected_revision, payload, next) {
                Err(e) => Err(e),
                Ok(snapshot) => Ok((snapshot, self.updated(id, snapshot))),
            }
        }
    }

    /// The store with one decision on a request, and the decision.
    pub open spec fn resolved(
        self,
        request: Seq<char>,
        expected_revision: u64,
        decision: DraftView,
    ) -> Result<(SnapshotView, StoreView), StoreErrorView> {
        if self.decisions.contains_key(request) {
            let entry = self.records[self.decisions[request]];
            if draft_of(entry.initial) == decision {
                Ok((entry.current, self))
            } else {
                Err(StoreErrorView::AlreadyResolved)
            }
        } else if self.records.contains_key(decision.id) {
            Err(StoreErrorView::IdentityConflict)
        } else if !self.records.contains_key(request) {
            Err(StoreErrorView::MissingRecord)
        } else {
            match request_resolved(self.records[request].current, expected_revision, decision) {
                Err(e) => Err(e),
                Ok(answered) => match self.prepared(decision) {
                    Err(e) => Err(e),
                    Ok(snapshot) => {
                        let decided = StoreView {
                            decisions: self.decisions.insert(request, decision.id),
                            ..self.updated(request, answered)
                        };
                        Ok((snapshot, decided.committed(snapshot)))
                    },
                },
            }
        }
    }

    /// The current snapshot of a record.
    pub open spec fn record(self, id: Seq<char>) -> Result<SnapshotView, StoreErrorView> {
        if self.records.contains_key(id) {
            Ok(self.records[id].current)
        } else {
            Err(StoreErrorView::MissingRecord)
        }
    }

    /// The assignment of a run.
    pub open spec fn run(self, id: Seq<char>) -> Result<Assignment, StoreErrorView> {
        if self.runs.contains_key(id) {
            Ok(self.runs[id])
        } else {
            Err(StoreErrorView::MissingRun)
        }
    }

    /// One page of a session: at most `limit` records with sequences above `after`.
    pub open spec fn page(self, session: Seq<char>, after: Option<u64>, limit: usize) -> Result<
        Seq<SnapshotView>,
        StoreErrorView,
    > {
        if !(1 <= limit <= 1000) {
            Err(StoreErrorView::InvalidPageSize)
        } else if !self.sessions.contains_key(session) {
            Err(StoreErrorView::MissingSession)
        } else {
            let ids = self.sessions[session];
            let start = match after {
                None => 0,
                Some(cursor) => cursor + 1,
            };
            let count = if start >= ids.len() {
                0
            } else if ids.len() - start < limit {
                ids.len() - start
            } else {
                limit as int
            };
            Ok(Seq::new(count as nat, |i: int| self.records[ids[start + i]].current))
        }
    }

    /// The store with a saved continuation, and its record.
    pub open spec fn continuation_saved(self, value: ContinuationView) -> Result<
        (ContinuationRecordView, StoreView),
        StoreErrorView,
    > {
        if !self.sessions.contains_key(value.session_id) {
            Err(StoreErrorView::MissingSession)
        } else {
            match saved(self.continuations, value) {
                Err(e) => Err(e),
                Ok((record, continuations)) => Ok((record, StoreView { continuations, ..self })),
            }
        }
    }

    /// The store with a claimed continuation, and its record.
    pub open spec fn continuation_claimed(self, id: Seq<char>) -> Result<
        (ContinuationRecordView, StoreView),
        StoreErrorView,
    > {
        match claimed(self.continuations, id) {
            Err(e) => Err(e),
            Ok((record, continuations)) => Ok((record, StoreView { continuations, ..self })),
        }
    }

    /// The edge carries the same authority as the edges next to it.
    pub open spec fn continues_authority(self, edge: ExecutionRelationView) -> bool {
        &&& self.relations.contains_key(edge.parent)
            ==> self.relations[edge.parent].child_authority == edge.parent_authority
        &&& forall|child: Seq<char>| #[trigger]
            self.relations.contains_key(child) && self.relations[child].parent == edge.child
                ==> self.relations[child].parent_authority == edge.child_authority
    }

    /// The store with an edge of the execution graph, and the edge.
    pub open spec fn linked(self, edge: ExecutionRelationView) -> Result<
        (ExecutionRelationView, StoreView),
        StoreErrorView,
    > {
        if self.relations.contains_key(edge.child) {
            if self.relations[edge.child] == edge {
                Ok((edge, self))
            } else {
                Err(StoreErrorView::ExecutionRelationConflict)
            }
        } else if !self.runs.contains_key(edge.parent) || !self.runs.contains_key(edge.child) {
            Err(StoreErrorView::MissingRun)
        } else if !edge.valid(self.runs[edge.parent], self.runs[edge.child])
            || !self.continues_authority(edge) {
            Err(StoreErrorView::InvalidExecutionRelation)
        } else {
            let child = self.runs[edge.child];
            match session_error(self.records, child.session_id, child.context.records) {
                Some(e) => Err(e),
                None => if reaches(self.relations, edge.parent, edge.child) {
                    Err(StoreErrorView::ExecutionCycle)
                } else {
                    Ok(
                        (
                            edge,
                            StoreView { relations: self.relations.insert(edge.child, edge), ..self },
                        ),
                    )
                },
            }
        }
    }

    /// The edge above a run.
    pub open spec fn parent_edge(self, child: Seq<char>) -> Option<ExecutionRelationView> {
        if self.relations.contains_key(child) {
            Some(self.relations[child])
        } else {
            None
        }
    }
}

/// The current snapshot differs from the first in payload, state and revision alone.
pub open spec fn same_identity(entry: EntryView) -> bool {
    &&& entry.current.record == (RecordView {
        payload: entry.current.record.payload,
        ..entry.initial.record
    })
    &&& entry.current.source == entry.initial.source
    &&& crate::records::rules::same_kind(
        entry.initial.record.payload,
        entry.current.record.payload,
    )
}

impl StoreView {
    /// A record stands where its session and its sequence say, and what it refers to
    /// exists.
    pub open spec fn record_placed(self, id: Seq<char>) -> bool {
        let entry = self.records[id];
        let record = entry.current.record;
        &&& same_identity(entry)
        &&& entry.initial.revision == 0
        &&& entry.initial.state.finished() ==> entry.current == entry.initial
        &&& record.id == id
        &&& self.sessions.contains_key(record.session_id)
        &&& record.sequence < self.sessions[record.session_id].len()
        &&& self.sessions[record.session_id][record.sequence as int] == id
        &&& record.run_id matches Some(run) ==> self.runs.contains_key(run)
            && self.runs[run].session_id == record.session_id
        &&& record.reply_to_id matches Some(reply) ==> self.records.contains_key(reply)
        &&& valid_payload(record.payload, entry.current.state)
        &&& record.payload is Permission && entry.current.state is Complete
            ==> self.decisions.contains_key(id)
        &&& is_decision(record.payload) ==> record.reply_to_id is Some
            && self.decisions.contains_key(record.reply_to_id->0)
            && self.decisions[record.reply_to_id->0] == id
    }

    /// The sequences of a session count its records.
    pub open spec fn session_placed(self, session: Seq<char>) -> bool {
        forall|i: int|
            0 <= i < self.sessions[session].len() ==> {
                let id = #[trigger] self.sessions[session][i];
                self.records.contains_key(id) && self.records[id].current.record.session_id
                    == session && self.records[id].current.record.sequence == i
            }
    }

    /// A decided request is complete and its decision replies to it.
    pub open spec fn decision_placed(self, request: Seq<char>) -> bool {
        let decision = self.decisions[request];
        &&& self.records.contains_key(request)
        &&& is_request(self.records[request].current.record.payload)
        &&& self.records[request].current.state is Complete
        &&& self.records.contains_key(decision)
        &&& is_decision(self.records[decision].current.record.payload)
        &&& self.records[decision].current.record.reply_to_id == Some(request)
    }

    /// An edge joins two runs of the store, validly, and carries the authority of the
    /// edge above it.
    pub open spec fn relation_placed(self, child: Seq<char>) -> bool {
        let edge = self.relations[child];
        &&& edge.child == child
        &&& self.runs.contains_key(edge.parent)
        &&& self.runs.contains_key(child)
        &&& edge.valid(self.runs[edge.parent], self.runs[child])
        &&& self.relations.contains_key(edge.parent) ==> self.relations[edge.parent].child_authority
            == edge.parent_authority
    }

    /// The parts of the store fit together.
    pub open spec fn consistent(self) -> bool {
        &&& forall|id: Seq<char>| #[trigger]
            self.records.contains_key(id) ==> self.record_placed(id)
        &&& forall|session: Seq<char>| #[trigger]
            self.sessions.contains_key(session) ==> self.session_placed(session)
        &&& forall|request: Seq<char>| #[trigger]
            self.decisions.contains_key(request) ==> self.decision_placed(request)
        &&& forall|run: Seq<char>| #[trigger]
            self.runs.contains_key(run) ==> self.runs[run].id == run
                && self.sessions.contains_key(self.runs[run].session_id)
        &&& forall|child: Seq<char>| #[trigger]
            self.relations.contains_key(child) ==> self.relation_placed(child)
        &&& self.relations.dom().finite()
        &&& acyclic(self.relations)
        &&& registry_consistent(self.continuations)
    }
}

/// The store could not be used, which says nothing of the request.
pub open spec fn environmental(e: StoreErrorView) -> bool {
    match e {
        StoreErrorView::Poisoned => true,
        StoreErrorView::Busy => true,
        StoreErrorView::Database(_) => true,
        StoreErrorView::CorruptData(_) => true,
        StoreErrorView::UnsupportedSchemaVersion(_) => true,
        StoreErrorView::UnsupportedDataVersion(_) => true,
        StoreErrorView::UnversionedSchema => true,
        StoreErrorView::StorageOverloaded => true,
        StoreErrorView::StorageUnavailable => true,
        StoreErrorView::StorageTimedOut => true,
        _ => false,
    }
}

/// The reply is the expected one, and what the store holds has changed accordingly.
pub open spec fn performed<T>(
    reply: Result<T, StoreErrorView>,
    expected: Result<(T, StoreView), StoreErrorView>,
    before: StoreView,
    after: StoreView,
) -> bool {
    match expected {
        Ok((value, next)) => reply == Ok::<T, StoreErrorView>(value) && after == next,
        Err(e) => reply == Err::<T, StoreErrorView>(e) && after == before,
    }
}

/// The operation was performed, or the store could not be used, which happens only if it
/// is not dependable, and holds what it held.
pub open spec fn attempted<T>(
    reply: Result<T, StoreErrorView>,
    expected: Result<(T, StoreView), StoreErrorView>,
    before: StoreView,
    after: StoreView,
    dependable: bool,
) -> bool {
    ||| performed(reply, expected, before, after)
    ||| (reply matches Err(e) && environmental(e) && !dependable && after == before)
}

/// The reply is the expected one, or the store could not be used, which happens only if
/// it is not dependable.
pub open spec fn answered<T>(
    reply: Result<T, StoreErrorView>,
    expected: Result<T, StoreErrorView>,
    dependable: bool,
) -> bool {
    reply == expected || (reply matches Err(e) && environmental(e) && !dependable)
}

/// Local synchronous storage semantics, not a distributed execution scheduler.
/// Each mutation is atomic.
pub trait RecordStore {
    /// What the store holds.
    spec fn contents(&self) -> StoreView;

    /// The store can always be used.
    spec fn dependable(&self) -> bool;

    fn create_session(&mut self, id: SessionId) -> (r: Result<(), StoreError>)
        ensures
            attempted(
                outcome(r),
                Ok(((), old(self).contents().session_created(id.deep_view()))),
                old(self).contents(),
                final(self).contents(),
                old(self).dependable(),
            ),
            final(self).dependable() == old(self).dependable(),
    ;

    /// Returns true only for a new identity, false for an identical registration.
    fn register_run(&mut self, spec: RunSpec) -> (r: Result<bool, StoreError>)
        ensures
            attempted(
                outcome(r),
                old(self).contents().run_registered(spec.deep_view()),
                old(self).contents(),
                final(self).contents(),
                old(self).dependable(),
            ),
            final(self).dependable() == old(self).dependable(),
    ;

    /// Repeating the original draft is idempotent, even after later checkpoints.
    /// Reusing its ID for different data is an error. Decisions use `resolve`.
    fn insert(&mut self, draft: Draft) -> (r: Result<Arc<Snapshot>, StoreError>)
        ensures
            attempted(
                outcome(r),
                old(self).contents().inserted(draft.deep_view()),
                old(self).contents(),
                final(self).contents(),
                old(self).dependable(),
            ),
            final(self).dependable() == old(self).dependable(),
    ;

    /// Compare-and-swap a live payload; identity and ordering never change.
    fn checkpoint(
        &mut self,
        id: &RecordId,
        expected_revision: u64,
        payload: Payload,
        state: RecordState,
    ) -> (r: Result<Arc<Snapshot>, StoreError>)
        ensures
            attempted(
                outcome(r),
                old(self).contents().checkpointed(
                    id.deep_view(),
                    expected_revision,
                    payload.deep_view(),
                    state,
                ),
                old(self).contents(),
                final(self).contents(),
                old(self).dependable(),
            ),
            final(self).dependable() == old(self).dependable(),
    ;

    /// Validate and append one decision while finalizing its request atomically.
    /// This records a local decision; it does not send it or execute a tool.
    fn resolve(&mut self, request: &RecordId, expected_revision: u64, decision: Draft) -> (r: Result<
        Arc<Snapshot>,
        StoreError,
    >)
        ensures
            attempted(
                outcome(r),
                old(self).contents().resolved(
                    request.deep_view(),
                    expected_revision,
                    decision.deep_view(),
                ),
                old(self).contents(),
                final(self).contents(),
                old(self).dependable(),
            ),
            final(self).dependable() == old(self).dependable(),
    ;

    fn get(&self, id: &RecordId) -> (r: Result<Arc<Snapshot>, StoreError>)
        ensures
            answered(outcome(r), self.contents().record(id.deep_view()), self.dependable()),
    ;

    fn get_run(&self, id: &RunId) -> (r: Result<RunSpec, StoreError>)
        ensures
            answered(outcome(r), self.contents().run(id.deep_view()), self.dependable()),
    ;

    /// `after` is an exclusive session sequence cursor. Limit must be 1..=1000.
    fn list(&self, session: &SessionId, after: Option<u64>, limit: usize) -> (r: Result<
        Vec<Arc<Snapshot>>,
        StoreError,
    >)
        ensures
            answered(outcome(r), self.contents().page(session.deep_view(), after, limit), self.dependable()),
    ;
}

/// Explicit, single-use handoffs. Claims never expire automatically: a crashed
/// claimant may already have resumed or executed work. Recovery is separate work.
pub trait ContinuationStore: RecordStore {
    fn save_continuation(&mut self, continuation: Continuation) -> (r: Result<
        Arc<ContinuationRecord>,
        StoreError,
    >)
        ensures
            attempted(
                outcome(r),
                old(self).contents().continuation_saved(continuation.deep_view()),
                old(self).contents(),
                final(self).contents(),
                old(self).dependable(),
            ),
            final(self).dependable() == old(self).dependable(),
    ;

    fn get_continuation(&self, id: &ContinuationId) -> (r: Result<
        Arc<ContinuationRecord>,
        StoreError,
    >)
        ensures
            answered(outcome(r), found(self.contents().continuations, id.deep_view()), self.dependable()),
    ;

    fn claim_continuation(&mut self, id: &ContinuationId) -> (r: Result<
        Arc<ContinuationRecord>,
        StoreError,
    >)
        ensures
            attempted(
                outcome(r),
                old(self).contents().continuation_claimed(id.deep_view()),
                old(self).contents(),
                final(self).contents(),
                old(self).dependable(),
            ),
            final(self).dependable() == old(self).dependable(),
    ;
}

/// The execution graph of a store.
pub trait ExecutionStore: RecordStore {
    /// Both runs must exist. One immutable parent edge per child; cycles fail.
    fn link_execution(&mut self, relation: ExecutionRelation) -> (r: Result<
        Arc<ExecutionRelation>,
        StoreError,
    >)
        ensures
            attempted(
                outcome(r),
                old(self).contents().linked(relation.deep_view()),
                old(self).contents(),
                final(self).contents(),
                old(self).dependable(),
            ),
            final(self).dependable() == old(self).dependable(),
    ;

    fn execution_parent(&self, child: &RunId) -> (r: Result<
        Option<Arc<ExecutionRelation>>,
        StoreError,
    >)
        ensures
            answered(outcome(r), Ok(self.contents().parent_edge(child.deep_view())), self.dependable()),
    ;

    fn execution_children(&self, parent: &RunId) -> (r: Result<
        Vec<Arc<ExecutionRelation>>,
        StoreError,
    >)
        ensures
            match r {
                Ok(edges) => lists_children(
                    self.contents().relations,
                    parent.deep_view(),
                    edges.deep_view(),
                ),
                Err(e) => !self.dependable() && environmental(e.deep_view()),
            },
    ;
}

} // verus!
