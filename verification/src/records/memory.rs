//! A process-local store.

use crate::datum::{outcome, share, Datum};
use crate::execution::{ExecutionRelation, ExecutionRelationView};
use crate::id::{ContinuationId, RecordId, RunId, SessionId};
use crate::model::Record;
use crate::records::consistency::{
    ancestors_compose, checkpointing_keeps_consistency, claiming_a_continuation_keeps_consistency,
    creating_a_session_keeps_consistency, empty_store_is_consistent,
    inserting_a_record_keeps_consistency, linking_keeps_consistency,
    registering_a_run_keeps_consistency, resolving_keeps_consistency,
    saving_a_continuation_keeps_consistency,
};
use crate::records::continuation::{
    found, Continuation, ContinuationRecord, ContinuationState, Registry,
};
use crate::records::rules::{checkpoint, resolve_request, same_draft, validate};
use crate::records::store::{
    acyclic, ancestor, context_error, lists_children, performed, reaches, session_error,
    ContinuationStore, EntryView, ExecutionStore, RecordStore, Relations, StoreView,
};
use crate::records::{
    Draft, Payload, RecordState, Snapshot, SnapshotView, StoreError, StoreErrorView,
};
use crate::run::RunSpec;
use crate::table::Table;
use std::sync::Arc;
use vstd::prelude::*;

verus! {

/// A record as it was created and as it is now. The creation snapshot permits
/// idempotent retries without keeping every checkpoint.
struct Entry {
    initial: Arc<Snapshot>,
    current: Arc<Snapshot>,
}

impl DeepView for Entry {
    type V = EntryView;

    closed spec fn deep_view(&self) -> EntryView {
        EntryView { initial: self.initial.deep_view(), current: self.current.deep_view() }
    }
}

struct State {
    sessions: Table<Vec<RecordId>>,
    runs: Table<RunSpec>,
    records: Table<Entry>,
    decisions: Table<RecordId>,
    continuations: Registry,
    relations: Table<Arc<ExecutionRelation>>,
}

impl DeepView for State {
    type V = StoreView;

    closed spec fn deep_view(&self) -> StoreView {
        StoreView {
            sessions: self.sessions.deep_view(),
            runs: self.runs.deep_view(),
            records: self.records.deep_view(),
            decisions: self.decisions.deep_view(),
            continuations: self.continuations.deep_view(),
            relations: self.relations.deep_view(),
        }
    }
}

impl State {
    fn new() -> (r: State)
        ensures
            r.deep_view() == StoreView::empty(),
            r.deep_view().consistent(),
    {
        let r = State {
            sessions: Table::new(),
            runs: Table::new(),
            records: Table::new(),
            decisions: Table::new(),
            continuations: Registry::new(),
            relations: Table::new(),
        };
        proof {
            assert(r.deep_view() =~= StoreView::empty());
            empty_store_is_consistent();
        }
        r
    }

    fn check_context(&self, ids: &Vec<RecordId>) -> (r: Result<(), StoreError>)
        ensures
            match context_error(self.deep_view().records, ids.deep_view()) {
                Some(e) => outcome(r) == Err::<(), StoreErrorView>(e),
                None => r is Ok,
            },
    {
        let ghost records = self.deep_view().records;
        let ghost all = ids.deep_view();
        let mut i: usize = 0;
        assert(all.skip(0) =~= all);
        while i < ids.len()
            invariant
                i <= ids.len(),
                records == self.deep_view().records,
                all == ids.deep_view(),
                context_error(records, all) == context_error(records, all.skip(i as int)),
            decreases ids.len() - i,
        {
            assert(all.skip(i as int)[0] == ids@[i as int].deep_view());
            assert(all.skip(i as int).skip(1) =~= all.skip(i + 1));
            match self.records.find(ids[i].as_str()) {
                None => return Err(StoreError::MissingRecord),
                Some(entry) => {
                    if !entry.current.state.is_final() {
                        return Err(StoreError::OpenContextRecord);
                    }
                },
            }
            i = i + 1;
        }
        Ok(())
    }

    fn check_session(&self, session: &SessionId, ids: &Vec<RecordId>) -> (r: Result<
        (),
        StoreError,
    >)
        ensures
            match session_error(self.deep_view().records, session.deep_view(), ids.deep_view()) {
                Some(e) => outcome(r) == Err::<(), StoreErrorView>(e),
                None => r is Ok,
            },
    {
        let ghost records = self.deep_view().records;
        let ghost all = ids.deep_view();
        let mut i: usize = 0;
        assert(all.skip(0) =~= all);
        while i < ids.len()
            invariant
                i <= ids.len(),
                records == self.deep_view().records,
                all == ids.deep_view(),
                session_error(records, session.deep_view(), all) == session_error(
                    records,
                    session.deep_view(),
                    all.skip(i as int),
                ),
            decreases ids.len() - i,
        {
            assert(all.skip(i as int)[0] == ids@[i as int].deep_view());
            assert(all.skip(i as int).skip(1) =~= all.skip(i + 1));
            match self.records.find(ids[i].as_str()) {
                None => return Err(StoreError::MissingRecord),
                Some(entry) => {
                    if !entry.current.record.session_id.same_as(session) {
                        return Err(StoreError::WrongSession);
                    }
                },
            }
            i = i + 1;
        }
        Ok(())
    }

    fn check_origin(&self, spec: &RunSpec) -> (r: Result<(), StoreError>)
        ensures
            match self.deep_view().origin_error(spec.deep_view()) {
                Some(e) => outcome(r) == Err::<(), StoreErrorView>(e),
                None => r is Ok,
            },
    {
        match &spec.continuation {
            None => Ok(()),
            Some(id) => match self.continuations.get(id) {
                Err(e) => Err(e),
                Ok(origin) => if origin.state == ContinuationState::Claimed && origin.latest
                    && origin.continuation.session_id.same_as(&spec.session_id)
                    && origin.continuation.slot_id.same_as(&spec.slot_id) {
                    Ok(())
                } else {
                    Err(StoreError::InvalidContinuation)
                },
            },
        }
    }

    fn create_session(&mut self, id: SessionId) -> (r: Result<(), StoreError>)
        ensures
            performed(
                outcome(r),
                Ok(((), old(self).deep_view().session_created(id.deep_view()))),
                old(self).deep_view(),
                final(self).deep_view(),
            ),
    {
        if !self.sessions.contains_key(id.as_str()) {
            let ids: Vec<RecordId> = Vec::new();
            assert(ids.deep_view() =~= Seq::empty());
            self.sessions.put(id.as_str().to_owned(), ids);
        }
        Ok(())
    }

    fn save_continuation(&mut self, value: Continuation) -> (r: Result<
        Arc<ContinuationRecord>,
        StoreError,
    >)
        requires
            old(self).deep_view().consistent(),
        ensures
            performed(
                outcome(r),
                old(self).deep_view().continuation_saved(value.deep_view()),
                old(self).deep_view(),
                final(self).deep_view(),
            ),
    {
        if !self.sessions.contains_key(value.session_id.as_str()) {
            return Err(StoreError::MissingSession);
        }
        self.continuations.save(value)
    }

    fn claim_continuation(&mut self, id: &ContinuationId) -> (r: Result<
        Arc<ContinuationRecord>,
        StoreError,
    >)
        requires
            old(self).deep_view().consistent(),
        ensures
            performed(
                outcome(r),
                old(self).deep_view().continuation_claimed(id.deep_view()),
                old(self).deep_view(),
                final(self).deep_view(),
            ),
    {
        self.continuations.claim(id)
    }

    /// A session of a store in memory is no longer than a list can be.
    fn bound(&self, session: &SessionId)
        ensures
            self.deep_view().sessions.contains_key(session.deep_view())
                ==> self.deep_view().sessions[session.deep_view()].len() <= u64::MAX,
    {
        match self.sessions.find(session.as_str()) {
            Some(ids) => {
                let n: usize = ids.len();
                assert(ids.deep_view().len() == n);
            },
            None => {},
        }
    }

    fn register_run(&mut self, spec: RunSpec) -> (r: Result<bool, StoreError>)
        ensures
            performed(
                outcome(r),
                old(self).deep_view().run_registered(spec.deep_view()),
                old(self).deep_view(),
                final(self).deep_view(),
            ),
    {
        match self.runs.find(spec.id.as_str()) {
            Some(existing) => {
                return if existing.same_as(&spec) {
                    Ok(false)
                } else {
                    Err(StoreError::IdentityConflict)
                };
            },
            None => {},
        }
        if !self.sessions.contains_key(spec.session_id.as_str()) {
            return Err(StoreError::MissingSession);
        }
        match self.check_origin(&spec) {
            Err(e) => return Err(e),
            Ok(_) => {},
        }
        match self.check_context(&spec.context.records) {
            Err(e) => return Err(e),
            Ok(_) => {},
        }
        self.runs.put(spec.id.as_str().to_owned(), spec);
        Ok(true)
    }

    /// The first snapshot of a new record.
    fn prepare(&self, draft: Draft) -> (r: Result<Arc<Snapshot>, StoreError>)
        ensures
            outcome(r) == self.deep_view().prepared(draft.deep_view()),
    {
        match validate(&draft.payload, draft.state) {
            Err(e) => return Err(e),
            Ok(_) => {},
        }
        let session = match self.sessions.find(draft.session_id.as_str()) {
            None => return Err(StoreError::MissingSession),
            Some(session) => session,
        };
        match &draft.run_id {
            Some(run) => match self.runs.find(run.as_str()) {
                None => return Err(StoreError::MissingRun),
                Some(run) => {
                    if !run.session_id.same_as(&draft.session_id) {
                        return Err(StoreError::WrongSession);
                    }
                },
            },
            None => {},
        }
        match &draft.reply_to_id {
            Some(reply) => {
                if !self.records.contains_key(reply.as_str()) {
                    return Err(StoreError::MissingRecord);
                }
            },
            None => {},
        }
        Ok(
            Arc::new(
                Snapshot {
                    record: Record {
                        id: draft.id,
                        session_id: draft.session_id,
                        run_id: draft.run_id,
                        sequence: session.len() as u64,
                        actor: draft.actor,
                        reply_to_id: draft.reply_to_id,
                        payload: draft.payload,
                    },
                    source: draft.source,
                    revision: 0,
                    state: draft.state,
                },
            ),
        )
    }

    fn commit(&mut self, snapshot: &Arc<Snapshot>)
        requires
            old(self).deep_view().sessions.contains_key(snapshot.deep_view().record.session_id),
        ensures
            final(self).deep_view() == old(self).deep_view().committed(snapshot.deep_view()),
    {
        let session = &snapshot.record.session_id;
        let mut ids: Vec<RecordId> = Vec::new();
        match self.sessions.find(session.as_str()) {
            Some(existing) => {
                ids = existing.duplicate();
            },
            None => {},
        }
        crate::datum::append(&mut ids, snapshot.record.id.duplicate());
        self.sessions.put(session.as_str().to_owned(), ids);
        self.records.put(
            snapshot.record.id.as_str().to_owned(),
            Entry { initial: share(snapshot), current: share(snapshot) },
        );
    }

    fn insert(&mut self, draft: Draft) -> (r: Result<Arc<Snapshot>, StoreError>)
        ensures
            performed(
                outcome(r),
                old(self).deep_view().inserted(draft.deep_view()),
                old(self).deep_view(),
                final(self).deep_view(),
            ),
    {
        if matches!(draft.payload, Payload::Decision { .. } | Payload::Answer { .. }) {
            return Err(StoreError::InvalidDecision);
        }
        match self.records.find(draft.id.as_str()) {
            Some(entry) => {
                return if same_draft(&entry.initial, &draft) {
                    Ok(share(&entry.current))
                } else {
                    Err(StoreError::IdentityConflict)
                };
            },
            None => {},
        }
        if matches!(draft.payload, Payload::Permission { .. } | Payload::Question(_))
            && draft.state != RecordState::Open {
            return Err(StoreError::InvalidPayload);
        }
        match self.prepare(draft) {
            Err(e) => Err(e),
            Ok(snapshot) => {
                self.commit(&snapshot);
                Ok(snapshot)
            },
        }
    }

    fn update(&mut self, id: &RecordId, snapshot: Arc<Snapshot>)
        requires
            old(self).deep_view().records.contains_key(id.deep_view()),
        ensures
            final(self).deep_view() == old(self).deep_view().updated(
                id.deep_view(),
                snapshot.deep_view(),
            ),
    {
        let initial = match self.records.find(id.as_str()) {
            Some(entry) => share(&entry.initial),
            None => share(&snapshot),
        };
        self.records.put(id.as_str().to_owned(), Entry { initial, current: snapshot });
    }

    fn checkpoint(
        &mut self,
        id: &RecordId,
        expected_revision: u64,
        payload: Payload,
        next: RecordState,
    ) -> (r: Result<Arc<Snapshot>, StoreError>)
        ensures
            performed(
                outcome(r),
                old(self).deep_view().checkpointed(
                    id.deep_view(),
                    expected_revision,
                    payload.deep_view(),
                    next,
                ),
                old(self).deep_view(),
                final(self).deep_view(),
            ),
    {
        let checked = match self.records.find(id.as_str()) {
            None => return Err(StoreError::MissingRecord),
            Some(entry) => checkpoint(&entry.current, expected_revision, payload, next),
        };
        match checked {
            Err(e) => Err(e),
            Ok(snapshot) => {
                self.update(id, share(&snapshot));
                Ok(snapshot)
            },
        }
    }

    fn resolve(&mut self, request: &RecordId, expected_revision: u64, decision: Draft) -> (r: Result<
        Arc<Snapshot>,
        StoreError,
    >)
        requires
            old(self).deep_view().consistent(),
        ensures
            performed(
                outcome(r),
                old(self).deep_view().resolved(
                    request.deep_view(),
                    expected_revision,
                    decision.deep_view(),
                ),
                old(self).deep_view(),
                final(self).deep_view(),
            ),
    {
        match self.decisions.find(request.as_str()) {
            Some(existing) => {
                assert(self.deep_view().decision_placed(request.deep_view()));
                return match self.records.find(existing.as_str()) {
                    Some(entry) => if same_draft(&entry.initial, &decision) {
                        Ok(share(&entry.current))
                    } else {
                        Err(StoreError::AlreadyResolved)
                    },
                    None => Err(StoreError::AlreadyResolved),
                };
            },
            None => {},
        }
        if self.records.contains_key(decision.id.as_str()) {
            return Err(StoreError::IdentityConflict);
        }
        let checked = match self.records.find(request.as_str()) {
            None => return Err(StoreError::MissingRecord),
            Some(entry) => resolve_request(&entry.current, expected_revision, &decision),
        };
        let resolved = match checked {
            Err(e) => return Err(e),
            Ok(resolved) => resolved,
        };
        match self.prepare(decision) {
            Err(e) => Err(e),
            Ok(snapshot) => {
                self.decisions.put(request.as_str().to_owned(), snapshot.record.id.duplicate());
                self.update(request, Arc::new(resolved));
                self.commit(&snapshot);
                Ok(snapshot)
            },
        }
    }

    fn list(&self, session: &SessionId, after: Option<u64>, limit: usize) -> (r: Result<
        Vec<Arc<Snapshot>>,
        StoreError,
    >)
        requires
            self.deep_view().consistent(),
        ensures
            outcome(r) == self.deep_view().page(session.deep_view(), after, limit),
    {
        if limit < 1 || limit > 1000 {
            return Err(StoreError::InvalidPageSize);
        }
        let ids = match self.sessions.find(session.as_str()) {
            None => return Err(StoreError::MissingSession),
            Some(ids) => ids,
        };
        let n: usize = ids.len();
        let start: usize = match after {
            None => 0,
            Some(cursor) => if cursor < n as u64 {
                cursor as usize + 1
            } else {
                n
            },
        };
        let mut page: Vec<Arc<Snapshot>> = Vec::new();
        let mut i: usize = start;
        assert(self.deep_view().session_placed(session.deep_view()));
        while i < n && page.len() < limit
            invariant
                start <= i <= n,
                n == ids.len(),
                page.len() == i - start,
                page.len() <= limit,
                self.deep_view().sessions.contains_key(session.deep_view()),
                self.deep_view().session_placed(session.deep_view()),
                ids.deep_view() == self.deep_view().sessions[session.deep_view()],
                forall|j: int|
                    0 <= j < page.len() ==> (#[trigger] page@[j]).deep_view()
                        == self.deep_view().records[ids.deep_view()[start + j]].current,
            decreases n - i,
        {
            assert(self.deep_view().sessions[session.deep_view()][i as int]
                == ids@[i as int].deep_view());
            match self.records.find(ids[i].as_str()) {
                Some(entry) => page.push(share(&entry.current)),
                None => {},
            }
            i = i + 1;
        }
        assert(Ok::<Seq<SnapshotView>, StoreErrorView>(page.deep_view())
            == self.deep_view().page(session.deep_view(), after, limit)) by {
            assert(page.deep_view() =~= self.deep_view().page(
                session.deep_view(),
                after,
                limit,
            )->Ok_0);
        }
        Ok(page)
    }

    /// Whether every edge below the child carries the authority that the new edge
    /// gives to the child.
    fn edges_below_agree(&self, relation: &ExecutionRelation) -> (r: bool)
        ensures
            r == (forall|child: Seq<char>| #[trigger]
                self.deep_view().relations.contains_key(child)
                    && self.deep_view().relations[child].parent == relation.deep_view().child
                    ==> self.deep_view().relations[child].parent_authority
                    == relation.deep_view().child_authority),
    {
        let ghost relations = self.deep_view().relations;
        let n = self.relations.len();
        let mut i: usize = 0;
        while i < n
            invariant
                i <= n,
                n == self.relations.keys().len(),
                relations == self.deep_view().relations,
                relations == self.relations.deep_view(),
                forall|j: int|
                    0 <= j < i ==> ({
                        let child = #[trigger] self.relations.keys()[j];
                        relations[child].parent == relation.deep_view().child
                            ==> relations[child].parent_authority
                            == relation.deep_view().child_authority
                    }),
            decreases n - i,
        {
            let edge = self.relations.value_at(i);
            let ghost child = self.relations.keys()[i as int];
            assert(relations.contains_key(child) && relations[child] == edge.deep_view());
            if edge.parent.same_as(&relation.child) && !edge.parent_authority.same_as(
                &relation.child_authority,
            ) {
                return false;
            }
            i = i + 1;
        }
        assert forall|child: Seq<char>| #[trigger]
            relations.contains_key(child) && relations[child].parent
                == relation.deep_view().child implies relations[child].parent_authority
            == relation.deep_view().child_authority by {
            assert(self.relations@.contains_key(child));
            let j = choose|j: int|
                0 <= j < self.relations.keys().len() && self.relations.keys()[j] == child;
            assert(self.relations.keys()[j] == child);
        }
        true
    }

    /// Whether the target is the run itself or above it.
    fn is_above(&self, run: &RunId, target: &RunId) -> (r: bool)
        requires
            acyclic(self.deep_view().relations),
        ensures
            r == reaches(self.deep_view().relations, run.deep_view(), target.deep_view()),
    {
        let ghost relations = self.deep_view().relations;
        let ghost start = run.deep_view();
        let ghost goal = target.deep_view();
        let n = self.relations.len();
        let mut visited: Vec<RunId> = Vec::new();
        let mut current = run.duplicate();
        assert(ancestor(relations, start, 0) == Some(start));
        while visited.len() <= n
            invariant
                n == self.relations.keys().len(),
                forall|key: Seq<char>| #[trigger]
                    self.relations@.contains_key(key) <==> self.relations.keys().contains(key),
                relations == self.deep_view().relations,
                relations == self.relations.deep_view(),
                acyclic(relations),
                start == run.deep_view(),
                goal == target.deep_view(),
                visited.len() <= n + 1,
                ancestor(relations, start, visited.len() as nat) == Some(current.deep_view()),
                forall|m: nat|
                    m < visited.len() ==> #[trigger] ancestor(relations, start, m) != Some(goal),
                forall|m: nat|
                    m < visited.len() ==> #[trigger] ancestor(relations, start, m) == Some(
                        visited@[m as int].deep_view(),
                    ),
                forall|m: int|
                    0 <= m < visited.len() ==> relations.contains_key(
                        (#[trigger] visited@[m]).deep_view(),
                    ),
            decreases n + 1 - visited.len(),
        {
            if current.same_as(target) {
                return true;
            }
            let next = match self.relations.find(current.as_str()) {
                None => {
                    proof {
                        nothing_above_a_root(
                            relations,
                            start,
                            current.deep_view(),
                            visited.len() as nat,
                        );
                        assert forall|m: nat| #[trigger]
                            ancestor(relations, start, m) != Some(goal) by {
                            if m > visited.len() {
                                assert(ancestor(relations, start, m) is None);
                            }
                        }
                    }
                    return false;
                },
                Some(edge) => edge.parent.duplicate(),
            };
            visited.push(current);
            current = next;
        }
        proof {
            walks_are_short(
                relations,
                self.relations.keys(),
                Seq::new(visited@.len(), |i: int| visited@[i].deep_view()),
                start,
            );
        }
        true
    }

    fn link(&mut self, relation: ExecutionRelation) -> (r: Result<
        Arc<ExecutionRelation>,
        StoreError,
    >)
        requires
            old(self).deep_view().consistent(),
        ensures
            performed(
                outcome(r),
                old(self).deep_view().linked(relation.deep_view()),
                old(self).deep_view(),
                final(self).deep_view(),
            ),
    {
        match self.relations.find(relation.child.as_str()) {
            Some(existing) => {
                return if (**existing).same_as(&relation) {
                    Ok(share(existing))
                } else {
                    Err(StoreError::ExecutionRelationConflict)
                };
            },
            None => {},
        }
        let parent = match self.runs.find(relation.parent.as_str()) {
            None => return Err(StoreError::MissingRun),
            Some(run) => run,
        };
        let child = match self.runs.find(relation.child.as_str()) {
            None => return Err(StoreError::MissingRun),
            Some(run) => run,
        };
        match relation.validate(parent, child) {
            Err(e) => return Err(e),
            Ok(_) => {},
        }
        let continued = match self.relations.find(relation.parent.as_str()) {
            Some(edge) => edge.child_authority.same_as(&relation.parent_authority),
            None => true,
        };
        if !continued || !self.edges_below_agree(&relation) {
            return Err(StoreError::InvalidExecutionRelation);
        }
        match self.check_session(&child.session_id, &child.context.records) {
            Err(e) => return Err(e),
            Ok(_) => {},
        }
        if self.is_above(&relation.parent, &relation.child) {
            return Err(StoreError::ExecutionCycle);
        }
        let relation = Arc::new(relation);
        self.relations.put(relation.child.as_str().to_owned(), share(&relation));
        Ok(relation)
    }

    fn children(&self, parent: &RunId) -> (r: Vec<Arc<ExecutionRelation>>)
        requires
            self.deep_view().consistent(),
        ensures
            lists_children(self.deep_view().relations, parent.deep_view(), r.deep_view()),
    {
        let ghost relations = self.deep_view().relations;
        let n = self.relations.len();
        let mut edges: Vec<Arc<ExecutionRelation>> = Vec::new();
        let mut i: usize = 0;
        while i < n
            invariant
                i <= n,
                n == self.relations.keys().len(),
                relations == self.deep_view().relations,
                relations == self.relations.deep_view(),
                self.deep_view().consistent(),
                forall|a: int, b: int|
                    0 <= a < b < self.relations.keys().len() ==> crate::text::text_before(
                        #[trigger] self.relations.keys()[a],
                        #[trigger] self.relations.keys()[b],
                    ),
                forall|a: int|
                    0 <= a < edges.len() ==> {
                        let edge = (#[trigger] edges@[a]).deep_view();
                        relations.contains_key(edge.child) && relations[edge.child] == edge
                            && edge.parent == parent.deep_view()
                    },
                forall|a: int|
                    0 <= a < edges.len() ==> exists|j: int|
                        0 <= j < i && #[trigger] self.relations.keys()[j] == (
                        #[trigger] edges@[a]).deep_view().child,
                forall|a: int, b: int|
                    0 <= a < b < edges.len() ==> crate::text::text_before(
                        (#[trigger] edges@[a]).deep_view().child,
                        (#[trigger] edges@[b]).deep_view().child,
                    ),
                forall|j: int|
                    0 <= j < i ==> ({
                        let child = #[trigger] self.relations.keys()[j];
                        relations[child].parent == parent.deep_view()
                            ==> edges.deep_view().contains(relations[child])
                    }),
            decreases n - i,
        {
            let edge = self.relations.value_at(i);
            let ghost child = self.relations.keys()[i as int];
            let ghost before = edges.deep_view();
            assert(relations.contains_key(child) && relations[child] == edge.deep_view());
            assert(self.deep_view().relation_placed(child));
            if edge.parent.same_as(parent) {
                edges.push(share(edge));
                assert(edges.deep_view() =~= before.push(relations[child]));
                assert(edges.deep_view()[before.len() as int] == relations[child]);
                assert forall|x: ExecutionRelationView| before.contains(
                    x,
                ) implies #[trigger] edges.deep_view().contains(x) by {
                    let k = choose|k: int| 0 <= k < before.len() && before[k] == x;
                    assert(edges.deep_view()[k] == x);
                }
            }
            i = i + 1;
        }
        proof {
            let views = edges.deep_view();
            assert forall|a: int| 0 <= a < views.len() implies ({
                let edge = #[trigger] views[a];
                relations.contains_key(edge.child) && relations[edge.child] == edge && edge.parent
                    == parent.deep_view()
            }) by {
                assert(views[a] == edges@[a].deep_view());
            }
            assert forall|a: int, b: int| 0 <= a < b < views.len() implies crate::text::text_before(
                (#[trigger] views[a]).child,
                (#[trigger] views[b]).child,
            ) by {
                assert(views[a] == edges@[a].deep_view() && views[b] == edges@[b].deep_view());
            }
            assert forall|child: Seq<char>| #[trigger]
                relations.contains_key(child) && relations[child].parent
                    == parent.deep_view() implies views.contains(relations[child]) by {
                assert(self.relations@.contains_key(child));
                let j = choose|j: int|
                    0 <= j < self.relations.keys().len() && self.relations.keys()[j] == child;
                assert(self.relations.keys()[j] == child);
            }
        }
        edges
    }
}

/// Above a run without an edge there is nothing.
proof fn nothing_above_a_root(relations: Relations, start: Seq<char>, root: Seq<char>, n: nat)
    requires
        ancestor(relations, start, n) == Some(root),
        !relations.contains_key(root),
    ensures
        forall|m: nat| m > n ==> #[trigger] ancestor(relations, start, m) is None,
{
    assert forall|m: nat| m > n implies #[trigger] ancestor(relations, start, m) is None by {
        nothing_above_a_root_by(relations, start, root, n, m);
    }
}

proof fn nothing_above_a_root_by(
    relations: Relations,
    start: Seq<char>,
    root: Seq<char>,
    n: nat,
    m: nat,
)
    requires
        ancestor(relations, start, n) == Some(root),
        !relations.contains_key(root),
        m > n,
    ensures
        ancestor(relations, start, m) is None,
    decreases m,
{
    if m > n + 1 {
        nothing_above_a_root_by(relations, start, root, n, (m - 1) as nat);
    }
}

/// A walk in an acyclic graph cannot visit more runs than have an edge.
proof fn walks_are_short(
    relations: Relations,
    keys: Seq<Seq<char>>,
    visited: Seq<Seq<char>>,
    start: Seq<char>,
)
    requires
        acyclic(relations),
        forall|m: nat|
            m < visited.len() ==> #[trigger] ancestor(relations, start, m) == Some(
                visited[m as int],
            ),
        forall|i: int| 0 <= i < visited.len() ==> keys.contains(#[trigger] visited[i]),
    ensures
        visited.len() <= keys.len(),
{
    assert forall|i: int, j: int| 0 <= i < j < visited.len() implies visited[i] != visited[j] by {
        assert(ancestor(relations, start, i as nat) == Some(visited[i]));
        assert(ancestor(relations, start, j as nat) == Some(visited[j]));
        ancestors_compose(relations, start, i as nat, (j - i) as nat);
    }
    assert(visited.no_duplicates());
    visited.unique_seq_to_set();
    keys.lemma_cardinality_of_set();
    assert(visited.to_set().subset_of(keys.to_set()));
    vstd::set_lib::lemma_len_subset(visited.to_set(), keys.to_set());
}

/// Process-local records. No disk durability.
pub struct MemoryStore {
    state: State,
}

impl MemoryStore {
    #[verifier::type_invariant]
    spec fn well_formed(self) -> bool {
        self.state.deep_view().consistent()
    }

    /// A store that holds nothing.
    pub fn new() -> (r: MemoryStore)
        ensures
            r.contents() == StoreView::empty(),
    {
        MemoryStore { state: State::new() }
    }

    /// What a store holds fits together.
    pub fn check_consistency(&self)
        ensures
            self.contents().consistent(),
    {
        proof {
            use_type_invariant(self);
        }
    }
}

impl RecordStore for MemoryStore {
    closed spec fn contents(&self) -> StoreView {
        self.state.deep_view()
    }

    open spec fn dependable(&self) -> bool {
        true
    }

    fn create_session(&mut self, id: SessionId) -> (r: Result<(), StoreError>)
        ensures
            performed(
                outcome(r),
                Ok(((), old(self).contents().session_created(id.deep_view()))),
                old(self).contents(),
                final(self).contents(),
            ),
    {
        proof {
            use_type_invariant(&*self);
            creating_a_session_keeps_consistency(self.contents(), id.deep_view());
        }
        let mut state = State::new();
        std::mem::swap(&mut state, &mut self.state);
        let r = state.create_session(id);
        self.state = state;
        r
    }

    fn register_run(&mut self, spec: RunSpec) -> (r: Result<bool, StoreError>)
        ensures
            performed(
                outcome(r),
                old(self).contents().run_registered(spec.deep_view()),
                old(self).contents(),
                final(self).contents(),
            ),
    {
        proof {
            use_type_invariant(&*self);
            registering_a_run_keeps_consistency(self.contents(), spec.deep_view());
        }
        let mut state = State::new();
        std::mem::swap(&mut state, &mut self.state);
        let r = state.register_run(spec);
        self.state = state;
        r
    }

    fn insert(&mut self, draft: Draft) -> (r: Result<Arc<Snapshot>, StoreError>)
        ensures
            performed(
                outcome(r),
                old(self).contents().inserted(draft.deep_view()),
                old(self).contents(),
                final(self).contents(),
            ),
    {
        self.state.bound(&draft.session_id);
        proof {
            use_type_invariant(&*self);
            inserting_a_record_keeps_consistency(self.contents(), draft.deep_view());
        }
        let mut state = State::new();
        std::mem::swap(&mut state, &mut self.state);
        let r = state.insert(draft);
        self.state = state;
        r
    }

    fn checkpoint(&mut self, id: &RecordId, expected_revision: u64, payload: Payload, next: RecordState) -> (r: Result<Arc<Snapshot>, StoreError>)
        ensures
            performed(
                outcome(r),
                old(self).contents().checkpointed(
                    id.deep_view(),
                    expected_revision,
                    payload.deep_view(),
                    next,
                ),
                old(self).contents(),
                final(self).contents(),
            ),
    {
        proof {
            use_type_invariant(&*self);
            checkpointing_keeps_consistency(
                self.contents(),
                id.deep_view(),
                expected_revision,
                payload.deep_view(),
                next,
            );
        }
        let mut state = State::new();
        std::mem::swap(&mut state, &mut self.state);
        let r = state.checkpoint(id, expected_revision, payload, next);
        self.state = state;
        r
    }

    fn resolve(&mut self, request: &RecordId, expected_revision: u64, decision: Draft) -> (r: Result<Arc<Snapshot>, StoreError>)
        ensures
            performed(
                outcome(r),
                old(self).contents().resolved(
                    request.deep_view(),
                    expected_revision,
                    decision.deep_view(),
                ),
                old(self).contents(),
                final(self).contents(),
            ),
    {
        self.state.bound(&decision.session_id);
        proof {
            use_type_invariant(&*self);
            resolving_keeps_consistency(
                self.contents(),
                request.deep_view(),
                expected_revision,
                decision.deep_view(),
            );
        }
        let mut state = State::new();
        std::mem::swap(&mut state, &mut self.state);
        let r = state.resolve(request, expected_revision, decision);
        self.state = state;
        r
    }

    fn get(&self, id: &RecordId) -> (r: Result<Arc<Snapshot>, StoreError>)
        ensures
            outcome(r) == self.contents().record(id.deep_view()),
    {
        match self.state.records.find(id.as_str()) {
            Some(entry) => Ok(share(&entry.current)),
            None => Err(StoreError::MissingRecord),
        }
    }

    fn get_run(&self, id: &RunId) -> (r: Result<RunSpec, StoreError>)
        ensures
            outcome(r) == self.contents().run(id.deep_view()),
    {
        match self.state.runs.find(id.as_str()) {
            Some(run) => Ok(run.duplicate()),
            None => Err(StoreError::MissingRun),
        }
    }

    fn list(&self, session: &SessionId, after: Option<u64>, limit: usize) -> (r: Result<Vec<Arc<Snapshot>>, StoreError>)
        ensures
            outcome(r) == self.contents().page(session.deep_view(), after, limit),
    {
        proof {
            use_type_invariant(self);
        }
        self.state.list(session, after, limit)
    }
}

impl ContinuationStore for MemoryStore {
    fn save_continuation(&mut self, continuation: Continuation) -> (r: Result<Arc<ContinuationRecord>, StoreError>)
        ensures
            performed(
                outcome(r),
                old(self).contents().continuation_saved(continuation.deep_view()),
                old(self).contents(),
                final(self).contents(),
            ),
    {
        proof {
            use_type_invariant(&*self);
            saving_a_continuation_keeps_consistency(self.contents(), continuation.deep_view());
        }
        let mut state = State::new();
        std::mem::swap(&mut state, &mut self.state);
        let r = state.save_continuation(continuation);
        self.state = state;
        r
    }

    fn get_continuation(&self, id: &ContinuationId) -> (r: Result<Arc<ContinuationRecord>, StoreError>)
        ensures
            outcome(r) == found(self.contents().continuations, id.deep_view()),
    {
        self.state.continuations.get(id)
    }

    fn claim_continuation(&mut self, id: &ContinuationId) -> (r: Result<Arc<ContinuationRecord>, StoreError>)
        ensures
            performed(
                outcome(r),
                old(self).contents().continuation_claimed(id.deep_view()),
                old(self).contents(),
                final(self).contents(),
            ),
    {
        proof {
            use_type_invariant(&*self);
            claiming_a_continuation_keeps_consistency(self.contents(), id.deep_view());
        }
        let mut state = State::new();
        std::mem::swap(&mut state, &mut self.state);
        let r = state.claim_continuation(id);
        self.state = state;
        r
    }
}

impl ExecutionStore for MemoryStore {
    fn link_execution(&mut self, relation: ExecutionRelation) -> (r: Result<Arc<ExecutionRelation>, StoreError>)
        ensures
            performed(
                outcome(r),
                old(self).contents().linked(relation.deep_view()),
                old(self).contents(),
                final(self).contents(),
            ),
    {
        proof {
            use_type_invariant(&*self);
            linking_keeps_consistency(self.contents(), relation.deep_view());
        }
        let mut state = State::new();
        std::mem::swap(&mut state, &mut self.state);
        let r = state.link(relation);
        self.state = state;
        r
    }

    fn execution_parent(&self, child: &RunId) -> (r: Result<Option<Arc<ExecutionRelation>>, StoreError>)
        ensures
            outcome(r) == Ok::<Option<ExecutionRelationView>, StoreErrorView>(
                self.contents().parent_edge(child.deep_view()),
            ),
    {
        match self.state.relations.find(child.as_str()) {
            Some(edge) => Ok(Some(share(edge))),
            None => Ok(None),
        }
    }

    fn execution_children(&self, parent: &RunId) -> (r: Result<Vec<Arc<ExecutionRelation>>, StoreError>)
        ensures
            r is Ok,
    {
        proof {
            use_type_invariant(self);
        }
        Ok(self.state.children(parent))
    }
}

} // verus!
