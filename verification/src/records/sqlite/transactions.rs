//! What each transaction on runs and records does, given the rows that it reads.

use crate::datum::{outcome, share, Datum};
use crate::execution::Assignment;
use crate::id::SessionId;
use crate::model::{Record, RecordView};
use crate::records::continuation::{
    found, ContinuationRecord, ContinuationRecordView, ContinuationState,
};
use crate::records::rules::{
    checkpoint, checkpointed, draft_of, is_decision, is_request, request_resolved, resolve_request,
    same_draft, valid_payload, validate,
};
use crate::records::sqlite::{bad_number, number, InitialContent, InitialContentView, StoredRecord};
use crate::records::store::{context_error, EntryView, StoreView};
use crate::records::{
    Draft, DraftView, Payload, PayloadView, RecordState, Snapshot, SnapshotView, StoreError,
    StoreErrorView,
};
use crate::run::RunSpec;
use std::sync::Arc;
use vstd::prelude::*;

verus! {

/// What the database says of a run that is to be registered.
pub struct RunFacts {
    /// The run of that id.
    pub existing: Option<RunSpec>,
    /// Whether its session exists.
    pub session: bool,
    /// The continuation that it names.
    pub origin: Option<ContinuationRecord>,
    /// The states of the records that it selects, in their order.
    pub context: Vec<Option<RecordState>>,
}

/// What a `RunFacts` holds.
#[verifier::ext_equal]
pub struct RunFactsView {
    pub existing: Option<Assignment>,
    pub session: bool,
    pub origin: Option<ContinuationRecordView>,
    pub context: Seq<Option<RecordState>>,
}

impl DeepView for RunFacts {
    type V = RunFactsView;

    open spec fn deep_view(&self) -> RunFactsView {
        RunFactsView {
            existing: self.existing.deep_view(),
            session: self.session,
            origin: self.origin.deep_view(),
            context: self.context@,
        }
    }
}

/// Why the selected records cannot be used, by their states in their order.
pub open spec fn states_error(states: Seq<Option<RecordState>>) -> Option<StoreErrorView>
    decreases states.len(),
{
    if states.len() == 0 {
        None
    } else {
        match states[0] {
            None => Some(StoreErrorView::MissingRecord),
            Some(state) => if state.finished() {
                states_error(states.skip(1))
            } else {
                Some(StoreErrorView::OpenContextRecord)
            },
        }
    }
}

/// A run may start from this continuation.
pub open spec fn is_origin(origin: ContinuationRecordView, run: Assignment) -> bool {
    origin.state is Claimed && origin.latest && origin.continuation.session_id == run.session_id
        && origin.continuation.slot_id == run.slot_id
}

/// Whether the run is new, or why it is refused.
pub open spec fn registration(run: Assignment, facts: RunFactsView) -> Result<bool, StoreErrorView> {
    match facts.existing {
        Some(existing) => if existing == run {
            Ok(false)
        } else {
            Err(StoreErrorView::IdentityConflict)
        },
        None => if !facts.session {
            Err(StoreErrorView::MissingSession)
        } else if run.continuation is Some && facts.origin is None {
            Err(StoreErrorView::MissingContinuation)
        } else if run.continuation is Some && !is_origin(facts.origin->0, run) {
            Err(StoreErrorView::InvalidContinuation)
        } else {
            match states_error(facts.context) {
                Some(e) => Err(e),
                None => Ok(true),
            }
        },
    }
}

fn find_states_error(states: &Vec<Option<RecordState>>) -> (r: Result<(), StoreError>)
    ensures
        match states_error(states@) {
            Some(e) => outcome(r) == Err::<(), StoreErrorView>(e),
            None => r is Ok,
        },
{
    let mut i: usize = 0;
    assert(states@.skip(0) =~= states@);
    while i < states.len()
        invariant
            i <= states.len(),
            states_error(states@) == states_error(states@.skip(i as int)),
        decreases states.len() - i,
    {
        assert(states@.skip(i as int)[0] == states@[i as int]);
        assert(states@.skip(i as int).skip(1) =~= states@.skip(i + 1));
        match states[i] {
            None => return Err(StoreError::MissingRecord),
            Some(state) => {
                if !state.is_final() {
                    return Err(StoreError::OpenContextRecord);
                }
            },
        }
        i = i + 1;
    }
    Ok(())
}

/// Whether a run is new. Only a new run is written.
pub fn register_run(spec: &RunSpec, facts: &RunFacts) -> (r: Result<bool, StoreError>)
    ensures
        outcome(r) == registration(spec.deep_view(), facts.deep_view()),
{
    match &facts.existing {
        Some(existing) => {
            return if existing.same_as(spec) {
                Ok(false)
            } else {
                Err(StoreError::IdentityConflict)
            };
        },
        None => {},
    }
    if !facts.session {
        return Err(StoreError::MissingSession);
    }
    if spec.continuation.is_some() {
        match &facts.origin {
            None => return Err(StoreError::MissingContinuation),
            Some(origin) => {
                if !(origin.state == ContinuationState::Claimed && origin.latest
                    && origin.continuation.session_id.same_as(&spec.session_id)
                    && origin.continuation.slot_id.same_as(&spec.slot_id)) {
                    return Err(StoreError::InvalidContinuation);
                }
            },
        }
    }
    match find_states_error(&facts.context) {
        Err(e) => Err(e),
        Ok(_) => Ok(true),
    }
}

/// What the database says of the place of a new record.
pub struct PlaceFacts {
    /// The next sequence of its session, if that exists.
    pub sequence: Option<i64>,
    /// The session of the run that it names, if that exists.
    pub run_session: Option<SessionId>,
    /// Whether the record that it replies to exists.
    pub reply_found: bool,
}

/// What a `PlaceFacts` holds.
#[verifier::ext_equal]
pub struct PlaceFactsView {
    pub sequence: Option<i64>,
    pub run_session: Option<Seq<char>>,
    pub reply_found: bool,
}

impl DeepView for PlaceFacts {
    type V = PlaceFactsView;

    open spec fn deep_view(&self) -> PlaceFactsView {
        PlaceFactsView {
            sequence: self.sequence,
            run_session: self.run_session.deep_view(),
            reply_found: self.reply_found,
        }
    }
}

/// The first snapshot of a new record, or why it has no place.
pub open spec fn placed(draft: DraftView, place: PlaceFactsView) -> Result<
    SnapshotView,
    StoreErrorView,
> {
    if !valid_payload(draft.payload, draft.state) {
        Err(StoreErrorView::InvalidPayload)
    } else if place.sequence is None {
        Err(StoreErrorView::MissingSession)
    } else if place.sequence->0 == i64::MAX {
        Err(StoreErrorView::SequenceExhausted)
    } else if draft.run_id is Some && place.run_session is None {
        Err(StoreErrorView::MissingRun)
    } else if draft.run_id is Some && place.run_session->0 != draft.session_id {
        Err(StoreErrorView::WrongSession)
    } else if draft.reply_to_id is Some && !place.reply_found {
        Err(StoreErrorView::MissingRecord)
    } else if place.sequence->0 < 0 {
        Err(bad_number())
    } else {
        Ok(
            SnapshotView {
                record: RecordView {
                    id: draft.id,
                    session_id: draft.session_id,
                    run_id: draft.run_id,
                    sequence: place.sequence->0 as u64,
                    actor: draft.actor,
                    reply_to_id: draft.reply_to_id,
                    payload: draft.payload,
                },
                source: draft.source,
                revision: 0,
                state: draft.state,
            },
        )
    }
}

/// The first snapshot of a new record.
pub fn prepare(draft: Draft, place: &PlaceFacts) -> (r: Result<Arc<Snapshot>, StoreError>)
    ensures
        outcome(r) == placed(draft.deep_view(), place.deep_view()),
{
    match validate(&draft.payload, draft.state) {
        Err(e) => return Err(e),
        Ok(_) => {},
    }
    let sequence: i64 = match place.sequence {
        None => return Err(StoreError::MissingSession),
        Some(sequence) => sequence,
    };
    if sequence == i64::MAX {
        return Err(StoreError::SequenceExhausted);
    }
    if draft.run_id.is_some() {
        match &place.run_session {
            None => return Err(StoreError::MissingRun),
            Some(session) => {
                if !session.same_as(&draft.session_id) {
                    return Err(StoreError::WrongSession);
                }
            },
        }
    }
    if draft.reply_to_id.is_some() && !place.reply_found {
        return Err(StoreError::MissingRecord);
    }
    let sequence: u64 = match number(sequence) {
        Err(e) => return Err(e),
        Ok(sequence) => sequence,
    };
    Ok(
        Arc::new(
            Snapshot {
                record: Record {
                    id: draft.id,
                    session_id: draft.session_id,
                    run_id: draft.run_id,
                    sequence,
                    actor: draft.actor,
                    reply_to_id: draft.reply_to_id,
                    payload: draft.payload,
                },
                source: draft.source,
                revision: 0,
                state: draft.state,
            },
        ),
    )
}

/// What inserting does.
pub enum Insertion {
    /// The record is there already, and is now this.
    Existing(Arc<Snapshot>),
    /// This is written.
    New(Arc<Snapshot>),
}

/// What inserting does.
pub enum InsertionView {
    Existing(SnapshotView),
    New(SnapshotView),
}

impl DeepView for Insertion {
    type V = InsertionView;

    open spec fn deep_view(&self) -> InsertionView {
        match self {
            Insertion::Existing(snapshot) => InsertionView::Existing(snapshot.deep_view()),
            Insertion::New(snapshot) => InsertionView::New(snapshot.deep_view()),
        }
    }
}

/// What inserting a draft does, given the record of its id and its place.
pub open spec fn insertion(
    draft: DraftView,
    existing: Option<EntryView>,
    place: PlaceFactsView,
) -> Result<InsertionView, StoreErrorView> {
    if is_decision(draft.payload) {
        Err(StoreErrorView::InvalidDecision)
    } else {
        match existing {
            Some(entry) => if draft_of(entry.initial) == draft {
                Ok(InsertionView::Existing(entry.current))
            } else {
                Err(StoreErrorView::IdentityConflict)
            },
            None => if is_request(draft.payload) && draft.state.finished() {
                Err(StoreErrorView::InvalidPayload)
            } else {
                match placed(draft, place) {
                    Err(e) => Err(e),
                    Ok(snapshot) => Ok(InsertionView::New(snapshot)),
                }
            },
        }
    }
}

/// What inserting a draft does.
pub fn insert(draft: Draft, existing: &Option<StoredRecord>, place: &PlaceFacts) -> (r: Result<
    Insertion,
    StoreError,
>)
    ensures
        outcome(r) == insertion(draft.deep_view(), existing.deep_view(), place.deep_view()),
{
    if matches!(draft.payload, Payload::Decision { .. } | Payload::Answer { .. }) {
        return Err(StoreError::InvalidDecision);
    }
    match existing {
        Some(entry) => {
            return if same_draft(&entry.initial, &draft) {
                Ok(Insertion::Existing(share(&entry.current)))
            } else {
                Err(StoreError::IdentityConflict)
            };
        },
        None => {},
    }
    if matches!(draft.payload, Payload::Permission { .. } | Payload::Question(_)) && draft.state
        != RecordState::Open {
        return Err(StoreError::InvalidPayload);
    }
    match prepare(draft, place) {
        Err(e) => Err(e),
        Ok(snapshot) => Ok(Insertion::New(snapshot)),
    }
}

/// What a checkpoint leads to, given the record of its id.
pub open spec fn checkpoint_of(
    existing: Option<EntryView>,
    expected_revision: u64,
    payload: PayloadView,
    next: RecordState,
) -> Result<SnapshotView, StoreErrorView> {
    match existing {
        None => Err(StoreErrorView::MissingRecord),
        Some(entry) => checkpointed(entry.current, expected_revision, payload, next),
    }
}

/// What a checkpoint leads to.
pub fn checkpoint_record(
    existing: &Option<StoredRecord>,
    expected_revision: u64,
    payload: Payload,
    next: RecordState,
) -> (r: Result<Arc<Snapshot>, StoreError>)
    ensures
        outcome(r) == checkpoint_of(
            existing.deep_view(),
            expected_revision,
            payload.deep_view(),
            next,
        ),
{
    match existing {
        None => Err(StoreError::MissingRecord),
        Some(entry) => checkpoint(&entry.current, expected_revision, payload, next),
    }
}

/// What is written when a record changes: nothing if it does not, and what it held at its
/// creation if this is its first change.
pub struct RowUpdate {
    pub revision: i64,
    pub initial: Option<InitialContent>,
}

/// What is written when a record changes.
pub fn update_row(old: &Snapshot, new: &Snapshot) -> (r: Result<Option<RowUpdate>, StoreError>)
    ensures
        match r {
            Ok(None) => old.deep_view() == new.deep_view(),
            Ok(Some(update)) => {
                &&& old.deep_view() != new.deep_view()
                &&& update.revision == new.revision
                &&& update.initial.deep_view() == if old.revision == 0 {
                    Some(
                        InitialContentView {
                            payload: old.deep_view().record.payload,
                            state: old.state,
                        },
                    )
                } else {
                    None
                }
            },
            Err(e) => old.deep_view() != new.deep_view() && new.revision > i64::MAX && e
                == StoreError::SequenceExhausted,
        },
{
    if old.same_as(new) {
        return Ok(None);
    }
    if new.revision > i64::MAX as u64 {
        return Err(StoreError::SequenceExhausted);
    }
    let initial = if old.revision == 0 {
        Some(InitialContent { payload: old.record.payload.duplicate(), state: old.state })
    } else {
        None
    };
    Ok(Some(RowUpdate { revision: new.revision as i64, initial }))
}

/// Exactly one row is at the revision that a change starts from.
pub fn confirm_update(changed: usize) -> (r: Result<(), StoreError>)
    ensures
        outcome(r) == if changed == 1 {
            Ok::<(), StoreErrorView>(())
        } else {
            Err(StoreErrorView::RevisionConflict)
        },
{
    if changed != 1 {
        return Err(StoreError::RevisionConflict);
    }
    Ok(())
}

/// What the database says of a request that is to be resolved.
pub struct ResolutionFacts {
    /// The decision on the request: whether there is one, and its record.
    pub decided: Option<Option<StoredRecord>>,
    /// Whether the id of the decision is taken.
    pub taken: bool,
    /// The request.
    pub request: Option<StoredRecord>,
    /// The place of the decision.
    pub place: PlaceFacts,
}

/// What a `ResolutionFacts` holds.
pub struct ResolutionFactsView {
    pub decided: Option<Option<EntryView>>,
    pub taken: bool,
    pub request: Option<EntryView>,
    pub place: PlaceFactsView,
}

impl DeepView for ResolutionFacts {
    type V = ResolutionFactsView;

    open spec fn deep_view(&self) -> ResolutionFactsView {
        ResolutionFactsView {
            decided: self.decided.deep_view(),
            taken: self.taken,
            request: self.request.deep_view(),
            place: self.place.deep_view(),
        }
    }
}

/// What resolving does.
pub enum Resolution {
    /// The decision is there already, and is now this.
    Existing(Arc<Snapshot>),
    /// The request becomes the first of these, and the second is written.
    New { request: Arc<Snapshot>, response: Arc<Snapshot> },
}

/// What resolving does.
pub enum ResolutionView {
    Existing(SnapshotView),
    New { request: SnapshotView, response: SnapshotView },
}

impl DeepView for Resolution {
    type V = ResolutionView;

    open spec fn deep_view(&self) -> ResolutionView {
        match self {
            Resolution::Existing(snapshot) => ResolutionView::Existing(snapshot.deep_view()),
            Resolution::New { request, response } => ResolutionView::New {
                request: request.deep_view(),
                response: response.deep_view(),
            },
        }
    }
}

/// What resolving a request does.
pub open spec fn resolution(
    expected_revision: u64,
    decision: DraftView,
    facts: ResolutionFactsView,
) -> Result<ResolutionView, StoreErrorView> {
    match facts.decided {
        Some(None) => Err(StoreErrorView::MissingRecord),
        Some(Some(entry)) => if draft_of(entry.initial) == decision {
            Ok(ResolutionView::Existing(entry.current))
        } else {
            Err(StoreErrorView::AlreadyResolved)
        },
        None => if facts.taken {
            Err(StoreErrorView::IdentityConflict)
        } else {
            match facts.request {
                None => Err(StoreErrorView::MissingRecord),
                Some(original) => match request_resolved(
                    original.current,
                    expected_revision,
                    decision,
                ) {
                    Err(e) => Err(e),
                    Ok(request) => match placed(decision, facts.place) {
                        Err(e) => Err(e),
                        Ok(response) => Ok(ResolutionView::New { request, response }),
                    },
                },
            }
        },
    }
}

/// What resolving a request does.
pub fn resolve(expected_revision: u64, decision: Draft, facts: &ResolutionFacts) -> (r: Result<
    Resolution,
    StoreError,
>)
    ensures
        outcome(r) == resolution(expected_revision, decision.deep_view(), facts.deep_view()),
{
    match &facts.decided {
        Some(None) => return Err(StoreError::MissingRecord),
        Some(Some(entry)) => {
            return if same_draft(&entry.initial, &decision) {
                Ok(Resolution::Existing(share(&entry.current)))
            } else {
                Err(StoreError::AlreadyResolved)
            };
        },
        None => {},
    }
    if facts.taken {
        return Err(StoreError::IdentityConflict);
    }
    let original = match &facts.request {
        None => return Err(StoreError::MissingRecord),
        Some(original) => &original.current,
    };
    let request = match resolve_request(original, expected_revision, &decision) {
        Err(e) => return Err(e),
        Ok(request) => request,
    };
    match prepare(decision, &facts.place) {
        Err(e) => Err(e),
        Ok(response) => Ok(Resolution::New { request: Arc::new(request), response }),
    }
}

/// The rows of a page: the exclusive cursor from which it is read, or nothing where the
/// page is empty in any case.
pub fn list_after(after: Option<u64>, limit: usize, session: bool) -> (r: Result<
    Option<i64>,
    StoreError,
>)
    ensures
        outcome(r) == if !(1 <= limit <= 1000) {
            Err::<Option<i64>, StoreErrorView>(StoreErrorView::InvalidPageSize)
        } else if !session {
            Err(StoreErrorView::MissingSession)
        } else {
            match after {
                None => Ok(Some(-1i64)),
                Some(after) => if after <= i64::MAX {
                    Ok(Some(after as i64))
                } else {
                    Ok(None)
                },
            }
        },
{
    if limit < 1 || limit > 1000 {
        return Err(StoreError::InvalidPageSize);
    }
    if !session {
        return Err(StoreError::MissingSession);
    }
    match after {
        None => Ok(Some(-1)),
        Some(after) => {
            if after <= i64::MAX as u64 {
                Ok(Some(after as i64))
            } else {
                Ok(None)
            }
        },
    }
}

/// The next sequence of a session.
pub open spec fn next_sequence(store: StoreView, session: Seq<char>) -> Option<i64> {
    if store.sessions.contains_key(session) {
        Some(store.sessions[session].len() as i64)
    } else {
        None
    }
}

/// The record of an id.
pub open spec fn entry_in(store: StoreView, id: Seq<char>) -> Option<EntryView> {
    if store.records.contains_key(id) {
        Some(store.records[id])
    } else {
        None
    }
}

/// What a store says of the place of a new record.
pub open spec fn place_in(store: StoreView, draft: DraftView) -> PlaceFactsView {
    PlaceFactsView {
        sequence: next_sequence(store, draft.session_id),
        run_session: match draft.run_id {
            Some(run) => if store.runs.contains_key(run) {
                Some(store.runs[run].session_id)
            } else {
                None
            },
            None => None,
        },
        reply_found: draft.reply_to_id is Some && store.records.contains_key(
            draft.reply_to_id->0,
        ),
    }
}

/// What a store says of a run that is to be registered.
pub open spec fn run_facts_in(store: StoreView, run: Assignment) -> RunFactsView {
    RunFactsView {
        existing: if store.runs.contains_key(run.id) {
            Some(store.runs[run.id])
        } else {
            None
        },
        session: store.sessions.contains_key(run.session_id),
        origin: match run.continuation {
            Some(id) => match found(store.continuations, id) {
                Ok(origin) => Some(origin),
                Err(_) => None,
            },
            None => None,
        },
        context: run.context.records.map_values(
            |id: Seq<char>|
                match entry_in(store, id) {
                    Some(entry) => Some(entry.current.state),
                    None => None,
                },
        ),
    }
}

/// What a store says of a request that is to be resolved.
pub open spec fn resolution_facts_in(
    store: StoreView,
    request: Seq<char>,
    decision: DraftView,
) -> ResolutionFactsView {
    ResolutionFactsView {
        decided: if store.decisions.contains_key(request) {
            Some(entry_in(store, store.decisions[request]))
        } else {
            None
        },
        taken: store.records.contains_key(decision.id),
        request: entry_in(store, request),
        place: place_in(store, decision),
    }
}

/// No session is full.
pub open spec fn has_room(store: StoreView) -> bool {
    forall|session: Seq<char>| #[trigger]
        store.sessions.contains_key(session) ==> store.sessions[session].len() < i64::MAX
}

proof fn states_agree(store: StoreView, ids: Seq<Seq<char>>)
    ensures
        states_error(
            ids.map_values(
                |id: Seq<char>|
                    match entry_in(store, id) {
                        Some(entry) => Some(entry.current.state),
                        None => None,
                    },
            ),
        ) == context_error(store.records, ids),
    decreases ids.len(),
{
    let state = |id: Seq<char>|
        match entry_in(store, id) {
            Some(entry) => Some(entry.current.state),
            None => None,
        };
    if ids.len() > 0 {
        states_agree(store, ids.skip(1));
        assert(ids.map_values(state).skip(1) =~= ids.skip(1).map_values(state));
    }
}

/// Registering a run in a transaction replies what the store's rules say.
pub proof fn registrations_follow_the_store(store: StoreView, run: Assignment)
    ensures
        match store.run_registered(run) {
            Ok((new, _)) => registration(run, run_facts_in(store, run)) == Ok::<
                bool,
                StoreErrorView,
            >(new),
            Err(e) => registration(run, run_facts_in(store, run)) == Err::<bool, StoreErrorView>(e),
        },
{
    states_agree(store, run.context.records);
}

/// Inserting in a transaction does what the store's rules say: what exists is returned
/// as it is, and what is written is the record that the rules add.
pub proof fn insertions_follow_the_store(store: StoreView, draft: DraftView)
    requires
        has_room(store),
    ensures
        match insertion(draft, entry_in(store, draft.id), place_in(store, draft)) {
            Err(e) => store.inserted(draft) == Err::<(SnapshotView, StoreView), StoreErrorView>(e),
            Ok(InsertionView::Existing(snapshot)) => store.inserted(draft) == Ok::<
                (SnapshotView, StoreView),
                StoreErrorView,
            >((snapshot, store)),
            Ok(InsertionView::New(snapshot)) => store.inserted(draft) == Ok::<
                (SnapshotView, StoreView),
                StoreErrorView,
            >((snapshot, store.committed(snapshot))),
        },
{
}

/// A checkpoint in a transaction leads to what the store's rules say.
pub proof fn checkpoints_follow_the_store(
    store: StoreView,
    id: Seq<char>,
    expected_revision: u64,
    payload: PayloadView,
    next: RecordState,
)
    ensures
        match checkpoint_of(entry_in(store, id), expected_revision, payload, next) {
            Err(e) => store.checkpointed(id, expected_revision, payload, next) == Err::<
                (SnapshotView, StoreView),
                StoreErrorView,
            >(e),
            Ok(snapshot) => store.checkpointed(id, expected_revision, payload, next) == Ok::<
                (SnapshotView, StoreView),
                StoreErrorView,
            >((snapshot, store.updated(id, snapshot))),
        },
{
}

/// Resolving in a transaction does what the rules of a consistent store say.
pub proof fn resolutions_follow_the_store(
    store: StoreView,
    request: Seq<char>,
    expected_revision: u64,
    decision: DraftView,
)
    requires
        has_room(store),
        store.consistent(),
    ensures
        match resolution(
            expected_revision,
            decision,
            resolution_facts_in(store, request, decision),
        ) {
            Err(e) => store.resolved(request, expected_revision, decision) == Err::<
                (SnapshotView, StoreView),
                StoreErrorView,
            >(e),
            Ok(ResolutionView::Existing(snapshot)) => store.resolved(
                request,
                expected_revision,
                decision,
            ) == Ok::<(SnapshotView, StoreView), StoreErrorView>((snapshot, store)),
            Ok(ResolutionView::New { request: answered, response }) => store.resolved(
                request,
                expected_revision,
                decision,
            ) == Ok::<(SnapshotView, StoreView), StoreErrorView>(
                (
                    response,
                    (StoreView {
                        decisions: store.decisions.insert(request, decision.id),
                        ..store.updated(request, answered)
                    }).committed(response),
                ),
            ),
        },
{
    if store.decisions.contains_key(request) {
        assert(store.decision_placed(request));
    }
}

} // verus!
