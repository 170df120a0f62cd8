//! What holds of a store through every history of operations.

use crate::datum::included;
use crate::execution::{Assignment, ExecutionRelationView};
use crate::model::RecordView;
use crate::records::consistency::{
    ancestors_compose, checkpointing_keeps_consistency, claiming_a_continuation_keeps_consistency,
    creating_a_session_keeps_consistency, empty_store_is_consistent,
    inserting_a_record_keeps_consistency, linking_keeps_consistency,
    registering_a_run_keeps_consistency, resolving_keeps_consistency,
    saving_a_continuation_keeps_consistency,
};
use crate::records::continuation::ContinuationView;
use crate::records::rules::draft_of;
use crate::records::store::{acyclic, ancestor, Relations, StoreView};
use crate::records::{DraftView, PayloadView, RecordState, SnapshotView, StoreErrorView};
use vstd::prelude::*;

verus! {

/// One operation on a store.
pub enum Operation {
    CreateSession { id: Seq<char> },
    RegisterRun { run: Assignment },
    Insert { draft: DraftView },
    Checkpoint {
        id: Seq<char>,
        expected_revision: u64,
        payload: PayloadView,
        next: RecordState,
    },
    Resolve { request: Seq<char>, expected_revision: u64, decision: DraftView },
    SaveContinuation { value: ContinuationView },
    ClaimContinuation { id: Seq<char> },
    Link { edge: ExecutionRelationView },
}

impl StoreView {
    /// The store after an operation, which changes nothing where it is refused.
    pub open spec fn after(self, operation: Operation) -> StoreView {
        match operation {
            Operation::CreateSession { id } => self.session_created(id),
            Operation::RegisterRun { run } => match self.run_registered(run) {
                Ok((_, next)) => next,
                Err(_) => self,
            },
            Operation::Insert { draft } => match self.inserted(draft) {
                Ok((_, next)) => next,
                Err(_) => self,
            },
            Operation::Checkpoint { id, expected_revision, payload, next } => {
                match self.checkpointed(id, expected_revision, payload, next) {
                    Ok((_, after)) => after,
                    Err(_) => self,
                }
            },
            Operation::Resolve { request, expected_revision, decision } => {
                match self.resolved(request, expected_revision, decision) {
                    Ok((_, after)) => after,
                    Err(_) => self,
                }
            },
            Operation::SaveContinuation { value } => match self.continuation_saved(value) {
                Ok((_, next)) => next,
                Err(_) => self,
            },
            Operation::ClaimContinuation { id } => match self.continuation_claimed(id) {
                Ok((_, next)) => next,
                Err(_) => self,
            },
            Operation::Link { edge } => match self.linked(edge) {
                Ok((_, next)) => next,
                Err(_) => self,
            },
        }
    }

    /// The store after a history of operations.
    pub open spec fn after_all(self, history: Seq<Operation>) -> StoreView
        decreases history.len(),
    {
        if history.len() == 0 {
            self
        } else {
            self.after_all(history.drop_last()).after(history.last())
        }
    }

    /// No session holds more records than the given number.
    pub open spec fn bounded(self, n: nat) -> bool {
        forall|session: Seq<char>| #[trigger]
            self.sessions.contains_key(session) ==> self.sessions[session].len() <= n
    }
}

proof fn operations_keep_consistency(store: StoreView, operation: Operation, n: nat)
    requires
        store.consistent(),
        store.bounded(n),
        n <= u64::MAX,
    ensures
        store.after(operation).consistent(),
        store.after(operation).bounded(n + 1),
{
    match operation {
        Operation::CreateSession { id } => {
            creating_a_session_keeps_consistency(store, id);
        },
        Operation::RegisterRun { run } => {
            registering_a_run_keeps_consistency(store, run);
        },
        Operation::Insert { draft } => {
            inserting_a_record_keeps_consistency(store, draft);
        },
        Operation::Checkpoint { id, expected_revision, payload, next } => {
            checkpointing_keeps_consistency(store, id, expected_revision, payload, next);
        },
        Operation::Resolve { request, expected_revision, decision } => {
            resolving_keeps_consistency(store, request, expected_revision, decision);
        },
        Operation::SaveContinuation { value } => {
            saving_a_continuation_keeps_consistency(store, value);
        },
        Operation::ClaimContinuation { id } => {
            claiming_a_continuation_keeps_consistency(store, id);
        },
        Operation::Link { edge } => {
            linking_keeps_consistency(store, edge);
        },
    }
}

/// Whatever is done to an empty store, its parts fit together: records have distinct
/// sequences that count the records of their session, what a record refers to
/// exists, every completed permission request has exactly one decision, and no run is
/// above itself. The bound on the history keeps the sequences within 64 bits.
pub proof fn histories_are_consistent(history: Seq<Operation>)
    requires
        history.len() <= u64::MAX,
    ensures
        StoreView::empty().after_all(history).consistent(),
        StoreView::empty().after_all(history).bounded(history.len()),
    decreases history.len(),
{
    if history.len() == 0 {
        empty_store_is_consistent();
    } else {
        let earlier = history.drop_last();
        histories_are_consistent(earlier);
        operations_keep_consistency(
            StoreView::empty().after_all(earlier),
            history.last(),
            earlier.len(),
        );
    }
}

/// What stays of a record while time goes on.
pub open spec fn record_continues(before: StoreView, after: StoreView, id: Seq<char>) -> bool {
    let old_entry = before.records[id];
    let new_entry = after.records[id];
    &&& after.records.contains_key(id)
    &&& new_entry.initial == old_entry.initial
    &&& new_entry.current.record == (RecordView {
        payload: new_entry.current.record.payload,
        ..old_entry.current.record
    })
    &&& new_entry.current.source == old_entry.current.source
    &&& new_entry.current.revision >= old_entry.current.revision
    &&& old_entry.current.state.finished() ==> new_entry.current == old_entry.current
}

proof fn operations_continue_records(store: StoreView, operation: Operation, id: Seq<char>)
    requires
        store.records.contains_key(id),
        store.consistent(),
    ensures
        record_continues(store, store.after(operation), id),
{
    match operation {
        Operation::Resolve { request, expected_revision, decision } => {
            assert(store.record_placed(id));
        },
        Operation::Checkpoint { .. } => {
            assert(store.record_placed(id));
        },
        _ => {},
    }
}

proof fn longer_histories_are_consistent(
    store: StoreView,
    history: Seq<Operation>,
    n: nat,
)
    requires
        store.consistent(),
        store.bounded(n),
        n + history.len() <= u64::MAX,
    ensures
        store.after_all(history).consistent(),
        store.after_all(history).bounded(n + history.len()),
    decreases history.len(),
{
    if history.len() > 0 {
        let earlier = history.drop_last();
        longer_histories_are_consistent(store, earlier, n);
        operations_keep_consistency(
            store.after_all(earlier),
            history.last(),
            n + earlier.len(),
        );
    }
}

/// A record never vanishes. Its identity, its place, its author, what it replies to
/// and its source never change, its revision never decreases, and once it is final
/// nothing of it changes any more.
pub proof fn records_are_durable(
    store: StoreView,
    history: Seq<Operation>,
    id: Seq<char>,
    n: nat,
)
    requires
        store.consistent(),
        store.bounded(n),
        n + history.len() <= u64::MAX,
        store.records.contains_key(id),
    ensures
        record_continues(store, store.after_all(history), id),
    decreases history.len(),
{
    if history.len() > 0 {
        let earlier = history.drop_last();
        records_are_durable(store, earlier, id, n);
        longer_histories_are_consistent(store, earlier, n);
        operations_continue_records(store.after_all(earlier), history.last(), id);
    }
}

/// What was inserted can be read back.
pub proof fn reads_give_back_what_was_inserted(store: StoreView, draft: DraftView)
    ensures
        store.inserted(draft) matches Ok((snapshot, after)) ==> after.record(draft.id) == Ok::<
            SnapshotView,
            StoreErrorView,
        >(snapshot),
        !store.records.contains_key(draft.id) ==> (store.inserted(draft) matches Ok((snapshot, _))
            ==> draft_of(snapshot) == draft),
{
}

/// Repeating an accepted insertion changes nothing and gives the record as it is
/// now, whatever was done in between, later checkpoints and decisions included.
pub proof fn insertions_are_idempotent(
    store: StoreView,
    draft: DraftView,
    history: Seq<Operation>,
    n: nat,
)
    requires
        store.consistent(),
        store.bounded(n),
        n + 1 + history.len() <= u64::MAX,
        store.inserted(draft) is Ok,
    ensures
        ({
            let later = store.after(Operation::Insert { draft }).after_all(history);
            later.inserted(draft) == Ok::<(SnapshotView, StoreView), StoreErrorView>(
                (later.records[draft.id].current, later),
            )
        }),
{
    let after = store.after(Operation::Insert { draft });
    operations_keep_consistency(store, Operation::Insert { draft }, n);
    records_are_durable(after, history, draft.id, n + 1);
}

/// A request keeps its decision: a decision that was made is never replaced.
pub proof fn decisions_are_durable(
    store: StoreView,
    history: Seq<Operation>,
    request: Seq<char>,
)
    requires
        store.decisions.contains_key(request),
    ensures
        store.after_all(history).decisions.contains_key(request),
        store.after_all(history).decisions[request] == store.decisions[request],
    decreases history.len(),
{
    if history.len() > 0 {
        decisions_are_durable(store, history.drop_last(), request);
    }
}

/// A request gets at most one decision: afterwards the same decision is replayed and
/// every other one is refused.
pub proof fn requests_are_resolved_once(
    store: StoreView,
    request: Seq<char>,
    expected_revision: u64,
    decision: DraftView,
    other: DraftView,
    other_revision: u64,
)
    requires
        store.consistent(),
        !store.decisions.contains_key(request),
    ensures
        store.resolved(request, expected_revision, decision) matches Ok((snapshot, after)) ==> {
            &&& after.resolved(request, other_revision, decision) == Ok::<
                (SnapshotView, StoreView),
                StoreErrorView,
            >((snapshot, after))
            &&& other != decision ==> after.resolved(request, other_revision, other) == Err::<
                (SnapshotView, StoreView),
                StoreErrorView,
            >(StoreErrorView::AlreadyResolved)
            &&& after.records[request].current.state is Complete
            &&& after.record(decision.id) == Ok::<SnapshotView, StoreErrorView>(snapshot)
        },
{
}

/// A run keeps its assignment, and registering it again is recognised.
pub proof fn assignments_are_durable(
    store: StoreView,
    history: Seq<Operation>,
    run: Assignment,
)
    requires
        store.runs.contains_key(run.id),
        store.runs[run.id] == run,
    ensures
        ({
            let later = store.after_all(history);
            &&& later.run(run.id) == Ok::<Assignment, StoreErrorView>(run)
            &&& later.run_registered(run) == Ok::<(bool, StoreView), StoreErrorView>((false, later))
            &&& forall|other: Assignment|
                other.id == run.id && other != run ==> #[trigger] later.run_registered(other)
                    == Err::<(bool, StoreView), StoreErrorView>(StoreErrorView::IdentityConflict)
        }),
    decreases history.len(),
{
    if history.len() > 0 {
        assignments_are_durable(store, history.drop_last(), run);
    }
}

/// The records of a page belong to the session and have consecutive sequences that
/// start right after the cursor. A page that is not full reaches the end.
pub proof fn pages_follow_the_sequences(
    store: StoreView,
    session: Seq<char>,
    cursor: Option<u64>,
    limit: usize,
)
    requires
        store.consistent(),
        store.sessions.contains_key(session),
        1 <= limit <= 1000,
    ensures
        ({
            let start = match cursor {
                None => 0,
                Some(c) => c + 1,
            };
            let page = store.page(session, cursor, limit);
            &&& page is Ok
            &&& page->Ok_0.len() <= limit
            &&& forall|i: int|
                0 <= i < page->Ok_0.len() ==> (#[trigger] page->Ok_0[i]).record.session_id
                    == session && page->Ok_0[i].record.sequence == start + i
            &&& page->Ok_0.len() < limit ==> start + page->Ok_0.len()
                >= store.sessions[session].len()
        }),
{
    assert(store.session_placed(session));
}

/// Reading a session page by page gives each record once: the page after a full page
/// starts with the record after its last one.
pub proof fn pages_join(
    store: StoreView,
    session: Seq<char>,
    cursor: Option<u64>,
    limit: usize,
)
    requires
        store.consistent(),
        store.sessions.contains_key(session),
        1 <= limit <= 500,
        store.page(session, cursor, limit) matches Ok(page) && page.len() == limit,
    ensures
        ({
            let page = store.page(session, cursor, limit)->Ok_0;
            let rest = store.page(session, Some(page.last().record.sequence), limit)->Ok_0;
            store.page(session, cursor, (2 * limit) as usize) == Ok::<
                Seq<SnapshotView>,
                StoreErrorView,
            >(page + rest)
        }),
{
    pages_follow_the_sequences(store, session, cursor, limit);
    let page = store.page(session, cursor, limit)->Ok_0;
    let rest = store.page(session, Some(page.last().record.sequence), limit)->Ok_0;
    let whole = store.page(session, cursor, (2 * limit) as usize)->Ok_0;
    assert(page[limit - 1] == page.last());
    assert(whole =~= page + rest);
}

/// An edge of the execution graph is never replaced.
pub proof fn edges_are_durable(store: StoreView, history: Seq<Operation>, child: Seq<char>)
    requires
        store.relations.contains_key(child),
    ensures
        store.after_all(history).parent_edge(child) == Some(store.relations[child]),
    decreases history.len(),
{
    if history.len() > 0 {
        edges_are_durable(store, history.drop_last(), child);
    }
}

proof fn ancestors_are_distinct(relations: Relations, run: Seq<char>, i: nat, j: nat)
    requires
        acyclic(relations),
        i < j,
        ancestor(relations, run, j) is Some,
    ensures
        ancestor(relations, run, i) is Some,
        ancestor(relations, run, i) != ancestor(relations, run, j),
    decreases j,
{
    if i + 1 < j {
        ancestors_are_distinct(relations, run, i, (j - 1) as nat);
    }
    let lower = ancestor(relations, run, i)->0;
    ancestors_compose(relations, run, i, (j - i) as nat);
    assert(ancestor(relations, lower, (j - i) as nat) != Some(lower));
}

/// The runs that are met on the way up, except the last one, have an edge each.
proof fn runs_on_the_way(relations: Relations, run: Seq<char>, n: nat) -> (met: Set<Seq<char>>)
    requires
        acyclic(relations),
        ancestor(relations, run, n) is Some,
    ensures
        met.finite(),
        met.len() == n,
        met.subset_of(relations.dom()),
        forall|r: Seq<char>| #[trigger]
            met.contains(r) ==> exists|i: nat| i < n && ancestor(relations, run, i) == Some(r),
    decreases n,
{
    if n == 0 {
        Set::empty()
    } else {
        let last = (n - 1) as nat;
        let below = runs_on_the_way(relations, run, last);
        let next = ancestor(relations, run, last)->0;
        if below.contains(next) {
            let i = choose|i: nat| i < last && ancestor(relations, run, i) == Some(next);
            ancestors_are_distinct(relations, run, i, last);
        }
        let met = below.insert(next);
        assert forall|r: Seq<char>| #[trigger] met.contains(r) implies exists|i: nat|
            i < n && ancestor(relations, run, i) == Some(r) by {
            if r == next {
                assert(ancestor(relations, run, last) == Some(r));
            } else {
                let i = choose|i: nat| i < last && ancestor(relations, run, i) == Some(r);
                assert(i < n && ancestor(relations, run, i) == Some(r));
            }
        }
        met
    }
}

/// Going up from parent to parent ends, whichever run it starts from, after no more
/// steps than there are edges, and no run is met twice on the way.
pub proof fn walks_over_parents_end(store: StoreView, run: Seq<char>)
    requires
        store.consistent(),
    ensures
        ancestor(store.relations, run, store.relations.dom().len() + 1) is None,
        forall|i: nat, j: nat|
            #![trigger ancestor(store.relations, run, i), ancestor(store.relations, run, j)]
            i < j && ancestor(store.relations, run, j) is Some ==> ancestor(
                store.relations,
                run,
                i,
            ) != ancestor(store.relations, run, j),
{
    let edges = store.relations.dom();
    if ancestor(store.relations, run, edges.len() + 1) is Some {
        let met = runs_on_the_way(store.relations, run, edges.len() + 1);
        vstd::set_lib::lemma_len_subset(met, edges);
    }
    assert forall|i: nat, j: nat|
        #![trigger ancestor(store.relations, run, i), ancestor(store.relations, run, j)]
        i < j && ancestor(store.relations, run, j) is Some implies ancestor(
        store.relations,
        run,
        i,
    ) != ancestor(store.relations, run, j) by {
        ancestors_are_distinct(store.relations, run, i, j);
    }
}

/// Authority never widens on the way down: a run has only tools that every edge
/// above it gives too.
pub proof fn authority_never_widens(store: StoreView, child: Seq<char>, n: nat)
    requires
        store.consistent(),
        store.relations.contains_key(child),
        ancestor(store.relations, child, n) is Some,
        store.relations.contains_key(ancestor(store.relations, child, n)->0),
    ensures
        included(
            store.relations[child].child_authority.tools,
            store.relations[ancestor(store.relations, child, n)->0].child_authority.tools,
        ),
    decreases n,
{
    if n > 0 {
        let below = ancestor(store.relations, child, (n - 1) as nat)->0;
        authority_never_widens(store, child, (n - 1) as nat);
        assert(store.relation_placed(below));
        let given = store.relations[child].child_authority.tools;
        let middle = store.relations[below].child_authority.tools;
        let above = store.relations[store.relations[below].parent].child_authority.tools;
        assert forall|i: int| 0 <= i < given.len() implies above.contains(#[trigger] given[i]) by {
            assert(middle.contains(given[i]));
            let j = choose|j: int| 0 <= j < middle.len() && middle[j] == given[i];
            assert(above.contains(middle[j]));
        }
    } else {
        let tools = store.relations[child].child_authority.tools;
        assert forall|i: int| 0 <= i < tools.len() implies tools.contains(#[trigger] tools[i]) by {}
    }
}

/// A claimed continuation stays claimed, and a superseded one stays superseded.
pub proof fn claims_are_durable(store: StoreView, history: Seq<Operation>, id: Seq<char>)
    requires
        store.continuations.contains_key(id),
        crate::records::continuation::registry_consistent(store.continuations),
    ensures
        ({
            let before = store.continuations[id];
            let later = store.after_all(history).continuations;
            &&& later.contains_key(id)
            &&& later[id].continuation == before.continuation
            &&& before.state is Claimed ==> later[id].state is Claimed
            &&& !before.latest ==> !later[id].latest
            &&& crate::records::continuation::registry_consistent(later)
        }),
    decreases history.len(),
{
    if history.len() > 0 {
        let earlier = store.after_all(history.drop_last());
        claims_are_durable(store, history.drop_last(), id);
        match history.last() {
            Operation::SaveContinuation { value } => {
                crate::records::continuation::saving_keeps_consistency(
                    earlier.continuations,
                    value,
                );
                crate::records::continuation::latest_is_in_the_registry(
                    earlier.continuations,
                    value,
                );
            },
            Operation::ClaimContinuation { id: other } => {
                crate::records::continuation::claiming_keeps_consistency(
                    earlier.continuations,
                    other,
                );
            },
            _ => {},
        }
    }
}

} // verus!
