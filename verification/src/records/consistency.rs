//! Every operation keeps a store consistent.

use crate::execution::{Assignment, ExecutionRelationView};
use crate::records::continuation::{
    claiming_keeps_consistency, saving_keeps_consistency, ContinuationView,
};
use crate::records::store::{acyclic, ancestor, reaches, Relations, StoreView};
use crate::records::{DraftView, PayloadView, RecordState};
use vstd::prelude::*;

verus! {

/// An empty store is consistent.
pub proof fn empty_store_is_consistent()
    ensures
        StoreView::empty().consistent(),
{
    let relations = StoreView::empty().relations;
    assert forall|run: Seq<char>, n: nat| n > 0 implies #[trigger] ancestor(relations, run, n)
        != Some(run) by {
        let below = ancestor(relations, run, (n - 1) as nat);
    }
}

/// Creating a session keeps the store consistent.
pub proof fn creating_a_session_keeps_consistency(store: StoreView, id: Seq<char>)
    requires
        store.consistent(),
    ensures
        store.session_created(id).consistent(),
{
    let after = store.session_created(id);
    assert forall|r: Seq<char>| #[trigger] after.records.contains_key(r) implies after.record_placed(
        r,
    ) by {
        assert(store.record_placed(r));
    }
    assert forall|s: Seq<char>| #[trigger] after.sessions.contains_key(s) implies after.session_placed(
        s,
    ) by {
        if store.sessions.contains_key(s) {
            assert(store.session_placed(s));
        }
    }
    assert forall|r: Seq<char>| #[trigger] after.decisions.contains_key(r) implies after.decision_placed(
        r,
    ) by {
        assert(store.decision_placed(r));
    }
    assert forall|c: Seq<char>| #[trigger] after.relations.contains_key(c) implies after.relation_placed(
        c,
    ) by {
        assert(store.relation_placed(c));
    }
}

/// Registering a run keeps the store consistent.
pub proof fn registering_a_run_keeps_consistency(store: StoreView, run: Assignment)
    requires
        store.consistent(),
    ensures
        store.run_registered(run) matches Ok((_, after)) ==> after.consistent(),
{
    if let Ok((_, after)) = store.run_registered(run) {
        assert forall|r: Seq<char>| #[trigger] after.records.contains_key(
            r,
        ) implies after.record_placed(r) by {
            assert(store.record_placed(r));
        }
        assert forall|s: Seq<char>| #[trigger] after.sessions.contains_key(
            s,
        ) implies after.session_placed(s) by {
            assert(store.session_placed(s));
        }
        assert forall|r: Seq<char>| #[trigger] after.decisions.contains_key(
            r,
        ) implies after.decision_placed(r) by {
            assert(store.decision_placed(r));
        }
        assert forall|c: Seq<char>| #[trigger] after.relations.contains_key(
            c,
        ) implies after.relation_placed(c) by {
            assert(store.relation_placed(c));
        }
    }
}

/// Inserting a record keeps the store consistent.
pub proof fn inserting_a_record_keeps_consistency(store: StoreView, draft: DraftView)
    requires
        store.consistent(),
        store.sessions.contains_key(draft.session_id) ==> store.sessions[draft.session_id].len()
            <= u64::MAX,
    ensures
        store.inserted(draft) matches Ok((_, after)) ==> after.consistent(),
{
    if let Ok((snapshot, after)) = store.inserted(draft) {
        if !store.records.contains_key(draft.id) {
            let session = draft.session_id;
            let ids = store.sessions[session];
            assert forall|r: Seq<char>| #[trigger] after.records.contains_key(
                r,
            ) implies after.record_placed(r) by {
                if r == draft.id {
                    assert(after.sessions[session][ids.len() as int] == r);
                } else {
                    assert(store.records.contains_key(r));
                    assert(store.record_placed(r));
                }
            }
            assert forall|s: Seq<char>| #[trigger] after.sessions.contains_key(
                s,
            ) implies after.session_placed(s) by {
                assert(store.sessions.contains_key(s));
                assert(store.session_placed(s));
                assert forall|i: int| 0 <= i < after.sessions[s].len() implies ({
                    let id = #[trigger] after.sessions[s][i];
                    after.records.contains_key(id) && after.records[id].current.record.session_id
                        == s && after.records[id].current.record.sequence == i
                }) by {
                    if s == session && i == ids.len() {
                    } else {
                        assert(after.sessions[s][i] == store.sessions[s][i]);
                    }
                }
            }
            assert forall|r: Seq<char>| #[trigger] after.decisions.contains_key(
                r,
            ) implies after.decision_placed(r) by {
                assert(store.decision_placed(r));
            }
            assert forall|c: Seq<char>| #[trigger] after.relations.contains_key(
                c,
            ) implies after.relation_placed(c) by {
                assert(store.relation_placed(c));
            }
        }
    }
}

/// A checkpoint keeps the store consistent.
pub proof fn checkpointing_keeps_consistency(
    store: StoreView,
    id: Seq<char>,
    expected_revision: u64,
    payload: PayloadView,
    next: RecordState,
)
    requires
        store.consistent(),
    ensures
        store.checkpointed(id, expected_revision, payload, next) matches Ok((_, after))
            ==> after.consistent(),
{
    if let Ok((snapshot, after)) = store.checkpointed(id, expected_revision, payload, next) {
        assert(store.record_placed(id));
        assert forall|r: Seq<char>| #[trigger] after.records.contains_key(
            r,
        ) implies after.record_placed(r) by {
            assert(store.records.contains_key(r));
            assert(store.record_placed(r));
        }
        assert forall|s: Seq<char>| #[trigger] after.sessions.contains_key(
            s,
        ) implies after.session_placed(s) by {
            assert(store.session_placed(s));
        }
        assert forall|r: Seq<char>| #[trigger] after.decisions.contains_key(
            r,
        ) implies after.decision_placed(r) by {
            assert(store.decision_placed(r));
        }
        assert forall|c: Seq<char>| #[trigger] after.relations.contains_key(
            c,
        ) implies after.relation_placed(c) by {
            assert(store.relation_placed(c));
        }
    }
}

/// Resolving a request keeps the store consistent.
pub proof fn resolving_keeps_consistency(
    store: StoreView,
    request: Seq<char>,
    expected_revision: u64,
    decision: DraftView,
)
    requires
        store.consistent(),
        store.sessions.contains_key(decision.session_id)
            ==> store.sessions[decision.session_id].len() <= u64::MAX,
    ensures
        store.resolved(request, expected_revision, decision) matches Ok((_, after))
            ==> after.consistent(),
{
    if let Ok((snapshot, after)) = store.resolved(request, expected_revision, decision) {
        if !store.decisions.contains_key(request) {
            assert(store.record_placed(request));
            let session = decision.session_id;
            let ids = store.sessions[session];
            assert(request != decision.id);
            assert forall|r: Seq<char>| #[trigger] after.records.contains_key(
                r,
            ) implies after.record_placed(r) by {
                if r == decision.id {
                    assert(after.sessions[session][ids.len() as int] == r);
                } else {
                    assert(store.records.contains_key(r));
                    assert(store.record_placed(r));
                }
            }
            assert forall|s: Seq<char>| #[trigger] after.sessions.contains_key(
                s,
            ) implies after.session_placed(s) by {
                assert(store.sessions.contains_key(s));
                assert(store.session_placed(s));
                assert forall|i: int| 0 <= i < after.sessions[s].len() implies ({
                    let id = #[trigger] after.sessions[s][i];
                    after.records.contains_key(id) && after.records[id].current.record.session_id
                        == s && after.records[id].current.record.sequence == i
                }) by {
                    if s == session && i == ids.len() {
                    } else {
                        assert(after.sessions[s][i] == store.sessions[s][i]);
                    }
                }
            }
            assert forall|r: Seq<char>| #[trigger] after.decisions.contains_key(
                r,
            ) implies after.decision_placed(r) by {
                if r != request {
                    assert(store.decisions.contains_key(r));
                    assert(store.decision_placed(r));
                }
            }
            assert forall|c: Seq<char>| #[trigger] after.relations.contains_key(
                c,
            ) implies after.relation_placed(c) by {
                assert(store.relation_placed(c));
            }
        }
    }
}

/// Saving a continuation keeps the store consistent.
pub proof fn saving_a_continuation_keeps_consistency(store: StoreView, value: ContinuationView)
    requires
        store.consistent(),
    ensures
        store.continuation_saved(value) matches Ok((_, after)) ==> after.consistent(),
{
    saving_keeps_consistency(store.continuations, value);
    if let Ok((_, after)) = store.continuation_saved(value) {
        same_but_continuations(store, after);
    }
}

/// Claiming a continuation keeps the store consistent.
pub proof fn claiming_a_continuation_keeps_consistency(store: StoreView, id: Seq<char>)
    requires
        store.consistent(),
    ensures
        store.continuation_claimed(id) matches Ok((_, after)) ==> after.consistent(),
{
    claiming_keeps_consistency(store.continuations, id);
    if let Ok((_, after)) = store.continuation_claimed(id) {
        same_but_continuations(store, after);
    }
}

proof fn same_but_continuations(store: StoreView, after: StoreView)
    requires
        store.consistent(),
        after == (StoreView { continuations: after.continuations, ..store }),
        crate::records::continuation::registry_consistent(after.continuations),
    ensures
        after.consistent(),
{
    assert forall|r: Seq<char>| #[trigger] after.records.contains_key(r) implies after.record_placed(
        r,
    ) by {
        assert(store.record_placed(r));
    }
    assert forall|s: Seq<char>| #[trigger] after.sessions.contains_key(s) implies after.session_placed(
        s,
    ) by {
        assert(store.session_placed(s));
    }
    assert forall|r: Seq<char>| #[trigger] after.decisions.contains_key(r) implies after.decision_placed(
        r,
    ) by {
        assert(store.decision_placed(r));
    }
    assert forall|c: Seq<char>| #[trigger] after.relations.contains_key(c) implies after.relation_placed(
        c,
    ) by {
        assert(store.relation_placed(c));
    }
}

/// Going up `m` edges and then `n` more is going up `m + n` edges.
pub proof fn ancestors_compose(relations: Relations, run: Seq<char>, m: nat, n: nat)
    ensures
        ancestor(relations, run, m) matches Some(middle) ==> ancestor(relations, run, m + n)
            == ancestor(relations, middle, n),
    decreases n,
{
    if n > 0 {
        ancestors_compose(relations, run, m, (n - 1) as nat);
    }
}

/// As long as a walk does not come to the child, a new edge above it does not matter.
proof fn walk_without_child(
    relations: Relations,
    edge: ExecutionRelationView,
    run: Seq<char>,
    n: nat,
)
    requires
        !relations.contains_key(edge.child),
        forall|m: nat|
            m < n ==> #[trigger] ancestor(relations.insert(edge.child, edge), run, m) != Some(
                edge.child,
            ),
    ensures
        ancestor(relations, run, n) == ancestor(relations.insert(edge.child, edge), run, n),
    decreases n,
{
    if n > 0 {
        walk_without_child(relations, edge, run, (n - 1) as nat);
        assert(ancestor(relations.insert(edge.child, edge), run, (n - 1) as nat) != Some(
            edge.child,
        ));
    }
}

/// The first return of a walk from the child to itself.
proof fn first_return(relations: Relations, child: Seq<char>, n: nat) -> (k: nat)
    requires
        n > 0,
        ancestor(relations, child, n) == Some(child),
    ensures
        0 < k <= n,
        ancestor(relations, child, k) == Some(child),
        forall|m: nat|
            0 < m < k ==> #[trigger] ancestor(relations, child, m) != Some(child),
    decreases n,
{
    if exists|m: nat| 0 < m < n && #[trigger] ancestor(relations, child, m) == Some(child) {
        let m = choose|m: nat| 0 < m < n && #[trigger] ancestor(relations, child, m) == Some(child);
        first_return(relations, child, m)
    } else {
        n
    }
}

/// A new edge above a root keeps the graph acyclic, unless the root is above the
/// parent.
pub proof fn new_edges_keep_acyclicity(relations: Relations, edge: ExecutionRelationView)
    requires
        acyclic(relations),
        !relations.contains_key(edge.child),
        !reaches(relations, edge.parent, edge.child),
    ensures
        acyclic(relations.insert(edge.child, edge)),
{
    let after = relations.insert(edge.child, edge);
    let child = edge.child;
    assert forall|run: Seq<char>, n: nat| n > 0 implies #[trigger] ancestor(after, run, n) != Some(
        run,
    ) by {
        if ancestor(after, run, n) == Some(run) {
            if exists|m: nat| m < n && #[trigger] ancestor(after, run, m) == Some(child) {
                let m = choose|m: nat| m < n && #[trigger] ancestor(after, run, m) == Some(child);
                ancestors_compose(after, run, m, (n - m) as nat);
                ancestors_compose(after, child, (n - m) as nat, m);
                assert(ancestor(after, child, n) == Some(child));
                let k = first_return(after, child, n);
                ancestors_compose(after, child, 1, (k - 1) as nat);
                assert(ancestor(after, child, 0) == Some(child));
                assert(ancestor(after, child, 1) == Some(edge.parent));
                assert forall|j: nat| j < k - 1 implies #[trigger] ancestor(after, edge.parent, j)
                    != Some(child) by {
                    ancestors_compose(after, child, 1, j);
                }
                walk_without_child(relations, edge, edge.parent, (k - 1) as nat);
                assert(ancestor(relations, edge.parent, (k - 1) as nat) == Some(child));
            } else {
                walk_without_child(relations, edge, run, n);
            }
        }
    }
}

/// Linking two runs keeps the store consistent.
pub proof fn linking_keeps_consistency(store: StoreView, edge: ExecutionRelationView)
    requires
        store.consistent(),
    ensures
        store.linked(edge) matches Ok((_, after)) ==> after.consistent(),
{
    if let Ok((_, after)) = store.linked(edge) {
        if !store.relations.contains_key(edge.child) {
            new_edges_keep_acyclicity(store.relations, edge);
            assert forall|r: Seq<char>| #[trigger] after.records.contains_key(
                r,
            ) implies after.record_placed(r) by {
                assert(store.record_placed(r));
            }
            assert forall|s: Seq<char>| #[trigger] after.sessions.contains_key(
                s,
            ) implies after.session_placed(s) by {
                assert(store.session_placed(s));
            }
            assert forall|r: Seq<char>| #[trigger] after.decisions.contains_key(
                r,
            ) implies after.decision_placed(r) by {
                assert(store.decision_placed(r));
            }
            assert forall|c: Seq<char>| #[trigger] after.relations.contains_key(
                c,
            ) implies after.relation_placed(c) by {
                if c != edge.child {
                    assert(store.relations.contains_key(c));
                    assert(store.relation_placed(c));
                }
            }
        }
    }
}

} // verus!
