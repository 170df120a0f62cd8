//! What holds of everything else that a store keeps: runs, continuations, delegations, and
//! what is read of them after a crash.

use crate::context::{ResourceErrorView, ResourceView};
use crate::datum::outcome;
use crate::execution::{Assignment, ExecutionRelationView};
use crate::json::{JsonNumber, JsonView};
use crate::model::ResourceRefView;
use crate::records::continuation::{
    claimed, is_latest, latest_of, may_succeed, saved, ContinuationRecordView, ContinuationState,
    ContinuationView, Continuations,
};
use crate::records::sqlite::changes::{
    changes_read, next_after, snapshot_from, ChangeCursorView, ChangeView,
};
use crate::records::sqlite::execution::relation_meaning;
use crate::records::sqlite::recovery::{reports_outcome, unsettled_kind, EvidenceView, RunRowView};
use crate::records::sqlite::resources::{
    hex_of, resource_meaning, row_digest, sha256_of, ResourceRow,
};
use crate::records::sqlite::values::{query_equal, query_one, query_value};
use crate::records::sqlite::{
    migrations_done, name_of, row_meaning, state_of, RowDataView, SchemaFound,
};
use crate::records::store::{
    ancestor, answered, attempted, context_error, environmental, lists_children, reaches, session_error,
    EntryView, Relations, StoreView,
};
use crate::records::{PayloadView, RecordState, SnapshotView, StoreErrorView};
use crate::text::{blank, hex_digit, text_before, text_before_irreflexive, white_space};
use vstd::prelude::*;

verus! {

/// A session that is created is empty, and one that was there before stays as it is.
pub proof fn sessions_are_created_empty(store: StoreView, id: Seq<char>, other: Seq<char>)
    ensures
        ({
            let after = store.session_created(id);
            &&& after.sessions.contains_key(id)
            &&& !store.sessions.contains_key(id) ==> after.sessions[id].len() == 0
            &&& store.sessions.contains_key(id) ==> after == store
            &&& other != id ==> (after.sessions.contains_key(other) <==> store.sessions.contains_key(
                other,
            )) && after.sessions[other] == store.sessions[other]
            &&& after.records == store.records
            &&& after.runs == store.runs
            &&& after.decisions == store.decisions
            &&& after.continuations == store.continuations
            &&& after.relations == store.relations
        }),
        StoreView::empty().sessions == Map::<Seq<char>, Seq<Seq<char>>>::empty(),
        StoreView::empty().records == Map::<Seq<char>, EntryView>::empty(),
        StoreView::empty().runs == Map::<Seq<char>, Assignment>::empty(),
        StoreView::empty().decisions == Map::<Seq<char>, Seq<char>>::empty(),
{
}

/// A new run is registered as it is when its session is known, what it continues was
/// claimed for its session and slot and is the latest, and every record of its context is
/// known and final. The same run again is recognised, and another one under its id refused.
pub proof fn fitting_runs_are_registered(store: StoreView, run: Assignment)
    ensures
        ({
            let reply = store.run_registered(run);
            let taken = store.runs.contains_key(run.id);
            let origin = store.continuations[run.continuation->0];
            let continues = run.continuation is Some ==> {
                &&& store.continuations.contains_key(run.continuation->0)
                &&& origin.state == ContinuationState::Claimed
                &&& origin.latest
                &&& origin.continuation.session_id == run.session_id
                &&& origin.continuation.slot_id == run.slot_id
            };
            let settled = forall|i: int|
                0 <= i < run.context.records.len() ==> store.records.contains_key(
                    #[trigger] run.context.records[i],
                ) && store.records[run.context.records[i]].current.state != RecordState::Open;
            &&& taken && store.runs[run.id] == run ==> reply == Ok::<
                (bool, StoreView),
                StoreErrorView,
            >((false, store))
            &&& taken && store.runs[run.id] != run ==> reply == Err::<
                (bool, StoreView),
                StoreErrorView,
            >(StoreErrorView::IdentityConflict)
            &&& !taken ==> (reply is Ok <==> (store.sessions.contains_key(run.session_id)
                && continues && settled))
            &&& !taken ==> (reply matches Ok((new, after)) ==> new && after.runs
                == store.runs.insert(run.id, run) && after.records == store.records
                && after.sessions == store.sessions && after.decisions == store.decisions
                && after.continuations == store.continuations && after.relations
                == store.relations)
            &&& !taken && !store.sessions.contains_key(run.session_id) ==> reply == Err::<
                (bool, StoreView),
                StoreErrorView,
            >(StoreErrorView::MissingSession)
            &&& !taken && store.sessions.contains_key(run.session_id) && run.continuation is Some
                && !store.continuations.contains_key(run.continuation->0) ==> reply == Err::<
                (bool, StoreView),
                StoreErrorView,
            >(StoreErrorView::MissingContinuation)
            &&& !taken && store.sessions.contains_key(run.session_id) && run.continuation is Some
                && store.continuations.contains_key(run.continuation->0) && !continues ==> reply
                == Err::<(bool, StoreView), StoreErrorView>(StoreErrorView::InvalidContinuation)
        }),
{
    contexts_are_settled_one_by_one(store, run.context.records);
}

proof fn contexts_are_settled_one_by_one(store: StoreView, ids: Seq<Seq<char>>)
    ensures
        context_error(store.records, ids) is None <==> forall|i: int|
            0 <= i < ids.len() ==> store.records.contains_key(#[trigger] ids[i])
                && store.records[ids[i]].current.state != RecordState::Open,
        context_error(store.records, ids) matches Some(e) ==> e == StoreErrorView::MissingRecord
            || e == StoreErrorView::OpenContextRecord,
    decreases ids.len(),
{
    if ids.len() > 0 {
        let rest = ids.skip(1);
        contexts_are_settled_one_by_one(store, rest);
        assert forall|i: int| 1 <= i < ids.len() implies #[trigger] ids[i] == rest[i - 1] by {}
        assert forall|i: int| 0 <= i < rest.len() implies #[trigger] rest[i] == ids[i + 1] by {}
    }
}

/// A continuation names an adapter, a scope and a key, and not itself as its predecessor.
pub proof fn continuations_are_named_in_full(value: ContinuationView)
    ensures
        value.valid() <==> {
            &&& exists|k: int|
                0 <= k < value.adapter.len() && !white_space(#[trigger] value.adapter[k])
            &&& exists|k: int| 0 <= k < value.scope.len() && !white_space(#[trigger] value.scope[k])
            &&& exists|k: int|
                0 <= k < value.native_key.len() && !white_space(#[trigger] value.native_key[k])
            &&& value.predecessor != Some(value.id)
        },
{
}

/// A continuation follows the latest of its session at the agent: that must have been
/// claimed, for the same session and slot, and be named as the predecessor. The first one
/// follows none.
pub proof fn continuations_follow_the_latest(
    value: ContinuationView,
    latest: Option<ContinuationRecordView>,
)
    ensures
        latest is None ==> (may_succeed(value, latest) <==> value.predecessor is None),
        latest matches Some(previous) ==> (may_succeed(value, latest) <==> (value.predecessor
            == Some(previous.continuation.id) && previous.latest && previous.state
            == ContinuationState::Claimed && previous.continuation.session_id == value.session_id
            && previous.continuation.slot_id == value.slot_id)),
{
}

/// A continuation that is saved is available and the latest, and the one that it follows is
/// the latest no more. Nothing else changes. The same one again is recognised, and another
/// one under its id refused.
pub proof fn saved_continuations_are_the_latest(
    records: Continuations,
    value: ContinuationView,
    other: Seq<char>,
)
    ensures
        ({
            let reply = saved(records, value);
            let taken = records.contains_key(value.id);
            let latest = latest_of(records, value);
            &&& !value.valid() ==> reply == Err::<
                (ContinuationRecordView, Continuations),
                StoreErrorView,
            >(StoreErrorView::InvalidContinuation)
            &&& value.valid() && taken && records[value.id].continuation == value ==> reply == Ok::<
                (ContinuationRecordView, Continuations),
                StoreErrorView,
            >((records[value.id], records))
            &&& value.valid() && taken && records[value.id].continuation != value ==> reply
                == Err::<(ContinuationRecordView, Continuations), StoreErrorView>(
                StoreErrorView::IdentityConflict,
            )
            &&& value.valid() && !taken ==> (reply is Ok <==> may_succeed(value, latest))
            &&& value.valid() && !taken && !may_succeed(value, latest) ==> reply == Err::<
                (ContinuationRecordView, Continuations),
                StoreErrorView,
            >(StoreErrorView::ContinuationConflict)
            &&& !taken ==> (reply matches Ok((record, after)) ==> {
                &&& record.continuation == value
                &&& record.state == ContinuationState::Available
                &&& record.latest
                &&& after.contains_key(value.id) && after[value.id] == record
                &&& latest matches Some(previous) ==> previous.continuation.id != value.id
                    ==> !after[previous.continuation.id].latest
                    && after[previous.continuation.id].state == previous.state
                    && after[previous.continuation.id].continuation == previous.continuation
                &&& other != value.id && (latest is None || other != latest->0.continuation.id)
                    ==> (after.contains_key(other) <==> records.contains_key(other))
                    && after[other] == records[other]
            })
        }),
{
}

/// A continuation can be claimed exactly when it is available and the latest, and is then
/// claimed. Nothing else changes.
pub proof fn available_continuations_can_be_claimed(
    records: Continuations,
    id: Seq<char>,
    other: Seq<char>,
)
    ensures
        ({
            let reply = claimed(records, id);
            &&& reply is Ok <==> (records.contains_key(id) && records[id].state
                == ContinuationState::Available && records[id].latest)
            &&& reply matches Ok((record, after)) ==> {
                &&& record.continuation == records[id].continuation
                &&& record.state == ContinuationState::Claimed
                &&& record.latest
                &&& after[id] == record
                &&& other != id ==> (after.contains_key(other) <==> records.contains_key(other))
                    && after[other] == records[other]
            }
            &&& !records.contains_key(id) ==> reply == Err::<
                (ContinuationRecordView, Continuations),
                StoreErrorView,
            >(StoreErrorView::MissingContinuation)
            &&& records.contains_key(id) && reply is Err ==> reply == Err::<
                (ContinuationRecordView, Continuations),
                StoreErrorView,
            >(StoreErrorView::ContinuationClaimed)
        }),
{
}

/// A child is linked to its parent when both runs are known, the delegation holds, the
/// authority goes on above and below, every record of its context belongs to its session,
/// and it is not above its parent. The same link again is recognised.
pub proof fn fitting_links_are_kept(store: StoreView, edge: ExecutionRelationView)
    ensures
        ({
            let reply = store.linked(edge);
            let taken = store.relations.contains_key(edge.child);
            let child = store.runs[edge.child];
            let refused = |e: StoreErrorView|
                reply == Err::<(ExecutionRelationView, StoreView), StoreErrorView>(e);
            let known = store.runs.contains_key(edge.parent) && store.runs.contains_key(edge.child);
            let holds = edge.valid(store.runs[edge.parent], child) && (store.relations.contains_key(
                edge.parent,
            ) ==> store.relations[edge.parent].child_authority == edge.parent_authority) && forall|
                below: Seq<char>,
            | #[trigger]
                store.relations.contains_key(below) && store.relations[below].parent == edge.child
                    ==> store.relations[below].parent_authority == edge.child_authority;
            let own = forall|i: int|
                0 <= i < child.context.records.len() ==> store.records.contains_key(
                    #[trigger] child.context.records[i],
                ) && store.records[child.context.records[i]].current.record.session_id
                    == child.session_id;
            &&& taken && store.relations[edge.child] == edge ==> reply == Ok::<
                (ExecutionRelationView, StoreView),
                StoreErrorView,
            >((edge, store))
            &&& taken && store.relations[edge.child] != edge ==> refused(
                StoreErrorView::ExecutionRelationConflict,
            )
            &&& !taken && !known ==> refused(StoreErrorView::MissingRun)
            &&& !taken && known && !holds ==> refused(StoreErrorView::InvalidExecutionRelation)
            &&& !taken && known && holds && own && reaches(
                store.relations,
                edge.parent,
                edge.child,
            ) ==> refused(StoreErrorView::ExecutionCycle)
            &&& !taken && known && holds && !own ==> reply is Err
            &&& !taken && known && holds && own && !reaches(
                store.relations,
                edge.parent,
                edge.child,
            ) ==> (reply matches Ok((kept, after)) && kept == edge && after.relations
                == store.relations.insert(edge.child, edge) && after.runs == store.runs
                && after.records == store.records && after.sessions == store.sessions)
        }),
{
    contexts_belong_one_by_one(
        store,
        store.runs[edge.child].session_id,
        store.runs[edge.child].context.records,
    );
}

proof fn contexts_belong_one_by_one(store: StoreView, session: Seq<char>, ids: Seq<Seq<char>>)
    ensures
        session_error(store.records, session, ids) is None <==> forall|i: int|
            0 <= i < ids.len() ==> store.records.contains_key(#[trigger] ids[i])
                && store.records[ids[i]].current.record.session_id == session,
    decreases ids.len(),
{
    if ids.len() > 0 {
        let rest = ids.skip(1);
        contexts_belong_one_by_one(store, session, rest);
        assert forall|i: int| 1 <= i < ids.len() implies #[trigger] ids[i] == rest[i - 1] by {}
        assert forall|i: int| 0 <= i < rest.len() implies #[trigger] rest[i] == ids[i + 1] by {}
    }
}

/// A page holds the records of its session as they are now, in the order in which they were
/// inserted, from the one after the cursor on. Pages of no records and of more than a
/// thousand cannot be had.
pub proof fn pages_hold_the_records_as_they_are(
    store: StoreView,
    session: Seq<char>,
    after: Option<u64>,
    limit: usize,
)
    ensures
        ({
            let page = store.page(session, after, limit);
            let ids = store.sessions[session];
            let start = match after {
                None => 0,
                Some(cursor) => cursor + 1,
            };
            &&& page is Ok <==> (1 <= limit <= 1000 && store.sessions.contains_key(session))
            &&& limit < 1 || limit > 1000 ==> page == Err::<Seq<SnapshotView>, StoreErrorView>(
                StoreErrorView::InvalidPageSize,
            )
            &&& 1 <= limit <= 1000 && !store.sessions.contains_key(session) ==> page == Err::<
                Seq<SnapshotView>,
                StoreErrorView,
            >(StoreErrorView::MissingSession)
            &&& page matches Ok(records) ==> {
                &&& records.len() <= limit
                &&& start >= ids.len() ==> records.len() == 0
                &&& start < ids.len() ==> records.len() == if ids.len() - start < limit {
                    ids.len() - start
                } else {
                    limit as int
                }
                &&& forall|i: int|
                    0 <= i < records.len() ==> #[trigger] records[i]
                        == store.records[ids[start + i]].current
            }
        }),
{
}

/// What was read of a run so far is kept, and each record adds what it says: the end that
/// was recorded, a failure, a contract, a validation, and that a record is open. Evidence of
/// the dispatch that is not understood is a reason to stop.
pub proof fn records_add_to_the_evidence(
    evidence: EvidenceView,
    payload: PayloadView,
    state: RecordState,
)
    ensures
        ({
            let reply = evidence.read(RunRowView { payload: Ok(payload), state: name_of(state) });
            let after = reply->Ok_0;
            let own = payload is Extension && payload->Extension_namespace == "agent_bridge"@;
            let name = payload->Extension_name;
            &&& !(own && name == "run_dispatch"@) ==> reply is Ok
            &&& reply is Ok ==> {
                &&& after.open <==> (evidence.open || state == RecordState::Open)
                &&& after.failure <==> (evidence.failure || payload is Failure)
                &&& payload matches PayloadView::RunFinished { reason } ==> after.completion == Some(
                    reason,
                )
                &&& !(payload is RunFinished) ==> after.completion == evidence.completion
                &&& after.contract <==> (evidence.contract || (own && name == "result_contract"@))
                &&& evidence.validation ==> after.validation
                &&& after.validation && !evidence.validation ==> own && name
                    == "result_validation"@
                &&& !(own && name == "run_dispatch"@) ==> after.dispatch == evidence.dispatch
            }
        }),
{
    reveal_strlit("open");
    reveal_strlit("complete");
    reveal_strlit("interrupted");
    reveal_strlit("run_dispatch");
    reveal_strlit("result_contract");
    reveal_strlit("result_validation");
    assert("open"@.len() == 4 && "complete"@.len() == 8 && "interrupted"@.len() == 11);
    assert("run_dispatch"@.len() == 12 && "result_contract"@.len() == 15
        && "result_validation"@.len() == 17);
}

/// A row that cannot be read is a reason to stop: one whose payload could not be decoded for
/// that reason, one in a state that is not known as corrupt.
pub proof fn unreadable_rows_end_the_reading(evidence: EvidenceView, row: RunRowView)
    ensures
        row.payload matches Err(e) ==> evidence.read(row) == Err::<EvidenceView, StoreErrorView>(e),
        row.payload is Ok && row.state != "open"@ && row.state != "complete"@ && row.state
            != "interrupted"@ ==> evidence.read(row) == Err::<EvidenceView, StoreErrorView>(
            StoreErrorView::CorruptData("invalid record state"@),
        ),
{
}

/// The evidence on a run is gathered from all of its records: it failed if any of them is a
/// failure, is open if any of them is, and came to the end that the last of them tells.
pub proof fn evidence_is_gathered_from_all_records(evidence: EvidenceView, rows: Seq<RunRowView>)
    ensures
        evidence.read_all(rows) matches Ok(after) ==> {
            &&& after.failure <==> (evidence.failure || exists|i: int|
                0 <= i < rows.len() && (#[trigger] rows[i]).payload->Ok_0 is Failure)
            &&& after.open <==> (evidence.open || exists|i: int|
                0 <= i < rows.len() && (#[trigger] rows[i]).state == "open"@)
            &&& forall|i: int| 0 <= i < rows.len() ==> (#[trigger] rows[i]).payload is Ok
            &&& (forall|i: int|
                0 <= i < rows.len() ==> !((#[trigger] rows[i]).payload->Ok_0 is RunFinished))
                ==> after.completion == evidence.completion
            &&& rows.len() > 0 ==> (rows.last().payload->Ok_0 matches PayloadView::RunFinished {
                reason,
            } ==> after.completion == Some(reason))
        },
    decreases rows.len(),
{
    if rows.len() > 0 {
        let rest = rows.skip(1);
        assert forall|i: int| 1 <= i < rows.len() implies #[trigger] rows[i] == rest[i - 1] by {}
        assert forall|i: int| 0 <= i < rest.len() implies #[trigger] rest[i] == rows[i + 1] by {}
        if let Ok(next) = evidence.read(rows[0]) {
            evidence_is_gathered_from_all_records(next, rest);
            let payload = rows[0].payload->Ok_0;
            if let Some(state) = state_of(rows[0].state) {
                states_have_one_name(state, rows[0].state);
                records_add_to_the_evidence(evidence, payload, state);
                assert(rows[0] == (RunRowView { payload: Ok(payload), state: name_of(state) }));
            }
            if rest.len() > 0 {
                assert(rest.last() == rows.last());
            }
            if let Ok(after) = evidence.read_all(rows) {
                if exists|i: int| 0 <= i < rest.len() && (#[trigger] rest[i]).payload->Ok_0 is Failure {
                    let i = choose|i: int|
                        0 <= i < rest.len() && (#[trigger] rest[i]).payload->Ok_0 is Failure;
                    assert(rows[i + 1].payload->Ok_0 is Failure);
                }
                if exists|i: int| 0 <= i < rest.len() && (#[trigger] rest[i]).state == "open"@ {
                    let i = choose|i: int|
                        0 <= i < rest.len() && (#[trigger] rest[i]).state == "open"@;
                    assert(rows[i + 1].state == "open"@);
                }
            }
            reveal_strlit("open");
            reveal_strlit("complete");
            reveal_strlit("interrupted");
            assert("open"@.len() == 4 && "complete"@.len() == 8 && "interrupted"@.len() == 11);
        }
    }
}

/// A validation counts whether it found the result valid or rejected it, in the first
/// version and in no other.
pub proof fn validations_count_either_way(
    evidence: EvidenceView,
    members: Map<Seq<char>, JsonView>,
    validation: Map<Seq<char>, JsonView>,
)
    requires
        members.contains_key("version"@),
        members.contains_key("validation"@),
        members["validation"@] == JsonView::Object(validation),
        validation.contains_key("status"@),
        !evidence.validation,
    ensures
        evidence.told(
            PayloadView::Extension {
                namespace: "agent_bridge"@,
                name: "result_validation"@,
                data: JsonView::Object(members),
            },
        ) matches Ok(after) && (after.validation <==> (members["version"@] == JsonView::Number(
            JsonNumber::PosInt(1),
        ) && (validation["status"@] == JsonView::Text("valid"@) || validation["status"@]
            == JsonView::Text("rejected"@)))),
{
    reveal_strlit("run_dispatch");
    reveal_strlit("result_contract");
    reveal_strlit("result_validation");
    assert("run_dispatch"@.len() == 12 && "result_contract"@.len() == 15
        && "result_validation"@.len() == 17);
}

/// The dispatch of a run that was prepared was not tried unless it was, and one that was
/// tried stays so. Before any of this there is no evidence.
pub proof fn dispatches_are_told_by_their_stage(
    evidence: EvidenceView,
    members: Map<Seq<char>, JsonView>,
)
    requires
        members.contains_key("version"@),
        members.contains_key("state"@),
    ensures
        ({
            let reply = evidence.told(
                PayloadView::Extension {
                    namespace: "agent_bridge"@,
                    name: "run_dispatch"@,
                    data: JsonView::Object(members),
                },
            );
            let first = members["version"@] == JsonView::Number(JsonNumber::PosInt(1));
            let prepared = first && members["state"@] == JsonView::Text("prepared"@);
            let attempted = first && members["state"@] == JsonView::Text("dispatch_attempted"@);
            &&& reply is Ok <==> (prepared || attempted)
            &&& attempted ==> reply->Ok_0.dispatch == "attempted"@
            &&& prepared && evidence.dispatch == "missing_evidence"@ ==> reply->Ok_0.dispatch
                == "not_dispatched"@
            &&& prepared && evidence.dispatch != "missing_evidence"@ ==> reply->Ok_0.dispatch
                == evidence.dispatch
        }),
        EvidenceView::nothing().dispatch == "missing_evidence"@,
        EvidenceView::nothing().completion is None,
        !EvidenceView::nothing().open,
        !EvidenceView::nothing().failure,
        !EvidenceView::nothing().contract,
        !EvidenceView::nothing().validation,
{
    reveal_strlit("prepared");
    reveal_strlit("dispatch_attempted");
    assert("prepared"@.len() == 8 && "dispatch_attempted"@.len() == 18);
}

/// What remains to be looked into of a run: that its end is not known, that records are
/// open, that a failure was recorded, and that a result was promised and not validated,
/// each exactly when it is so.
pub proof fn issues_are_what_the_evidence_lacks(evidence: EvidenceView)
    ensures
        evidence.issues().contains("completion_unknown"@) <==> evidence.completion is None,
        evidence.issues().contains("open_records"@) <==> evidence.open,
        evidence.issues().contains("recorded_failure"@) <==> evidence.failure,
        evidence.issues().contains("validation_missing"@) <==> (evidence.contract
            && !evidence.validation),
        evidence.issues().len() == (if evidence.completion is None {
            1int
        } else {
            0
        }) + (if evidence.open {
            1int
        } else {
            0
        }) + (if evidence.failure {
            1int
        } else {
            0
        }) + (if evidence.contract && !evidence.validation {
            1int
        } else {
            0
        }),
{
    reveal_strlit("completion_unknown");
    reveal_strlit("open_records");
    reveal_strlit("recorded_failure");
    reveal_strlit("validation_missing");
    assert("completion_unknown"@.len() == 18 && "open_records"@.len() == 12
        && "recorded_failure"@.len() == 16 && "validation_missing"@.len() == 18);
    assert("completion_unknown"@[0] != "validation_missing"@[0]);
    let issues = evidence.issues();
    let a: int = if evidence.completion is None {
        1
    } else {
        0
    };
    let b: int = if evidence.open {
        1
    } else {
        0
    };
    let c: int = if evidence.failure {
        1
    } else {
        0
    };
    if evidence.completion is None {
        assert(issues[0] == "completion_unknown"@);
    }
    if evidence.open {
        assert(issues[a] == "open_records"@);
    }
    if evidence.failure {
        assert(issues[a + b] == "recorded_failure"@);
    }
    if evidence.contract && !evidence.validation {
        assert(issues[a + b + c] == "validation_missing"@);
    }
    assert(forall|i: int|
        0 <= i < a ==> issues[i] == "completion_unknown"@);
    assert(forall|i: int| a <= i < a + b ==> issues[i] == "open_records"@);
    assert(forall|i: int| a + b <= i < a + b + c ==> issues[i] == "recorded_failure"@);
    assert(forall|i: int|
        a + b + c <= i < issues.len() ==> issues[i] == "validation_missing"@);
}

/// What is left of an interaction is told by its kind: a request without its decision, a
/// decision that nobody acknowledged, a call that is not complete, and a call of an
/// application's tool that was handed over and of which no outcome is recorded.
pub proof fn open_interactions_are_told_by_kind(
    record: SnapshotView,
    decided: bool,
    returned: bool,
)
    ensures
        ({
            let kind = unsettled_kind(record, decided, returned);
            let payload = record.record.payload;
            &&& payload is Permission ==> kind == if decided {
                None
            } else {
                Some("permission_without_decision"@)
            }
            &&& payload is Question ==> kind == if decided {
                None
            } else {
                Some("question_without_answer"@)
            }
            &&& payload is Decision ==> kind == Some("permission_delivery_unacknowledged"@)
            &&& payload is Tool ==> kind == if record.state == RecordState::Complete {
                None
            } else {
                Some("provider_tool_incomplete"@)
            }
            &&& payload is Message || payload is Answer || payload is Failure
                || payload is RunFinished ==> kind is None
            &&& payload is Extension ==> (kind is Some <==> (payload->Extension_namespace
                == "agent_bridge"@ && payload->Extension_name == "tool_invocation"@ && !returned && (
            payload->Extension_data matches JsonView::Object(members) && members.contains_key(
                "state"@,
            ) && members["state"@] == JsonView::Text("dispatch_attempted"@))))
            &&& payload is Extension ==> (kind matches Some(told) ==> told
                == "application_tool_outcome_unknown"@)
        }),
{
}

/// Each state of a record has a name in the database, and no other name means a state.
pub proof fn states_have_one_name(state: RecordState, name: Seq<char>)
    ensures
        state == RecordState::Open ==> name_of(state) == "open"@,
        state == RecordState::Complete ==> name_of(state) == "complete"@,
        state == RecordState::Interrupted ==> name_of(state) == "interrupted"@,
        state_of(name) == Some(state) <==> name == name_of(state),
        name != "open"@ && name != "complete"@ && name != "interrupted"@ ==> state_of(name) is None,
{
    reveal_strlit("open");
    reveal_strlit("complete");
    reveal_strlit("interrupted");
    assert("open"@.len() == 4 && "complete"@.len() == 8 && "interrupted"@.len() == 11);
}

/// A database is brought up to date from the version that it says, from nothing if it is
/// empty, and not at all if it says none and is not empty, or one that is not known.
pub proof fn databases_are_taken_in_known_versions(found: SchemaFound, known: nat)
    ensures
        found matches SchemaFound::Versioned(Some(version)) ==> {
            &&& 1 <= version <= known ==> migrations_done(found, known) == Ok::<
                nat,
                StoreErrorView,
            >(version as nat)
            &&& version <= 0 || version > known ==> migrations_done(found, known) == Err::<
                nat,
                StoreErrorView,
            >(StoreErrorView::UnsupportedSchemaVersion(version))
        },
        found matches SchemaFound::Versioned(None) ==> migrations_done(found, known) == Err::<
            nat,
            StoreErrorView,
        >(StoreErrorView::CorruptData("schema version row is missing"@)),
        found matches SchemaFound::Unversioned { occupied } ==> if occupied {
            migrations_done(found, known) == Err::<nat, StoreErrorView>(
                StoreErrorView::UnversionedSchema,
            )
        } else {
            migrations_done(found, known) == Ok::<nat, StoreErrorView>(0)
        },
{
}

/// A snapshot is taken at the cursor that is given, or at the head if none is. A cursor of
/// another database or session, or beyond the head, is refused.
pub proof fn snapshots_are_taken_at_their_cursor(
    cursor: Option<ChangeCursorView>,
    head: ChangeCursorView,
    after: Option<u64>,
)
    ensures
        ({
            let reply = snapshot_from(cursor, head, after);
            let reached = cursor matches Some(from) ==> from.epoch == head.epoch && from.session_id
                == head.session_id && from.position <= head.position;
            let small = after matches Some(n) ==> n <= 9223372036854775807;
            &&& reply is Ok <==> (reached && small)
            &&& reply matches Ok((at, from)) ==> {
                &&& cursor matches Some(given) ==> at == given
                &&& cursor is None ==> at == head
                &&& after matches Some(n) ==> from == n
                &&& after is None ==> from == -1
            }
            &&& reply matches Err(e) ==> e == StoreErrorView::InvalidChangeCursor
        }),
{
}

/// Changes are given in the order in which they are kept. A full page is known up to its
/// last change, any other up to the head.
pub proof fn changes_are_given_in_order(
    rows: Seq<ChangeView>,
    head: ChangeCursorView,
    limit: nat,
)
    requires
        limit > 0,
        rows.len() <= limit,
        forall|i: int| 0 <= i < rows.len() ==> (#[trigger] rows[i]).position >= 0,
    ensures
        changes_read(rows, head, limit) matches Ok(page) && {
            &&& page.records.len() == rows.len()
            &&& forall|i: int|
                0 <= i < rows.len() ==> #[trigger] page.records[i] == rows[i].record
            &&& page.page_full <==> rows.len() == limit
            &&& page.cursor.epoch == head.epoch
            &&& page.cursor.session_id == head.session_id
            &&& rows.len() == limit ==> page.cursor.position == rows.last().position
            &&& rows.len() < limit ==> page.cursor.position == head.position
            &&& page.next_after is None
        },
{
}

/// Reading goes on after the last record of a page.
pub proof fn pages_go_on_after_their_last(records: Seq<SnapshotView>)
    ensures
        records.len() == 0 ==> next_after(records) is None,
        records.len() > 0 ==> next_after(records) == Some(records.last().record.sequence),
{
}

/// Errors that tell of the store and not of what was asked of it.
pub proof fn failures_of_the_store_are_told_apart(e: StoreErrorView)
    ensures
        environmental(e) <==> (e == StoreErrorView::Poisoned || e == StoreErrorView::Busy
            || e is Database || e is CorruptData || e is UnsupportedSchemaVersion
            || e is UnsupportedDataVersion || e == StoreErrorView::UnversionedSchema || e
            == StoreErrorView::StorageOverloaded || e == StoreErrorView::StorageUnavailable || e
            == StoreErrorView::StorageTimedOut),
{
}

/// A store that can be depended on does what is asked of it or refuses it as expected. Any
/// other may fail besides, but only with an error of its own and without a change, and what
/// it says it did it did.
pub proof fn stores_do_what_they_say<T>(
    reply: Result<T, StoreErrorView>,
    expected: Result<(T, StoreView), StoreErrorView>,
    before: StoreView,
    after: StoreView,
    dependable: bool,
)
    requires
        attempted(reply, expected, before, after, dependable),
    ensures
        reply matches Ok(value) ==> expected == Ok::<(T, StoreView), StoreErrorView>((value, after)),
        reply matches Err(e) ==> after == before && (expected == Err::<
            (T, StoreView),
            StoreErrorView,
        >(e) || (!dependable && environmental(e))),
        dependable ==> (reply is Ok <==> expected is Ok),
{
}

/// What a store that can be depended on answers is what it holds. Any other may also fail
/// with an error of its own.
pub proof fn answers_are_what_is_held<T>(
    reply: Result<T, StoreErrorView>,
    expected: Result<T, StoreErrorView>,
    dependable: bool,
)
    requires
        answered(reply, expected, dependable),
    ensures
        reply is Ok ==> reply == expected,
        dependable ==> reply == expected,
        reply matches Err(e) ==> reply == expected || (!dependable && environmental(e)),
{
}

/// The children of a run are listed by their ids, each once and all of them.
pub proof fn children_are_listed_once(
    relations: Relations,
    parent: Seq<char>,
    edges: Seq<ExecutionRelationView>,
    child: Seq<char>,
)
    requires
        lists_children(relations, parent, edges),
    ensures
        relations.contains_key(child) && relations[child].parent == parent ==> exists|i: int|
            0 <= i < edges.len() && #[trigger] edges[i] == relations[child],
        forall|i: int|
            0 <= i < edges.len() ==> (#[trigger] edges[i]).parent == parent
                && relations.contains_key(edges[i].child) && relations[edges[i].child] == edges[i],
        forall|i: int, j: int|
            0 <= i < j < edges.len() ==> (#[trigger] edges[i]).child != (
            #[trigger] edges[j]).child,
        forall|i: int, j: int|
            0 <= i < j < edges.len() ==> text_before(
                (#[trigger] edges[i]).child,
                (#[trigger] edges[j]).child,
            ),
{
    assert forall|i: int, j: int| 0 <= i < j < edges.len() implies (#[trigger] edges[i]).child != (
    #[trigger] edges[j]).child by {
        text_before_irreflexive(edges[i].child);
    }
    if relations.contains_key(child) && relations[child].parent == parent {
        assert(edges.contains(relations[child]));
    }
}

/// A row of the database is a record when its names are names, its numbers are not negative
/// and its state is known: it then holds what the row says. A record that was changed also
/// tells how it was created.
pub proof fn rows_hold_what_they_say(row: RowDataView)
    ensures
        row_meaning(row) matches Ok(entry) ==> {
            let record = entry.current.record;
            &&& record.id == row.id && !blank(row.id)
            &&& record.session_id == row.session && !blank(row.session)
            &&& record.run_id == row.run
            &&& record.actor == row.actor && !blank(row.actor)
            &&& record.reply_to_id == row.reply
            &&& record.sequence == row.sequence
            &&& entry.current.revision == row.revision
            &&& row.payload == Ok::<PayloadView, StoreErrorView>(record.payload)
            &&& row.state == name_of(entry.current.state)
            &&& row.source is None ==> entry.current.source is None
            &&& row.source matches Some(Ok(source)) ==> entry.current.source == Some(source)
            &&& entry.initial.revision == 0
            &&& entry.initial.record.id == row.id
            &&& row.initial is None ==> row.revision == 0 && entry.initial == entry.current
            &&& row.initial matches Some(Ok(content)) ==> entry.initial.record.payload
                == content.payload && entry.initial.state == content.state
        },
        row.sequence < 0 ==> row_meaning(row) is Err,
        row.revision < 0 ==> row_meaning(row) is Err,
        blank(row.id) ==> row_meaning(row) == Err::<EntryView, StoreErrorView>(
            StoreErrorView::CorruptData("an identifier cannot be empty or whitespace-only"@),
        ),
        row.initial is None && row.revision > 0 ==> row_meaning(row) is Err,
{
    if let Some(state) = state_of(row.state) {
        states_have_one_name(state, row.state);
    }
}

/// A row of a continuation is read when it is valid, is the one that was looked for and is
/// in a state that is known: available or claimed, each as itself.
pub proof fn continuation_rows_are_read_as_kept(
    row: crate::records::sqlite::continuation::ContinuationRow,
    id: Seq<char>,
)
    ensures
        crate::records::sqlite::continuation::continuation_meaning(row, id) matches Ok(record) ==> {
            &&& outcome(row.value) == Ok::<ContinuationView, StoreErrorView>(record.continuation)
            &&& record.continuation.id == id
            &&& record.continuation.session_id == row.session@
            &&& record.continuation.adapter == row.adapter@
            &&& record.continuation.scope == row.scope@
            &&& record.continuation.native_key == row.key@
            &&& record.latest == row.latest
            &&& record.state == ContinuationState::Available <==> row.state@ == "available"@
            &&& record.state == ContinuationState::Claimed <==> row.state@ == "claimed"@
        },
        row.state@ != "available"@ && row.state@ != "claimed"@
            ==> crate::records::sqlite::continuation::continuation_meaning(row, id) is Err,
{
    reveal_strlit("available");
    reveal_strlit("claimed");
    assert("available"@.len() == 9 && "claimed"@.len() == 7);
}

/// A link that is read back is the one that was looked for, between runs that are known, and
/// one that may be.
pub proof fn link_rows_are_read_as_kept(
    child: Seq<char>,
    parent_column: Seq<char>,
    document: Result<ExecutionRelationView, StoreErrorView>,
    parent: Option<Assignment>,
    run: Option<Assignment>,
)
    ensures
        relation_meaning(child, parent_column, document, parent, run) is Ok <==> (
        document matches Ok(edge) && edge.child == child && edge.parent == parent_column
            && parent is Some && run is Some && edge.valid(parent->0, run->0)),
        relation_meaning(child, parent_column, document, parent, run) matches Ok(edge) ==> document
            == Ok::<ExecutionRelationView, StoreErrorView>(edge),
        document matches Err(e) ==> relation_meaning(child, parent_column, document, parent, run)
            == Err::<ExecutionRelationView, StoreErrorView>(e),
{
}

/// A resource is read back as it was put, and only if its bytes still have the digest that
/// was kept with them.
pub proof fn resource_rows_are_checked_by_digest(
    reference: ResourceRefView,
    row: ResourceRow,
    digest: Seq<char>,
)
    ensures
        resource_meaning(reference, None, digest) == Err::<ResourceView, ResourceErrorView>(
            ResourceErrorView::Missing,
        ),
        resource_meaning(reference, Some(row), digest) is Ok <==> (row.bytes is Some && row.hash@
            == digest),
        resource_meaning(reference, Some(row), digest) matches Ok(resource) ==> resource.reference
            == reference && resource.media_type == row.media_type@ && resource.bytes
            == row.bytes->0@,
        row.bytes matches Some(bytes) ==> row_digest(Some(row)) == hex_of(sha256_of(bytes@)),
{
}

/// A digest is written with two hexadecimal digits for each byte, the higher first.
pub proof fn digests_are_written_byte_by_byte(bytes: Seq<u8>, byte: u8)
    ensures
        hex_of(Seq::empty()) == Seq::<char>::empty(),
        hex_of(bytes.push(byte)) == hex_of(bytes).push(hex_digit(byte as nat / 16)).push(
            hex_digit(byte as nat % 16),
        ),
        byte < 10 ==> hex_digit(byte as nat) as nat == '0' as nat + byte,
        10 <= byte < 16 ==> hex_digit(byte as nat) as nat == 'a' as nat + byte - 10,
{
    assert(bytes.push(byte).drop_last() =~= bytes);
}

/// Names of invocations are compared as a query compares values: texts by what they say,
/// whole numbers by their value, true as one and false as zero, and a text is never a
/// number. Nothing equals a null, not even another.
pub proof fn values_are_compared_as_by_a_query(
    a: i64,
    b: i64,
    said: Seq<char>,
    other: Seq<char>,
    value: JsonView,
    text: Seq<char>,
)
    requires
        a >= 0,
        b >= 0,
    ensures
        query_equal(
            query_value(JsonView::Text(said), text),
            query_value(JsonView::Text(other), text),
        ) <==> said == other,
        query_equal(
            query_value(JsonView::Number(JsonNumber::PosInt(a as u64)), text),
            query_value(JsonView::Number(JsonNumber::PosInt(b as u64)), text),
        ) <==> a == b,
        query_equal(
            query_value(JsonView::Bool(true), text),
            query_value(JsonView::Number(JsonNumber::PosInt(b as u64)), text),
        ) <==> b == 1,
        query_equal(
            query_value(JsonView::Bool(false), text),
            query_value(JsonView::Number(JsonNumber::PosInt(b as u64)), text),
        ) <==> b == 0,
        !query_equal(query_value(JsonView::Text(said), text), query_value(JsonView::Bool(true), text)),
        !query_equal(
            query_value(JsonView::Text(said), text),
            query_value(JsonView::Number(JsonNumber::PosInt(b as u64)), text),
        ),
        !query_equal(query_value(JsonView::Null, text), query_value(value, text)),
        value is Array || value is Object ==> query_value(value, text) == query_value(
            JsonView::Text(text),
            said,
        ),
        query_one(JsonView::Number(JsonNumber::PosInt(b as u64))) <==> b == 1,
        !query_one(JsonView::Text(said)),
        !query_one(JsonView::Null),
{
    let unit = vstd::arithmetic::power2::pow2(1074) as int;
    vstd::arithmetic::power2::lemma_pow2_pos(1074);
    assert(a * unit == b * unit <==> a == b) by (nonlinear_arith)
        requires
            unit > 0,
    ;
    assert(unit == b * unit <==> b == 1) by (nonlinear_arith)
        requires
            unit > 0,
    ;
    assert(0 == b * unit <==> b == 0) by (nonlinear_arith)
        requires
            unit > 0,
    ;
}

/// The outcome of an invocation is reported by a record of the same session, which says in
/// its first version that the invocation of that name returned.
pub proof fn outcomes_are_reported_in_the_session(
    report: SnapshotView,
    reported: Seq<char>,
    record: SnapshotView,
    wanted: Seq<char>,
    told: Map<Seq<char>, JsonView>,
    asked: Map<Seq<char>, JsonView>,
    call: Seq<char>,
)
    requires
        report.record.payload == (PayloadView::Extension {
            namespace: "agent_bridge"@,
            name: "tool_invocation"@,
            data: JsonView::Object(told),
        }),
        record.record.payload matches PayloadView::Extension { data, .. } && data
            == JsonView::Object(asked),
        asked.contains_key("invocation_id"@),
        asked["invocation_id"@] == JsonView::Text(call),
        told.contains_key("version"@),
        told["version"@] == JsonView::Number(JsonNumber::PosInt(1)),
        told.contains_key("invocation_id"@),
        told["invocation_id"@] is Text,
        told.contains_key("state"@),
    ensures
        reports_outcome(report, reported, record, wanted) <==> (report.record.session_id
            == record.record.session_id && told["state"@] == JsonView::Text("returned"@)
            && told["invocation_id"@] == JsonView::Text(call)),
{
    values_are_compared_as_by_a_query(
        1,
        1,
        told["invocation_id"@]->Text_0,
        call,
        JsonView::Null,
        reported,
    );
}

/// The latest continuation of a session at an agent is one of the same adapter, scope and
/// key that nothing followed, and there is none only if every one of them was followed.
pub proof fn latest_continuations_are_of_the_same_session(
    records: Continuations,
    value: ContinuationView,
    id: Seq<char>,
)
    ensures
        latest_of(records, value) matches Some(record) ==> record.latest
            && record.continuation.adapter == value.adapter && record.continuation.scope
            == value.scope && record.continuation.native_key == value.native_key && exists|
            own: Seq<char>,
        | #[trigger]
            records.contains_key(own) && records[own] == record,
        records.contains_key(id) && records[id].latest && records[id].continuation.adapter
            == value.adapter && records[id].continuation.scope == value.scope
            && records[id].continuation.native_key == value.native_key ==> latest_of(
            records,
            value,
        ) is Some,
{
    if exists|own: Seq<char>| is_latest(records, value, own) {
        let own = choose|own: Seq<char>| is_latest(records, value, own);
        assert(is_latest(records, value, own));
    }
    if records.contains_key(id) && records[id].latest && records[id].continuation.adapter
        == value.adapter && records[id].continuation.scope == value.scope
        && records[id].continuation.native_key == value.native_key {
        assert(is_latest(records, value, id));
    }
}

/// A run reaches itself, and whatever its parent reaches, and nothing else.
pub proof fn runs_reach_what_is_above_them(
    relations: Relations,
    run: Seq<char>,
    target: Seq<char>,
)
    ensures
        reaches(relations, run, run),
        relations.contains_key(run) && reaches(relations, relations[run].parent, target)
            ==> reaches(relations, run, target),
        !relations.contains_key(run) && run != target ==> !reaches(relations, run, target),
        relations.contains_key(run) && run != target && reaches(relations, run, target) ==> reaches(
            relations,
            relations[run].parent,
            target,
        ),
{
    assert(ancestor(relations, run, 0) == Some(run));
    if relations.contains_key(run) && reaches(relations, relations[run].parent, target) {
        let n = choose|n: nat| #[trigger]
            ancestor(relations, relations[run].parent, n) == Some(target);
        ancestors_begin_with_the_parent(relations, run, n);
        assert(ancestor(relations, run, n + 1) == Some(target));
    }
    if reaches(relations, run, target) && run != target {
        let n = choose|n: nat| #[trigger] ancestor(relations, run, n) == Some(target);
        if relations.contains_key(run) {
            ancestors_begin_with_the_parent(relations, run, (n - 1) as nat);
            assert(ancestor(relations, relations[run].parent, (n - 1) as nat) == Some(target));
        } else {
            roots_have_no_ancestors(relations, run, n);
        }
    }
}

proof fn ancestors_begin_with_the_parent(relations: Relations, run: Seq<char>, n: nat)
    requires
        relations.contains_key(run),
    ensures
        ancestor(relations, run, n + 1) == ancestor(relations, relations[run].parent, n),
    decreases n,
{
    reveal_with_fuel(ancestor, 2);
    if n > 0 {
        ancestors_begin_with_the_parent(relations, run, (n - 1) as nat);
    }
}

proof fn roots_have_no_ancestors(relations: Relations, run: Seq<char>, n: nat)
    requires
        !relations.contains_key(run),
        n > 0,
    ensures
        ancestor(relations, run, n) is None,
    decreases n,
{
    reveal_with_fuel(ancestor, 2);
    if n > 1 {
        roots_have_no_ancestors(relations, run, (n - 1) as nat);
    }
}

} // verus!
