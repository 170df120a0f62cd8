//! Read-only restart inventory. Evidence is not proof that another process stopped.

use crate::datum::{outcome, Datum};
use crate::id::{RecordId, RunId, SessionId, SlotId};
use crate::json::{at, find_at, json_views, Json, JsonNumber, JsonView};
use crate::records::sqlite::values::{
    are_query_equal, is_query_one, query_equal, query_one, query_value,
};
use crate::records::sqlite::{corrupt, make_corrupt, parse_state, state_of};
use crate::records::{
    CompletionReason, CompletionReasonView, Payload, PayloadView, RecordState, Snapshot,
    SnapshotView, SourceRef, SourceRefView, StoreError, StoreErrorView,
};
use crate::text::same_text;
use vstd::prelude::*;

verus! {

/// What is left of a run after a restart.
#[derive(Debug, PartialEq, Eq)]
pub struct RunRecovery {
    pub id: RunId,
    pub session_id: SessionId,
    pub slot_id: SlotId,
    /// Whether anything was sent. Missing evidence also covers runs recorded by older
    /// versions.
    pub dispatch: String,
    pub completion: Option<CompletionReason>,
    pub issues: Vec<String>,
}

/// What a `RunRecovery` holds.
#[verifier::ext_equal]
pub struct RunRecoveryView {
    pub id: Seq<char>,
    pub session_id: Seq<char>,
    pub slot_id: Seq<char>,
    pub dispatch: Seq<char>,
    pub completion: Option<CompletionReasonView>,
    pub issues: Seq<Seq<char>>,
}

impl DeepView for RunRecovery {
    type V = RunRecoveryView;

    open spec fn deep_view(&self) -> RunRecoveryView {
        RunRecoveryView {
            id: self.id.deep_view(),
            session_id: self.session_id.deep_view(),
            slot_id: self.slot_id.deep_view(),
            dispatch: self.dispatch.deep_view(),
            completion: self.completion.deep_view(),
            issues: self.issues.deep_view(),
        }
    }
}

impl Datum for RunRecovery {
    fn duplicate(&self) -> (r: RunRecovery) {
        RunRecovery {
            id: self.id.duplicate(),
            session_id: self.session_id.duplicate(),
            slot_id: self.slot_id.duplicate(),
            dispatch: self.dispatch.duplicate(),
            completion: self.completion.duplicate(),
            issues: self.issues.duplicate(),
        }
    }

    fn same_as(&self, other: &RunRecovery) -> (r: bool) {
        self.id.same_as(&other.id)
            && self.session_id.same_as(&other.session_id)
            && self.slot_id.same_as(&other.slot_id)
            && self.dispatch.same_as(&other.dispatch)
            && self.completion.same_as(&other.completion)
            && self.issues.same_as(&other.issues)
    }
}

/// An interaction that a restart left without its outcome.
#[derive(Debug, PartialEq, Eq)]
pub struct InteractionRecovery {
    pub id: RecordId,
    pub session_id: SessionId,
    pub run_id: Option<RunId>,
    pub kind: String,
    pub state: RecordState,
    pub source: Option<SourceRef>,
}

/// What a `InteractionRecovery` holds.
#[verifier::ext_equal]
pub struct InteractionRecoveryView {
    pub id: Seq<char>,
    pub session_id: Seq<char>,
    pub run_id: Option<Seq<char>>,
    pub kind: Seq<char>,
    pub state: RecordState,
    pub source: Option<SourceRefView>,
}

impl DeepView for InteractionRecovery {
    type V = InteractionRecoveryView;

    open spec fn deep_view(&self) -> InteractionRecoveryView {
        InteractionRecoveryView {
            id: self.id.deep_view(),
            session_id: self.session_id.deep_view(),
            run_id: self.run_id.deep_view(),
            kind: self.kind.deep_view(),
            state: self.state.deep_view(),
            source: self.source.deep_view(),
        }
    }
}

impl Datum for InteractionRecovery {
    fn duplicate(&self) -> (r: InteractionRecovery) {
        InteractionRecovery {
            id: self.id.duplicate(),
            session_id: self.session_id.duplicate(),
            run_id: self.run_id.duplicate(),
            kind: self.kind.duplicate(),
            state: self.state.duplicate(),
            source: self.source.duplicate(),
        }
    }

    fn same_as(&self, other: &InteractionRecovery) -> (r: bool) {
        self.id.same_as(&other.id)
            && self.session_id.same_as(&other.session_id)
            && self.run_id.same_as(&other.run_id)
            && self.kind.same_as(&other.kind)
            && self.state.same_as(&other.state)
            && self.source.same_as(&other.source)
    }
}


/// The size of a page of the inventory.
pub fn limit(value: usize) -> (r: Result<i64, StoreError>)
    ensures
        outcome(r) == if 1 <= value <= 1000 {
            Ok::<i64, StoreErrorView>(value as i64)
        } else {
            Err(corrupt("discovery limit must be 1..=1000"@))
        },
{
    if value < 1 || value > 1000 {
        return Err(make_corrupt("discovery limit must be 1..=1000"));
    }
    Ok(value as i64)
}

/// The number one, as versions are written.
pub open spec fn first_version(value: JsonView) -> bool {
    value == JsonView::Number(JsonNumber::PosInt(1))
}

fn is_first_version(value: Option<&Json>) -> (r: bool)
    ensures
        r == match value {
            Some(value) => first_version(value.deep_view()),
            None => false,
        },
{
    broadcast use json_views;

    match value {
        Some(Json::Number(JsonNumber::PosInt(n))) => *n == 1,
        _ => false,
    }
}

/// The text.
pub open spec fn says(value: JsonView, text: Seq<char>) -> bool {
    value == JsonView::Text(text)
}

fn does_say(value: Option<&Json>, text: &str) -> (r: bool)
    ensures
        r == match value {
            Some(value) => says(value.deep_view(), text@),
            None => false,
        },
{
    broadcast use json_views;

    match value {
        Some(Json::Text(found)) => same_text(found.as_str(), text),
        _ => false,
    }
}

/// What the records of a run say of it.
#[verifier::ext_equal]
pub struct EvidenceView {
    pub dispatch: Seq<char>,
    pub completion: Option<CompletionReasonView>,
    pub open: bool,
    pub failure: bool,
    pub contract: bool,
    pub validation: bool,
}

/// A row of a run's records, with its payload as it was decoded.
pub struct RunRow {
    pub payload: Result<Payload, StoreError>,
    pub state: String,
}

/// What a `RunRow` holds.
pub struct RunRowView {
    pub payload: Result<PayloadView, StoreErrorView>,
    pub state: Seq<char>,
}

impl DeepView for RunRow {
    type V = RunRowView;

    open spec fn deep_view(&self) -> RunRowView {
        RunRowView { payload: outcome(self.payload), state: self.state@ }
    }
}

impl EvidenceView {
    /// No record was read.
    pub open spec fn nothing() -> EvidenceView {
        EvidenceView {
            dispatch: "missing_evidence"@,
            completion: None,
            open: false,
            failure: false,
            contract: false,
            validation: false,
        }
    }

    /// Evidence of how far sending got. An attempt is never taken back.
    pub open spec fn sent(self, data: JsonView) -> Result<EvidenceView, StoreErrorView> {
        if first_version(at(data, "version"@)) && says(at(data, "state"@), "prepared"@) {
            if self.dispatch == "missing_evidence"@ {
                Ok(EvidenceView { dispatch: "not_dispatched"@, ..self })
            } else {
                Ok(self)
            }
        } else if first_version(at(data, "version"@)) && says(
            at(data, "state"@),
            "dispatch_attempted"@,
        ) {
            Ok(EvidenceView { dispatch: "attempted"@, ..self })
        } else {
            Err(corrupt("unsupported run dispatch evidence; inspect raw history"@))
        }
    }

    /// What a payload adds.
    pub open spec fn told(self, payload: PayloadView) -> Result<EvidenceView, StoreErrorView> {
        match payload {
            PayloadView::RunFinished { reason } => Ok(
                EvidenceView { completion: Some(reason), ..self },
            ),
            PayloadView::Failure { .. } => Ok(EvidenceView { failure: true, ..self }),
            PayloadView::Extension { namespace, name, data } => if namespace != "agent_bridge"@ {
                Ok(self)
            } else if name == "run_dispatch"@ {
                self.sent(data)
            } else if name == "result_contract"@ {
                Ok(EvidenceView { contract: true, ..self })
            } else if name == "result_validation"@ && first_version(at(data, "version"@)) && (says(
                at(at(data, "validation"@), "status"@),
                "valid"@,
            ) || says(at(at(data, "validation"@), "status"@), "rejected"@)) {
                Ok(EvidenceView { validation: true, ..self })
            } else {
                Ok(self)
            },
            _ => Ok(self),
        }
    }

    /// What a row adds.
    pub open spec fn read(self, row: RunRowView) -> Result<EvidenceView, StoreErrorView> {
        match row.payload {
            Err(e) => Err(e),
            Ok(payload) => match state_of(row.state) {
                None => Err(corrupt("invalid record state"@)),
                Some(state) => (EvidenceView {
                    open: self.open || state is Open,
                    ..self
                }).told(payload),
            },
        }
    }

    /// What rows add, in their order.
    pub open spec fn read_all(self, rows: Seq<RunRowView>) -> Result<EvidenceView, StoreErrorView>
        decreases rows.len(),
    {
        if rows.len() == 0 {
            Ok(self)
        } else {
            match self.read(rows[0]) {
                Err(e) => Err(e),
                Ok(next) => next.read_all(rows.skip(1)),
            }
        }
    }

    /// What has to be looked into.
    pub open spec fn issues(self) -> Seq<Seq<char>> {
        let completion = if self.completion is None {
            seq!["completion_unknown"@]
        } else {
            Seq::empty()
        };
        let open = if self.open {
            seq!["open_records"@]
        } else {
            Seq::empty()
        };
        let failure = if self.failure {
            seq!["recorded_failure"@]
        } else {
            Seq::empty()
        };
        let validation = if self.contract && !self.validation {
            seq!["validation_missing"@]
        } else {
            Seq::empty()
        };
        completion + open + failure + validation
    }
}

struct Evidence {
    dispatch: &'static str,
    completion: Option<CompletionReason>,
    open: bool,
    failure: bool,
    contract: bool,
    validation: bool,
}

impl DeepView for Evidence {
    type V = EvidenceView;

    closed spec fn deep_view(&self) -> EvidenceView {
        EvidenceView {
            dispatch: self.dispatch@,
            completion: self.completion.deep_view(),
            open: self.open,
            failure: self.failure,
            contract: self.contract,
            validation: self.validation,
        }
    }
}

impl Evidence {
    fn see_dispatch(self, data: &Json) -> (r: Result<Evidence, StoreError>)
        ensures
            outcome(r) == self.deep_view().sent(data.deep_view()),
    {
        let version = is_first_version(find_at(data, "version"));
        if version && does_say(find_at(data, "state"), "prepared") {
            if same_text(self.dispatch, "missing_evidence") {
                Ok(
                    Evidence {
                        dispatch: "not_dispatched",
                        completion: self.completion,
                        open: self.open,
                        failure: self.failure,
                        contract: self.contract,
                        validation: self.validation,
                    },
                )
            } else {
                Ok(self)
            }
        } else if version && does_say(find_at(data, "state"), "dispatch_attempted") {
            Ok(
                Evidence {
                    dispatch: "attempted",
                    completion: self.completion,
                    open: self.open,
                    failure: self.failure,
                    contract: self.contract,
                    validation: self.validation,
                },
            )
        } else {
            Err(make_corrupt("unsupported run dispatch evidence; inspect raw history"))
        }
    }

    fn see(self, payload: Payload) -> (r: Result<Evidence, StoreError>)
        ensures
            outcome(r) == self.deep_view().told(payload.deep_view()),
    {
        match payload {
            Payload::RunFinished { reason } => {
                let mut next = self;
                next.completion = Some(reason);
                Ok(next)
            },
            Payload::Failure { .. } => {
                let mut next = self;
                next.failure = true;
                Ok(next)
            },
            Payload::Extension { namespace, name, data } => {
                let name = name.as_str();
                if !same_text(namespace.as_str(), "agent_bridge") {
                    return Ok(self);
                }
                if same_text(name, "run_dispatch") {
                    return self.see_dispatch(&data);
                }
                let mut next = self;
                if same_text(name, "result_contract") {
                    next.contract = true;
                    return Ok(next);
                }
                if same_text(name, "result_validation") && is_first_version(
                    find_at(&data, "version"),
                ) {
                    let status = match find_at(&data, "validation") {
                        Some(validation) => find_at(validation, "status"),
                        None => None,
                    };
                    if does_say(status, "valid") || does_say(status, "rejected") {
                        next.validation = true;
                    }
                }
                Ok(next)
            },
            _ => Ok(self),
        }
    }

    fn see_row(self, row: RunRow) -> (r: Result<Evidence, StoreError>)
        ensures
            outcome(r) == self.deep_view().read(row.deep_view()),
    {
        let payload = match row.payload {
            Err(e) => return Err(e),
            Ok(payload) => payload,
        };
        let state = match parse_state(row.state.as_str()) {
            Err(e) => return Err(e),
            Ok(state) => state,
        };
        let mut next = self;
        next.open = next.open || state == RecordState::Open;
        next.see(payload)
    }
}

#[verifier::loop_isolation(false)]
fn read_evidence(rows: Vec<RunRow>) -> (r: Result<Evidence, StoreError>)
    ensures
        outcome(r) == EvidenceView::nothing().read_all(rows.deep_view()),
{
    let mut rows = rows;
    let mut evidence = Evidence {
        dispatch: "missing_evidence",
        completion: None,
        open: false,
        failure: false,
        contract: false,
        validation: false,
    };
    let ghost all = rows.deep_view();
    assert(evidence.deep_view() == EvidenceView::nothing());
    while rows.len() > 0
        invariant
            EvidenceView::nothing().read_all(all) == evidence.deep_view().read_all(
                rows.deep_view(),
            ),
        decreases rows.len(),
    {
        let ghost before = rows.deep_view();
        let row = rows.remove(0);
        assert(row.deep_view() == before[0]);
        assert(rows.deep_view() =~= before.skip(1));
        evidence =
        match evidence.see_row(row) {
            Err(e) => return Err(e),
            Ok(next) => next,
        };
    }
    Ok(evidence)
}

fn list_issues(evidence: &Evidence) -> (r: Vec<String>)
    ensures
        r.deep_view() == evidence.deep_view().issues(),
{
    let mut issues: Vec<String> = Vec::new();
    if evidence.completion.is_none() {
        issues.push("completion_unknown".to_owned());
    }
    if evidence.open {
        issues.push("open_records".to_owned());
    }
    if evidence.failure {
        issues.push("recorded_failure".to_owned());
    }
    if evidence.contract && !evidence.validation {
        issues.push("validation_missing".to_owned());
    }
    assert(issues.deep_view() =~= evidence.deep_view().issues());
    issues
}

/// What is left of a run, by its records in their order. Completed runs are reported too,
/// so that completion can be told from missing evidence.
pub fn recover_run(id: RunId, session_id: SessionId, slot_id: SlotId, rows: Vec<RunRow>) -> (r:
    Result<RunRecovery, StoreError>)
    ensures
        outcome(r) == match EvidenceView::nothing().read_all(rows.deep_view()) {
            Err(e) => Err::<RunRecoveryView, StoreErrorView>(e),
            Ok(evidence) => Ok(
                RunRecoveryView {
                    id: id.deep_view(),
                    session_id: session_id.deep_view(),
                    slot_id: slot_id.deep_view(),
                    dispatch: evidence.dispatch,
                    completion: evidence.completion,
                    issues: evidence.issues(),
                },
            ),
        },
{
    let evidence = match read_evidence(rows) {
        Err(e) => return Err(e),
        Ok(evidence) => evidence,
    };
    let issues = list_issues(&evidence);
    Ok(
        RunRecovery {
            id,
            session_id,
            slot_id,
            dispatch: evidence.dispatch.to_owned(),
            completion: evidence.completion,
            issues,
        },
    )
}

/// Once an attempt to send is on record, nothing that follows takes it back.
pub proof fn attempts_are_not_forgotten(evidence: EvidenceView, rows: Seq<RunRowView>)
    requires
        evidence.dispatch == "attempted"@,
    ensures
        evidence.read_all(rows) matches Ok(after) ==> after.dispatch == "attempted"@,
    decreases rows.len(),
{
    if rows.len() > 0 {
        reveal_strlit("attempted");
        reveal_strlit("missing_evidence");
        assert("attempted"@.len() != "missing_evidence"@.len());
        match evidence.read(rows[0]) {
            Ok(next) => attempts_are_not_forgotten(next, rows.skip(1)),
            Err(_) => {},
        }
    }
}

/// The record is a receipt of an invocation of an application's tool, in this state.
pub open spec fn invocation(payload: PayloadView, state: Seq<char>) -> bool {
    payload matches PayloadView::Extension { namespace, name, data } && namespace
        == "agent_bridge"@ && name == "tool_invocation"@ && says(at(data, "state"@), state)
}

/// What a receipt holds.
pub open spec fn receipt_data(payload: PayloadView) -> JsonView {
    match payload {
        PayloadView::Extension { data, .. } => data,
        _ => JsonView::Null,
    }
}

/// The invocation that a receipt names.
pub open spec fn invocation_id(payload: PayloadView) -> JsonView {
    at(receipt_data(payload), "invocation_id"@)
}

/// The outcome that a receipt reports is that of the invocation: both are of the same
/// session and name the same invocation, as a query compares values. The texts are the
/// JSON texts of the two names, which count if the names are arrays or objects.
pub open spec fn reports_outcome(
    report: SnapshotView,
    reported: Seq<char>,
    record: SnapshotView,
    wanted: Seq<char>,
) -> bool {
    &&& report.record.session_id == record.record.session_id
    &&& invocation(report.record.payload, "returned"@)
    &&& query_one(at(receipt_data(report.record.payload), "version"@))
    &&& query_equal(
        query_value(invocation_id(report.record.payload), reported),
        query_value(invocation_id(record.record.payload), wanted),
    )
}

/// Why a record has to be looked into, if it has to: a request without a decision, a
/// permission response without acknowledgment, or a tool attempt without a recorded
/// result.
pub open spec fn unsettled_kind(record: SnapshotView, decided: bool, returned: bool) -> Option<
    Seq<char>,
> {
    match record.record.payload {
        PayloadView::Permission { .. } => if decided {
            None
        } else {
            Some("permission_without_decision"@)
        },
        PayloadView::Question(_) => if decided {
            None
        } else {
            Some("question_without_answer"@)
        },
        PayloadView::Decision { .. } => Some("permission_delivery_unacknowledged"@),
        PayloadView::Tool(_) => if record.state is Complete {
            None
        } else {
            Some("provider_tool_incomplete"@)
        },
        payload => if invocation(payload, "dispatch_attempted"@) && !returned {
            Some("application_tool_outcome_unknown"@)
        } else {
            None
        },
    }
}

fn invocation_data<'a>(payload: &'a Payload, state: &str) -> (r: Option<&'a Json>)
    ensures
        r is Some <==> invocation(payload.deep_view(), state@),
        r matches Some(data) ==> data.deep_view() == receipt_data(payload.deep_view()),
{
    match payload {
        Payload::Extension { namespace, name, data } => {
            if same_text(namespace.as_str(), "agent_bridge") && same_text(
                name.as_str(),
                "tool_invocation",
            ) && does_say(find_at(data, "state"), state) {
                Some(data)
            } else {
                None
            }
        },
        _ => None,
    }
}

/// Whether a record reports the outcome of an invocation whose attempt is on record.
/// `reported` and `wanted` are the JSON texts of the invocations that the two name.
pub fn is_outcome(report: &Snapshot, reported: &str, record: &Snapshot, wanted: &str) -> (r: bool)
    requires
        invocation(record.deep_view().record.payload, "dispatch_attempted"@),
    ensures
        r == reports_outcome(report.deep_view(), reported@, record.deep_view(), wanted@),
{
    broadcast use json_views;

    if !report.record.session_id.same_as(&record.record.session_id) {
        return false;
    }
    match (
        invocation_data(&report.record.payload, "returned"),
        invocation_data(&record.record.payload, "dispatch_attempted"),
    ) {
        (Some(outcome), Some(attempt)) => {
            match find_at(outcome, "version") {
                Some(version) => {
                    if !is_query_one(version) {
                        return false;
                    }
                },
                None => return false,
            }
            match (find_at(outcome, "invocation_id"), find_at(attempt, "invocation_id")) {
                (Some(found), Some(asked)) => are_query_equal(found, reported, asked, wanted),
                _ => false,
            }
        },
        _ => false,
    }
}

/// Whether a record is an attempt to invoke an application's tool, so that its outcome
/// has to be looked for.
pub fn is_attempt(record: &Snapshot) -> (r: bool)
    ensures
        r == invocation(record.deep_view().record.payload, "dispatch_attempted"@),
{
    invocation_data(&record.record.payload, "dispatch_attempted").is_some()
}

/// The interaction that a record leaves without its outcome, if it leaves one. `decided`
/// tells whether there is a decision on the record, and `returned` whether some record
/// reports its outcome. These records are evidence to look at, never live responders or
/// retry jobs.
pub fn recover_interaction(record: &Snapshot, decided: bool, returned: bool) -> (r: Option<
    InteractionRecovery,
>)
    ensures
        r.deep_view() == match unsettled_kind(record.deep_view(), decided, returned) {
            None => None::<InteractionRecoveryView>,
            Some(kind) => Some(
                InteractionRecoveryView {
                    id: record.deep_view().record.id,
                    session_id: record.deep_view().record.session_id,
                    run_id: record.deep_view().record.run_id,
                    kind,
                    state: record.state,
                    source: record.deep_view().source,
                },
            ),
        },
{
    let kind = match &record.record.payload {
        Payload::Permission { .. } => {
            if decided {
                return None;
            }
            "permission_without_decision"
        },
        Payload::Question(_) => {
            if decided {
                return None;
            }
            "question_without_answer"
        },
        Payload::Decision { .. } => "permission_delivery_unacknowledged",
        Payload::Tool(_) => {
            if record.state == RecordState::Complete {
                return None;
            }
            "provider_tool_incomplete"
        },
        payload => {
            if invocation_data(payload, "dispatch_attempted").is_none() || returned {
                return None;
            }
            "application_tool_outcome_unknown"
        },
    };
    Some(
        InteractionRecovery {
            id: record.record.id.duplicate(),
            session_id: record.record.session_id.duplicate(),
            run_id: record.record.run_id.duplicate(),
            kind: kind.to_owned(),
            state: record.state,
            source: record.source.duplicate(),
        },
    )
}

} // verus!
