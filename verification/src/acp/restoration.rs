//! Sessions that take up earlier work.

use crate::acp::context::{
    context_objection, encode, envelope, prepared_receipt, TextContextMode,
};
use crate::acp::error::{RecordingError, RecordingErrorView};
use crate::acp::recording::{member, number_json, RecordActors, Recorder};
use crate::acp::session::{SessionState, SessionStateView};
use crate::acp::start::{
    context_of, context_start, start_prepared_context_run, start_recorded_with_report, started_as,
    text_start, Start,
};
use crate::context::{
    blamed, consulted, context_prepared, prepare, selection_count, ContextErrorView,
    ContextLimits, ContextPolicyView, PreparedContext, PreparedContextView, PreparedInstruction,
    PreparedInstructionView, Resource, ResourceStore,
    ResourceView, Resources, Sources,
};
use crate::datum::{outcome, Datum};
use crate::id::{ContinuationId, RunId, SessionId, SlotId};
use crate::json::{json_views, Json, JsonNumber, JsonView};
use crate::model::ContextManifest;
use crate::records::store::{RecordStore, StoreView};
use crate::records::{PayloadView, Snapshot, SnapshotView};
use crate::run::RunSpec;
use crate::table::Table;
use std::sync::Arc;
use vstd::prelude::*;
use vstd::string::*;

verus! {

/// A new native session that is given selected history.
pub struct PortableRestore {
    pub session_id: SessionId,
    pub slot_id: SlotId,
    pub cwd: String,
    pub manifest: ContextManifest,
    pub limits: ContextLimits,
    pub max_prompt_bytes: usize,
    pub mode: TextContextMode,
}

/// These are exclusive choices. Native errors never trigger a portable fallback.
pub enum RestorationPolicy {
    Native { continuation: ContinuationId },
    Portable(PortableRestore),
}

/// The report of a resumed native session.
pub open spec fn native_report_json(continuation: Seq<char>) -> JsonView {
    JsonView::Object(
        member("version"@, number_json(1)).insert(
            "strategy"@,
            JsonView::Text("native_resume"@),
        ).insert("continuation"@, JsonView::Text(continuation)).insert(
            "native_context"@,
            JsonView::Text("reused_uninspected"@),
        ).insert("portable_context_replayed"@, JsonView::Bool(false)),
    )
}

/// The report of a resumed native session.
pub fn native_report(continuation: &ContinuationId) -> (r: Json)
    ensures
        r.deep_view() == native_report_json(continuation.deep_view()),
{
    broadcast use json_views;

    let mut members: Table<Json> = Table::new();
    assert(members.deep_view() =~= Map::<Seq<char>, JsonView>::empty());
    members.put("version".to_owned(), Json::Number(JsonNumber::PosInt(1)));
    members.put("strategy".to_owned(), Json::Text("native_resume".to_owned()));
    members.put("continuation".to_owned(), Json::Text(continuation.as_str().to_owned()));
    members.put("native_context".to_owned(), Json::Text("reused_uninspected".to_owned()));
    members.put("portable_context_replayed".to_owned(), Json::Bool(false));
    Json::Object(members)
}

/// A selected record in a report.
pub open spec fn record_json(snapshot: SnapshotView) -> JsonView {
    JsonView::Object(
        member("id"@, JsonView::Text(snapshot.record.id)).insert(
            "revision"@,
            number_json(snapshot.revision),
        ),
    )
}

/// A selected resource in a report.
pub open spec fn resource_json(resource: ResourceView) -> JsonView {
    JsonView::Object(
        member("id"@, JsonView::Text(resource.reference.id)).insert(
            "revision"@,
            JsonView::Text(resource.reference.revision),
        ),
    )
}

/// A selected instruction in a report.
pub open spec fn instruction_json(instruction: PreparedInstructionView) -> JsonView {
    JsonView::Object(
        member("id"@, JsonView::Text(instruction.reference.resource.id)).insert(
            "revision"@,
            JsonView::Text(instruction.reference.resource.revision),
        ).insert("role"@, JsonView::Text("supplemental"@)).insert(
            "delivery"@,
            JsonView::Text("user_text"@),
        ),
    )
}

/// What a portable restoration leaves behind.
pub open spec fn not_transferred_json() -> JsonView {
    JsonView::Array(
        seq![
            JsonView::Text("history_outside_selection"@),
            JsonView::Text("provider_hidden_state"@),
            JsonView::Text("native_instruction_state"@),
            JsonView::Text("provider_configuration"@),
            JsonView::Text("prior_tool_grants"@),
            JsonView::Text("skill_activation_state"@),
        ],
    )
}

/// The report of a new session with selected history.
pub open spec fn portable_report_json(
    session_id: Seq<char>,
    slot_id: Seq<char>,
    context: PreparedContextView,
) -> JsonView {
    JsonView::Object(
        member("version"@, number_json(1)).insert(
            "strategy"@,
            JsonView::Text("portable_selection"@),
        ).insert("native_context"@, JsonView::Text("new_session"@)).insert(
            "session_id"@,
            JsonView::Text(session_id),
        ).insert("slot_id"@, JsonView::Text(slot_id)).insert(
            "selected_records"@,
            JsonView::Array(context.records.map_values(|s: SnapshotView| record_json(s))),
        ).insert(
            "selected_resources"@,
            JsonView::Array(context.resources.map_values(|s: ResourceView| resource_json(s))),
        ).insert(
            "selected_instructions"@,
            JsonView::Array(
                context.instructions.map_values(|s: PreparedInstructionView| instruction_json(s)),
            ),
        ).insert("not_transferred"@, not_transferred_json()).insert(
            "delivery"@,
            JsonView::Text("pending_first_run"@),
        ),
    )
}

fn two_members(id: &str, revision: Json) -> (r: Table<Json>)
    ensures
        r.deep_view() == member("id"@, JsonView::Text(id@)).insert(
            "revision"@,
            revision.deep_view(),
        ),
{
    broadcast use json_views;

    let mut members: Table<Json> = Table::new();
    assert(members.deep_view() =~= Map::<Seq<char>, JsonView>::empty());
    members.put("id".to_owned(), Json::Text(id.to_owned()));
    members.put("revision".to_owned(), revision);
    members
}

fn list_records(records: &Vec<Arc<Snapshot>>) -> (r: Json)
    ensures
        r.deep_view() == JsonView::Array(
            records.deep_view().map_values(|s: SnapshotView| record_json(s)),
        ),
{
    broadcast use json_views;

    let mut items: Vec<Json> = Vec::new();
    let mut i: usize = 0;
    while i < records.len()
        invariant
            i <= records.len(),
            items.len() == i,
            forall|j: int|
                0 <= j < i ==> (#[trigger] items@[j]).deep_view() == record_json(
                    records.deep_view()[j],
                ),
        decreases records.len() - i,
    {
        broadcast use json_views;

        assert(records.deep_view()[i as int] == records@[i as int].deep_view());
        let item = Json::Object(
            two_members(
                records[i].record.id.as_str(),
                Json::Number(JsonNumber::PosInt(records[i].revision)),
            ),
        );
        items.push(item);
        i = i + 1;
    }
    assert(items.deep_view() =~= records.deep_view().map_values(
        |s: SnapshotView| record_json(s),
    ));
    Json::Array(items)
}

fn list_resources(resources: &Vec<Arc<Resource>>) -> (r: Json)
    ensures
        r.deep_view() == JsonView::Array(
            resources.deep_view().map_values(|s: ResourceView| resource_json(s)),
        ),
{
    broadcast use json_views;

    let mut items: Vec<Json> = Vec::new();
    let mut i: usize = 0;
    while i < resources.len()
        invariant
            i <= resources.len(),
            items.len() == i,
            forall|j: int|
                0 <= j < i ==> (#[trigger] items@[j]).deep_view() == resource_json(
                    resources.deep_view()[j],
                ),
        decreases resources.len() - i,
    {
        broadcast use json_views;

        assert(resources.deep_view()[i as int] == resources@[i as int].deep_view());
        let reference = &resources[i].reference;
        let item = Json::Object(
            two_members(reference.id.as_str(), Json::Text(reference.revision.clone())),
        );
        items.push(item);
        i = i + 1;
    }
    assert(items.deep_view() =~= resources.deep_view().map_values(
        |s: ResourceView| resource_json(s),
    ));
    Json::Array(items)
}

fn list_instructions(instructions: &Vec<PreparedInstruction>) -> (r: Json)
    ensures
        r.deep_view() == JsonView::Array(
            instructions.deep_view().map_values(
                |s: PreparedInstructionView| instruction_json(s),
            ),
        ),
{
    broadcast use json_views;

    let mut items: Vec<Json> = Vec::new();
    let mut i: usize = 0;
    while i < instructions.len()
        invariant
            i <= instructions.len(),
            items.len() == i,
            forall|j: int|
                0 <= j < i ==> (#[trigger] items@[j]).deep_view() == instruction_json(
                    instructions.deep_view()[j],
                ),
        decreases instructions.len() - i,
    {
        broadcast use json_views;

        assert(instructions.deep_view()[i as int] == instructions@[i as int].deep_view());
        let reference = &instructions[i].reference.resource;
        let mut members = two_members(
            reference.id.as_str(),
            Json::Text(reference.revision.clone()),
        );
        members.put("role".to_owned(), Json::Text("supplemental".to_owned()));
        members.put("delivery".to_owned(), Json::Text("user_text".to_owned()));
        items.push(Json::Object(members));
        i = i + 1;
    }
    assert(items.deep_view() =~= instructions.deep_view().map_values(
        |s: PreparedInstructionView| instruction_json(s),
    ));
    Json::Array(items)
}

fn list_not_transferred() -> (r: Json)
    ensures
        r.deep_view() == not_transferred_json(),
{
    broadcast use json_views;

    let items: Vec<Json> = vec![
        Json::Text("history_outside_selection".to_owned()),
        Json::Text("provider_hidden_state".to_owned()),
        Json::Text("native_instruction_state".to_owned()),
        Json::Text("provider_configuration".to_owned()),
        Json::Text("prior_tool_grants".to_owned()),
        Json::Text("skill_activation_state".to_owned()),
    ];
    assert(items.deep_view() =~= seq![
        JsonView::Text("history_outside_selection"@),
        JsonView::Text("provider_hidden_state"@),
        JsonView::Text("native_instruction_state"@),
        JsonView::Text("provider_configuration"@),
        JsonView::Text("prior_tool_grants"@),
        JsonView::Text("skill_activation_state"@),
    ]);
    Json::Array(items)
}

/// The report of a new session with selected history.
pub fn portable_report(session_id: &SessionId, slot_id: &SlotId, context: &PreparedContext) -> (r:
    Json)
    ensures
        r.deep_view() == portable_report_json(
            session_id.deep_view(),
            slot_id.deep_view(),
            context.deep_view(),
        ),
{
    broadcast use json_views;

    let mut members: Table<Json> = Table::new();
    assert(members.deep_view() =~= Map::<Seq<char>, JsonView>::empty());
    members.put("version".to_owned(), Json::Number(JsonNumber::PosInt(1)));
    members.put("strategy".to_owned(), Json::Text("portable_selection".to_owned()));
    members.put("native_context".to_owned(), Json::Text("new_session".to_owned()));
    members.put("session_id".to_owned(), Json::Text(session_id.as_str().to_owned()));
    members.put("slot_id".to_owned(), Json::Text(slot_id.as_str().to_owned()));
    members.put("selected_records".to_owned(), list_records(&context.records));
    members.put("selected_resources".to_owned(), list_resources(&context.resources));
    members.put("selected_instructions".to_owned(), list_instructions(&context.instructions));
    members.put("not_transferred".to_owned(), list_not_transferred());
    members.put("delivery".to_owned(), Json::Text("pending_first_run".to_owned()));
    Json::Object(members)
}

impl PortableRestore {
    /// The selection, resolved within the session that is restored.
    pub open spec fn context(&self, store: StoreView, resources: Resources) -> Result<
        PreparedContextView,
        RecordingErrorView,
    > {
        let manifest = self.manifest.deep_view();
        match context_prepared(
            Sources {
                records: store,
                resources,
                allowed: seq![self.session_id.deep_view()],
                forbidden: Seq::empty(),
                max_bytes: self.limits.max_resource_bytes as nat,
            },
            manifest,
            self.limits.max_items as nat,
        ) {
            Err(e) => Err(RecordingErrorView::Context(e)),
            Ok(progress) => {
                let context = context_of(manifest, manifest, ContextPolicyView::none(), progress);
                match context_objection(context, ""@, self.max_prompt_bytes) {
                    Some(reason) => Err(RecordingErrorView::UnsupportedContext(reason)),
                    None => Ok(context),
                }
            },
        }
    }

    /// Resolves all inputs and validates their encoding before a native session is
    /// created. The actual task's encoded size is checked again when a run starts.
    pub fn prepare<S: RecordStore, R: ResourceStore>(&self, store: &S, resources: &R) -> (r: Result<
        PreparedContext,
        RecordingError,
    >)
        ensures
            outcome(r) == self.context(store.contents(), resources.held()) || (r matches Err(
                RecordingError::Context(e),
            ) && blamed(e.deep_view(), store.dependable() && resources.obtainable()) && consulted(
                self.manifest.deep_view(),
                self.limits.max_items as nat,
            )),
            selection_count(self.manifest.deep_view()) > self.limits.max_items ==> outcome(r)
                == Err::<PreparedContextView, RecordingErrorView>(
                RecordingErrorView::Context(ContextErrorView::ItemLimit),
            ),
    {
        let mut allowed: Vec<SessionId> = Vec::new();
        allowed.push(self.session_id.duplicate());
        assert(allowed.deep_view() =~= seq![self.session_id.deep_view()]);
        let context = match prepare(&self.manifest, store, resources, &allowed, self.limits) {
            Err(e) => return Err(RecordingError::Context(e)),
            Ok(context) => context,
        };
        match encode(&context, "", self.max_prompt_bytes) {
            Err(e) => Err(e),
            Ok(_) => Ok(context),
        }
    }
}

/// A selection that the first run has to deliver.
pub struct PendingContext {
    pub context: PreparedContext,
    pub max_prompt_bytes: usize,
}

/// A restored session whose first portable turn must use its frozen selection.
pub struct RestoredSession {
    session: SessionState,
    pending: Option<PendingContext>,
    report: Json,
    report_pending: bool,
}

impl RestoredSession {
    /// The session.
    pub closed spec fn state(&self) -> SessionStateView {
        self.session.deep_view()
    }

    /// The selection that the first run has to deliver, with the limit of its size.
    pub closed spec fn undelivered(&self) -> Option<(PreparedContextView, usize)> {
        match self.pending {
            Some(pending) => Some((pending.context.deep_view(), pending.max_prompt_bytes)),
            None => None,
        }
    }

    /// The setup report.
    pub closed spec fn setup(&self) -> JsonView {
        self.report.deep_view()
    }

    /// Whether the report was not recorded with a run yet.
    pub closed spec fn unreported(&self) -> bool {
        self.report_pending
    }

    /// A native session that was resumed.
    pub fn native(session: SessionState, continuation: &ContinuationId) -> (r: RestoredSession)
        ensures
            r.state() == session.deep_view(),
            r.undelivered() is None,
            r.setup() == native_report_json(continuation.deep_view()),
            r.unreported(),
    {
        RestoredSession {
            session,
            pending: None,
            report: native_report(continuation),
            report_pending: true,
        }
    }

    /// A new native session for which a selection was prepared.
    pub fn portable(session: SessionState, context: PreparedContext, max_prompt_bytes: usize) -> (r:
        RestoredSession)
        ensures
            r.state() == session.deep_view(),
            r.undelivered() == Some((context.deep_view(), max_prompt_bytes)),
            r.setup() == portable_report_json(
                session.deep_view().session_id,
                session.deep_view().slot_id,
                context.deep_view(),
            ),
            r.unreported(),
    {
        let report = portable_report(&session.session_id, &session.slot_id, &context);
        RestoredSession {
            session,
            pending: Some(PendingContext { context, max_prompt_bytes }),
            report,
            report_pending: true,
        }
    }

    /// Setup report, not evidence of input delivery. First-run receipts track that.
    pub fn report(&self) -> (r: &Json)
        ensures
            r.deep_view() == self.setup(),
    {
        &self.report
    }

    /// What starting a run leads to, and the text to be sent: as long as a selection is
    /// undelivered the run delivers it, and as long as the report was not recorded the
    /// run records it.
    pub open spec fn first_start(
        &self,
        closed: bool,
        store: StoreView,
        id: Seq<char>,
        prompt: Seq<char>,
        actors: crate::acp::recording::RecordActorsView,
    ) -> (Start, Seq<char>) {
        let report = if self.unreported() {
            Some(self.setup())
        } else {
            None
        };
        match self.undelivered() {
            Some((context, limit)) => (
                context_start(
                    self.state(),
                    closed,
                    store,
                    id,
                    prompt,
                    context,
                    limit,
                    actors,
                    report,
                ),
                envelope(context, prompt),
            ),
            None => (text_start(self.state(), closed, store, id, prompt, actors, report), prompt),
        }
    }

    /// Starts a run. Gives the text to be sent besides.
    pub fn start_recorded_run<S: RecordStore>(
        &self,
        closed: bool,
        store: &mut S,
        id: RunId,
        prompt: &str,
        actors: RecordActors,
    ) -> (r: Result<(Recorder, RunSpec, String), RecordingError>)
        ensures
            final(store).dependable() == old(store).dependable(),
            ({
                let (start, wire) = self.first_start(
                    closed,
                    old(store).contents(),
                    id.deep_view(),
                    prompt@,
                    actors.deep_view(),
                );
                match r {
                    Ok((recorder, spec, text)) => started_as(
                        Ok((recorder.deep_view(), spec.deep_view())),
                        start,
                        final(store).contents(),
                        old(store).dependable(),
                    ) && text@ == wire,
                    Err(e) => started_as(Err(e.deep_view()), start, final(store).contents(), old(store).dependable()),
                }
            }),
            r matches Ok((recorder, _, _)) ==> recorder.deep_view().indexed(),
    {
        let report = if self.report_pending {
            Some(self.report.duplicate())
        } else {
            None
        };
        match &self.pending {
            Some(pending) => start_prepared_context_run(
                &self.session,
                closed,
                store,
                id,
                prompt,
                &pending.context,
                pending.max_prompt_bytes,
                actors,
                report,
            ),
            None => match start_recorded_with_report(
                &self.session,
                closed,
                store,
                id,
                prompt,
                actors,
                report,
            ) {
                Err(e) => Err(e),
                Ok((recorder, spec)) => Ok((recorder, spec, prompt.to_owned())),
            },
        }
    }

    /// The run was dispatched: the selection is delivered and the report recorded.
    pub fn dispatched(self) -> (r: RestoredSession)
        ensures
            r.state() == self.state(),
            r.undelivered() is None,
            r.setup() == self.setup(),
            !r.unreported(),
    {
        RestoredSession {
            session: self.session,
            pending: None,
            report: self.report,
            report_pending: false,
        }
    }

    /// The session, for a run of it or a change of its configuration.
    pub fn session_mut(&mut self) -> (r: &mut SessionState)
        ensures
            (*r).deep_view() == old(self).state(),
            final(self).state() == final(r).deep_view(),
            final(self).undelivered() == old(self).undelivered(),
            final(self).setup() == old(self).setup(),
            final(self).unreported() == old(self).unreported(),
    {
        &mut self.session
    }

    /// A portable session cannot bypass its first selected-context run.
    pub fn into_session(self) -> (r: Result<SessionState, RecordingError>)
        ensures
            outcome(r) == if self.undelivered() is Some {
                Err::<SessionStateView, RecordingErrorView>(
                    RecordingErrorView::UnsupportedContext(
                        "portable context has not been dispatched"@,
                    ),
                )
            } else {
                Ok(self.state())
            },
    {
        if self.pending.is_some() {
            return Err(
                RecordingError::UnsupportedContext(
                    "portable context has not been dispatched".to_owned(),
                ),
            );
        }
        Ok(self.session)
    }
}

/// A portable session delivers its selection with its first run: the run names the
/// selection, and after the prompt its first record is the evidence of the exact text
/// that is sent.
pub proof fn first_portable_runs_carry_the_selection(
    session: RestoredSession,
    closed: bool,
    store: StoreView,
    id: Seq<char>,
    prompt: Seq<char>,
    actors: crate::acp::recording::RecordActorsView,
)
    requires
        session.undelivered() is Some,
    ensures
        ({
            let (start, wire) = session.first_start(closed, store, id, prompt, actors);
            let (context, _) = session.undelivered()->0;
            &&& wire == envelope(context, prompt)
            &&& start.reply matches Ok((recorder, spec)) ==> {
                &&& spec.context == context.manifest
                &&& recorder.records.len() > 1
                &&& recorder.records[1].payload == PayloadView::Extension {
                    namespace: "agent_bridge"@,
                    name: "input_receipt"@,
                    data: prepared_receipt(wire),
                }
            }
        }),
{
}

} // verus!
