//! Portable snapshots of what happens in a run.

use crate::acp::configuration::{
    normalize, normalized_catalog, reported_values, valid_catalog, values_of, NativeOption,
    NativeOptionView,
};
use crate::acp::error::{RecordingError, RecordingErrorView};
use crate::acp::event::{
    AcpEvent, AcpEventView, ChunkContent, ChunkContentView, MessageChunk, MessageChunkView,
    NativeTool, NativeToolUpdate, NativeToolUpdateView, NativeToolView, PermissionId,
    PermissionIdView, PermissionRequest, PermissionRequestView, StopReason, StopReasonView,
};
use crate::configuration::{ConfigValue, ConfigValueView};
use crate::datum::{append, outcome, share, Datum};
use crate::execution::Assignment;
use crate::id::{ActorId, RecordId, RunId};
use crate::json::{json_views, Json, JsonNumber, JsonView};
use crate::lookup::Lookup;
use crate::model::{Content, ContentView, Message, MessageView, Record};
use crate::records::store::{environmental, RecordStore, StoreView};
use crate::records::{
    DecisionDelivery, Draft, DraftView, MessageKind, Payload, PayloadView, PermissionOutcome,
    PermissionOutcomeView, RecordState, Snapshot, SnapshotView, SourceRef, SourceRefView,
    ToolStatus,
};
use crate::run::RunSpec;
use crate::table::Table;
use crate::text::{
    blank, byte_len, bytes_of, counted, counted_texts_do_not_collide, decimal, decimal_is_injective,
    decimal_text,
};
use std::sync::Arc;
use vstd::prelude::*;
use vstd::string::*;

verus! {

/// Attribution is supplied by the application, independently of the provider.
#[derive(Debug, PartialEq, Eq)]
pub struct RecordActors {
    pub user: ActorId,
    pub agent: ActorId,
    /// The host that submits decisions, including automatic cancellation.
    pub host: ActorId,
}

/// What a `RecordActors` holds.
#[verifier::ext_equal]
pub struct RecordActorsView {
    pub user: Seq<char>,
    pub agent: Seq<char>,
    pub host: Seq<char>,
}

impl DeepView for RecordActors {
    type V = RecordActorsView;

    open spec fn deep_view(&self) -> RecordActorsView {
        RecordActorsView {
            user: self.user.deep_view(),
            agent: self.agent.deep_view(),
            host: self.host.deep_view(),
        }
    }
}

impl Datum for RecordActors {
    fn duplicate(&self) -> (r: RecordActors) {
        RecordActors {
            user: self.user.duplicate(),
            agent: self.agent.duplicate(),
            host: self.host.duplicate(),
        }
    }

    fn same_as(&self, other: &RecordActors) -> (r: bool) {
        self.user.same_as(&other.user)
            && self.agent.same_as(&other.agent)
            && self.host.same_as(&other.host)
    }
}

/// A message of one kind under the agent's own id.
#[derive(Debug, PartialEq, Eq)]
pub struct MessageKey {
    pub kind: MessageKind,
    pub id: String,
}

/// What a `MessageKey` holds.
#[verifier::ext_equal]
pub struct MessageKeyView {
    pub kind: MessageKind,
    pub id: Seq<char>,
}

impl DeepView for MessageKey {
    type V = MessageKeyView;

    open spec fn deep_view(&self) -> MessageKeyView {
        MessageKeyView {
            kind: self.kind.deep_view(),
            id: self.id.deep_view(),
        }
    }
}

impl Datum for MessageKey {
    fn duplicate(&self) -> (r: MessageKey) {
        MessageKey {
            kind: self.kind.duplicate(),
            id: self.id.duplicate(),
        }
    }

    fn same_as(&self, other: &MessageKey) -> (r: bool) {
        self.kind.same_as(&other.kind)
            && self.id.same_as(&other.id)
    }
}

/// A record while it is being written.
#[derive(Debug, PartialEq, Eq)]
pub struct Working {
    pub stored: Arc<Snapshot>,
    pub payload: Payload,
    pub dirty: bool,
}

/// What a `Working` holds.
#[verifier::ext_equal]
pub struct WorkingView {
    pub stored: SnapshotView,
    pub payload: PayloadView,
    pub dirty: bool,
}

impl DeepView for Working {
    type V = WorkingView;

    open spec fn deep_view(&self) -> WorkingView {
        WorkingView {
            stored: self.stored.deep_view(),
            payload: self.payload.deep_view(),
            dirty: self.dirty.deep_view(),
        }
    }
}

impl Datum for Working {
    fn duplicate(&self) -> (r: Working) {
        Working {
            stored: self.stored.duplicate(),
            payload: self.payload.duplicate(),
            dirty: self.dirty.duplicate(),
        }
    }

    fn same_as(&self, other: &Working) -> (r: bool) {
        self.stored.same_as(&other.stored)
            && self.payload.same_as(&other.payload)
            && self.dirty.same_as(&other.dirty)
    }
}

/// Where a tool call is recorded, and what is known of it.
#[derive(Debug, PartialEq, Eq)]
pub struct ToolEntry {
    pub index: usize,
    pub call: NativeTool,
}

/// What a `ToolEntry` holds.
#[verifier::ext_equal]
pub struct ToolEntryView {
    pub index: usize,
    pub call: NativeToolView,
}

impl DeepView for ToolEntry {
    type V = ToolEntryView;

    open spec fn deep_view(&self) -> ToolEntryView {
        ToolEntryView {
            index: self.index.deep_view(),
            call: self.call.deep_view(),
        }
    }
}

impl Datum for ToolEntry {
    fn duplicate(&self) -> (r: ToolEntry) {
        ToolEntry {
            index: self.index.duplicate(),
            call: self.call.duplicate(),
        }
    }

    fn same_as(&self, other: &ToolEntry) -> (r: bool) {
        self.index.same_as(&other.index)
            && self.call.same_as(&other.call)
    }
}

/// Where text of one kind without an id goes on.
#[derive(Debug, PartialEq, Eq)]
pub struct Anonymous {
    pub kind: MessageKind,
    pub index: usize,
}

/// What a `Anonymous` holds.
#[verifier::ext_equal]
pub struct AnonymousView {
    pub kind: MessageKind,
    pub index: usize,
}

impl DeepView for Anonymous {
    type V = AnonymousView;

    open spec fn deep_view(&self) -> AnonymousView {
        AnonymousView {
            kind: self.kind.deep_view(),
            index: self.index.deep_view(),
        }
    }
}

impl Datum for Anonymous {
    fn duplicate(&self) -> (r: Anonymous) {
        Anonymous {
            kind: self.kind.duplicate(),
            index: self.index.duplicate(),
        }
    }

    fn same_as(&self, other: &Anonymous) -> (r: bool) {
        self.kind.same_as(&other.kind)
            && self.index.same_as(&other.index)
    }
}

/// The id of the n-th record of a run. The caller's id is preceded by its length, so
/// that separators within it cannot cause collisions.
pub open spec fn record_id(run: Seq<char>, n: nat) -> Seq<char> {
    "run/"@ + decimal(bytes_of(run)) + ":"@ + run + "/record/"@ + decimal(n)
}

fn make_record_id(run: &RunId, n: usize) -> (r: RecordId)
    ensures
        r.deep_view() == record_id(run.deep_view(), n as nat),
{
    let mut text = "run/".to_owned();
    text.append(decimal_text(byte_len(run.as_str()) as u64).as_str());
    text.append(":");
    text.append(run.as_str());
    text.append("/record/");
    text.append(decimal_text(n as u64).as_str());
    proof {
        reveal_strlit("run/");
        assert(text@[0] == 'r');
        assert(!blank(text@));
    }
    RecordId::new(text).unwrap()
}

/// A value of a configuration option in JSON.
pub open spec fn value_json(value: ConfigValueView) -> JsonView {
    let untyped = Map::<Seq<char>, JsonView>::empty();
    match value {
        ConfigValueView::Select(chosen) => JsonView::Object(
            untyped.insert("type"@, JsonView::Text("select"@)).insert(
                "value"@,
                JsonView::Text(chosen),
            ),
        ),
        ConfigValueView::Boolean(set) => JsonView::Object(
            untyped.insert("type"@, JsonView::Text("boolean"@)).insert(
                "value"@,
                JsonView::Bool(set),
            ),
        ),
    }
}

/// The values of a configuration report in JSON, or null where there is none.
pub open spec fn values_json(values: Option<Map<Seq<char>, ConfigValueView>>) -> JsonView {
    match values {
        Some(reported) => JsonView::Object(
            reported.map_values(|value: ConfigValueView| value_json(value)),
        ),
        None => JsonView::Null,
    }
}

/// One member.
pub open spec fn member(name: Seq<char>, value: JsonView) -> Map<Seq<char>, JsonView> {
    Map::<Seq<char>, JsonView>::empty().insert(name, value)
}

/// A number in JSON.
pub open spec fn number_json(n: u64) -> JsonView {
    JsonView::Number(JsonNumber::PosInt(n))
}

fn make_value_json(value: &ConfigValue) -> (r: Json)
    ensures
        r.deep_view() == value_json(value.deep_view()),
{
    broadcast use json_views;

    let mut members: Table<Json> = Table::new();
    assert(members.deep_view() =~= Map::<Seq<char>, JsonView>::empty());
    match value {
        ConfigValue::Select(chosen) => {
            members.put("type".to_owned(), Json::Text("select".to_owned()));
            members.put("value".to_owned(), Json::Text(chosen.clone()));
        },
        ConfigValue::Boolean(set) => {
            members.put("type".to_owned(), Json::Text("boolean".to_owned()));
            members.put("value".to_owned(), Json::Bool(*set));
        },
    }
    Json::Object(members)
}

/// The values of a configuration report in JSON.
pub fn make_values_json(values: &Option<Table<ConfigValue>>) -> (r: Json)
    ensures
        r.deep_view() == values_json(values.deep_view()),
{
    broadcast use json_views;

    let reported = match values {
        Some(reported) => reported,
        None => return Json::Null,
    };
    let n = reported.len();
    let mut members: Table<Json> = Table::new();
    let mut i: usize = 0;
    while i < n
        invariant
            i <= n,
            n == reported.keys().len(),
            forall|k: Seq<char>| #[trigger]
                members@.contains_key(k) <==> exists|j: int| 0 <= j < i && reported.keys()[j] == k,
            forall|k: Seq<char>| #[trigger]
                members@.contains_key(k) ==> reported@.contains_key(k) && members@[k].deep_view()
                    == value_json(reported@[k].deep_view()),
        decreases n - i,
    {
        let ghost prior = members@;
        members.insert(reported.key_at(i).clone(), make_value_json(reported.value_at(i)));
        assert forall|k: Seq<char>| #[trigger] members@.contains_key(k) implies reported@.contains_key(
            k,
        ) && members@[k].deep_view() == value_json(reported@[k].deep_view()) by {
            if k != reported.keys()[i as int] {
                assert(prior.contains_key(k) && prior[k] == members@[k]);
            }
        }
        i = i + 1;
    }
    assert(members.deep_view() =~= reported.deep_view().map_values(
        |value: ConfigValueView| value_json(value),
    ));
    Json::Object(members)
}

/// What a recorder knows.
#[verifier::ext_equal]
pub struct RecorderView {
    pub spec: Assignment,
    pub actors: RecordActorsView,
    pub records: Seq<WorkingView>,
    pub messages: Map<MessageKeyView, usize>,
    pub anonymous: Option<AnonymousView>,
    pub tools: Map<Seq<char>, ToolEntryView>,
    pub permissions: Map<PermissionIdView, usize>,
    pub finished: bool,
    pub last_configuration: Option<Map<Seq<char>, ConfigValueView>>,
    pub input_receipt: bool,
    pub input_version: u64,
    pub input_response: bool,
}

/// What an observation leads to: perhaps an error, and then what is known and stored.
/// Before each operation on the store, what is known and stored is one of its halts: if
/// the store cannot be used for the operation, the observation ends there.
pub struct RecordStep {
    pub error: Option<RecordingErrorView>,
    pub recorder: RecorderView,
    pub store: StoreView,
    pub halts: Set<(RecorderView, StoreView)>,
}

impl RecordStep {
    /// The same, with an operation on the store before it.
    pub open spec fn operated(self, recorder: RecorderView, store: StoreView) -> RecordStep {
        RecordStep { halts: self.halts.insert((recorder, store)), ..self }
    }

    /// The same, with another step before it.
    pub open spec fn since(self, earlier: RecordStep) -> RecordStep {
        RecordStep { halts: earlier.halts.union(self.halts), ..self }
    }

    /// The other is the rest of it.
    pub open spec fn comes_to(self, rest: RecordStep) -> bool {
        &&& self.error == rest.error
        &&& self.recorder == rest.recorder
        &&& self.store == rest.store
        &&& rest.halts.subset_of(self.halts)
    }
}

/// The text goes on at the end of the message.
pub open spec fn extended(payload: PayloadView, text: Seq<char>) -> PayloadView {
    match payload {
        PayloadView::Message { kind, message } => if message.content.len() > 0 {
            match message.content.last() {
                ContentView::Text(buffer) => PayloadView::Message {
                    kind,
                    message: MessageView {
                        content: message.content.drop_last().push(ContentView::Text(buffer + text)),
                    },
                },
                _ => payload,
            }
        } else {
            payload
        },
        _ => payload,
    }
}

/// The state in which a live record ends: a request is never answered by the end of
/// a run, a tool call is complete once it completed or failed, and everything else is
/// complete if the run is.
pub open spec fn sealed_state(payload: PayloadView, complete: bool) -> RecordState {
    let done = match payload {
        PayloadView::Permission { .. } => false,
        PayloadView::Tool(tool) => tool.status is Completed || tool.status is Failed,
        _ => complete,
    };
    if done {
        RecordState::Complete
    } else {
        RecordState::Interrupted
    }
}

impl RecorderView {
    /// A run of which nothing is recorded yet.
    pub open spec fn fresh(spec: Assignment, actors: RecordActorsView) -> RecorderView {
        RecorderView {
            spec,
            actors,
            records: Seq::empty(),
            messages: Map::empty(),
            anonymous: None,
            tools: Map::empty(),
            permissions: Map::empty(),
            finished: false,
            last_configuration: spec.config.confirmed,
            input_receipt: false,
            input_version: 1,
            input_response: false,
        }
    }

    /// Everything points at a record.
    pub open spec fn indexed(self) -> bool {
        &&& forall|key: MessageKeyView| #[trigger]
            self.messages.contains_key(key) ==> self.messages[key] < self.records.len()
        &&& forall|key: Seq<char>| #[trigger]
            self.tools.contains_key(key) ==> self.tools[key].index < self.records.len()
        &&& forall|id: PermissionIdView| #[trigger]
            self.permissions.contains_key(id) ==> self.permissions[id] < self.records.len()
        &&& self.anonymous matches Some(last) ==> last.index < self.records.len()
    }

    /// Everything went well, without an operation on the store.
    pub open spec fn done(self, store: StoreView) -> RecordStep {
        RecordStep { error: None, recorder: self, store, halts: Set::empty() }
    }

    /// It stopped there, without an operation on the store.
    pub open spec fn failed(self, store: StoreView, error: RecordingErrorView) -> RecordStep {
        RecordStep { error: Some(error), recorder: self, store, halts: Set::empty() }
    }

    /// The next record of the run.
    pub open spec fn draft(
        self,
        payload: PayloadView,
        actor: Seq<char>,
        reply_to_id: Option<Seq<char>>,
        source: Option<SourceRefView>,
        state: RecordState,
    ) -> DraftView {
        DraftView {
            id: record_id(self.spec.id, self.records.len()),
            session_id: self.spec.session_id,
            run_id: Some(self.spec.id),
            actor,
            reply_to_id,
            source,
            payload,
            state,
        }
    }

    /// After adding a record.
    pub open spec fn inserted(
        self,
        store: StoreView,
        payload: PayloadView,
        actor: Seq<char>,
        reply_to_id: Option<Seq<char>>,
        source: Option<SourceRefView>,
        state: RecordState,
    ) -> RecordStep {
        match store.inserted(self.draft(payload, actor, reply_to_id, source, state)) {
            Err(e) => self.failed(store, RecordingErrorView::Store(e)),
            Ok((stored, after)) => RecorderView {
                records: self.records.push(WorkingView { stored, payload, dirty: false }),
                ..self
            }.done(after),
        }.operated(self, store)
    }

    /// After adding a complete extension record.
    pub open spec fn noted(
        self,
        store: StoreView,
        namespace: Seq<char>,
        name: Seq<char>,
        data: JsonView,
        actor: Seq<char>,
    ) -> RecordStep {
        self.inserted(
            store,
            PayloadView::Extension { namespace, name, data },
            actor,
            None,
            None,
            RecordState::Complete,
        )
    }

    /// After adding evidence of the host.
    pub open spec fn evidenced(self, store: StoreView, name: Seq<char>, data: JsonView) -> RecordStep {
        self.noted(store, "agent_bridge"@, name, data, self.actors.host)
    }

    /// After adding what the agent sent and has no portable form.
    pub open spec fn extended_by(self, store: StoreView, name: Seq<char>, data: JsonView) -> RecordStep {
        self.noted(store, "acp"@, name, data, self.actors.agent)
    }

    /// The record with another live payload.
    pub open spec fn rewritten(self, index: int, payload: PayloadView) -> RecorderView {
        RecorderView {
            records: self.records.update(
                index,
                WorkingView { payload, dirty: true, ..self.records[index] },
            ),
            ..self
        }
    }

    /// The record that text goes on in: that of its id, or else the last one without
    /// an id if it is of the same kind and nothing came in between.
    pub open spec fn open_message(self, kind: MessageKind, id: Option<Seq<char>>) -> Option<usize> {
        match id {
            Some(id) => {
                let key = MessageKeyView { kind, id };
                if self.messages.contains_key(key) {
                    Some(self.messages[key])
                } else {
                    None
                }
            },
            None => match self.anonymous {
                Some(last) => if last.kind == kind {
                    Some(last.index)
                } else {
                    None
                },
                None => None,
            },
        }
    }

    /// After text of a message, whose record is known.
    pub open spec fn text_added(
        self,
        kind: MessageKind,
        id: Option<Seq<char>>,
        index: usize,
        text: Seq<char>,
    ) -> RecorderView {
        let placed = RecorderView {
            anonymous: if id is None {
                Some(AnonymousView { kind, index })
            } else {
                None
            },
            ..self
        };
        placed.rewritten(index as int, extended(self.records[index as int].payload, text))
    }

    /// After a chunk of a message.
    pub open spec fn chunk_observed(
        self,
        store: StoreView,
        kind: MessageKind,
        chunk: MessageChunkView,
    ) -> RecordStep {
        match chunk.content {
            ChunkContentView::Other(data) => RecorderView { anonymous: None, ..self }.extended_by(
                store,
                "message_content"@,
                data,
            ),
            ChunkContentView::Text(text) => match self.open_message(kind, chunk.message_id) {
                Some(index) => self.text_added(kind, chunk.message_id, index, text).done(store),
                None => {
                    let source = match chunk.message_id {
                        Some(id) => Some(SourceRefView { namespace: "acp"@, id }),
                        None => None,
                    };
                    let empty = PayloadView::Message {
                        kind,
                        message: MessageView { content: seq![ContentView::Text(Seq::empty())] },
                    };
                    let opened = self.inserted(
                        store,
                        empty,
                        self.actors.agent,
                        None,
                        source,
                        RecordState::Open,
                    );
                    if opened.error is Some {
                        opened
                    } else {
                        let index = self.records.len() as usize;
                        let keyed = match chunk.message_id {
                            Some(id) => RecorderView {
                                messages: opened.recorder.messages.insert(
                                    MessageKeyView { kind, id },
                                    index,
                                ),
                                ..opened.recorder
                            },
                            None => opened.recorder,
                        };
                        keyed.text_added(kind, chunk.message_id, index, text).done(opened.store).since(
                            opened,
                        )
                    }
                },
            },
        }
    }

    /// After a tool call was reported.
    pub open spec fn tool_observed(self, store: StoreView, call: NativeToolView) -> RecordStep {
        if self.tools.contains_key(call.id) {
            let index = self.tools[call.id].index;
            let next = self.rewritten(index as int, call.payload());
            RecorderView {
                tools: next.tools.insert(call.id, ToolEntryView { index, call }),
                ..next
            }.done(store)
        } else {
            let opened = self.inserted(
                store,
                call.payload(),
                self.actors.agent,
                None,
                Some(SourceRefView { namespace: "acp"@, id: call.id }),
                RecordState::Open,
            );
            if opened.error is Some {
                opened
            } else {
                let index = self.records.len() as usize;
                RecorderView {
                    tools: opened.recorder.tools.insert(call.id, ToolEntryView { index, call }),
                    ..opened.recorder
                }.done(opened.store).since(opened)
            }
        }
    }

    /// What is known of the tool call after an update.
    pub open spec fn merged(self, update: NativeToolUpdateView) -> NativeToolView {
        let known = if self.tools.contains_key(update.id) {
            self.tools[update.id].call
        } else {
            NativeToolView::unseen(update.id)
        };
        known.updated(update)
    }

    /// After a configuration report. One that repeats the last one is not recorded.
    pub open spec fn report_observed(
        self,
        store: StoreView,
        options: Seq<NativeOptionView>,
    ) -> RecordStep {
        let report = if valid_catalog(options) {
            Some(reported_values(normalized_catalog(options)))
        } else {
            None
        };
        if report == self.last_configuration {
            self.done(store)
        } else {
            RecorderView { last_configuration: report, ..self }.noted(
                store,
                "agent_bridge"@,
                "configuration_report"@,
                JsonView::Object(member("confirmed"@, values_json(report))),
                self.actors.agent,
            )
        }
    }

    /// After a request for permission. It replies to the record of its tool call.
    pub open spec fn permission_observed(
        self,
        store: StoreView,
        id: PermissionIdView,
        request: PermissionRequestView,
    ) -> RecordStep {
        let known = self.tool_observed(store, self.merged(request.tool));
        if known.error is Some {
            known
        } else {
            let tool = known.recorder.tools[self.merged(request.tool).id].index;
            let asked = known.recorder.inserted(
                known.store,
                PayloadView::Permission {
                    title: match request.tool.title {
                        Some(title) => title,
                        None => "Tool permission"@,
                    },
                    options: request.options,
                },
                self.actors.agent,
                Some(known.recorder.records[tool as int].stored.record.id),
                None,
                RecordState::Open,
            );
            if asked.error is Some {
                asked.since(known)
            } else {
                RecorderView {
                    permissions: asked.recorder.permissions.insert(
                        id,
                        known.recorder.records.len() as usize,
                    ),
                    ..asked.recorder
                }.done(asked.store).since(asked).since(known)
            }
        }
    }

    /// After a decision was submitted.
    pub open spec fn decision_observed(
        self,
        store: StoreView,
        id: PermissionIdView,
        outcome: PermissionOutcomeView,
        delivery: DecisionDelivery,
    ) -> RecordStep {
        if !self.permissions.contains_key(id) {
            self.failed(store, RecordingErrorView::MissingPermission)
        } else {
            let index = self.permissions[id] as int;
            let request = self.records[index].stored;
            let payload = PayloadView::Decision { outcome, delivery };
            let decision = self.draft(
                payload,
                self.actors.host,
                Some(request.record.id),
                None,
                RecordState::Complete,
            );
            match store.resolved(request.record.id, request.revision, decision) {
                Err(e) => self.failed(store, RecordingErrorView::Store(e)),
                Ok((response, after)) => match after.record(request.record.id) {
                    Err(e) => self.failed(after, RecordingErrorView::Store(e)),
                    Ok(answered) => RecorderView {
                        records: self.records.update(
                            index,
                            WorkingView { stored: answered, ..self.records[index] },
                        ).push(WorkingView { stored: response, payload, dirty: false }),
                        ..self
                    }.done(after),
                }.operated(self, after),
            }.operated(self, store)
        }
    }

    /// After sealing the live records from the i-th on.
    pub open spec fn sealed_from(self, store: StoreView, i: nat, complete: bool) -> RecordStep
        decreases self.records.len() - i,
    {
        if i >= self.records.len() {
            RecorderView { finished: true, ..self }.done(store)
        } else {
            let working = self.records[i as int];
            if working.stored.state.finished() {
                self.sealed_from(store, i + 1, complete)
            } else {
                match store.checkpointed(
                    working.stored.record.id,
                    working.stored.revision,
                    working.payload,
                    sealed_state(working.payload, complete),
                ) {
                    Err(e) => self.failed(store, RecordingErrorView::Store(e)),
                    Ok((stored, after)) => RecorderView {
                        records: self.records.update(
                            i as int,
                            WorkingView { stored, dirty: false, ..working },
                        ),
                        ..self
                    }.sealed_from(after, i + 1, complete),
                }.operated(self, store)
            }
        }
    }

    /// After saving the changed live records from the i-th on, without sealing them.
    pub open spec fn saved_from(self, store: StoreView, i: nat) -> RecordStep
        decreases self.records.len() - i,
    {
        if i >= self.records.len() {
            self.done(store)
        } else {
            let working = self.records[i as int];
            if !working.dirty || working.stored.state.finished() {
                self.saved_from(store, i + 1)
            } else {
                match store.checkpointed(
                    working.stored.record.id,
                    working.stored.revision,
                    working.payload,
                    RecordState::Open,
                ) {
                    Err(e) => self.failed(store, RecordingErrorView::Store(e)),
                    Ok((stored, after)) => RecorderView {
                        records: self.records.update(
                            i as int,
                            WorkingView { stored, dirty: false, ..working },
                        ),
                        ..self
                    }.saved_from(after, i + 1),
                }.operated(self, store)
            }
        }
    }

    /// The evidence of a stage of the input.
    pub open spec fn stage(self, state: Seq<char>) -> Map<Seq<char>, JsonView> {
        member("version"@, number_json(self.input_version)).insert("state"@, JsonView::Text(state))
    }

    /// After the agent stopped.
    pub open spec fn stop_observed(self, store: StoreView, reason: StopReasonView) -> RecordStep {
        let received = if self.input_receipt {
            let noted = self.evidenced(
                store,
                "input_receipt"@,
                JsonView::Object(
                    self.stage("response_received"@).insert(
                        "stop_reason"@,
                        JsonView::Text(reason.wire()),
                    ),
                ),
            );
            if noted.error is Some {
                noted
            } else {
                RecorderView { input_response: true, ..noted.recorder }.done(noted.store).since(
                    noted,
                )
            }
        } else {
            self.done(store)
        };
        if received.error is Some {
            received
        } else {
            let finished = received.recorder.inserted(
                received.store,
                PayloadView::RunFinished { reason: reason.portable() },
                self.actors.agent,
                None,
                None,
                RecordState::Complete,
            );
            if finished.error is Some {
                finished.since(received)
            } else {
                finished.recorder.sealed_from(
                    finished.store,
                    0,
                    reason is EndTurn || reason is Refusal,
                ).since(finished).since(received)
            }
        }
    }

    /// After an event.
    pub open spec fn observed(self, store: StoreView, event: AcpEventView) -> RecordStep {
        if self.finished {
            self.failed(store, RecordingErrorView::Closed)
        } else {
            let apart = RecorderView { anonymous: None, ..self };
            match event {
                AcpEventView::AgentMessage(chunk) => self.chunk_observed(
                    store,
                    MessageKind::Agent,
                    chunk,
                ),
                AcpEventView::AgentThought(chunk) => self.chunk_observed(
                    store,
                    MessageKind::Reasoning,
                    chunk,
                ),
                AcpEventView::Tool(call) => apart.tool_observed(store, call),
                AcpEventView::ToolUpdate(update) => apart.tool_observed(
                    store,
                    apart.merged(update),
                ),
                AcpEventView::Configuration(options) => apart.report_observed(store, options),
                AcpEventView::OtherUpdate(data) => apart.extended_by(
                    store,
                    "session_update"@,
                    data,
                ),
                AcpEventView::Permission { id, request } => apart.permission_observed(
                    store,
                    id,
                    request,
                ),
                AcpEventView::PermissionResolved { id, outcome, delivery } => {
                    apart.decision_observed(store, id, outcome, delivery)
                },
                AcpEventView::Finished(reason) => apart.stop_observed(store, reason),
            }
        }
    }

    /// After the recording was broken off.
    pub open spec fn interrupted(self, store: StoreView, message: Seq<char>) -> RecordStep {
        if self.finished {
            self.done(store)
        } else {
            let unknown = if self.input_receipt && !self.input_response {
                self.evidenced(
                    store,
                    "input_receipt"@,
                    JsonView::Object(self.stage("unknown"@)),
                )
            } else {
                self.done(store)
            };
            if unknown.error is Some {
                unknown
            } else {
                let failure = unknown.recorder.inserted(
                    unknown.store,
                    PayloadView::Failure { message },
                    self.actors.host,
                    None,
                    None,
                    RecordState::Complete,
                );
                if failure.error is Some {
                    failure.since(unknown)
                } else {
                    failure.recorder.sealed_from(failure.store, 0, false).since(failure).since(
                        unknown,
                    )
                }
            }
        }
    }

    /// The records with their live payloads.
    pub open spec fn live(self) -> Seq<SnapshotView> {
        self.records.map_values(
            |working: WorkingView|
                SnapshotView {
                    record: crate::model::RecordView {
                        payload: working.payload,
                        ..working.stored.record
                    },
                    ..working.stored
                },
        )
    }
}

/// A recorder at the start of a run: the run is new to the store, and its input is the
/// first record.
pub open spec fn recording_started(
    store: StoreView,
    spec: Assignment,
    input: Seq<char>,
    actors: RecordActorsView,
) -> RecordStep {
    let fresh = RecorderView::fresh(spec, actors);
    let open_store = store.session_created(spec.session_id);
    match open_store.run_registered(spec) {
        Err(e) => fresh.failed(open_store, RecordingErrorView::Store(e)),
        Ok((false, same)) => fresh.failed(same, RecordingErrorView::RunAlreadyRecorded),
        Ok((true, registered)) => fresh.inserted(
            registered,
            PayloadView::Message {
                kind: MessageKind::User,
                message: MessageView { content: seq![ContentView::Text(input)] },
            },
            actors.user,
            None,
            None,
            RecordState::Complete,
        ),
    }.operated(fresh, open_store).operated(fresh, store)
}

/// The reply and what is known and stored are those of the step, or the store could
/// not be used, which happens only if it is not dependable: what is known and stored is
/// then what it was before one of the operations of the step.
pub open spec fn followed(
    reply: Result<(), RecordingErrorView>,
    step: RecordStep,
    recorder: RecorderView,
    store: StoreView,
    dependable: bool,
) -> bool {
    ||| (reply matches Err(RecordingErrorView::Store(e)) && environmental(e) && !dependable
        && step.halts.contains((recorder, store)))
    ||| {
        &&& reply == match step.error {
            None => Ok::<(), RecordingErrorView>(()),
            Some(e) => Err::<(), RecordingErrorView>(e),
        }
        &&& recorder == step.recorder
        &&& store == step.store
    }
}

/// Records a run in a store.
pub struct Recorder {
    spec: RunSpec,
    actors: RecordActors,
    records: Vec<Working>,
    messages: Lookup<MessageKey, usize>,
    anonymous: Option<Anonymous>,
    tools: Table<ToolEntry>,
    permissions: Lookup<PermissionId, usize>,
    finished: bool,
    last_configuration: Option<Table<ConfigValue>>,
    input_receipt: bool,
    input_version: u64,
    input_response: bool,
}

impl DeepView for Recorder {
    type V = RecorderView;

    closed spec fn deep_view(&self) -> RecorderView {
        RecorderView {
            spec: self.spec.deep_view(),
            actors: self.actors.deep_view(),
            records: self.records.deep_view(),
            messages: self.messages.deep_view(),
            anonymous: self.anonymous.deep_view(),
            tools: self.tools.deep_view(),
            permissions: self.permissions.deep_view(),
            finished: self.finished,
            last_configuration: self.last_configuration.deep_view(),
            input_receipt: self.input_receipt,
            input_version: self.input_version,
            input_response: self.input_response,
        }
    }
}

fn is_sealed_complete(payload: &Payload, complete: bool) -> (r: RecordState)
    ensures
        r == sealed_state(payload.deep_view(), complete),
{
    let done = match payload {
        Payload::Permission { .. } => false,
        Payload::Tool(tool) => matches!(tool.status, ToolStatus::Completed | ToolStatus::Failed),
        _ => complete,
    };
    if done {
        RecordState::Complete
    } else {
        RecordState::Interrupted
    }
}

fn extend_message(payload: &Payload, text: &String) -> (r: Payload)
    ensures
        r.deep_view() == extended(payload.deep_view(), text@),
{
    match payload {
        Payload::Message { kind, message } => {
            let n: usize = message.content.len();
            assert(message.deep_view().content.len() == n);
            if n == 0 {
                return payload.duplicate();
            }
            assert(message.deep_view().content.last() == message.content@[n - 1].deep_view());
            match &message.content[n - 1] {
                Content::Text(buffer) => {
                    let mut content = message.content.duplicate();
                    let ghost before = content.deep_view();
                    let mut longer = buffer.clone();
                    longer.append(text.as_str());
                    let ghost last = ContentView::Text(longer@);
                    content.set(n - 1, Content::Text(longer));
                    assert(content.deep_view() =~= before.drop_last().push(last));
                    Payload::Message { kind: *kind, message: Message { content } }
                },
                _ => payload.duplicate(),
            }
        },
        _ => payload.duplicate(),
    }
}

fn one_text(text: String) -> (r: Message)
    ensures
        r.deep_view() == (MessageView { content: seq![ContentView::Text(text@)] }),
{
    let mut content: Vec<Content> = Vec::new();
    content.push(Content::Text(text));
    let r = Message { content };
    assert(r.deep_view().content =~= seq![ContentView::Text(text@)]);
    r
}

impl Recorder {
    /// Registers a new run, with its input as the first record.
    pub fn new<S: RecordStore>(
        store: &mut S,
        spec: RunSpec,
        input: &str,
        actors: RecordActors,
    ) -> (r: Result<Recorder, RecordingError>)
        ensures
            final(store).dependable() == old(store).dependable(),
            ({
                let step = recording_started(
                    old(store).contents(),
                    spec.deep_view(),
                    input@,
                    actors.deep_view(),
                );
                match r {
                    Ok(recorder) => step.error is None && recorder.deep_view() == step.recorder
                        && final(store).contents() == step.store,
                    Err(e) => (step.error == Some(e.deep_view()) && final(store).contents()
                        == step.store) || (e.deep_view() matches RecordingErrorView::Store(inner)
                        && environmental(inner) && !old(store).dependable()
                        && step.halts.contains(
                        (
                            RecorderView::fresh(spec.deep_view(), actors.deep_view()),
                            final(store).contents(),
                        ),
                    )),
                }
            }),
            r matches Ok(recorder) ==> recorder.deep_view().indexed(),
    {
        match store.create_session(spec.session_id.duplicate()) {
            Err(e) => return Err(RecordingError::Store(e)),
            Ok(_) => {},
        }
        match store.register_run(spec.duplicate()) {
            Err(e) => return Err(RecordingError::Store(e)),
            Ok(new) => {
                if !new {
                    return Err(RecordingError::RunAlreadyRecorded);
                }
            },
        }
        let last_configuration = spec.config.confirmed.duplicate();
        let user = actors.user.duplicate();
        let mut recorder = Recorder {
            spec,
            actors,
            records: Vec::new(),
            messages: Lookup::new(),
            anonymous: None,
            tools: Table::new(),
            permissions: Lookup::new(),
            finished: false,
            last_configuration,
            input_receipt: false,
            input_version: 1,
            input_response: false,
        };
        proof {
            let fresh = RecorderView::fresh(spec.deep_view(), actors.deep_view());
            assert(recorder.deep_view().records =~= fresh.records);
            assert(recorder.deep_view().tools =~= fresh.tools);
            assert(recorder.deep_view() =~= fresh);
        }
        match recorder.insert(
            store,
            Payload::Message { kind: MessageKind::User, message: one_text(input.to_owned()) },
            user,
            None,
            None,
            RecordState::Complete,
        ) {
            Err(e) => Err(e),
            Ok(_) => Ok(recorder),
        }
    }

    fn draft(
        &self,
        payload: Payload,
        actor: ActorId,
        reply_to_id: Option<RecordId>,
        source: Option<SourceRef>,
        state: RecordState,
    ) -> (r: Draft)
        ensures
            r.deep_view() == self.deep_view().draft(
                payload.deep_view(),
                actor.deep_view(),
                reply_to_id.deep_view(),
                source.deep_view(),
                state,
            ),
    {
        assert(self.deep_view().records.len() == self.records.len());
        Draft {
            id: make_record_id(&self.spec.id, self.records.len()),
            session_id: self.spec.session_id.duplicate(),
            run_id: Some(self.spec.id.duplicate()),
            actor,
            reply_to_id,
            source,
            payload,
            state,
        }
    }

    fn insert<S: RecordStore>(
        &mut self,
        store: &mut S,
        payload: Payload,
        actor: ActorId,
        reply: Option<RecordId>,
        source: Option<SourceRef>,
        state: RecordState,
    ) -> (r: Result<usize, RecordingError>)
        requires
            old(self).deep_view().indexed(),
        ensures
            final(store).dependable() == old(store).dependable(),
            final(self).deep_view().indexed(),
            ({
                let step = old(self).deep_view().inserted(
                    old(store).contents(),
                    payload.deep_view(),
                    actor.deep_view(),
                    reply.deep_view(),
                    source.deep_view(),
                    state,
                );
                match r {
                    Ok(index) => index == old(self).deep_view().records.len() && followed(
                        Ok(()),
                        step,
                        final(self).deep_view(),
                        final(store).contents(),
                        old(store).dependable(),
                    ),
                    Err(e) => followed(
                        Err(e.deep_view()),
                        step,
                        final(self).deep_view(),
                        final(store).contents(),
                        old(store).dependable(),
                    ),
                }
            }),
            r is Err ==> final(self).deep_view() == old(self).deep_view(),
    {
        let draft = self.draft(payload.duplicate(), actor, reply, source, state);
        let stored = match store.insert(draft) {
            Err(e) => return Err(RecordingError::Store(e)),
            Ok(stored) => stored,
        };
        let index: usize = self.records.len();
        assert(self.deep_view().records.len() == index);
        append(&mut self.records, Working { stored, payload, dirty: false });
        Ok(index)
    }

    fn note<S: RecordStore>(
        &mut self,
        store: &mut S,
        namespace: &str,
        name: &str,
        data: Json,
        actor: ActorId,
    ) -> (r: Result<(), RecordingError>)
        requires
            old(self).deep_view().indexed(),
        ensures
            final(store).dependable() == old(store).dependable(),
            final(self).deep_view().indexed(),
            followed(
                outcome(r),
                old(self).deep_view().noted(
                    old(store).contents(),
                    namespace@,
                    name@,
                    data.deep_view(),
                    actor.deep_view(),
                ),
                final(self).deep_view(),
                final(store).contents(),
                old(store).dependable(),
            ),
            r is Err ==> final(self).deep_view() == old(self).deep_view(),
    {
        match self.insert(
            store,
            Payload::Extension {
                namespace: namespace.to_owned(),
                name: name.to_owned(),
                data,
            },
            actor,
            None,
            None,
            RecordState::Complete,
        ) {
            Err(e) => Err(e),
            Ok(_) => Ok(()),
        }
    }

    /// Adds evidence of the host, such as how a session was restored or what a result
    /// has to be.
    pub fn evidence<S: RecordStore>(&mut self, store: &mut S, name: &str, data: Json) -> (r: Result<
        (),
        RecordingError,
    >)
        requires
            old(self).deep_view().indexed(),
        ensures
            final(store).dependable() == old(store).dependable(),
            final(self).deep_view().indexed(),
            followed(
                outcome(r),
                old(self).deep_view().evidenced(old(store).contents(), name@, data.deep_view()),
                final(self).deep_view(),
                final(store).contents(),
                old(store).dependable(),
            ),
            r is Err ==> final(self).deep_view() == old(self).deep_view(),
    {
        let host = self.actors.host.duplicate();
        self.note(store, "agent_bridge", name, data, host)
    }

    /// Adds the evidence of how a session was restored.
    pub fn restoration<S: RecordStore>(&mut self, store: &mut S, data: Json) -> (r: Result<
        (),
        RecordingError,
    >)
        requires
            old(self).deep_view().indexed(),
        ensures
            final(store).dependable() == old(store).dependable(),
            final(self).deep_view().indexed(),
            followed(
                outcome(r),
                old(self).deep_view().evidenced(
                    old(store).contents(),
                    "restoration"@,
                    data.deep_view(),
                ),
                final(self).deep_view(),
                final(store).contents(),
                old(store).dependable(),
            ),
    {
        self.evidence(store, "restoration", data)
    }

    /// Adds the evidence of what will be sent.
    pub fn prepare_input<S: RecordStore>(&mut self, store: &mut S, version: u64, receipt: Json) -> (r:
        Result<(), RecordingError>)
        requires
            old(self).deep_view().indexed(),
        ensures
            final(store).dependable() == old(store).dependable(),
            final(self).deep_view().indexed(),
            ({
                let versioned = RecorderView { input_version: version, ..old(self).deep_view() };
                let noted = versioned.evidenced(
                    old(store).contents(),
                    "input_receipt"@,
                    receipt.deep_view(),
                );
                followed(
                    outcome(r),
                    if noted.error is Some {
                        noted
                    } else {
                        RecorderView { input_receipt: true, ..noted.recorder }.done(
                            noted.store,
                        ).since(noted)
                    },
                    final(self).deep_view(),
                    final(store).contents(),
                    old(store).dependable(),
                )
            }),
    {
        self.input_version = version;
        match self.evidence(store, "input_receipt", receipt) {
            Err(e) => return Err(e),
            Ok(_) => {},
        }
        self.input_receipt = true;
        Ok(())
    }

    fn stage(&self, state: &str) -> (r: Table<Json>)
        ensures
            r.deep_view() == self.deep_view().stage(state@),
    {
        broadcast use json_views;

        let mut members: Table<Json> = Table::new();
        assert(members.deep_view() =~= Map::<Seq<char>, JsonView>::empty());
        members.put("version".to_owned(), Json::Number(JsonNumber::PosInt(self.input_version)));
        members.put("state".to_owned(), Json::Text(state.to_owned()));
        members
    }

    /// Adds the evidence that sending was attempted.
    pub fn input_dispatch_attempted<S: RecordStore>(&mut self, store: &mut S) -> (r: Result<
        (),
        RecordingError,
    >)
        requires
            old(self).deep_view().indexed(),
        ensures
            final(store).dependable() == old(store).dependable(),
            final(self).deep_view().indexed(),
            followed(
                outcome(r),
                old(self).deep_view().evidenced(
                    old(store).contents(),
                    "input_receipt"@,
                    JsonView::Object(old(self).deep_view().stage("dispatch_attempted"@)),
                ),
                final(self).deep_view(),
                final(store).contents(),
                old(store).dependable(),
            ),
    {
        broadcast use json_views;

        let data = Json::Object(self.stage("dispatch_attempted"));
        self.evidence(store, "input_receipt", data)
    }

    fn rewrite(&mut self, index: usize, payload: Payload)
        requires
            index < old(self).deep_view().records.len(),
        ensures
            final(self).deep_view() == old(self).deep_view().rewritten(
                index as int,
                payload.deep_view(),
            ),
    {
        let ghost before = self.records.deep_view();
        let working = Working { stored: share(&self.records[index].stored), payload, dirty: true };
        let ghost view = working.deep_view();
        self.records.set(index, working);
        assert(self.records.deep_view() =~= before.update(index as int, view));
    }

    fn find_message(&self, kind: MessageKind, id: &Option<String>) -> (r: Option<usize>)
        ensures
            r == self.deep_view().open_message(kind, id.deep_view()),
    {
        match id {
            Some(id) => match self.messages.get(&MessageKey { kind, id: id.clone() }) {
                Some(index) => Some(*index),
                None => None,
            },
            None => match &self.anonymous {
                Some(last) => if last.kind == kind {
                    Some(last.index)
                } else {
                    None
                },
                None => None,
            },
        }
    }

    fn add_text(&mut self, kind: MessageKind, id: &Option<String>, index: usize, text: &String)
        requires
            old(self).deep_view().indexed(),
            index < old(self).deep_view().records.len(),
        ensures
            final(self).deep_view().indexed(),
            final(self).deep_view() == old(self).deep_view().text_added(
                kind,
                id.deep_view(),
                index,
                text@,
            ),
    {
        self.anonymous = if id.is_none() {
            Some(Anonymous { kind, index })
        } else {
            None
        };
        let payload = extend_message(&self.records[index].payload, text);
        assert(self.deep_view().records[index as int] == self.records@[index as int].deep_view());
        self.rewrite(index, payload);
    }

    fn message<S: RecordStore>(&mut self, store: &mut S, kind: MessageKind, chunk: &MessageChunk) -> (r:
        Result<(), RecordingError>)
        requires
            old(self).deep_view().indexed(),
        ensures
            final(store).dependable() == old(store).dependable(),
            final(self).deep_view().indexed(),
            followed(
                outcome(r),
                old(self).deep_view().chunk_observed(
                    old(store).contents(),
                    kind,
                    chunk.deep_view(),
                ),
                final(self).deep_view(),
                final(store).contents(),
                old(store).dependable(),
            ),
    {
        let text = match &chunk.content {
            ChunkContent::Other(data) => {
                self.anonymous = None;
                let agent = self.actors.agent.duplicate();
                return self.note(store, "acp", "message_content", data.duplicate(), agent);
            },
            ChunkContent::Text(text) => text,
        };
        match self.find_message(kind, &chunk.message_id) {
            Some(index) => {
                self.add_text(kind, &chunk.message_id, index, text);
                Ok(())
            },
            None => {
                let source = match &chunk.message_id {
                    Some(id) => Some(SourceRef { namespace: "acp".to_owned(), id: id.clone() }),
                    None => None,
                };
                let agent = self.actors.agent.duplicate();
                let empty = "".to_owned();
                proof {
                    reveal_strlit("");
                    assert(empty@ =~= Seq::empty());
                }
                let index = match self.insert(
                    store,
                    Payload::Message { kind, message: one_text(empty) },
                    agent,
                    None,
                    source,
                    RecordState::Open,
                ) {
                    Err(e) => return Err(e),
                    Ok(index) => index,
                };
                match &chunk.message_id {
                    Some(id) => self.messages.insert(MessageKey { kind, id: id.clone() }, index),
                    None => {},
                }
                self.add_text(kind, &chunk.message_id, index, text);
                Ok(())
            },
        }
    }

    fn tool<S: RecordStore>(&mut self, store: &mut S, call: NativeTool) -> (r: Result<
        (),
        RecordingError,
    >)
        requires
            old(self).deep_view().indexed(),
        ensures
            final(store).dependable() == old(store).dependable(),
            final(self).deep_view().indexed(),
            followed(
                outcome(r),
                old(self).deep_view().tool_observed(old(store).contents(), call.deep_view()),
                final(self).deep_view(),
                final(store).contents(),
                old(store).dependable(),
            ),
            r is Ok ==> final(self).deep_view().tools.contains_key(call.deep_view().id),
    {
        let payload = call.payload();
        let known = match self.tools.find(call.id.as_str()) {
            Some(entry) => Some(entry.index),
            None => None,
        };
        let index = match known {
            Some(index) => {
                self.rewrite(index, payload);
                index
            },
            None => {
                let agent = self.actors.agent.duplicate();
                let source = SourceRef { namespace: "acp".to_owned(), id: call.id.clone() };
                match self.insert(store, payload, agent, None, Some(source), RecordState::Open) {
                    Err(e) => return Err(e),
                    Ok(index) => index,
                }
            },
        };
        self.tools.put(call.id.clone(), ToolEntry { index, call });
        Ok(())
    }

    fn merge(&self, update: &NativeToolUpdate) -> (r: NativeTool)
        ensures
            r.deep_view() == self.deep_view().merged(update.deep_view()),
    {
        match self.tools.find(update.id.as_str()) {
            Some(entry) => entry.call.updated(update),
            None => NativeTool::unseen(&update.id).updated(update),
        }
    }

    fn report<S: RecordStore>(&mut self, store: &mut S, options: &Vec<NativeOption>) -> (r: Result<
        (),
        RecordingError,
    >)
        requires
            old(self).deep_view().indexed(),
        ensures
            final(store).dependable() == old(store).dependable(),
            final(self).deep_view().indexed(),
            followed(
                outcome(r),
                old(self).deep_view().report_observed(old(store).contents(), options.deep_view()),
                final(self).deep_view(),
                final(store).contents(),
                old(store).dependable(),
            ),
    {
        broadcast use json_views;

        let report = match normalize(options) {
            Ok(catalog) => Some(values_of(&catalog)),
            Err(_) => None,
        };
        if report.same_as(&self.last_configuration) {
            return Ok(());
        }
        let mut members: Table<Json> = Table::new();
        assert(members.deep_view() =~= Map::<Seq<char>, JsonView>::empty());
        members.put("confirmed".to_owned(), make_values_json(&report));
        self.last_configuration = report;
        let agent = self.actors.agent.duplicate();
        self.note(store, "agent_bridge", "configuration_report", Json::Object(members), agent)
    }

    fn ask<S: RecordStore>(
        &mut self,
        store: &mut S,
        id: &PermissionId,
        request: &PermissionRequest,
    ) -> (r: Result<(), RecordingError>)
        requires
            old(self).deep_view().indexed(),
        ensures
            final(store).dependable() == old(store).dependable(),
            final(self).deep_view().indexed(),
            followed(
                outcome(r),
                old(self).deep_view().permission_observed(
                    old(store).contents(),
                    id.deep_view(),
                    request.deep_view(),
                ),
                final(self).deep_view(),
                final(store).contents(),
                old(store).dependable(),
            ),
    {
        let call = self.merge(&request.tool);
        let key = call.id.clone();
        match self.tool(store, call) {
            Err(e) => return Err(e),
            Ok(_) => {},
        }
        let reply = match self.tools.find(key.as_str()) {
            Some(entry) => {
                assert(self.deep_view().records[entry.index as int]
                    == self.records@[entry.index as int].deep_view());
                Some(self.records[entry.index].stored.record.id.duplicate())
            },
            None => None,
        };
        let title = match &request.tool.title {
            Some(title) => title.clone(),
            None => "Tool permission".to_owned(),
        };
        let agent = self.actors.agent.duplicate();
        let index = match self.insert(
            store,
            Payload::Permission { title, options: request.options.duplicate() },
            agent,
            reply,
            None,
            RecordState::Open,
        ) {
            Err(e) => return Err(e),
            Ok(index) => index,
        };
        self.permissions.insert(id.duplicate(), index);
        Ok(())
    }

    fn decide<S: RecordStore>(
        &mut self,
        store: &mut S,
        id: &PermissionId,
        chosen: &PermissionOutcome,
        delivery: DecisionDelivery,
    ) -> (r: Result<(), RecordingError>)
        requires
            old(self).deep_view().indexed(),
        ensures
            final(store).dependable() == old(store).dependable(),
            final(self).deep_view().indexed(),
            followed(
                outcome(r),
                old(self).deep_view().decision_observed(
                    old(store).contents(),
                    id.deep_view(),
                    chosen.deep_view(),
                    delivery,
                ),
                final(self).deep_view(),
                final(store).contents(),
                old(store).dependable(),
            ),
    {
        let index = match self.permissions.get(id) {
            None => return Err(RecordingError::MissingPermission),
            Some(index) => *index,
        };
        assert(self.deep_view().records[index as int] == self.records@[index as int].deep_view());
        let request = share(&self.records[index].stored);
        let payload = Payload::Decision { outcome: chosen.duplicate(), delivery };
        let host = self.actors.host.duplicate();
        let decision = self.draft(
            payload.duplicate(),
            host,
            Some(request.record.id.duplicate()),
            None,
            RecordState::Complete,
        );
        let response = match store.resolve(&request.record.id, request.revision, decision) {
            Err(e) => return Err(RecordingError::Store(e)),
            Ok(response) => response,
        };
        let answered = match store.get(&request.record.id) {
            Err(e) => return Err(RecordingError::Store(e)),
            Ok(answered) => answered,
        };
        let ghost before = self.records.deep_view();
        let working = Working {
            stored: answered,
            payload: self.records[index].payload.duplicate(),
            dirty: self.records[index].dirty,
        };
        let ghost view = working.deep_view();
        self.records.set(index, working);
        assert(self.records.deep_view() =~= before.update(index as int, view));
        append(&mut self.records, Working { stored: response, payload, dirty: false });
        Ok(())
    }

    fn finish<S: RecordStore>(&mut self, store: &mut S, complete: bool) -> (r: Result<
        (),
        RecordingError,
    >)
        requires
            old(self).deep_view().indexed(),
        ensures
            final(store).dependable() == old(store).dependable(),
            final(self).deep_view().indexed(),
            followed(
                outcome(r),
                old(self).deep_view().sealed_from(old(store).contents(), 0, complete),
                final(self).deep_view(),
                final(store).contents(),
                old(store).dependable(),
            ),
    {
        let ghost start = self.deep_view().sealed_from(store.contents(), 0, complete);
        let mut i: usize = 0;
        while i < self.records.len()
            invariant
                store.dependable() == old(store).dependable(),
                i <= self.records.len(),
                self.deep_view().indexed(),
                start == old(self).deep_view().sealed_from(old(store).contents(), 0, complete),
                start.comes_to(
                    self.deep_view().sealed_from(store.contents(), i as nat, complete),
                ),
            decreases self.records.len() - i,
        {
            assert(self.deep_view().records.len() == self.records.len());
            assert(self.deep_view().records[i as int] == self.records@[i as int].deep_view());
            if !self.records[i].stored.state.is_final() {
                let next = is_sealed_complete(&self.records[i].payload, complete);
                let stored = match store.checkpoint(
                    &self.records[i].stored.record.id,
                    self.records[i].stored.revision,
                    self.records[i].payload.duplicate(),
                    next,
                ) {
                    Err(e) => return Err(RecordingError::Store(e)),
                    Ok(stored) => stored,
                };
                self.replace_stored(i, stored);
            }
            i = i + 1;
        }
        assert(self.deep_view().records.len() == self.records.len());
        self.finished = true;
        Ok(())
    }

    fn replace_stored(&mut self, i: usize, stored: Arc<Snapshot>)
        requires
            i < old(self).deep_view().records.len(),
        ensures
            final(self).deep_view() == (RecorderView {
                records: old(self).deep_view().records.update(
                    i as int,
                    (WorkingView {
                        stored: stored.deep_view(),
                        dirty: false,
                        ..old(self).deep_view().records[i as int]
                    }),
                ),
                ..old(self).deep_view()
            }),
            final(self).records.len() == old(self).records.len(),
    {
        let ghost before = self.records.deep_view();
        let working = Working {
            stored,
            payload: self.records[i].payload.duplicate(),
            dirty: false,
        };
        let ghost view = working.deep_view();
        self.records.set(i, working);
        assert(self.records.deep_view() =~= before.update(i as int, view));
    }

    /// Persist a coarse checkpoint without sealing live records.
    pub fn checkpoint<S: RecordStore>(&mut self, store: &mut S) -> (r: Result<(), RecordingError>)
        requires
            old(self).deep_view().indexed(),
        ensures
            final(store).dependable() == old(store).dependable(),
            final(self).deep_view().indexed(),
            followed(
                outcome(r),
                old(self).deep_view().saved_from(old(store).contents(), 0),
                final(self).deep_view(),
                final(store).contents(),
                old(store).dependable(),
            ),
    {
        let ghost start = self.deep_view().saved_from(store.contents(), 0);
        let mut i: usize = 0;
        while i < self.records.len()
            invariant
                store.dependable() == old(store).dependable(),
                i <= self.records.len(),
                self.deep_view().indexed(),
                start == old(self).deep_view().saved_from(old(store).contents(), 0),
                start.comes_to(self.deep_view().saved_from(store.contents(), i as nat)),
            decreases self.records.len() - i,
        {
            assert(self.deep_view().records.len() == self.records.len());
            assert(self.deep_view().records[i as int] == self.records@[i as int].deep_view());
            if self.records[i].dirty && !self.records[i].stored.state.is_final() {
                let stored = match store.checkpoint(
                    &self.records[i].stored.record.id,
                    self.records[i].stored.revision,
                    self.records[i].payload.duplicate(),
                    RecordState::Open,
                ) {
                    Err(e) => return Err(RecordingError::Store(e)),
                    Ok(stored) => stored,
                };
                self.replace_stored(i, stored);
            }
            i = i + 1;
        }
        assert(self.deep_view().records.len() == self.records.len());
        Ok(())
    }

    fn stop<S: RecordStore>(&mut self, store: &mut S, reason: &StopReason) -> (r: Result<
        (),
        RecordingError,
    >)
        requires
            old(self).deep_view().indexed(),
        ensures
            final(store).dependable() == old(store).dependable(),
            final(self).deep_view().indexed(),
            followed(
                outcome(r),
                old(self).deep_view().stop_observed(old(store).contents(), reason.deep_view()),
                final(self).deep_view(),
                final(store).contents(),
                old(store).dependable(),
            ),
    {
        broadcast use json_views;

        if self.input_receipt {
            let mut members = self.stage("response_received");
            members.put("stop_reason".to_owned(), Json::Text(reason.wire()));
            match self.evidence(store, "input_receipt", Json::Object(members)) {
                Err(e) => return Err(e),
                Ok(_) => {},
            }
            self.input_response = true;
        }
        let agent = self.actors.agent.duplicate();
        match self.insert(
            store,
            Payload::RunFinished { reason: reason.portable() },
            agent,
            None,
            None,
            RecordState::Complete,
        ) {
            Err(e) => return Err(e),
            Ok(_) => {},
        }
        let complete = matches!(reason, StopReason::EndTurn | StopReason::Refusal);
        self.finish(store, complete)
    }

    /// Records an event.
    pub fn observe<S: RecordStore>(&mut self, store: &mut S, event: &AcpEvent) -> (r: Result<
        (),
        RecordingError,
    >)
        requires
            old(self).deep_view().indexed(),
        ensures
            final(store).dependable() == old(store).dependable(),
            final(self).deep_view().indexed(),
            followed(
                outcome(r),
                old(self).deep_view().observed(old(store).contents(), event.deep_view()),
                final(self).deep_view(),
                final(store).contents(),
                old(store).dependable(),
            ),
    {
        if self.finished {
            return Err(RecordingError::Closed);
        }
        if !matches!(event, AcpEvent::AgentMessage(_) | AcpEvent::AgentThought(_)) {
            self.anonymous = None;
        }
        match event {
            AcpEvent::AgentMessage(chunk) => self.message(store, MessageKind::Agent, chunk),
            AcpEvent::AgentThought(chunk) => self.message(store, MessageKind::Reasoning, chunk),
            AcpEvent::Tool(call) => self.tool(store, call.duplicate()),
            AcpEvent::ToolUpdate(update) => {
                let call = self.merge(update);
                self.tool(store, call)
            },
            AcpEvent::Configuration(options) => self.report(store, options),
            AcpEvent::OtherUpdate(data) => {
                let agent = self.actors.agent.duplicate();
                self.note(store, "acp", "session_update", data.duplicate(), agent)
            },
            AcpEvent::Permission { id, request } => self.ask(store, id, request),
            AcpEvent::PermissionResolved { id, outcome: chosen, delivery } => self.decide(
                store,
                id,
                chosen,
                *delivery,
            ),
            AcpEvent::Finished(reason) => self.stop(store, reason),
        }
    }

    /// Seals the records of a run whose end was not observed.
    pub fn interrupt<S: RecordStore>(&mut self, store: &mut S, message: String) -> (r: Result<
        (),
        RecordingError,
    >)
        requires
            old(self).deep_view().indexed(),
        ensures
            final(store).dependable() == old(store).dependable(),
            final(self).deep_view().indexed(),
            followed(
                outcome(r),
                old(self).deep_view().interrupted(old(store).contents(), message@),
                final(self).deep_view(),
                final(store).contents(),
                old(store).dependable(),
            ),
    {
        broadcast use json_views;

        if self.finished {
            return Ok(());
        }
        if self.input_receipt && !self.input_response {
            let data = Json::Object(self.stage("unknown"));
            match self.evidence(store, "input_receipt", data) {
                Err(e) => return Err(e),
                Ok(_) => {},
            }
        }
        let host = self.actors.host.duplicate();
        match self.insert(
            store,
            Payload::Failure { message },
            host,
            None,
            None,
            RecordState::Complete,
        ) {
            Err(e) => return Err(e),
            Ok(_) => {},
        }
        self.finish(store, false)
    }

    /// Live payloads with persisted identity/revision. Reading explicitly clones content.
    pub fn snapshot(&self) -> (r: Vec<Snapshot>)
        ensures
            r.deep_view() == self.deep_view().live(),
    {
        let mut r: Vec<Snapshot> = Vec::new();
        let mut i: usize = 0;
        while i < self.records.len()
            invariant
                i <= self.records.len(),
                r.len() == i,
                forall|j: int|
                    0 <= j < i ==> (#[trigger] r@[j]).deep_view() == self.deep_view().live()[j],
            decreases self.records.len() - i,
        {
            let working = &self.records[i];
            assert(self.deep_view().records[i as int] == working.deep_view());
            let stored = &working.stored;
            r.push(
                Snapshot {
                    record: Record {
                        id: stored.record.id.duplicate(),
                        session_id: stored.record.session_id.duplicate(),
                        run_id: stored.record.run_id.duplicate(),
                        sequence: stored.record.sequence,
                        actor: stored.record.actor.duplicate(),
                        reply_to_id: stored.record.reply_to_id.duplicate(),
                        payload: working.payload.duplicate(),
                    },
                    source: stored.source.duplicate(),
                    revision: stored.revision,
                    state: stored.state,
                },
            );
            i = i + 1;
        }
        assert(r.deep_view() =~= self.deep_view().live());
        r
    }

    /// Whether the recording has come to its end.
    pub fn is_finished(&self) -> (r: bool)
        ensures
            r == self.deep_view().finished,
    {
        self.finished
    }
}

/// Different records, of one run or of different runs, have different ids.
pub proof fn record_ids_do_not_collide(run_a: Seq<char>, a: nat, run_b: Seq<char>, b: nat)
    requires
        record_id(run_a, a) == record_id(run_b, b),
    ensures
        run_a == run_b,
        a == b,
{
    let rest_a = "/record/"@ + decimal(a);
    let rest_b = "/record/"@ + decimal(b);
    assert(record_id(run_a, a) =~= "run/"@ + (counted(run_a) + rest_a));
    assert(record_id(run_b, b) =~= "run/"@ + (counted(run_b) + rest_b));
    assert(counted(run_a) + rest_a =~= record_id(run_a, a).skip("run/"@.len() as int));
    assert(counted(run_b) + rest_b =~= record_id(run_b, b).skip("run/"@.len() as int));
    counted_texts_do_not_collide(run_a, rest_a, run_b, rest_b);
    assert(decimal(a) =~= rest_a.skip("/record/"@.len() as int));
    assert(decimal(b) =~= rest_b.skip("/record/"@.len() as int));
    decimal_is_injective(a, b);
}

proof fn sealing_seals(recorder: RecorderView, store: StoreView, i: nat, complete: bool)
    requires
        i <= recorder.records.len(),
        forall|j: int|
            0 <= j < i ==> (#[trigger] recorder.records[j]).stored.state.finished(),
    ensures
        ({
            let step = recorder.sealed_from(store, i, complete);
            step.error is None ==> step.recorder.finished && step.recorder.records.len()
                == recorder.records.len() && forall|j: int|
                0 <= j < recorder.records.len() ==> (
                #[trigger] step.recorder.records[j]).stored.state.finished()
        }),
    decreases recorder.records.len() - i,
{
    if i < recorder.records.len() {
        let working = recorder.records[i as int];
        if working.stored.state.finished() {
            sealing_seals(recorder, store, i + 1, complete);
        } else {
            let next = sealed_state(working.payload, complete);
            if let Ok((stored, after)) = store.checkpointed(
                working.stored.record.id,
                working.stored.revision,
                working.payload,
                next,
            ) {
                assert(stored.state == next);
                let continued = RecorderView {
                    records: recorder.records.update(
                        i as int,
                        WorkingView { stored, dirty: false, ..working },
                    ),
                    ..recorder
                };
                sealing_seals(continued, after, i + 1, complete);
            }
        }
    }
}

/// Once the end of a run is recorded every record of it is final, and nothing more
/// can be recorded.
pub proof fn finished_recordings_are_sealed(
    recorder: RecorderView,
    store: StoreView,
    reason: StopReasonView,
    later: AcpEventView,
)
    ensures
        ({
            let step = recorder.observed(store, AcpEventView::Finished(reason));
            step.error is None ==> {
                &&& step.recorder.finished
                &&& forall|j: int|
                    0 <= j < step.recorder.records.len() ==> (
                    #[trigger] step.recorder.records[j]).stored.state.finished()
                &&& step.recorder.observed(step.store, later).error == Some(
                    RecordingErrorView::Closed,
                )
            }
        }),
{
    let step = recorder.observed(store, AcpEventView::Finished(reason));
    if step.error is None {
        let apart = RecorderView { anonymous: None, ..recorder };
        let received = if apart.input_receipt {
            let noted = apart.evidenced(
                store,
                "input_receipt"@,
                JsonView::Object(
                    apart.stage("response_received"@).insert(
                        "stop_reason"@,
                        JsonView::Text(reason.wire()),
                    ),
                ),
            );
            RecorderView { input_response: true, ..noted.recorder }.done(noted.store)
        } else {
            apart.done(store)
        };
        let finished = received.recorder.inserted(
            received.store,
            PayloadView::RunFinished { reason: reason.portable() },
            apart.actors.agent,
            None,
            None,
            RecordState::Complete,
        );
        sealing_seals(
            finished.recorder,
            finished.store,
            0,
            reason is EndTurn || reason is Refusal,
        );
    }
}

proof fn sealing_halts_unfinished(recorder: RecorderView, store: StoreView, i: nat, complete: bool)
    ensures
        forall|halt: (RecorderView, StoreView)| #[trigger]
            recorder.sealed_from(store, i, complete).halts.contains(halt) ==> halt.0.finished
                == recorder.finished,
    decreases recorder.records.len() - i,
{
    if i < recorder.records.len() {
        let working = recorder.records[i as int];
        if working.stored.state.finished() {
            sealing_halts_unfinished(recorder, store, i + 1, complete);
        } else {
            match store.checkpointed(
                working.stored.record.id,
                working.stored.revision,
                working.payload,
                sealed_state(working.payload, complete),
            ) {
                Err(_) => {},
                Ok((stored, after)) => {
                    let continued = RecorderView {
                        records: recorder.records.update(
                            i as int,
                            WorkingView { stored, dirty: false, ..working },
                        ),
                        ..recorder
                    };
                    sealing_halts_unfinished(continued, after, i + 1, complete);
                },
            }
        }
    }
}

proof fn saving_halts_unfinished(recorder: RecorderView, store: StoreView, i: nat)
    ensures
        forall|halt: (RecorderView, StoreView)| #[trigger]
            recorder.saved_from(store, i).halts.contains(halt) ==> halt.0.finished
                == recorder.finished,
    decreases recorder.records.len() - i,
{
    if i < recorder.records.len() {
        let working = recorder.records[i as int];
        if !working.dirty || working.stored.state.finished() {
            saving_halts_unfinished(recorder, store, i + 1);
        } else {
            match store.checkpointed(
                working.stored.record.id,
                working.stored.revision,
                working.payload,
                RecordState::Open,
            ) {
                Err(_) => {},
                Ok((stored, after)) => {
                    let continued = RecorderView {
                        records: recorder.records.update(
                            i as int,
                            WorkingView { stored, dirty: false, ..working },
                        ),
                        ..recorder
                    };
                    saving_halts_unfinished(continued, after, i + 1);
                },
            }
        }
    }
}

proof fn stopping_halts_unfinished(recorder: RecorderView, store: StoreView, reason: StopReasonView)
    requires
        !recorder.finished,
    ensures
        halts_unfinished(recorder.stop_observed(store, reason)),
{
    let noted = recorder.evidenced(
        store,
        "input_receipt"@,
        JsonView::Object(
            recorder.stage("response_received"@).insert(
                "stop_reason"@,
                JsonView::Text(reason.wire()),
            ),
        ),
    );
    let received = if recorder.input_receipt {
        RecorderView { input_response: true, ..noted.recorder }.done(noted.store)
    } else {
        recorder.done(store)
    };
    let finished = received.recorder.inserted(
        received.store,
        PayloadView::RunFinished { reason: reason.portable() },
        recorder.actors.agent,
        None,
        None,
        RecordState::Complete,
    );
    sealing_halts_unfinished(
        finished.recorder,
        finished.store,
        0,
        reason is EndTurn || reason is Refusal,
    );
}

proof fn interrupting_halts_unfinished(recorder: RecorderView, store: StoreView, message: Seq<char>)
    requires
        !recorder.finished,
    ensures
        halts_unfinished(recorder.interrupted(store, message)),
{
    let unknown = if recorder.input_receipt && !recorder.input_response {
        recorder.evidenced(store, "input_receipt"@, JsonView::Object(recorder.stage("unknown"@)))
    } else {
        recorder.done(store)
    };
    let failure = unknown.recorder.inserted(
        unknown.store,
        PayloadView::Failure { message },
        recorder.actors.host,
        None,
        None,
        RecordState::Complete,
    );
    sealing_halts_unfinished(failure.recorder, failure.store, 0, false);
}

/// The halts of the step are those of a recording that is not at its end.
spec fn halts_unfinished(step: RecordStep) -> bool {
    forall|halt: (RecorderView, StoreView)| #[trigger]
        step.halts.contains(halt) ==> !halt.0.finished
}

proof fn chunk_halts_unfinished(
    recorder: RecorderView,
    store: StoreView,
    kind: MessageKind,
    chunk: MessageChunkView,
)
    requires
        !recorder.finished,
    ensures
        halts_unfinished(recorder.chunk_observed(store, kind, chunk)),
{
}

proof fn tool_halts_unfinished(recorder: RecorderView, store: StoreView, call: NativeToolView)
    requires
        !recorder.finished,
    ensures
        halts_unfinished(recorder.tool_observed(store, call)),
{
}

proof fn asking_halts_unfinished(
    recorder: RecorderView,
    store: StoreView,
    id: PermissionIdView,
    request: PermissionRequestView,
)
    requires
        !recorder.finished,
    ensures
        halts_unfinished(recorder.permission_observed(store, id, request)),
{
}

proof fn decision_halts_unfinished(
    recorder: RecorderView,
    store: StoreView,
    id: PermissionIdView,
    outcome: PermissionOutcomeView,
    delivery: DecisionDelivery,
)
    requires
        !recorder.finished,
    ensures
        halts_unfinished(recorder.decision_observed(store, id, outcome, delivery)),
{
}

proof fn observing_halts_unfinished(recorder: RecorderView, store: StoreView, event: AcpEventView)
    requires
        !recorder.finished,
    ensures
        halts_unfinished(recorder.observed(store, event)),
{
    let apart = RecorderView { anonymous: None, ..recorder };
    match event {
        AcpEventView::AgentMessage(chunk) => chunk_halts_unfinished(
            recorder,
            store,
            MessageKind::Agent,
            chunk,
        ),
        AcpEventView::AgentThought(chunk) => chunk_halts_unfinished(
            recorder,
            store,
            MessageKind::Reasoning,
            chunk,
        ),
        AcpEventView::Tool(call) => tool_halts_unfinished(apart, store, call),
        AcpEventView::ToolUpdate(update) => tool_halts_unfinished(
            apart,
            store,
            apart.merged(update),
        ),
        AcpEventView::Configuration(options) => {
            assert(halts_unfinished(apart.report_observed(store, options)));
        },
        AcpEventView::OtherUpdate(data) => {
            assert(halts_unfinished(apart.extended_by(store, "session_update"@, data)));
        },
        AcpEventView::Permission { id, request } => asking_halts_unfinished(
            apart,
            store,
            id,
            request,
        ),
        AcpEventView::PermissionResolved { id, outcome, delivery } => decision_halts_unfinished(
            apart,
            store,
            id,
            outcome,
            delivery,
        ),
        AcpEventView::Finished(reason) => stopping_halts_unfinished(apart, store, reason),
    }
}

/// A recording that a store breaks off by not being usable is not at its end: neither
/// an event nor an interruption nor a checkpoint that is left unfinished keeps the
/// recording from being sealed later.
pub proof fn unusable_stores_finish_nothing(
    recorder: RecorderView,
    store: StoreView,
    event: AcpEventView,
    message: Seq<char>,
)
    ensures
        forall|halt: (RecorderView, StoreView)| #[trigger]
            recorder.observed(store, event).halts.contains(halt) ==> !halt.0.finished,
        forall|halt: (RecorderView, StoreView)| #[trigger]
            recorder.interrupted(store, message).halts.contains(halt) ==> !halt.0.finished,
        forall|halt: (RecorderView, StoreView)| #[trigger]
            recorder.saved_from(store, 0).halts.contains(halt) ==> halt.0.finished
                == recorder.finished,
{
    saving_halts_unfinished(recorder, store, 0);
    if !recorder.finished {
        interrupting_halts_unfinished(recorder, store, message);
        observing_halts_unfinished(recorder, store, event);
    }
}

/// What needs no store is not kept up by one that cannot be used: at the end of a
/// recording every event is refused, and text of a message that is open is taken up.
pub proof fn events_without_operations_need_no_store(
    recorder: RecorderView,
    store: StoreView,
    event: AcpEventView,
    kind: MessageKind,
    id: Option<Seq<char>>,
    text: Seq<char>,
)
    ensures
        recorder.finished ==> recorder.observed(store, event) == recorder.failed(
            store,
            RecordingErrorView::Closed,
        ),
        recorder.open_message(kind, id) matches Some(index) ==> recorder.chunk_observed(
            store,
            kind,
            MessageChunkView { content: ChunkContentView::Text(text), message_id: id },
        ) == recorder.text_added(kind, id, index, text).done(store),
        forall|reply: Result<(), RecordingErrorView>, after: RecorderView, stored: StoreView|
            recorder.finished && #[trigger] followed(
                reply,
                recorder.observed(store, event),
                after,
                stored,
                false,
            ) ==> reply == Err::<(), RecordingErrorView>(RecordingErrorView::Closed) && after
                == recorder && stored == store,
{
}

/// The payload is text of the kind.
pub open spec fn is_text_of(payload: PayloadView, kind: MessageKind) -> bool {
    payload matches PayloadView::Message { kind: own, message } && own == kind
        && message.content.len() == 1 && message.content[0] is Text
}

impl RecorderView {
    /// Messages, text without an id and tool calls are kept in records of their own.
    pub open spec fn apart(self) -> bool {
        &&& self.indexed()
        &&& forall|key: MessageKeyView| #[trigger]
            self.messages.contains_key(key) ==> is_text_of(
                self.records[self.messages[key] as int].payload,
                key.kind,
            )
        &&& forall|a: MessageKeyView, b: MessageKeyView|
            #![trigger self.messages.contains_key(a), self.messages.contains_key(b)]
            self.messages.contains_key(a) && self.messages.contains_key(b) && a != b
                ==> self.messages[a] != self.messages[b]
        &&& self.anonymous matches Some(last) ==> is_text_of(
            self.records[last.index as int].payload,
            last.kind,
        )
        &&& self.anonymous matches Some(last) ==> forall|key: MessageKeyView| #[trigger]
            self.messages.contains_key(key) ==> self.messages[key] != last.index
        &&& forall|key: Seq<char>| #[trigger]
            self.tools.contains_key(key) ==> self.records[self.tools[key].index as int].payload is Tool
    }
}

proof fn inserting_keeps_apart(
    recorder: RecorderView,
    store: StoreView,
    payload: PayloadView,
    actor: Seq<char>,
    reply: Option<Seq<char>>,
    source: Option<SourceRefView>,
    state: RecordState,
)
    requires
        recorder.apart(),
    ensures
        ({
            let step = recorder.inserted(store, payload, actor, reply, source, state);
            &&& step.recorder.apart()
            &&& forall|i: int|
                0 <= i < recorder.records.len() ==> #[trigger] step.recorder.records[i]
                    == recorder.records[i]
        }),
{
    let step = recorder.inserted(store, payload, actor, reply, source, state);
    let next = step.recorder;
    assert forall|key: MessageKeyView| #[trigger] next.messages.contains_key(key) implies is_text_of(
        next.records[next.messages[key] as int].payload,
        key.kind,
    ) by {
        assert(recorder.messages.contains_key(key));
    }
    assert forall|key: Seq<char>| #[trigger] next.tools.contains_key(
        key,
    ) implies next.records[next.tools[key].index as int].payload is Tool by {
        assert(recorder.tools.contains_key(key));
    }
}

/// Chunks of messages do not run into each other: whether by its id or, without one,
/// by its place in the stream, a chunk goes on in one record of its own kind, and no
/// other record changes.
pub proof fn messages_do_not_merge(
    recorder: RecorderView,
    store: StoreView,
    kind: MessageKind,
    chunk: MessageChunkView,
    text: Seq<char>,
)
    requires
        recorder.apart(),
        recorder.records.len() < usize::MAX,
        chunk.content == ChunkContentView::Text(text),
    ensures
        ({
            let step = recorder.chunk_observed(store, kind, chunk);
            step.error is None ==> {
                let index = match recorder.open_message(kind, chunk.message_id) {
                    Some(index) => index,
                    None => recorder.records.len() as usize,
                };
                let before = match recorder.open_message(kind, chunk.message_id) {
                    Some(index) => recorder.records[index as int].payload,
                    None => PayloadView::Message {
                        kind,
                        message: MessageView { content: seq![ContentView::Text(Seq::empty())] },
                    },
                };
                &&& step.recorder.apart()
                &&& is_text_of(before, kind)
                &&& step.recorder.records[index as int].payload == extended(before, text)
                &&& forall|i: int|
                    0 <= i < recorder.records.len() && i != index
                        ==> #[trigger] step.recorder.records[i] == recorder.records[i]
                &&& step.recorder.open_message(kind, chunk.message_id) == Some(index)
            }
        }),
{
    let step = recorder.chunk_observed(store, kind, chunk);
    if step.error is None {
        match recorder.open_message(kind, chunk.message_id) {
            Some(index) => {
                if chunk.message_id is Some {
                    assert(recorder.messages.contains_key(
                        MessageKeyView { kind, id: chunk.message_id->0 },
                    ));
                }
                adding_text_keeps_apart(recorder, kind, chunk.message_id, index, text);
            },
            None => {
                let source = match chunk.message_id {
                    Some(id) => Some(SourceRefView { namespace: "acp"@, id }),
                    None => None,
                };
                let empty = PayloadView::Message {
                    kind,
                    message: MessageView { content: seq![ContentView::Text(Seq::empty())] },
                };
                inserting_keeps_apart(
                    recorder,
                    store,
                    empty,
                    recorder.actors.agent,
                    None,
                    source,
                    RecordState::Open,
                );
                let opened = recorder.inserted(
                    store,
                    empty,
                    recorder.actors.agent,
                    None,
                    source,
                    RecordState::Open,
                );
                let index = recorder.records.len() as usize;
                let keyed = match chunk.message_id {
                    Some(id) => RecorderView {
                        messages: opened.recorder.messages.insert(
                            MessageKeyView { kind, id },
                            index,
                        ),
                        ..opened.recorder
                    },
                    None => opened.recorder,
                };
                assert(is_text_of(empty, kind));
                assert(keyed.records[index as int].payload == empty);
                assert forall|key: MessageKeyView| #[trigger] keyed.messages.contains_key(
                    key,
                ) implies is_text_of(keyed.records[keyed.messages[key] as int].payload, key.kind) by {
                    if keyed.messages[key] != index {
                        assert(opened.recorder.messages.contains_key(key));
                    }
                }
                assert forall|a: MessageKeyView, b: MessageKeyView|
                    #![trigger keyed.messages.contains_key(a), keyed.messages.contains_key(b)]
                    keyed.messages.contains_key(a) && keyed.messages.contains_key(b) && a
                        != b implies keyed.messages[a] != keyed.messages[b] by {
                    if recorder.messages.contains_key(a) && recorder.messages.contains_key(b) {
                        assert(recorder.messages[a] < index && recorder.messages[b] < index);
                    }
                }
                adding_text_keeps_apart(keyed, kind, chunk.message_id, index, text);
            },
        }
    }
}

proof fn adding_text_keeps_apart(
    recorder: RecorderView,
    kind: MessageKind,
    id: Option<Seq<char>>,
    index: usize,
    text: Seq<char>,
)
    requires
        recorder.indexed(),
        index < recorder.records.len(),
        is_text_of(recorder.records[index as int].payload, kind),
        forall|key: MessageKeyView| #[trigger]
            recorder.messages.contains_key(key) ==> is_text_of(
                recorder.records[recorder.messages[key] as int].payload,
                key.kind,
            ),
        forall|a: MessageKeyView, b: MessageKeyView|
            #![trigger recorder.messages.contains_key(a), recorder.messages.contains_key(b)]
            recorder.messages.contains_key(a) && recorder.messages.contains_key(b) && a != b
                ==> recorder.messages[a] != recorder.messages[b],
        forall|key: Seq<char>| #[trigger]
            recorder.tools.contains_key(key)
                ==> recorder.records[recorder.tools[key].index as int].payload is Tool,
        id is None ==> forall|key: MessageKeyView| #[trigger]
            recorder.messages.contains_key(key) ==> recorder.messages[key] != index,
        id is Some ==> recorder.messages.contains_key(MessageKeyView { kind, id: id->0 })
            && recorder.messages[(MessageKeyView { kind, id: id->0 })] == index,
    ensures
        recorder.text_added(kind, id, index, text).apart(),
{
    let next = recorder.text_added(kind, id, index, text);
    assert(is_text_of(next.records[index as int].payload, kind));
    assert forall|key: MessageKeyView| #[trigger] next.messages.contains_key(key) implies is_text_of(
        next.records[next.messages[key] as int].payload,
        key.kind,
    ) by {
        assert(recorder.messages.contains_key(key));
    }
    assert forall|key: Seq<char>| #[trigger] next.tools.contains_key(
        key,
    ) implies next.records[next.tools[key].index as int].payload is Tool by {
        assert(recorder.tools.contains_key(key));
    }
}

} // verus!
