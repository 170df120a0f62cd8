use agent_bridge::acp::error::RecordingError;
use agent_bridge::acp::event::{
    AcpEvent, ChunkContent, MessageChunk, NativeTool, NativeToolStatus, NativeToolUpdate,
    PermissionId, PermissionRequest, StopReason,
};
use agent_bridge::acp::recording::{RecordActors, Recorder};
use agent_bridge::configuration::RunConfiguration;
use agent_bridge::id::{ActorId, RecordId, RunId, SessionId, SlotId};
use agent_bridge::json::Json;
use agent_bridge::model::{Content, ContextManifest};
use agent_bridge::records::memory::MemoryStore;
use agent_bridge::records::store::{RecordStore, StoreView};
use agent_bridge::records::{
    CompletionReason, DecisionDelivery, Draft, MessageKind, Payload, PermissionOption,
    PermissionOutcome, RecordState, Snapshot, StoreError, ToolStatus,
};
use agent_bridge::run::RunSpec;
use agent_bridge::table::Table;
use std::cell::Cell;
use std::sync::Arc;

fn text(value: &str) -> Json {
    Json::Text(value.to_owned())
}

fn object(members: Vec<(&str, Json)>) -> Json {
    let mut table = Table::new();
    for (name, value) in members {
        table.insert(name.to_owned(), value);
    }
    Json::Object(table)
}

fn spec() -> RunSpec {
    RunSpec {
        id: RunId::new("r".to_owned()).unwrap(),
        session_id: SessionId::new("s".to_owned()).unwrap(),
        slot_id: SlotId::new("slot".to_owned()).unwrap(),
        context: ContextManifest::default(),
        config: RunConfiguration::default(),
        continuation: None,
    }
}

fn actors() -> RecordActors {
    RecordActors {
        user: ActorId::new("u".to_owned()).unwrap(),
        agent: ActorId::new("a".to_owned()).unwrap(),
        host: ActorId::new("h".to_owned()).unwrap(),
    }
}

fn recorder(store: &mut MemoryStore) -> Recorder {
    Recorder::new(store, spec(), "Question", actors()).unwrap()
}

fn chunk(id: &str, value: &str) -> MessageChunk {
    MessageChunk {
        message_id: Some(id.to_owned()),
        content: ChunkContent::Text(value.to_owned()),
    }
}

fn session() -> SessionId {
    SessionId::new("s".to_owned()).unwrap()
}

fn texts(content: &Vec<Content>) -> Vec<String> {
    content
        .iter()
        .map(|content| match content {
            Content::Text(text) => text.clone(),
            Content::Resource(_) => "resource".to_owned(),
        })
        .collect()
}

#[test]
fn message_ids_and_reasoning_channels_do_not_merge_unrelated_output() {
    let mut store = MemoryStore::new();
    let mut recorder = recorder(&mut store);
    for event in [
        AcpEvent::AgentMessage(chunk("one", "A")),
        AcpEvent::AgentThought(chunk("one", "R")),
        AcpEvent::AgentMessage(chunk("two", "B")),
        AcpEvent::AgentMessage(chunk("one", "C")),
    ] {
        recorder.observe(&mut store, &event).unwrap();
    }
    recorder.observe(&mut store, &AcpEvent::Finished(StopReason::EndTurn)).unwrap();
    let messages: Vec<(MessageKind, Vec<String>)> = store
        .list(&session(), None, 100)
        .unwrap()
        .into_iter()
        .filter_map(|record| match &record.record.payload {
            Payload::Message { kind, message } => Some((*kind, texts(&message.content))),
            _ => None,
        })
        .collect();
    assert_eq!(
        messages,
        vec![
            (MessageKind::User, vec!["Question".to_owned()]),
            (MessageKind::Agent, vec!["AC".to_owned()]),
            (MessageKind::Reasoning, vec!["R".to_owned()]),
            (MessageKind::Agent, vec!["B".to_owned()]),
        ]
    );
}

#[test]
fn partial_tool_updates_preserve_inputs_and_replace_content_collections() {
    let mut store = MemoryStore::new();
    let mut recorder = recorder(&mut store);
    let call = NativeTool {
        id: "t".to_owned(),
        title: "Read".to_owned(),
        name: None,
        kind: "other".to_owned(),
        status: NativeToolStatus::Pending,
        content: vec![object(vec![
            ("type", text("content")),
            ("content", object(vec![("type", text("text")), ("text", text("old"))])),
        ])],
        locations: Vec::new(),
        raw_input: Some(object(vec![("path", text("a"))])),
        raw_output: None,
        meta: None,
    };
    recorder.observe(&mut store, &AcpEvent::Tool(call)).unwrap();
    let update = NativeToolUpdate {
        id: "t".to_owned(),
        title: None,
        name: None,
        kind: None,
        status: Some(NativeToolStatus::Completed),
        content: Some(Vec::new()),
        locations: None,
        raw_input: None,
        raw_output: Some(object(vec![("ok", Json::Bool(true))])),
        meta: None,
    };
    recorder.observe(&mut store, &AcpEvent::ToolUpdate(update)).unwrap();
    recorder.observe(&mut store, &AcpEvent::Finished(StopReason::EndTurn)).unwrap();
    let records = store.list(&session(), None, 100).unwrap();
    let tool = records
        .iter()
        .find_map(|r| {
            if let Payload::Tool(tool) = &r.record.payload {
                Some(tool)
            } else {
                None
            }
        })
        .unwrap();
    assert_eq!(tool.input, Some(object(vec![("path", text("a"))])));
    assert_eq!(tool.output, Some(object(vec![("ok", Json::Bool(true))])));
    assert_eq!(tool.status, ToolStatus::Completed);
    assert!(tool.extensions.get("acp").unwrap().get("content").is_none());
}

#[test]
fn unsupported_content_and_plans_remain_available_as_extensions() {
    let mut store = MemoryStore::new();
    let mut recorder = recorder(&mut store);
    let image = object(vec![(
        "content",
        object(vec![
            ("type", text("image")),
            ("data", text("YWJj")),
            ("mimeType", text("image/png")),
        ]),
    )]);
    recorder
        .observe(
            &mut store,
            &AcpEvent::AgentMessage(MessageChunk {
                message_id: None,
                content: ChunkContent::Other(image),
            }),
        )
        .unwrap();
    let plan =
        object(vec![("sessionUpdate", text("plan")), ("entries", Json::Array(Vec::new()))]);
    recorder.observe(&mut store, &AcpEvent::OtherUpdate(plan)).unwrap();
    recorder.observe(&mut store, &AcpEvent::Finished(StopReason::EndTurn)).unwrap();
    let records = store.list(&session(), None, 100).unwrap();
    assert!(records.iter().any(|r| match &r.record.payload {
        Payload::Extension { name, data, .. } => {
            name == "message_content"
                && data.get("content").unwrap().get("data") == Some(&text("YWJj"))
        }
        _ => false,
    }));
    assert!(records.iter().any(|r| match &r.record.payload {
        Payload::Extension { name, data, .. } => {
            name == "session_update" && data.get("sessionUpdate") == Some(&text("plan"))
        }
        _ => false,
    }));
}

#[test]
fn a_run_is_recorded_once() {
    let mut store = MemoryStore::new();
    recorder(&mut store);
    let again = Recorder::new(&mut store, spec(), "Question", actors());
    assert!(matches!(again, Err(RecordingError::RunAlreadyRecorded)));
}

#[test]
fn decisions_without_a_request_are_refused() {
    let mut store = MemoryStore::new();
    let mut recorder = recorder(&mut store);
    let unknown = AcpEvent::PermissionResolved {
        id: PermissionId { run_id: RunId::new("r".to_owned()).unwrap(), sequence: 7 },
        outcome: PermissionOutcome::Cancelled,
        delivery: DecisionDelivery::Queued,
    };
    let error = recorder.observe(&mut store, &unknown).unwrap_err();
    assert_eq!(error, RecordingError::MissingPermission);
}

#[test]
fn a_permission_is_decided_in_the_record_of_its_request() {
    let mut store = MemoryStore::new();
    let mut recorder = recorder(&mut store);
    let id = PermissionId { run_id: RunId::new("r".to_owned()).unwrap(), sequence: 0 };
    let request = PermissionRequest {
        tool: NativeToolUpdate {
            id: "t".to_owned(),
            title: Some("Write a file".to_owned()),
            name: None,
            kind: None,
            status: None,
            content: None,
            locations: None,
            raw_input: None,
            raw_output: None,
            meta: None,
        },
        options: vec![PermissionOption {
            id: "yes".to_owned(),
            label: "Yes".to_owned(),
            effect: "allow_once".to_owned(),
        }],
    };
    recorder.observe(&mut store, &AcpEvent::Permission { id, request }).unwrap();
    let decided = AcpEvent::PermissionResolved {
        id: PermissionId { run_id: RunId::new("r".to_owned()).unwrap(), sequence: 0 },
        outcome: PermissionOutcome::Selected("yes".to_owned()),
        delivery: DecisionDelivery::Queued,
    };
    recorder.observe(&mut store, &decided).unwrap();
    let records = store.list(&session(), None, 100).unwrap();
    let asked = records
        .iter()
        .find(|r| matches!(&r.record.payload, Payload::Permission { .. }))
        .unwrap();
    let answer = records
        .iter()
        .find(|r| matches!(&r.record.payload, Payload::Decision { .. }))
        .unwrap();
    assert_eq!(asked.state, RecordState::Complete);
    assert_eq!(answer.record.reply_to_id, Some(agent_bridge::id::RecordId::new(
        asked.record.id.as_str().to_owned(),
    ).unwrap()));
    store.check_consistency();
}

#[test]
fn an_interrupted_run_keeps_what_was_observed() {
    let mut store = MemoryStore::new();
    let mut recorder = recorder(&mut store);
    recorder.observe(&mut store, &AcpEvent::AgentMessage(chunk("one", "half"))).unwrap();
    recorder.interrupt(&mut store, "gone".to_owned()).unwrap();
    assert!(recorder.is_finished());
    let records = store.list(&session(), None, 100).unwrap();
    assert!(records.iter().any(|r| r.state == RecordState::Interrupted
        && matches!(&r.record.payload, Payload::Message { kind: MessageKind::Agent, .. })));
    assert!(records.iter().any(|r| match &r.record.payload {
        Payload::Failure { message } => message == "gone",
        _ => false,
    }));
}

/// A store that can be used for so many operations.
struct Failing {
    inner: MemoryStore,
    left: Cell<usize>,
}

impl Failing {
    fn ask(&self) -> Result<(), StoreError> {
        if self.left.get() == 0 {
            Err(StoreError::Busy)
        } else {
            self.left.set(self.left.get() - 1);
            Ok(())
        }
    }
}

impl RecordStore for Failing {
    fn contents(&self) -> StoreView {
        unreachable!("not for execution")
    }

    fn dependable(&self) -> bool {
        false
    }

    fn create_session(&mut self, id: SessionId) -> Result<(), StoreError> {
        self.ask()?;
        self.inner.create_session(id)
    }

    fn register_run(&mut self, spec: RunSpec) -> Result<bool, StoreError> {
        self.ask()?;
        self.inner.register_run(spec)
    }

    fn insert(&mut self, draft: Draft) -> Result<Arc<Snapshot>, StoreError> {
        self.ask()?;
        self.inner.insert(draft)
    }

    fn checkpoint(
        &mut self,
        id: &RecordId,
        expected_revision: u64,
        payload: Payload,
        state: RecordState,
    ) -> Result<Arc<Snapshot>, StoreError> {
        self.ask()?;
        self.inner.checkpoint(id, expected_revision, payload, state)
    }

    fn resolve(
        &mut self,
        request: &RecordId,
        expected_revision: u64,
        decision: Draft,
    ) -> Result<Arc<Snapshot>, StoreError> {
        self.ask()?;
        self.inner.resolve(request, expected_revision, decision)
    }

    fn get(&self, id: &RecordId) -> Result<Arc<Snapshot>, StoreError> {
        self.ask()?;
        self.inner.get(id)
    }

    fn get_run(&self, id: &RunId) -> Result<RunSpec, StoreError> {
        self.ask()?;
        self.inner.get_run(id)
    }

    fn list(
        &self,
        session: &SessionId,
        after: Option<u64>,
        limit: usize,
    ) -> Result<Vec<Arc<Snapshot>>, StoreError> {
        self.ask()?;
        self.inner.list(session, after, limit)
    }
}

fn failing(left: usize) -> Failing {
    Failing { inner: MemoryStore::new(), left: Cell::new(left) }
}

#[test]
fn open_messages_need_no_store() {
    let mut store = failing(4);
    let mut recorder = Recorder::new(&mut store, spec(), "Question", actors()).unwrap();
    recorder.observe(&mut store, &AcpEvent::AgentMessage(chunk("one", "Hel"))).unwrap();
    assert_eq!(store.left.get(), 0);
    recorder.observe(&mut store, &AcpEvent::AgentMessage(chunk("one", "lo"))).unwrap();
    let other = recorder.observe(&mut store, &AcpEvent::AgentMessage(chunk("two", "x")));
    assert_eq!(other.unwrap_err(), RecordingError::Store(StoreError::Busy));
    assert_eq!(recorder.snapshot().len(), 2);
}

#[test]
fn a_recording_that_the_store_broke_off_can_be_sealed() {
    let mut store = failing(5);
    let mut recorder = Recorder::new(&mut store, spec(), "Question", actors()).unwrap();
    recorder.observe(&mut store, &AcpEvent::AgentMessage(chunk("one", "Hello"))).unwrap();
    // The end of the run is stored, and the store fails while the message is sealed.
    let stop = recorder.observe(&mut store, &AcpEvent::Finished(StopReason::EndTurn));
    assert_eq!(stop.unwrap_err(), RecordingError::Store(StoreError::Busy));
    assert!(!recorder.is_finished());
    assert_eq!(store.inner.list(&session(), None, 100).unwrap().len(), 3);
    store.left.set(100);
    recorder.interrupt(&mut store, "gone".to_owned()).unwrap();
    assert!(recorder.is_finished());
    let records = store.inner.list(&session(), None, 100).unwrap();
    assert_eq!(records.len(), 4);
    assert!(records.iter().all(|record| record.state != RecordState::Open));
    store.left.set(0);
    let closed = recorder.observe(&mut store, &AcpEvent::Finished(StopReason::EndTurn));
    assert_eq!(closed.unwrap_err(), RecordingError::Closed);
}

#[test]
fn a_start_that_the_store_broke_off_keeps_its_first_operations() {
    let mut store = failing(2);
    let begun = Recorder::new(&mut store, spec(), "Question", actors());
    assert!(matches!(begun, Err(RecordingError::Store(StoreError::Busy))));
    assert!(store.inner.get_run(&RunId::new("r".to_owned()).unwrap()).is_ok());
    assert_eq!(store.inner.list(&session(), None, 100).unwrap().len(), 0);
}

#[test]
fn stop_reasons_have_portable_names() {
    assert_eq!(StopReason::Refusal.portable(), CompletionReason::Refused);
    assert_eq!(StopReason::MaxTokens.portable(), CompletionReason::TokenLimit);
    assert_eq!(StopReason::MaxTurnRequests.portable(), CompletionReason::StepLimit);
    assert_eq!(StopReason::EndTurn.wire(), "end_turn");
    assert_eq!(
        StopReason::Other("later".to_owned()).portable(),
        CompletionReason::Other("\"later\"".to_owned())
    );
}

#[test]
fn texts_are_quoted_without_loss() {
    assert_eq!(
        StopReason::Other("a\"b\\c\u{8}\t\n\u{c}\r\u{1}\u{1f}\u{7f}\u{e9}/".to_owned()).portable(),
        CompletionReason::Other(
            "\"a\\\"b\\\\c\\b\\t\\n\\f\\r\\u0001\\u001f\u{7f}\u{e9}/\"".to_owned()
        )
    );
}
