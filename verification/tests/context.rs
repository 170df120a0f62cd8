use agent_bridge::acp::context::{encode, text, ContextTask, TextContextMode};
use agent_bridge::acp::configuration::ConfigurationState;
use agent_bridge::acp::error::{AcpError, RecordingError};
use agent_bridge::acp::recording::RecordActors;
use agent_bridge::acp::session::SessionState;
use agent_bridge::acp::start::{
    start_json_run, start_recorded_context_json_run, start_recorded_context_run,
    start_recorded_with_report, JsonOutputMode, JsonTask,
};
use agent_bridge::context::{
    check_count, prepare, prepare_with_policy, ContextError, ContextItem, ContextLimits,
    ContextOmission, ContextPolicy, MemoryResourceStore, Resource, ResourceError, ResourceStore,
};
use agent_bridge::id::{ActorId, RecordId, ResourceId, RunId, SessionId, SlotId};
use agent_bridge::json::Json;
use agent_bridge::model::{
    Content, ContextManifest, InstructionRef, InstructionRole, Message, ResourceRef,
};
use agent_bridge::records::memory::MemoryStore;
use agent_bridge::records::store::RecordStore;
use agent_bridge::records::{Draft, MessageKind, Payload, RecordState, StoreError};
use agent_bridge::structured::JsonContract;

const LIMITS: ContextLimits = ContextLimits { max_items: 8, max_resource_bytes: 64 };

fn session(id: &str) -> SessionId {
    SessionId::new(id.to_owned()).unwrap()
}

fn actor(id: &str) -> ActorId {
    ActorId::new(id.to_owned()).unwrap()
}

fn reference(id: &str) -> ResourceRef {
    ResourceRef { id: ResourceId::new(id.to_owned()).unwrap(), revision: "1".to_owned() }
}

fn resource(id: &str, media_type: &str, bytes: &[u8]) -> Resource {
    Resource {
        reference: reference(id),
        media_type: media_type.to_owned(),
        bytes: bytes.to_vec(),
    }
}

fn store(content: Vec<Content>, state: RecordState) -> MemoryStore {
    let mut store = MemoryStore::new();
    store.create_session(session("s")).unwrap();
    store
        .insert(Draft {
            id: RecordId::new("m".to_owned()).unwrap(),
            session_id: session("s"),
            run_id: None,
            actor: actor("u"),
            reply_to_id: None,
            source: None,
            payload: Payload::Message { kind: MessageKind::User, message: Message { content } },
            state,
        })
        .unwrap();
    store
}

fn manifest(records: Vec<&str>, resources: Vec<&str>) -> ContextManifest {
    ContextManifest {
        records: records.into_iter().map(|id| RecordId::new(id.to_owned()).unwrap()).collect(),
        instructions: Vec::new(),
        resources: resources.into_iter().map(reference).collect(),
    }
}

fn resources() -> MemoryResourceStore {
    let mut resources = MemoryResourceStore::new();
    resources.put(resource("guide", "text/plain", b"Read me")).unwrap();
    resources
}

#[test]
fn exact_revisions_are_read_back_and_do_not_change() {
    let mut resources = resources();
    let found = resources.get(&reference("guide")).unwrap();
    assert_eq!(found.bytes, b"Read me".to_vec());
    resources.put(resource("guide", "text/plain", b"Read me")).unwrap();
    let other = resources.put(resource("guide", "text/plain", b"Other"));
    assert_eq!(other.unwrap_err(), ResourceError::RevisionConflict);
    let blank = resources.put(resource("blank", " ", b""));
    assert_eq!(blank.unwrap_err(), ResourceError::Invalid);
    assert_eq!(resources.get(&reference("none")).unwrap_err(), ResourceError::Missing);
}

#[test]
fn resources_named_in_selected_messages_are_part_of_the_context() {
    let store = store(
        vec![Content::Text("see".to_owned()), Content::Resource(reference("guide"))],
        RecordState::Complete,
    );
    let prepared = prepare(
        &manifest(vec!["m"], vec![]),
        &store,
        &resources(),
        &vec![session("s")],
        LIMITS,
    )
    .unwrap();
    assert_eq!(prepared.records.len(), 1);
    assert_eq!(prepared.resources.len(), 1);
    assert_eq!(prepared.resource_bytes, 7);
}

#[test]
fn inputs_that_cannot_be_used_are_named() {
    let complete = store(vec![Content::Text("a".to_owned())], RecordState::Complete);
    let open = store(vec![Content::Text("a".to_owned())], RecordState::Open);
    let allowed = vec![session("s")];
    let outside =
        prepare(&manifest(vec!["m"], vec![]), &complete, &resources(), &vec![], LIMITS);
    assert!(matches!(outside, Err(ContextError::RecordOutsideScope(_))));
    let unfinished =
        prepare(&manifest(vec!["m"], vec![]), &open, &resources(), &allowed, LIMITS);
    assert!(matches!(unfinished, Err(ContextError::OpenRecord(_))));
    let missing =
        prepare(&manifest(vec!["x"], vec![]), &complete, &resources(), &allowed, LIMITS);
    assert_eq!(missing.unwrap_err(), ContextError::Store(StoreError::MissingRecord));
    let absent =
        prepare(&manifest(vec![], vec!["none"]), &complete, &resources(), &allowed, LIMITS);
    assert_eq!(
        absent.unwrap_err(),
        ContextError::Resource { reference: reference("none"), error: ResourceError::Missing }
    );
    let small = ContextLimits { max_items: 8, max_resource_bytes: 6 };
    let large =
        prepare(&manifest(vec![], vec!["guide"]), &complete, &resources(), &allowed, small);
    assert_eq!(large.unwrap_err(), ContextError::ResourceByteLimit);
    let few = ContextLimits { max_items: 0, max_resource_bytes: 64 };
    assert_eq!(
        check_count(&manifest(vec!["m"], vec![]), few).unwrap_err(),
        ContextError::ItemLimit
    );
    let many =
        prepare(&manifest(vec!["x"], vec!["none"]), &complete, &resources(), &allowed, few);
    assert_eq!(many.unwrap_err(), ContextError::ItemLimit);
}

#[test]
fn policies_omit_only_what_they_name() {
    let store = store(vec![Content::Text("a".to_owned())], RecordState::Complete);
    let allowed = vec![session("s")];
    let mut policy = ContextPolicy::default();
    policy.omissions.push(ContextOmission {
        item: ContextItem::Resource(reference("none")),
        reason: "not needed".to_owned(),
    });
    let prepared = prepare_with_policy(
        &manifest(vec!["m"], vec!["none"]),
        &store,
        &resources(),
        &allowed,
        LIMITS,
        &policy,
    )
    .unwrap();
    assert_eq!(prepared.requested_manifest.resources.len(), 1);
    assert_eq!(prepared.manifest.resources.len(), 0);
    let unselected = prepare_with_policy(
        &manifest(vec!["m"], vec![]),
        &store,
        &resources(),
        &allowed,
        LIMITS,
        &policy,
    );
    assert_eq!(unselected.unwrap_err(), ContextError::InvalidOmission);
}

#[test]
fn instructions_need_a_grant_of_their_exact_revision() {
    let store = store(vec![Content::Text("a".to_owned())], RecordState::Complete);
    let allowed = vec![session("s")];
    let instruction =
        InstructionRef { resource: reference("guide"), role: InstructionRole::Supplemental };
    let mut wanted = manifest(vec![], vec![]);
    wanted.instructions.push(instruction);
    let refused = prepare_with_policy(
        &wanted,
        &store,
        &resources(),
        &allowed,
        LIMITS,
        &ContextPolicy::default(),
    );
    assert_eq!(refused.unwrap_err(), ContextError::InstructionUnauthorized);
    let granted = ContextPolicy::for_host(
        actor("host"),
        vec![InstructionRef { resource: reference("guide"), role: InstructionRole::Supplemental }],
    );
    let prepared =
        prepare_with_policy(&wanted, &store, &resources(), &allowed, LIMITS, &granted).unwrap();
    assert_eq!(prepared.instructions.len(), 1);
}

#[test]
fn only_text_can_be_an_instruction() {
    let store = store(vec![Content::Text("a".to_owned())], RecordState::Complete);
    let mut held = MemoryResourceStore::new();
    held.put(resource("guide", "image/png", b"x")).unwrap();
    let mut wanted = manifest(vec![], vec![]);
    wanted
        .instructions
        .push(InstructionRef { resource: reference("guide"), role: InstructionRole::Base });
    let policy = ContextPolicy::for_host(
        actor("host"),
        vec![InstructionRef { resource: reference("guide"), role: InstructionRole::Base }],
    );
    let refused =
        prepare_with_policy(&wanted, &store, &held, &vec![session("s")], LIMITS, &policy);
    assert!(matches!(refused, Err(ContextError::InvalidInstruction(_))));
}

#[test]
fn texts_must_be_readable() {
    assert_eq!(text(&resource("g", "text/plain; charset=utf-8", b"hi")).unwrap(), "hi");
    assert!(text(&resource("g", "text/plain", &[0xff, 0xfe])).is_err());
    assert!(text(&resource("g", "image/png", b"hi")).is_err());
}

#[test]
fn the_envelope_is_one_json_document() {
    let quote = "say \"hi\"\n\u{1}";
    let store = store(vec![Content::Text(quote.to_owned())], RecordState::Complete);
    let prepared = prepare(
        &manifest(vec!["m"], vec!["guide"]),
        &store,
        &resources(),
        &vec![session("s")],
        LIMITS,
    )
    .unwrap();
    let (wire, receipt) = encode(&prepared, quote, 100000).unwrap();
    let document: serde_json::Value = serde_json::from_str(&wire).unwrap();
    assert!(wire.contains(&serde_json::to_string(quote).unwrap()));
    assert!(document.is_object());
    assert_eq!(receipt.get("wire_text"), Some(&Json::Text(wire.clone())));
    let tight = encode(&prepared, quote, wire.len() - 1);
    assert!(matches!(tight, Err(RecordingError::UnsupportedContext(_))));
    assert!(encode(&prepared, quote, wire.len()).is_ok());
}

fn state() -> SessionState {
    SessionState::new(
        session("s"),
        SlotId::new("slot".to_owned()).unwrap(),
        None,
        ConfigurationState::new(None).unwrap(),
    )
}

fn actors() -> RecordActors {
    RecordActors { user: actor("u"), agent: actor("a"), host: actor("host") }
}

fn run(id: &str) -> RunId {
    RunId::new(id.to_owned()).unwrap()
}

fn contract() -> JsonContract {
    JsonContract {
        name: "answer".to_owned(),
        revision: "1".to_owned(),
        instructions: "Return {\"ok\": true}".to_owned(),
        max_validation_bytes: 100,
        application_validation: false,
    }
}

#[test]
fn a_plain_run_stores_its_input_and_report() {
    let mut store = MemoryStore::new();
    let report = Json::Text("restored".to_owned());
    let (recorder, spec) = start_recorded_with_report(
        &state(),
        false,
        &mut store,
        run("r"),
        "Hello",
        actors(),
        Some(report),
    )
    .unwrap();
    assert!(!recorder.is_finished());
    assert_eq!(spec.id.as_str(), "r");
    let records = store.list(&session("s"), None, 10).unwrap();
    assert_eq!(records.len(), 2);
    let blank =
        start_recorded_with_report(&state(), false, &mut store, run("q"), " ", actors(), None);
    assert!(matches!(blank, Err(RecordingError::Agent(AcpError::EmptyPrompt))));
    let closed =
        start_recorded_with_report(&state(), true, &mut store, run("q"), "x", actors(), None);
    assert!(matches!(closed, Err(RecordingError::Agent(AcpError::Closed))));
    assert_eq!(store.get_run(&run("q")).unwrap_err(), StoreError::MissingRun);
}

#[test]
fn a_context_run_names_its_selection() {
    let mut store = store(vec![Content::Text("a".to_owned())], RecordState::Complete);
    let wanted = manifest(vec!["m"], vec!["guide"]);
    let held = resources();
    let task = ContextTask {
        prompt: "Go",
        manifest: &wanted,
        resources: &held,
        limits: LIMITS,
        max_prompt_bytes: 10000,
        mode: TextContextMode::AppendToNative,
    };
    let (_, spec, wire) =
        start_recorded_context_run(&state(), false, &mut store, run("r"), &task, actors()).unwrap();
    assert_eq!(spec.context.records.len(), 1);
    assert!(wire.contains("Read me"));
    let contract = contract();
    let json = JsonTask {
        prompt: "Go",
        contract: &contract,
        mode: JsonOutputMode::ValidateReturnedText,
    };
    let (_, _, both) = start_recorded_context_json_run(
        &state(),
        false,
        &mut store,
        run("q"),
        &json,
        &task,
        &ContextPolicy::default(),
        actors(),
    )
    .unwrap();
    assert!(both.contains("Read me"));
    let other = JsonTask {
        prompt: "Stop",
        contract: &contract,
        mode: JsonOutputMode::ValidateReturnedText,
    };
    let differ = start_recorded_context_json_run(
        &state(),
        false,
        &mut store,
        run("p"),
        &other,
        &task,
        &ContextPolicy::default(),
        actors(),
    );
    assert!(matches!(differ, Err(RecordingError::UnsupportedContext(_))));
}

#[test]
fn a_structured_run_asks_for_one_json_value() {
    let mut store = MemoryStore::new();
    let contract = contract();
    let task = JsonTask {
        prompt: "Compute \"x\"",
        contract: &contract,
        mode: JsonOutputMode::ValidateReturnedText,
    };
    let (_, _, wire) =
        start_json_run(&state(), false, &mut store, run("r"), &task, None, actors()).unwrap();
    let document: serde_json::Value = serde_json::from_str(&wire).unwrap();
    assert_eq!(document["task"], "Compute \"x\"");
    assert_eq!(document["output_instructions"], "Return {\"ok\": true}");
    let native = JsonTask {
        prompt: "x",
        contract: &contract,
        mode: JsonOutputMode::RequireNativeEnforcement,
    };
    let refused = start_json_run(&state(), false, &mut store, run("q"), &native, None, actors());
    assert!(matches!(refused, Err(RecordingError::NativeStructuredOutputUnsupported)));
}
