use agent_bridge::acp::configuration::ConfigurationState;
use agent_bridge::acp::connection::{
    initialized, AgentIdentity, ConnectionFacts, Initialization, NativeSessions,
};
use agent_bridge::acp::continuation::{
    claim_resume, handoff, plan_resume, read_data, resumed_session, AcpData,
};
use agent_bridge::acp::context::TextContextMode;
use agent_bridge::acp::error::{AcpError, RecordingError};
use agent_bridge::acp::event::{AcpEvent, ChunkContent, MessageChunk, StopReason};
use agent_bridge::acp::recorded::{RecordedJsonRun, RecordedRun};
use agent_bridge::acp::recording::{RecordActors, Recorder};
use agent_bridge::acp::restoration::{native_report, PortableRestore, RestoredSession};
use agent_bridge::acp::session::{
    check_new_session, validate_mcp, Admission, Arrival, Route, ServerCapabilities, SessionState,
    ToolServer, PERMISSION_CAPACITY,
};
use agent_bridge::acp::start::dispatch_recorded;
use agent_bridge::context::{ContextLimits, MemoryResourceStore};
use agent_bridge::id::{ActorId, ContinuationId, RecordId, RunId, SessionId, SlotId};
use agent_bridge::json::Json;
use agent_bridge::model::ContextManifest;
use agent_bridge::records::memory::MemoryStore;
use agent_bridge::records::store::{ContinuationStore, RecordStore};
use agent_bridge::records::{Payload, PermissionOutcome, StoreError};
use agent_bridge::run::RunStatus;
use agent_bridge::structured::{JsonContract, JsonRejection};

fn actor(id: &str) -> ActorId {
    ActorId::new(id.to_owned()).unwrap()
}

fn actors() -> RecordActors {
    RecordActors { user: actor("u"), agent: actor("a"), host: actor("h") }
}

fn run(id: &str) -> RunId {
    RunId::new(id.to_owned()).unwrap()
}

fn session_id() -> SessionId {
    SessionId::new("s".to_owned()).unwrap()
}

fn state() -> SessionState {
    SessionState::new(
        session_id(),
        SlotId::new("slot".to_owned()).unwrap(),
        None,
        ConfigurationState::new(None).unwrap(),
    )
}

fn chunk(text: &str) -> AcpEvent {
    AcpEvent::AgentMessage(MessageChunk {
        message_id: None,
        content: ChunkContent::Text(text.to_owned()),
    })
}

#[test]
fn a_session_runs_one_task_at_a_time() {
    let mut session = state();
    let spec = session.run_spec(run("r")).unwrap();
    let mut active = session.dispatch(spec, "Hello", false).unwrap();
    assert_eq!(active.run().status(), RunStatus::Starting);
    assert_eq!(session.check("again", false), Err(AcpError::SessionUnavailable));
    assert_eq!(active.ready(&mut session, false), Ok(true));
    active.arrive(&mut session, Arrival::Event(chunk("Hi"))).unwrap();
    assert_eq!(active.run().status(), RunStatus::Running);
    let end = active.arrive(&mut session, Arrival::Finished(Ok(StopReason::EndTurn))).unwrap();
    assert_eq!(end, AcpEvent::Finished(StopReason::EndTurn));
    assert!(active.settled());
    assert_eq!(active.ready(&mut session, false), Ok(false));
    assert_eq!(active.run().status(), RunStatus::Completed);
    assert_eq!(session.check("again", false), Ok(()));
}

#[test]
fn an_abandoned_run_retires_its_session() {
    let mut session = state();
    let spec = session.run_spec(run("r")).unwrap();
    let mut active = session.dispatch(spec, "Hello", false).unwrap();
    active.abandon(&mut session);
    assert_eq!(session.check("again", false), Err(AcpError::SessionUnavailable));
}

#[test]
fn a_lost_connection_makes_the_run_unknown() {
    let mut session = state();
    let spec = session.run_spec(run("r")).unwrap();
    let mut active = session.dispatch(spec, "Hello", false).unwrap();
    let error = active.arrive(&mut session, Arrival::Nothing).unwrap_err();
    assert_eq!(error, AcpError::Closed);
    assert_eq!(active.run().status(), RunStatus::Unknown);
}

#[test]
fn a_run_whose_events_overflowed_cannot_be_followed() {
    let mut session = state();
    let spec = session.run_spec(run("r")).unwrap();
    let mut active = session.dispatch(spec, "Hello", false).unwrap();
    assert_eq!(active.ready(&mut session, true), Err(AcpError::EventBufferFull));
    assert_eq!(active.run().status(), RunStatus::Unknown);
    assert_eq!(session.check("again", false), Err(AcpError::SessionUnavailable));
}

#[test]
fn permissions_are_numbered_and_answered_once() {
    let mut route = Route::new(run("r"));
    let id = match route.request(vec!["yes".to_owned()]) {
        Admission::Offered(id) => id,
        _ => panic!("the request is offered"),
    };
    assert_eq!(id.sequence, 0);
    assert!(route.is_pending(&id));
    assert_eq!(route.respond(&id, Some("no")), Err(AcpError::InvalidPermission));
    assert_eq!(
        route.respond(&id, Some("yes")),
        Ok(PermissionOutcome::Selected("yes".to_owned()))
    );
    assert_eq!(route.respond(&id, Some("yes")), Err(AcpError::InvalidPermission));
    for _ in 0..PERMISSION_CAPACITY {
        assert!(matches!(route.request(Vec::new()), Admission::Offered(_)));
    }
    assert_eq!(route.request(Vec::new()), Admission::Overloaded);
    assert!(route.has_overflowed());
    assert_eq!(route.request(Vec::new()), Admission::Declined);
}

#[test]
fn tool_servers_must_be_reachable() {
    let none = ServerCapabilities { http: false, sse: false };
    assert_eq!(validate_mcp(none, &vec![ToolServer::Stdio { absolute: true }]), Ok(()));
    assert_eq!(
        validate_mcp(none, &vec![ToolServer::Stdio { absolute: false }]),
        Err(AcpError::InvalidMcpCommand)
    );
    assert_eq!(
        validate_mcp(none, &vec![ToolServer::Http]),
        Err(AcpError::UnsupportedMcpTransport)
    );
    let http = ServerCapabilities { http: true, sse: false };
    assert_eq!(validate_mcp(http, &vec![ToolServer::Http]), Ok(()));
    assert_eq!(
        check_new_session(false, false, none, &vec![]),
        Err(AcpError::InvalidWorkingDirectory)
    );
    assert_eq!(check_new_session(true, true, none, &vec![]), Err(AcpError::Closed));
    assert_eq!(check_new_session(true, false, none, &vec![]), Ok(()));
}

#[test]
fn connections_speak_the_first_version() {
    assert_eq!(initialized(Initialization::Answered { first_version: true }), Ok(()));
    assert_eq!(
        initialized(Initialization::Answered { first_version: false }),
        Err(AcpError::UnsupportedProtocolVersion)
    );
    assert_eq!(initialized(Initialization::TimedOut), Err(AcpError::InitializationTimedOut));
    assert_eq!(
        initialized(Initialization::Ended(Ok(()))),
        Err(AcpError::ClosedBeforeInitialization)
    );
    assert_eq!(
        AcpError::Protocol("x".to_owned()).to_string(),
        "ACP connection failed: x"
    );
}

fn facts() -> ConnectionFacts {
    ConnectionFacts {
        closed: false,
        resumes: true,
        scope: Some("account".to_owned()),
        agent: Some(AgentIdentity { name: "agent".to_owned(), version: "2".to_owned() }),
        servers: ServerCapabilities { http: false, sse: false },
    }
}

#[test]
fn a_session_that_was_handed_off_can_be_resumed_once() {
    let mut store = MemoryStore::new();
    let mut sessions = NativeSessions::new();
    assert!(sessions.reserve("native"));
    let id = ContinuationId::new("c".to_owned()).unwrap();
    let saved = handoff(
        state(),
        &facts(),
        &mut sessions,
        "/work".to_owned(),
        "native",
        ContinuationId::new("c".to_owned()).unwrap(),
        &mut store,
    )
    .unwrap();
    assert_eq!(saved.continuation.native_key, "native");
    let plan = plan_resume(&facts(), &store, &id).unwrap();
    assert_eq!(plan.data.cwd, "/work");
    claim_resume(&facts(), &mut sessions, &mut store, &plan, true, &vec![]).unwrap();
    let again = claim_resume(&facts(), &mut sessions, &mut store, &plan, true, &vec![]);
    assert_eq!(again.unwrap_err(), AcpError::SessionUnavailable);
    sessions.release("native");
    let claimed = claim_resume(&facts(), &mut sessions, &mut store, &plan, true, &vec![]);
    assert_eq!(claimed.unwrap_err(), AcpError::Store(StoreError::ContinuationClaimed));
    let session = resumed_session(plan, ConfigurationState::new(None).unwrap());
    assert_eq!(session.predecessor.unwrap().as_str(), "c");
}

#[test]
fn a_resumption_needs_the_same_agent_and_namespace() {
    let mut store = MemoryStore::new();
    let mut sessions = NativeSessions::new();
    sessions.reserve("native");
    let id = ContinuationId::new("c".to_owned()).unwrap();
    handoff(
        state(),
        &facts(),
        &mut sessions,
        "/work".to_owned(),
        "native",
        ContinuationId::new("c".to_owned()).unwrap(),
        &mut store,
    )
    .unwrap();
    let mut other = facts();
    other.scope = Some("elsewhere".to_owned());
    assert_eq!(
        plan_resume(&other, &store, &id).unwrap_err(),
        AcpError::IncompatibleContinuation
    );
    let mut none = facts();
    none.scope = None;
    assert_eq!(
        plan_resume(&none, &store, &id).unwrap_err(),
        AcpError::ContinuationScopeRequired
    );
    let mut old = facts();
    old.resumes = false;
    assert_eq!(plan_resume(&old, &store, &id).unwrap_err(), AcpError::ResumeUnsupported);
    let unknown = ContinuationId::new("x".to_owned()).unwrap();
    assert_eq!(
        plan_resume(&facts(), &store, &unknown).unwrap_err(),
        AcpError::Store(StoreError::MissingContinuation)
    );
    let mut busy = state();
    busy.quiescent = false;
    let refused = handoff(
        busy,
        &facts(),
        &mut sessions,
        "/work".to_owned(),
        "native",
        ContinuationId::new("d".to_owned()).unwrap(),
        &mut store,
    );
    assert_eq!(refused.unwrap_err(), AcpError::UnsafeHandoff);
}

#[test]
fn saved_data_is_read_back() {
    let data = AcpData {
        version: 1,
        cwd: "/work".to_owned(),
        agent_name: "agent".to_owned(),
        agent_version: "2".to_owned(),
    };
    let read = read_data(&data.to_json()).unwrap();
    assert_eq!(read.cwd, "/work");
    assert_eq!(read.agent_version, "2");
    assert!(read_data(&Json::Null).is_none());
}

fn portable() -> PortableRestore {
    PortableRestore {
        session_id: session_id(),
        slot_id: SlotId::new("slot".to_owned()).unwrap(),
        cwd: "/work".to_owned(),
        manifest: ContextManifest {
            records: vec![RecordId::new("m".to_owned()).unwrap()],
            instructions: Vec::new(),
            resources: Vec::new(),
        },
        limits: ContextLimits { max_items: 4, max_resource_bytes: 100 },
        max_prompt_bytes: 10000,
        mode: TextContextMode::AppendToNative,
    }
}

#[test]
fn a_portable_session_delivers_its_selection_first() {
    let mut store = MemoryStore::new();
    Recorder::new(&mut store, state().run_spec(run("old")).unwrap(), "Earlier", actors()).unwrap();
    let first = store.list(&session_id(), None, 1).unwrap();
    let mut restore = portable();
    restore.manifest.records =
        vec![RecordId::new(first[0].record.id.as_str().to_owned()).unwrap()];
    let context = restore.prepare(&store, &MemoryResourceStore::new()).unwrap();
    let restored = RestoredSession::portable(state(), context, 10000);
    assert_eq!(
        restored.report().get("strategy"),
        Some(&Json::Text("portable_selection".to_owned()))
    );
    let (recorder, spec, wire) =
        restored.start_recorded_run(false, &mut store, run("r"), "Go on", actors()).unwrap();
    assert!(wire.contains("Earlier"));
    match &recorder.snapshot()[1].record.payload {
        Payload::Extension { name, data, .. } => {
            assert_eq!(name, "input_receipt");
            assert_eq!(data.get("wire_text"), Some(&Json::Text(wire)));
        }
        _ => panic!("the evidence of what is sent"),
    }
    assert_eq!(spec.context.records.len(), 1);
    let restored = restored.dispatched();
    let (_, _, plain) =
        restored.start_recorded_run(false, &mut store, run("q"), "Next", actors()).unwrap();
    assert_eq!(plain, "Next");
    assert!(restored.into_session().is_ok());
}

#[test]
fn a_portable_session_cannot_skip_its_selection() {
    let store = MemoryStore::new();
    let mut restore = portable();
    restore.manifest.records = Vec::new();
    let context = restore.prepare(&store, &MemoryResourceStore::new()).unwrap();
    let restored = RestoredSession::portable(state(), context, 10000);
    assert!(matches!(restored.into_session(), Err(RecordingError::UnsupportedContext(_))));
    let report = native_report(&ContinuationId::new("c".to_owned()).unwrap());
    assert_eq!(report.get("portable_context_replayed"), Some(&Json::Bool(false)));
}

fn contract() -> JsonContract {
    JsonContract {
        name: "answer".to_owned(),
        revision: "1".to_owned(),
        instructions: "JSON".to_owned(),
        max_validation_bytes: 100,
        application_validation: false,
    }
}

fn recorded(store: &mut MemoryStore, session: &mut SessionState) -> RecordedRun {
    let spec = session.run_spec(run("r")).unwrap();
    let recorder =
        Recorder::new(store, session.run_spec(run("r")).unwrap(), "Q", actors()).unwrap();
    let (_, recorded) =
        dispatch_recorded(session, false, store, recorder, spec, "Q").unwrap();
    recorded
}

#[test]
fn a_structured_result_is_settled_with_its_sources() {
    let mut store = MemoryStore::new();
    let mut session = state();
    let json = RecordedJsonRun::new(recorded(&mut store, &mut session), contract());
    let (json, event) = json.next(&mut store, Ok(Some(chunk("{\"ok\":true}"))));
    assert!(event.is_ok());
    let (json, _) =
        json.next(&mut store, Ok(Some(AcpEvent::Finished(StopReason::EndTurn))));
    assert_eq!(json.candidate(Some(&StopReason::EndTurn)), Ok("{\"ok\":true}".to_owned()));
    assert!(matches!(
        json.candidate(Some(&StopReason::Refusal)),
        Err(JsonRejection::Incomplete(_))
    ));
    let finished = Some(AcpEvent::Finished(StopReason::EndTurn));
    assert_eq!(json.settles(&finished), Some(StopReason::EndTurn));
    assert_eq!(json.settles(&Some(chunk("x"))), None);
    assert_eq!(json.settles(&None), None);
    let (json, reply) = json.settle(&mut store, None);
    assert_eq!(json.settles(&finished), None);
    assert_eq!(reply, Ok(()));
    assert_eq!(json.result, Some(None));
    let records = store.list(&session_id(), None, 100).unwrap();
    assert!(records.iter().any(|r| match &r.record.payload {
        Payload::Extension { name, .. } => name == "result_validation",
        _ => false,
    }));
}

#[test]
fn results_are_parsed_up_to_a_limit() {
    assert_eq!(contract().bounded("1".repeat(100)), Ok("1".repeat(100)));
    assert!(matches!(
        contract().bounded("1".repeat(101)),
        Err(JsonRejection::Invalid(reason)) if reason == "JSON exceeds validation byte limit"
    ));
}

#[test]
fn a_run_without_output_has_no_result() {
    let mut store = MemoryStore::new();
    let mut session = state();
    let json = RecordedJsonRun::new(recorded(&mut store, &mut session), contract());
    assert_eq!(
        json.candidate(Some(&StopReason::EndTurn)),
        Err(JsonRejection::MissingOutput)
    );
    let (json, error) = json.next(&mut store, Err(AcpError::Closed));
    assert_eq!(error.unwrap_err(), RecordingError::Agent(AcpError::Closed));
    assert!(json.failed);
    assert_eq!(
        json.result,
        Some(Some(JsonRejection::Incomplete("recording or provider error".to_owned())))
    );
    assert_eq!(json.inner.check().unwrap_err(), RecordingError::Closed);
    let (_, after) = json.next(&mut store, Ok(None));
    assert_eq!(after.unwrap_err(), RecordingError::Closed);
}

#[test]
fn a_recording_that_is_closed_early_is_sealed() {
    let mut store = MemoryStore::new();
    let mut session = state();
    let recorded = recorded(&mut store, &mut session);
    let (recorded, reply) = recorded.checkpoint(&mut store);
    assert_eq!(reply, Ok(()));
    assert!(recorded.close(&mut store));
    let records = store.list(&session_id(), None, 100).unwrap();
    assert!(records.iter().any(|r| match &r.record.payload {
        Payload::Failure { message } => {
            message == "Recording ended before a complete transcript was saved."
        }
        _ => false,
    }));
    assert!(store.get_continuation(&ContinuationId::new("c".to_owned()).unwrap()).is_err());
}

#[test]
fn a_run_that_cannot_be_dispatched_is_recorded_as_failed() {
    let mut store = MemoryStore::new();
    let mut session = state();
    let spec = session.run_spec(run("r")).unwrap();
    let recorder =
        Recorder::new(&mut store, session.run_spec(run("r")).unwrap(), "Q", actors()).unwrap();
    let refused = dispatch_recorded(&mut session, true, &mut store, recorder, spec, "Q");
    assert!(matches!(refused, Err(RecordingError::Agent(AcpError::Closed))));
    let records = store.list(&session_id(), None, 100).unwrap();
    assert!(records.iter().any(|r| matches!(&r.record.payload, Payload::Failure { .. })));
}
