use agent_bridge::acp::configuration::ConfigurationState;
use agent_bridge::acp::error::RecordingError;
use agent_bridge::acp::event::{AcpEvent, ChunkContent, MessageChunk, StopReason};
use agent_bridge::acp::recording::RecordActors;
use agent_bridge::acp::restoration::{RestorationPolicy, RestoredSession};
use agent_bridge::acp::session::{Route as Permissions, SessionState};
use agent_bridge::authority::{ToolRef, ToolScope};
use agent_bridge::context::ResourceStore;
use agent_bridge::host::frames::{
    check_line, check_protocols, configured, error, ok, protocol_error, ready, route, state,
    string, unreachable_session, HostState, Request, Route, MAX_LINE, MAX_SESSIONS,
};
use agent_bridge::host::history::{list_reply, query, read_unsigned, HistoryQuery};
use agent_bridge::host::interactions::{
    context_task, HostedResult, ResultDefinition, Selection, TextResource, MAX_CONTEXT_ITEMS,
    MAX_PROMPT_BYTES,
};
use agent_bridge::host::output::{Line, NextWrite, OutputError, Written};
use agent_bridge::host::receipts::{decimal_numbers, view};
use agent_bridge::host::recovery::{Restore, Session};
use agent_bridge::host::session::{
    check_open, created, idle_command, session_error, started, ActiveStep, ActiveWork, IdleStep,
};
use agent_bridge::host::storage::{
    receive, writer_lane, Budget, Handing, Silence, Worker, WriterLane,
};
use agent_bridge::host::tool_hub::{
    check_input, conclude, read_outcome, record, valid_json, Definition, Hub,
};
use agent_bridge::id::{ActorId, ContinuationId, RecordId, ResourceId, RunId, SessionId, SlotId};
use agent_bridge::json::{Json, JsonNumber};
use agent_bridge::lookup::Lookup;
use agent_bridge::mcp::{call_result, check_call, check_listing};
use agent_bridge::model::ContextManifest;
use agent_bridge::providers::FilePath;
use agent_bridge::records::continuation::Continuation;
use agent_bridge::records::memory::MemoryStore;
use agent_bridge::records::receipts::ReceiptError;
use agent_bridge::records::store::{ContinuationStore, RecordStore};
use agent_bridge::records::{Draft, Payload, RecordState, StoreError};
use agent_bridge::run::RunStatus;
use agent_bridge::structured::JsonRejection;
use agent_bridge::table::Table;
use agent_bridge::tools::ToolError;

fn text(value: &str) -> Json {
    Json::Text(value.to_owned())
}

fn whole(value: u64) -> Json {
    Json::Number(JsonNumber::PosInt(value))
}

fn object(members: Vec<(&str, Json)>) -> Json {
    let mut table = Table::new();
    for (name, value) in members {
        table.insert(name.to_owned(), value);
    }
    Json::Object(table)
}

fn request(method: &str, params: Json) -> Request {
    Request { version: 1, id: "1".to_owned(), method: method.to_owned(), params }
}

fn session(id: &str) -> SessionId {
    SessionId::new(id.to_owned()).unwrap()
}

fn idle() -> HostState {
    HostState { tools_locked: false, question_protocol: false, sessions: 0, reads: 0 }
}

fn code(frame: &Json) -> Option<&Json> {
    frame.get("error").and_then(|error| error.get("code"))
}

#[test]
fn frames_name_their_version() {
    let good = ok("7", Json::Null);
    assert_eq!(good.get("version"), Some(&whole(1)));
    assert_eq!(good.get("ok"), Some(&Json::Bool(true)));
    let bad = error("7", "busy", "later");
    assert_eq!(code(&bad), Some(&text("busy")));
    assert_eq!(ready().get("event"), Some(&text("ready")));
    assert_eq!(protocol_error("x").get("code"), Some(&text("x")));
    assert!(check_line(MAX_LINE).is_none());
    assert!(check_line(MAX_LINE + 1).is_some());
    let params = object(vec![("name", text("a")), ("empty", text(""))]);
    assert_eq!(string(&params, "name").unwrap(), "a");
    assert!(string(&params, "empty").is_err());
    assert!(string(&params, "none").is_err());
    assert_eq!(state(RunStatus::Completed), "completed");
}

#[test]
fn requests_find_their_way() {
    let mut old = request("ping", Json::Null);
    old.version = 2;
    assert!(matches!(route(idle(), &old), Route::Reply(_)));
    let mut full = idle();
    full.sessions = MAX_SESSIONS;
    assert!(matches!(route(full, &request("create_session", Json::Null)), Route::Reply(_)));
    assert!(matches!(
        route(idle(), &request("create_session", Json::Null)),
        Route::CreateSession
    ));
    let params = object(vec![("session_id", text("s"))]);
    match route(idle(), &request("cancel", params)) {
        Route::Session(id) => assert_eq!(id, "s"),
        _ => panic!("a command for a session"),
    }
    assert_eq!(code(&unreachable_session("1", false)), Some(&text("unknown_session")));
    assert_eq!(code(&unreachable_session("1", true)), Some(&text("session_unavailable")));
    assert!(matches!(route(idle(), &request("shutdown", Json::Null)), Route::Stop(_)));
    match route(idle(), &request("dance", Json::Null)) {
        Route::Reply(frame) => assert_eq!(code(&frame), Some(&text("unknown_method"))),
        _ => panic!("no such method"),
    }
    match route(idle(), &request("question_ask", Json::Null)) {
        Route::Reply(frame) => assert_eq!(code(&frame), Some(&text("questions_disabled"))),
        _ => panic!("questions were not negotiated"),
    }
}

#[test]
fn tools_are_configured_once() {
    assert!(check_protocols("1", 1, None).is_none());
    assert!(check_protocols("1", 2, None).is_some());
    let (after, reply) = configured(idle(), "1", Some(1));
    assert!(after.tools_locked && after.question_protocol);
    assert_eq!(reply.get("ok"), Some(&Json::Bool(true)));
    assert!(matches!(
        route(after, &request("configure_tools", Json::Null)),
        Route::Reply(_)
    ));
}

#[test]
fn history_queries_are_read() {
    assert_eq!(read_unsigned("18446744073709551615"), Ok(u64::MAX));
    assert!(read_unsigned("18446744073709551616").is_err());
    assert!(read_unsigned("").is_err());
    let params = object(vec![("session_id", text("s")), ("limit", whole(10))]);
    match query("history", &params) {
        Ok(HistoryQuery::List { session, limit, after }) => {
            assert_eq!(session.as_str(), "s");
            assert_eq!(limit, 10);
            assert_eq!(after, None);
        }
        _ => panic!("a listing"),
    }
    match query("snapshot", &params) {
        Ok(HistoryQuery::Snapshot { cursor, limit, .. }) => {
            assert!(cursor.is_none());
            assert_eq!(limit, 10);
        }
        _ => panic!("a snapshot"),
    }
    let position = object(vec![
        ("epoch", text("e")),
        ("session_id", text("s")),
        ("position", text("7")),
    ]);
    let follow = object(vec![("session_id", text("s")), ("cursor", position)]);
    match query("changes", &follow) {
        Ok(HistoryQuery::Changes { cursor, limit }) => {
            assert_eq!(cursor.position, 7);
            assert_eq!(limit, 100);
        }
        _ => panic!("changes"),
    }
    assert!(query("changes", &params).is_err());
    assert!(query("history", &Json::Null).is_err());
}

#[test]
fn lists_tell_where_the_next_page_begins() {
    let mut store = MemoryStore::new();
    store.create_session(session("s")).unwrap();
    let none = list_reply(&Vec::new(), 2, Vec::new());
    assert_eq!(none.get("next_after"), Some(&Json::Null));
    assert_eq!(none.get("page_full"), Some(&Json::Bool(false)));
    for id in ["a", "b"] {
        store
            .insert(Draft {
                id: RecordId::new(id.to_owned()).unwrap(),
                session_id: session("s"),
                run_id: None,
                actor: ActorId::new("host".to_owned()).unwrap(),
                reply_to_id: None,
                source: None,
                payload: Payload::Failure { message: "gone".to_owned() },
                state: RecordState::Complete,
            })
            .unwrap();
    }
    let listed = store.list(&session("s"), None, 2).unwrap();
    let full = list_reply(&listed, 2, vec![text("a"), text("b")]);
    assert_eq!(full.get("next_after"), Some(&text("1")));
    assert_eq!(full.get("page_full"), Some(&Json::Bool(true)));
    assert_eq!(full.get("records"), Some(&Json::Array(vec![text("a"), text("b")])));
    let part = list_reply(&listed, 3, vec![text("a"), text("b")]);
    assert_eq!(part.get("page_full"), Some(&Json::Bool(false)));
}

fn work() -> ActiveWork {
    ActiveWork::new("stream".to_owned(), "run".to_owned())
}

fn command(method: &str) -> Request {
    request(method, object(vec![("run_id", text("run"))]))
}

#[test]
fn commands_for_another_run_are_refused() {
    let stale = work().command(&request("cancel", object(vec![("run_id", text("old"))])));
    match stale {
        ActiveStep::Reply(frame) => assert_eq!(code(&frame), Some(&text("stale_run"))),
        _ => panic!("stale commands are answered"),
    }
    match work().command(&command("run")) {
        ActiveStep::Reply(frame) => assert_eq!(code(&frame), Some(&text("session_busy"))),
        _ => panic!("runs do not overlap"),
    }
    assert!(matches!(work().command(&command("cancel")), ActiveStep::Cancel));
    assert!(matches!(
        work().command(&command("pending_permissions")),
        ActiveStep::ListPermissions
    ));
    match work().command(&command("respond")) {
        ActiveStep::Reply(frame) => assert_eq!(code(&frame), Some(&text("invalid_response"))),
        _ => panic!("no permission is named"),
    }
}

#[test]
fn an_idle_session_starts_runs() {
    let params = object(vec![("prompt", text("Hello"))]);
    match idle_command(&request("run", params)) {
        IdleStep::Start { prompt } => assert_eq!(prompt, "Hello"),
        IdleStep::Reply(_) => panic!("the prompt is given"),
    }
    match idle_command(&request("cancel", Json::Null)) {
        IdleStep::Reply(frame) => assert_eq!(code(&frame), Some(&text("not_running"))),
        IdleStep::Start { .. } => panic!("nothing is started"),
    }
    match idle_command(&request("run", Json::Null)) {
        IdleStep::Reply(frame) => assert_eq!(code(&frame), Some(&text("invalid_params"))),
        IdleStep::Start { .. } => panic!("no prompt is given"),
    }
    assert!(check_open(true, true, "/bin/agent").is_ok());
    assert!(check_open(false, true, "/bin/agent").is_err());
    assert!(check_open(true, true, "").is_err());
}

#[test]
fn the_end_of_a_run_is_reported_with_its_reason() {
    let mut active = work();
    let permissions = Permissions::new(RunId::new("run".to_owned()).unwrap());
    let chunk = AcpEvent::AgentMessage(MessageChunk {
        message_id: None,
        content: ChunkContent::Text("Hi".to_owned()),
    });
    active.observe("s", &permissions, "t".to_owned(), &chunk);
    active.observe("s", &permissions, "t".to_owned(), &AcpEvent::Finished(StopReason::EndTurn));
    let end = active.end("s", RunStatus::Completed);
    assert_eq!(end.get("session_id"), Some(&text("s")));
    assert_eq!(end.get("run_id"), Some(&text("run")));
    let mut failed = work();
    failed.fail("lost".to_owned());
    assert_eq!(failed.failure, Some("lost".to_owned()));
    assert_eq!(failed.list_permissions("1", &permissions).get("ok"), Some(&Json::Bool(true)));
    assert!(failed.cancelled("1", Err("no".to_owned())).get("error").is_some());
    assert_eq!(
        created("1", "s", "slot", Json::Null, None).get("ok"),
        Some(&Json::Bool(true))
    );
    assert_eq!(started("1", "run", "s").get("ok"), Some(&Json::Bool(true)));
    assert!(session_error("s", "gone").get("event").is_some());
}

fn definition(name: &str) -> Definition {
    Definition {
        name: name.to_owned(),
        revision: "1".to_owned(),
        description: "A tool".to_owned(),
        input_schema: object(vec![("type", text("object"))]),
    }
}

fn tool(name: &str) -> ToolRef {
    ToolRef { name: name.to_owned(), revision: "1".to_owned() }
}

fn scope() -> ToolScope {
    ToolScope { session: session("s"), slot: SlotId::new("slot".to_owned()).unwrap() }
}

fn hub() -> Hub {
    let mut hub = Hub::new(vec![definition("read")], 1000).unwrap();
    assert_eq!(hub.bind(scope(), &vec![tool("read")], "b".to_owned()), Ok(true));
    hub.begin(&scope()).unwrap();
    hub
}

#[test]
fn tools_must_be_declared_before_they_are_granted() {
    let hub = hub();
    assert_eq!(hub.timeout_ms(), 1000);
    assert!(hub.validate(&vec![tool("read")]).is_ok());
    assert!(hub.validate(&vec![tool("write")]).is_err());
    assert!(hub.validate(&vec![tool("read"), tool("read")]).is_err());
    assert!(matches!(Hub::new(Vec::new(), 49), Err(e) if e == "tool limits exceeded"));
    let grant = Hub::grant(scope(), vec![tool("read")]);
    assert_eq!(grant.tools.len(), 1);
    let two = Hub::new(vec![definition("write"), definition("read")], 1000).unwrap();
    let offered = two.catalog(&grant);
    assert_eq!(offered.len(), 1);
    assert_eq!(offered[0].name, "read");
    assert_eq!(two.catalog(&Hub::grant(scope(), Vec::new())).len(), 0);
}

#[test]
fn a_call_is_answered_once_and_its_answer_is_recorded() {
    let mut hub = hub();
    let mut store = MemoryStore::new();
    store.create_session(session("s")).unwrap();
    let ticket = hub
        .invoke(&scope(), "c".to_owned(), tool("read"), &Json::Null, 4)
        .unwrap();
    record(&mut store, &ticket, "dispatch_attempted", "input", Json::Null).unwrap();
    hub.dispatch(&ticket, false).unwrap();
    assert!(hub.is_current(&ticket));
    let outcome = object(vec![("kind", text("success")), ("value", whole(3))]);
    let params = object(vec![
        ("call_id", text("c")),
        ("binding_id", text("b")),
        ("session_id", text("s")),
        ("slot_id", text("slot")),
        ("outcome", outcome),
    ]);
    let (call, given) = hub.reply(&params, 100).unwrap();
    assert_eq!(call, "c");
    assert!(hub.reply(&params, 100).is_err());
    assert_eq!(read_outcome(&given), Ok(whole(3)));
    let (result, frame) = conclude(&mut hub, &mut store, &ticket, Ok(given));
    assert_eq!(result, Ok(whole(3)));
    assert!(frame.is_none());
    assert_eq!(store.list(&session("s"), None, 10).unwrap().len(), 2);
}

#[test]
fn a_call_without_an_answer_retires_its_binding() {
    let mut hub = hub();
    let mut store = MemoryStore::new();
    store.create_session(session("s")).unwrap();
    let ticket = hub
        .invoke(&scope(), "c".to_owned(), tool("read"), &Json::Null, 4)
        .unwrap();
    hub.dispatch(&ticket, false).unwrap();
    let (result, frame) = conclude(&mut hub, &mut store, &ticket, Err(ToolError::Cancelled));
    assert_eq!(result, Err(ToolError::Cancelled));
    assert_eq!(frame.unwrap().get("event"), Some(&text("tool_cancel")));
    let again = hub.invoke(&scope(), "d".to_owned(), tool("read"), &Json::Null, 4);
    assert!(matches!(again, Err(ToolError::NotGranted)));
    assert!(hub.begin(&scope()).is_err());
}

#[test]
fn calls_are_limited_in_number_and_size() {
    let mut hub = hub();
    let large = hub.invoke(&scope(), "c".to_owned(), tool("read"), &Json::Null, 65537);
    assert!(matches!(large, Err(ToolError::InvalidArguments(_))));
    assert!(matches!(check_input(&Json::Null, 65537), Err(ToolError::InvalidArguments(_))));
    assert_eq!(check_input(&Json::Null, 65536), Ok(()));
    for call in ["1", "2", "3", "4"] {
        assert!(hub.invoke(&scope(), call.to_owned(), tool("read"), &Json::Null, 4).is_ok());
    }
    let fifth = hub.invoke(&scope(), "5".to_owned(), tool("read"), &Json::Null, 4);
    assert!(matches!(fifth, Err(ToolError::Handler(_))));
    hub.end(&scope());
    hub.unbind(&scope());
    let unbound = hub.invoke(&scope(), "6".to_owned(), tool("read"), &Json::Null, 4);
    assert!(matches!(unbound, Err(ToolError::NotGranted)));
}

#[test]
fn deep_values_and_large_numbers_do_not_cross() {
    let mut deep = Json::Null;
    for _ in 0..16 {
        deep = Json::Array(vec![deep]);
    }
    assert!(valid_json(&deep, 0));
    assert!(!valid_json(&Json::Array(vec![deep]), 0));
    assert!(valid_json(&whole(9007199254740991), 0));
    assert!(!valid_json(&whole(9007199254740992), 0));
    assert!(valid_json(&Json::Number(JsonNumber::Float(1.5f64.to_bits())), 0));
    assert!(!valid_json(&Json::Number(JsonNumber::Float(1e300f64.to_bits())), 0));
}

#[test]
fn tool_servers_answer_in_one_page() {
    assert!(check_listing(false).is_ok());
    assert!(check_listing(true).is_err());
    assert!(check_call(false).is_ok());
    assert!(check_call(true).is_err());
    assert_eq!(call_result(Ok("3".to_owned())), ("3".to_owned(), false));
    let (message, failed) = call_result(Err(ToolError::NotGranted));
    assert!(failed);
    assert_eq!(message, ToolError::NotGranted.to_string());
}

#[test]
fn storage_work_is_limited() {
    let mut budget = Budget::new(1);
    assert_eq!(budget.reserve(), Ok(()));
    assert_eq!(budget.reserve(), Err(StoreError::StorageOverloaded));
    budget.release();
    assert_eq!(budget.reserve(), Ok(()));
    assert_eq!(receive(Ok(3)), Ok(3));
    assert_eq!(receive::<u8>(Err(Silence::Timeout)), Err(StoreError::StorageTimedOut));
    assert_eq!(
        receive::<u8>(Err(Silence::Disconnected)),
        Err(StoreError::StorageUnavailable)
    );
}

#[test]
fn a_worker_that_timed_out_is_not_used_again() {
    let mut worker = Worker::start(Ok(Ok(()))).unwrap_or_else(|_| panic!("it has started"));
    assert_eq!(worker.check(), Ok(()));
    assert_eq!(worker.handed(Handing::Taken), Ok(()));
    assert_eq!(worker.handed(Handing::Full), Err(StoreError::StorageOverloaded));
    assert_eq!(
        worker.handed(Handing::Disconnected),
        Err(StoreError::StorageUnavailable)
    );
    assert_eq!(worker.answered(Ok(Ok(3))), Ok(3));
    assert_eq!(
        worker.answered::<u8>(Err(Silence::Timeout)),
        Err(StoreError::StorageTimedOut)
    );
    assert!(!worker.may_work());
    assert_eq!(worker.check(), Err(StoreError::StorageUnavailable));
    assert!(matches!(
        Worker::start(Err(Silence::Timeout)),
        Err(StoreError::StorageTimedOut)
    ));
    assert!(matches!(Worker::start(Ok(Err(StoreError::Busy))), Err(StoreError::Busy)));
    let mut dropped = Worker::start(Ok(Ok(()))).unwrap_or_else(|_| panic!("it has started"));
    dropped.stop();
    assert!(!dropped.may_work());
}

#[test]
fn writers_of_one_file_share_a_lane() {
    let path = |name: &str| FilePath { bytes: name.as_bytes().to_vec() };
    let lanes = vec![
        WriterLane { path: path("/a"), live: false },
        WriterLane { path: path("/b"), live: true },
        WriterLane { path: path("/a"), live: true },
    ];
    assert_eq!(writer_lane(&lanes, &path("/a")), Some(2));
    assert_eq!(writer_lane(&lanes, &path("/b")), Some(1));
    assert_eq!(writer_lane(&lanes, &path("/c")), None);
}

#[test]
fn lines_are_written_piece_by_piece() {
    let mut line = Line::new("{}").unwrap_or_else(|_| panic!("it is short"));
    assert_eq!(line.remaining(), b"{}\n");
    assert_eq!(line.advance(Written::Bytes(1), false, false), Ok(NextWrite::Write));
    assert_eq!(line.remaining(), b"}\n");
    assert_eq!(line.advance(Written::Interrupted, false, false), Ok(NextWrite::Write));
    assert_eq!(line.advance(Written::WouldBlock, false, false), Ok(NextWrite::Pause));
    assert_eq!(line.advance(Written::WouldBlock, true, false), Err(OutputError::TimedOut));
    assert_eq!(line.advance(Written::WouldBlock, false, true), Err(OutputError::TimedOut));
    assert_eq!(line.advance(Written::Bytes(0), false, false), Err(OutputError::WriteZero));
    assert_eq!(line.advance(Written::Failed, false, false), Err(OutputError::Other));
    assert_eq!(line.advance(Written::Bytes(2), false, false), Ok(NextWrite::Done));
    let long = "x".repeat(MAX_LINE + 1);
    assert!(matches!(Line::new(&long), Err(OutputError::TooLarge)));
    assert_eq!(OutputError::TooLarge.message(), "output frame too large");
}

#[test]
fn receipts_are_shown_without_large_numbers() {
    let receipt = object(vec![
        ("kind", text("input")),
        (
            "data",
            object(vec![
                ("version", whole(1)),
                ("wire_text", text("secret")),
                ("wire_bytes", whole(12)),
                ("delta", Json::Number(JsonNumber::NegInt(-4))),
            ]),
        ),
    ]);
    let shown = view(Ok(Some(receipt)), &Lookup::new());
    let data = shown.get("data").unwrap();
    assert!(data.get("wire_text").is_none());
    assert_eq!(data.get("version"), Some(&whole(1)));
    assert_eq!(data.get("wire_bytes"), Some(&text("12")));
    assert_eq!(data.get("delta"), Some(&text("-4")));
    let call = object(vec![
        ("kind", text("tool_invocation")),
        ("data", object(vec![("input", whole(1)), ("outcome", whole(2)), ("state", text("x"))])),
    ]);
    let shown = view(Ok(Some(call)), &Lookup::new());
    assert_eq!(shown.get("data"), Some(&object(vec![("state", text("x"))])));
    assert_eq!(view(Ok(None), &Lookup::new()), Json::Null);
    let invalid = view(
        Err(ReceiptError { name: "input".to_owned(), reason: "bad".to_owned() }),
        &Lookup::new(),
    );
    assert_eq!(invalid.get("kind"), Some(&text("invalid")));
    assert_eq!(
        decimal_numbers(&Json::Array(vec![whole(5), Json::Bool(true)]), &Lookup::new()),
        Json::Array(vec![text("5"), Json::Bool(true)])
    );
    let mut fractions = Lookup::new();
    fractions.insert(1.5f64.to_bits(), "1.5".to_owned());
    let fraction = Json::Number(JsonNumber::Float(1.5f64.to_bits()));
    assert_eq!(
        decimal_numbers(&object(vec![("share", fraction)]), &fractions),
        object(vec![("share", text("1.5"))])
    );
}

fn offered(id: &str, media_type: &str) -> TextResource {
    TextResource {
        id: ResourceId::new(id.to_owned()).unwrap(),
        revision: "1".to_owned(),
        media_type: media_type.to_owned(),
        text: "caf\u{e9}".to_owned(),
    }
}

fn selection(resources: Vec<TextResource>) -> Selection {
    Selection { mode: "append_to_native".to_owned(), records: Vec::new(), resources }
}

#[test]
fn selections_bring_their_texts() {
    let (manifest, held) =
        selection(vec![offered("a", "text/plain")]).prepare().unwrap_or_else(|e| panic!("{}", e));
    assert_eq!(manifest.resources.len(), 1);
    let found = held.get(&manifest.resources[0]).unwrap();
    assert_eq!(found.bytes, "caf\u{e9}".as_bytes().to_vec());
    let task = context_task("Go", &manifest, &held);
    assert_eq!(task.max_prompt_bytes, MAX_PROMPT_BYTES);
    assert!(selection(vec![offered("a", "image/png")]).prepare().is_err());
    let mut mode = selection(Vec::new());
    mode.mode = "replace".to_owned();
    assert!(mode.prepare().is_err());
    let mut many = selection(Vec::new());
    for i in 0..(MAX_CONTEXT_ITEMS + 1) {
        many.records.push(RecordId::new(format!("m{}", i)).unwrap());
    }
    match many.prepare() {
        Err(e) => assert_eq!(e, "context exceeds 128 items"),
        Ok(_) => panic!("too many items"),
    }
}

fn wanted() -> ResultDefinition {
    ResultDefinition {
        name: "answer".to_owned(),
        revision: "1".to_owned(),
        schema: "{\"type\":\"object\"}".to_owned(),
        max_validation_bytes: 65536,
        mode: "validate_returned_text".to_owned(),
    }
}

#[test]
fn results_are_validated_against_their_schema() {
    let contract = wanted().contract(Ok(())).unwrap();
    assert_eq!(
        contract.instructions,
        "Return JSON matching this schema: {\"type\":\"object\"}"
    );
    let mut native = wanted();
    native.mode = "native".to_owned();
    assert_eq!(
        native.contract(Ok(())).unwrap_err(),
        "native result enforcement is unsupported"
    );
    let mut large = wanted();
    large.max_validation_bytes = 65537;
    assert_eq!(
        large.contract(Ok(())).unwrap_err(),
        "result validation limit exceeds 65536 bytes"
    );
    assert_eq!(wanted().contract(Err("bad schema".to_owned())).unwrap_err(), "bad schema");
    assert_eq!(HostedResult::Plain.to_json(), Json::Null);
    assert_eq!(
        HostedResult::Valid(whole(1)).to_json(),
        object(vec![("status", text("valid")), ("value", whole(1))])
    );
    assert_eq!(
        HostedResult::Rejected(JsonRejection::MissingOutput).to_json().get("status"),
        Some(&text("rejected"))
    );
    assert_eq!(
        HostedResult::Unavailable.to_json(),
        object(vec![("status", text("unavailable"))])
    );
}

fn actors() -> RecordActors {
    RecordActors {
        user: ActorId::new("u".to_owned()).unwrap(),
        agent: ActorId::new("a".to_owned()).unwrap(),
        host: ActorId::new("h".to_owned()).unwrap(),
    }
}

fn active() -> SessionState {
    SessionState::new(
        session("s"),
        SlotId::new("slot".to_owned()).unwrap(),
        None,
        ConfigurationState::new(None).unwrap(),
    )
}

#[test]
fn restored_sessions_take_no_options_for_their_first_run() {
    let mut store = MemoryStore::new();
    let id = ContinuationId::new("c".to_owned()).unwrap();
    let restored = Session::Restored(RestoredSession::native(active(), &id));
    let manifest = ContextManifest::default();
    let held = agent_bridge::context::MemoryResourceStore::new();
    let refused = restored.start(
        false,
        &mut store,
        RunId::new("r".to_owned()).unwrap(),
        "Go",
        Some((&manifest, &held)),
        None,
        actors(),
    );
    assert!(matches!(refused, Err(RecordingError::UnsupportedContext(_))));
    let (_, _, wire) = restored
        .start(
            false,
            &mut store,
            RunId::new("r".to_owned()).unwrap(),
            "Go",
            None,
            None,
            actors(),
        )
        .unwrap_or_else(|e| panic!("{}", e.to_string()));
    assert_eq!(wire, "Go");
    assert!(matches!(restored.into_active(), Ok(Session::Active(_))));
}

#[test]
fn restorations_must_match_their_session_and_workspace() {
    let mut store = MemoryStore::new();
    store.create_session(session("s")).unwrap();
    store
        .save_continuation(Continuation {
            id: ContinuationId::new("c".to_owned()).unwrap(),
            session_id: session("s"),
            slot_id: SlotId::new("slot".to_owned()).unwrap(),
            adapter: "acp-v1".to_owned(),
            scope: "account".to_owned(),
            native_key: "native".to_owned(),
            predecessor: None,
            data: object(vec![("cwd", text("/work"))]),
        })
        .unwrap();
    let native = |id: &str| Restore::Native {
        session_id: session("s"),
        continuation: ContinuationId::new(id.to_owned()).unwrap(),
    };
    let fresh = || SlotId::new("fresh".to_owned()).unwrap();
    match native("c").prepare(&store, "/work", fresh()) {
        Ok((RestorationPolicy::Native { .. }, _, slot)) => assert_eq!(slot.as_str(), "slot"),
        _ => panic!("it matches"),
    }
    match native("c").prepare(&store, "/other", fresh()) {
        Err(e) => assert_eq!(e, "continuation session/workspace mismatch"),
        Ok(_) => panic!("another workspace"),
    }
    match native("x").prepare(&store, "/work", fresh()) {
        Err(e) => assert_eq!(e, "record store: MissingContinuation"),
        Ok(_) => panic!("unknown"),
    }
    let portable =
        Restore::Portable { session_id: session("s"), context: selection(Vec::new()) };
    assert_eq!(portable.session_id().as_str(), "s");
    match portable.prepare(&store, "/work", fresh()) {
        Ok((RestorationPolicy::Portable(restore), _, slot)) => {
            assert_eq!(restore.cwd, "/work");
            assert_eq!(slot.as_str(), "fresh");
        }
        _ => panic!("the session is known"),
    }
    let unknown = Restore::Portable { session_id: session("t"), context: selection(Vec::new()) };
    assert!(unknown.prepare(&store, "/work", fresh()).is_err());
}

#[test]
fn timed_out_reads_keep_capacity_until_work_actually_stops() {
    let mut budget = Budget::new(1);
    assert_eq!(budget.reserve(), Ok(()));
    assert_eq!(receive::<u8>(Err(Silence::Timeout)), Err(StoreError::StorageTimedOut));
    assert_eq!(budget.reserve(), Err(StoreError::StorageOverloaded));
    budget.release();
    assert_eq!(budget.reserve(), Ok(()));
    assert_eq!(receive(Ok(9)), Ok(9));
}

#[test]
fn stalled_initialization_is_bounded_and_does_not_leak_replacement_workers() {
    let mut budget = Budget::new(1);
    assert_eq!(budget.reserve(), Ok(()));
    assert!(matches!(
        Worker::start(Err(Silence::Timeout)),
        Err(StoreError::StorageTimedOut)
    ));
    assert_eq!(budget.reserve(), Err(StoreError::StorageOverloaded));
    budget.release();
    assert_eq!(budget.reserve(), Ok(()));
    let mut worker = Worker::start(Ok(Ok(()))).unwrap_or_else(|_| panic!("it has started"));
    assert_eq!(worker.answered(Ok(Ok(42))), Ok(42));
    worker.stop();
    budget.release();
    assert_eq!(budget.reserve(), Ok(()));
}

#[test]
fn panicked_storage_retires_its_handle_and_releases_capacity() {
    let mut budget = Budget::new(1);
    assert_eq!(budget.reserve(), Ok(()));
    let mut worker = Worker::start(Ok(Ok(()))).unwrap_or_else(|_| panic!("it has started"));
    assert_eq!(
        worker.answered::<()>(Err(Silence::Disconnected)),
        Err(StoreError::StorageUnavailable)
    );
    assert_eq!(worker.check(), Err(StoreError::StorageUnavailable));
    budget.release();
    assert_eq!(budget.reserve(), Ok(()));
}

#[test]
fn timed_out_work_waiting_for_its_database_does_not_start_later() {
    let path = |name: &str| FilePath { bytes: name.as_bytes().to_vec() };
    let lanes = vec![WriterLane { path: path("/test/database"), live: true }];
    assert_eq!(writer_lane(&lanes, &path("/test/database")), Some(0));
    assert_eq!(writer_lane(&lanes, &path("/test/other")), None);
    let mut worker = Worker::start(Ok(Ok(()))).unwrap_or_else(|_| panic!("it has started"));
    assert_eq!(
        worker.answered::<()>(Err(Silence::Timeout)),
        Err(StoreError::StorageTimedOut)
    );
    assert!(!worker.may_work());
}
