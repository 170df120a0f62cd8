use agent_bridge::authority::{ToolGrant, ToolRef, ToolScope};
use agent_bridge::configuration::RunConfiguration;
use agent_bridge::execution::{ChildPlan, ChildRequest, DelegationGrant, ExecutionRelation};
use agent_bridge::id::{ActorId, ContinuationId, RecordId, RunId, SessionId, SlotId};
use agent_bridge::json::Json;
use agent_bridge::model::{Content, ContextManifest, Message};
use agent_bridge::records::continuation::{Continuation, ContinuationState};
use agent_bridge::records::memory::MemoryStore;
use agent_bridge::records::store::{ContinuationStore, ExecutionStore, RecordStore};
use agent_bridge::records::{
    DecisionDelivery, Draft, MessageKind, Payload, PermissionOption, PermissionOutcome,
    RecordState, StoreError,
};
use agent_bridge::run::RunSpec;

fn session(id: &str) -> SessionId {
    SessionId::new(id.to_owned()).unwrap()
}

fn record(id: &str) -> RecordId {
    RecordId::new(id.to_owned()).unwrap()
}

fn run(id: &str) -> RunId {
    RunId::new(id.to_owned()).unwrap()
}

fn actor(id: &str) -> ActorId {
    ActorId::new(id.to_owned()).unwrap()
}

fn message(text: &str) -> Payload {
    Payload::Message {
        kind: MessageKind::Agent,
        message: Message { content: vec![Content::Text(text.to_owned())] },
    }
}

fn draft(id: &str, payload: Payload, state: RecordState) -> Draft {
    Draft {
        id: record(id),
        session_id: session("s"),
        run_id: None,
        actor: actor("a"),
        reply_to_id: None,
        source: None,
        payload,
        state,
    }
}

fn spec(id: &str) -> RunSpec {
    RunSpec {
        id: run(id),
        session_id: session("s"),
        slot_id: SlotId::new("slot".to_owned()).unwrap(),
        context: ContextManifest::default(),
        config: RunConfiguration::default(),
        continuation: None,
    }
}

fn store() -> MemoryStore {
    let mut store = MemoryStore::new();
    store.create_session(session("s")).unwrap();
    store
}

#[test]
fn repeating_a_draft_is_idempotent_even_after_a_checkpoint() {
    let mut store = store();
    let first = store.insert(draft("m", message("a"), RecordState::Open)).unwrap();
    assert_eq!(first.revision, 0);
    let changed =
        store.checkpoint(&record("m"), 0, message("ab"), RecordState::Complete).unwrap();
    assert_eq!(changed.revision, 1);
    let again = store.insert(draft("m", message("a"), RecordState::Open)).unwrap();
    assert_eq!(*again, *changed);
    let other = store.insert(draft("m", message("x"), RecordState::Open));
    assert_eq!(other.unwrap_err(), StoreError::IdentityConflict);
    store.check_consistency();
}

#[test]
fn checkpoints_compare_revisions_and_final_records_do_not_change() {
    let mut store = store();
    store.insert(draft("m", message("a"), RecordState::Open)).unwrap();
    let stale = store.checkpoint(&record("m"), 4, message("b"), RecordState::Open);
    assert_eq!(stale.unwrap_err(), StoreError::RevisionConflict);
    store.checkpoint(&record("m"), 0, message("b"), RecordState::Complete).unwrap();
    let late = store.checkpoint(&record("m"), 1, message("c"), RecordState::Complete);
    assert_eq!(late.unwrap_err(), StoreError::Finalized);
    let missing = store.checkpoint(&record("x"), 0, message("c"), RecordState::Open);
    assert_eq!(missing.unwrap_err(), StoreError::MissingRecord);
}

#[test]
fn records_need_their_session_and_run() {
    let mut store = MemoryStore::new();
    let alone = store.insert(draft("m", message("a"), RecordState::Open));
    assert_eq!(alone.unwrap_err(), StoreError::MissingSession);
    store.create_session(session("s")).unwrap();
    let mut with_run = draft("m", message("a"), RecordState::Open);
    with_run.run_id = Some(run("r"));
    assert_eq!(store.insert(with_run).unwrap_err(), StoreError::MissingRun);
    let mut reply = draft("m", message("a"), RecordState::Open);
    reply.reply_to_id = Some(record("other"));
    assert_eq!(store.insert(reply).unwrap_err(), StoreError::MissingRecord);
}

#[test]
fn sequences_follow_the_order_of_insertion() {
    let mut store = store();
    for id in ["z", "a", "m"] {
        store.insert(draft(id, message(id), RecordState::Complete)).unwrap();
    }
    let all = store.list(&session("s"), None, 10).unwrap();
    let ids: Vec<(&str, u64)> =
        all.iter().map(|r| (r.record.id.as_str(), r.record.sequence)).collect();
    assert_eq!(ids, vec![("z", 0), ("a", 1), ("m", 2)]);
    let rest = store.list(&session("s"), Some(0), 1).unwrap();
    assert_eq!(rest.len(), 1);
    assert_eq!(rest[0].record.id.as_str(), "a");
    assert_eq!(store.list(&session("s"), None, 0).unwrap_err(), StoreError::InvalidPageSize);
    assert_eq!(store.list(&session("s"), None, 1001).unwrap_err(), StoreError::InvalidPageSize);
    assert_eq!(store.list(&session("t"), None, 1).unwrap_err(), StoreError::MissingSession);
}

#[test]
fn runs_are_registered_once() {
    let mut store = store();
    assert_eq!(store.register_run(spec("r")), Ok(true));
    assert_eq!(store.register_run(spec("r")), Ok(false));
    let mut other = spec("r");
    other.slot_id = SlotId::new("elsewhere".to_owned()).unwrap();
    assert_eq!(store.register_run(other), Err(StoreError::IdentityConflict));
    let mut open = spec("q");
    store.insert(draft("m", message("a"), RecordState::Open)).unwrap();
    open.context.records = vec![record("m")];
    assert_eq!(store.register_run(open), Err(StoreError::OpenContextRecord));
    assert_eq!(store.get_run(&run("r")).unwrap().id.as_str(), "r");
    assert_eq!(store.get_run(&run("x")).unwrap_err(), StoreError::MissingRun);
}

fn request() -> Payload {
    Payload::Permission {
        title: "May I?".to_owned(),
        options: vec![PermissionOption {
            id: "yes".to_owned(),
            label: "Yes".to_owned(),
            effect: "allow_once".to_owned(),
        }],
    }
}

fn decision(id: &str, option: &str) -> Draft {
    let mut draft = draft(
        id,
        Payload::Decision {
            outcome: PermissionOutcome::Selected(option.to_owned()),
            delivery: DecisionDelivery::Queued,
        },
        RecordState::Complete,
    );
    draft.reply_to_id = Some(record("p"));
    draft
}

#[test]
fn a_request_is_decided_once() {
    let mut store = store();
    store.insert(draft("p", request(), RecordState::Open)).unwrap();
    let wrong = store.resolve(&record("p"), 0, decision("d", "no"));
    assert_eq!(wrong.unwrap_err(), StoreError::InvalidDecision);
    let given = store.resolve(&record("p"), 0, decision("d", "yes")).unwrap();
    assert_eq!(given.record.id.as_str(), "d");
    assert_eq!(store.get(&record("p")).unwrap().state, RecordState::Complete);
    let again = store.resolve(&record("p"), 0, decision("d", "yes")).unwrap();
    assert_eq!(*again, *given);
    let second = store.resolve(&record("p"), 1, decision("e", "yes"));
    assert_eq!(second.unwrap_err(), StoreError::AlreadyResolved);
    let inserted = store.insert(decision("f", "yes"));
    assert_eq!(inserted.unwrap_err(), StoreError::InvalidDecision);
    store.check_consistency();
}

fn continuation(id: &str, predecessor: Option<&str>) -> Continuation {
    Continuation {
        id: ContinuationId::new(id.to_owned()).unwrap(),
        session_id: session("s"),
        slot_id: SlotId::new("slot".to_owned()).unwrap(),
        adapter: "acp-v1".to_owned(),
        scope: "account".to_owned(),
        native_key: "native".to_owned(),
        predecessor: predecessor.map(|id| ContinuationId::new(id.to_owned()).unwrap()),
        data: Json::Null,
    }
}

#[test]
fn a_continuation_is_claimed_once_and_only_the_newest() {
    let mut store = store();
    let id = ContinuationId::new("c".to_owned()).unwrap();
    let saved = store.save_continuation(continuation("c", None)).unwrap();
    assert_eq!(saved.state, ContinuationState::Available);
    assert!(saved.latest);
    let claimed = store.claim_continuation(&id).unwrap();
    assert_eq!(claimed.state, ContinuationState::Claimed);
    assert_eq!(store.claim_continuation(&id).unwrap_err(), StoreError::ContinuationClaimed);
    let successor = store.save_continuation(continuation("d", Some("c"))).unwrap();
    assert!(successor.latest);
    assert!(!store.get_continuation(&id).unwrap().latest);
    let fork = store.save_continuation(continuation("e", Some("c")));
    assert_eq!(fork.unwrap_err(), StoreError::ContinuationConflict);
    let unknown = ContinuationId::new("x".to_owned()).unwrap();
    assert_eq!(store.claim_continuation(&unknown).unwrap_err(), StoreError::MissingContinuation);
    let mut blank = continuation("f", None);
    blank.scope = " ".to_owned();
    assert_eq!(store.save_continuation(blank).unwrap_err(), StoreError::InvalidContinuation);
}

fn tool(name: &str) -> ToolRef {
    ToolRef { name: name.to_owned(), revision: "1".to_owned() }
}

fn grant(subject: &str, slot: &str, tools: Vec<ToolRef>) -> ToolGrant {
    ToolGrant {
        issuer: actor("host"),
        subject: actor(subject),
        scope: ToolScope {
            session: session("s"),
            slot: SlotId::new(slot.to_owned()).unwrap(),
        },
        tools,
    }
}

fn delegation(parent: &str, tools: Vec<ToolRef>) -> DelegationGrant {
    DelegationGrant {
        issuer: actor("host"),
        subject: actor("parent"),
        parent: run(parent),
        context: ContextManifest::default(),
        tools,
    }
}

fn child(id: &str, tools: Vec<ToolRef>) -> ChildRequest {
    ChildRequest {
        id: run(id),
        slot: SlotId::new("slot".to_owned()).unwrap(),
        actor: actor("child"),
        context: ContextManifest::default(),
        tools,
    }
}

fn edge(parent: &str, id: &str) -> ExecutionRelation {
    ExecutionRelation {
        parent: run(parent),
        child: run(id),
        parent_authority: grant("parent", "slot", Vec::new()),
        delegation: delegation(parent, Vec::new()),
        child_authority: grant("child", "slot", Vec::new()),
    }
}

#[test]
fn a_child_gets_no_more_than_was_delegated() {
    let mut store = store();
    store.register_run(spec("r")).unwrap();
    let plan = ChildPlan::new(
        &store,
        grant("parent", "slot", vec![tool("read")]),
        delegation("r", vec![tool("read")]),
        child("q", vec![tool("read")]),
    )
    .unwrap();
    assert_eq!(plan.request().id.as_str(), "q");
    assert_eq!(plan.authority().tools.len(), 1);
    let more = ChildPlan::new(
        &store,
        grant("parent", "slot", vec![tool("read")]),
        delegation("r", vec![tool("read")]),
        child("q", vec![tool("write")]),
    );
    assert!(matches!(more, Err(StoreError::InvalidExecutionRelation)));
    let unknown = ChildPlan::new(
        &store,
        grant("parent", "slot", Vec::new()),
        delegation("x", Vec::new()),
        child("q", Vec::new()),
    );
    assert!(matches!(unknown, Err(StoreError::MissingRun)));
    assert_eq!(plan.validate_run(&store, &spec("q")).unwrap().child.as_str(), "q");
}

#[test]
fn executions_form_a_forest() {
    let mut store = store();
    store.register_run(spec("r")).unwrap();
    store.register_run(spec("q")).unwrap();
    let own = store.link_execution(edge("r", "r"));
    assert_eq!(own.unwrap_err(), StoreError::InvalidExecutionRelation);
    store.link_execution(edge("r", "q")).unwrap();
    store.link_execution(edge("r", "q")).unwrap();
    assert_eq!(store.execution_parent(&run("q")).unwrap().unwrap().parent.as_str(), "r");
    assert!(store.execution_parent(&run("r")).unwrap().is_none());
    assert_eq!(store.execution_children(&run("r")).unwrap().len(), 1);
    let mut back = edge("q", "r");
    assert_eq!(
        store.link_execution(edge("q", "r")).unwrap_err(),
        StoreError::InvalidExecutionRelation
    );
    back.parent_authority = grant("child", "slot", Vec::new());
    back.delegation.subject = actor("child");
    back.child_authority = grant("parent", "slot", Vec::new());
    assert_eq!(store.link_execution(back).unwrap_err(), StoreError::ExecutionCycle);
    let mut moved = edge("r", "q");
    moved.child_authority = grant("somebody", "slot", Vec::new());
    assert_eq!(
        store.link_execution(moved).unwrap_err(),
        StoreError::ExecutionRelationConflict
    );
    store.check_consistency();
}

#[test]
fn store_errors_say_what_they_are() {
    assert_eq!(StoreError::MissingRun.to_string(), "record store: MissingRun");
    let message = "a \"quoted\"\nline";
    assert_eq!(
        StoreError::Database(message.to_owned()).to_string(),
        format!("record store: Database({:?})", message)
    );
    assert_eq!(
        StoreError::UnsupportedSchemaVersion(-3).to_string(),
        "record store: UnsupportedSchemaVersion(-3)"
    );
}
