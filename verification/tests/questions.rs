use agent_bridge::authority::{ToolRef, ToolScope};
use agent_bridge::host::questions::{answered_reply, closed_frame, Service, MAX_OPERATIONS};
use agent_bridge::host::tool_hub::Ticket;
use agent_bridge::id::{ActorId, RecordId, SessionId, SlotId};
use agent_bridge::json::Json;
use agent_bridge::questions::{PendingQuestion, QuestionError};
use agent_bridge::records::memory::MemoryStore;
use agent_bridge::records::question::{
    AnswerOutcome, AnswerValue, Question, QuestionField, QuestionFieldKind, QuestionOption,
};
use agent_bridge::records::store::RecordStore;
use agent_bridge::records::{Draft, Payload, RecordState, StoreError};
use agent_bridge::table::Table;

fn session() -> SessionId {
    SessionId::new("s".to_owned()).unwrap()
}

fn actor(id: &str) -> ActorId {
    ActorId::new(id.to_owned()).unwrap()
}

fn question() -> Question {
    Question {
        title: "Deploy?".to_owned(),
        fields: vec![
            QuestionField {
                id: "count".to_owned(),
                label: "How many".to_owned(),
                required: true,
                kind: QuestionFieldKind::Integer { min: 1, max: 5 },
            },
            QuestionField {
                id: "where".to_owned(),
                label: "Where".to_owned(),
                required: false,
                kind: QuestionFieldKind::Select {
                    options: vec![QuestionOption {
                        id: "eu".to_owned(),
                        label: "Europe".to_owned(),
                    }],
                },
            },
        ],
    }
}

fn submitted(values: Vec<(&str, AnswerValue)>) -> AnswerOutcome {
    let mut table = Table::new();
    for (name, value) in values {
        table.insert(name.to_owned(), value);
    }
    AnswerOutcome::Submitted(table)
}

fn store() -> MemoryStore {
    let mut store = MemoryStore::new();
    store.create_session(session()).unwrap();
    store
}

fn draft(id: &str) -> Draft {
    Draft {
        id: RecordId::new(id.to_owned()).unwrap(),
        session_id: session(),
        run_id: None,
        actor: actor("host"),
        reply_to_id: None,
        source: None,
        payload: Payload::Question(question()),
        state: RecordState::Open,
    }
}

#[test]
fn answers_must_fit_their_fields() {
    let question = question();
    assert_eq!(question.validate(), Ok(()));
    let good = submitted(vec![("count", AnswerValue::Integer(3))]);
    assert_eq!(question.validate_answer(&good), Ok(()));
    for bad in [
        submitted(vec![]),
        submitted(vec![("count", AnswerValue::Integer(6))]),
        submitted(vec![("count", AnswerValue::Boolean(true))]),
        submitted(vec![
            ("count", AnswerValue::Integer(3)),
            ("where", AnswerValue::Selected("us".to_owned())),
        ]),
        submitted(vec![
            ("count", AnswerValue::Integer(3)),
            ("other", AnswerValue::Boolean(true)),
        ]),
    ] {
        assert_eq!(question.validate_answer(&bad), Err(StoreError::InvalidDecision));
    }
    assert_eq!(question.validate_answer(&AnswerOutcome::Declined), Ok(()));
}

#[test]
fn questions_must_make_sense() {
    let mut blank = question();
    blank.title = " ".to_owned();
    assert_eq!(blank.validate(), Err(StoreError::InvalidPayload));
    let mut reversed = question();
    reversed.fields[0].kind = QuestionFieldKind::Integer { min: 5, max: 1 };
    assert_eq!(reversed.validate(), Err(StoreError::InvalidPayload));
    let mut twice = question();
    twice.fields[1].id = "count".to_owned();
    assert_eq!(twice.validate(), Err(StoreError::InvalidPayload));
}

#[test]
fn the_first_answer_counts() {
    let mut store = store();
    let mut pending = PendingQuestion::open(&mut store, draft("q"), actor("host")).unwrap();
    assert!(pending.resolution().is_none());
    let given = pending
        .answer(&mut store, actor("user"), submitted(vec![("count", AnswerValue::Integer(2))]))
        .unwrap();
    let same = pending
        .answer(&mut store, actor("user"), submitted(vec![("count", AnswerValue::Integer(2))]))
        .unwrap();
    assert_eq!(*same, *given);
    let other = pending.answer(&mut store, actor("user"), AnswerOutcome::Declined);
    assert_eq!(other.unwrap_err(), QuestionError::Store(StoreError::AlreadyResolved));
    let cancelled = pending.cancel(&mut store).unwrap();
    assert_eq!(*cancelled, *given);
    let again = PendingQuestion::open(&mut store, draft("q"), actor("host"));
    assert!(matches!(again, Err(QuestionError::AlreadyExists)));
}

#[test]
fn stores_take_questions_as_they_are() {
    let mut store = store();
    let mut untitled = draft("q");
    let mut blank = question();
    blank.title = " ".to_owned();
    untitled.payload = Payload::Question(blank);
    let stored = store.insert(untitled).unwrap();
    assert_eq!(stored.state, RecordState::Open);
    let changed = store
        .checkpoint(&stored.record.id, 0, Payload::Question(question()), RecordState::Complete)
        .unwrap();
    assert_eq!(changed.state, RecordState::Complete);
    assert_eq!(changed.revision, 1);
    store.check_consistency();
    let mut nameless = question();
    nameless.title = " ".to_owned();
    assert_eq!(nameless.validate(), Err(StoreError::InvalidPayload));
    let mut asked = draft("p");
    asked.payload = Payload::Question(nameless);
    assert!(PendingQuestion::open(&mut store, asked, actor("host")).is_ok());
}

#[test]
fn only_open_questions_can_be_asked() {
    let mut store = store();
    let mut closed = draft("q");
    closed.state = RecordState::Complete;
    let refused = PendingQuestion::open(&mut store, closed, actor("host"));
    assert!(matches!(refused, Err(QuestionError::NotQuestion)));
    assert_eq!(
        QuestionError::Store(StoreError::MissingRun).to_string(),
        "question: Store(MissingRun)"
    );
}

fn ticket(call: &str) -> Ticket {
    Ticket {
        call: call.to_owned(),
        binding: "b".to_owned(),
        scope: ToolScope { session: session(), slot: SlotId::new("slot".to_owned()).unwrap() },
        tool: ToolRef { name: "ask".to_owned(), revision: "1".to_owned() },
        activity: 0,
    }
}

fn text(value: &str) -> Json {
    Json::Text(value.to_owned())
}

fn object(members: Vec<(&str, Json)>) -> Json {
    let mut table = Table::new();
    for (name, value) in members {
        table.insert(name.to_owned(), value);
    }
    Json::Object(table)
}

fn ask(
    service: &mut Service,
    store: &mut MemoryStore,
    call: &str,
    id: &str,
) -> Result<Json, String> {
    service.open(
        store,
        ticket(call),
        &Json::Null,
        10,
        Ok(question()),
        text("shown"),
        RecordId::new(id.to_owned()).unwrap(),
        false,
    )
}

fn answer_params(id: &str, call: &str) -> Json {
    object(vec![
        ("question_id", text(id)),
        ("call_id", text(call)),
        ("binding_id", text("b")),
        ("session_id", text("s")),
        ("slot_id", text("slot")),
        ("revision", text("0")),
    ])
}

#[test]
fn a_call_asks_one_question_at_a_time() {
    let mut store = store();
    let mut service = Service::new();
    let frame = ask(&mut service, &mut store, "c", "q1").unwrap();
    assert_eq!(frame.get("event"), Some(&text("question_opened")));
    assert_eq!(frame.get("definition"), Some(&text("shown")));
    assert_eq!(
        ask(&mut service, &mut store, "c", "q2").unwrap_err(),
        "question limit reached or invocation already has a pending question"
    );
    ask(&mut service, &mut store, "d", "q3").unwrap();
    let listed = match service.pending(&Json::Null) {
        Json::Array(frames) => frames.len(),
        _ => 0,
    };
    assert_eq!(listed, 2);
    let reply = service
        .answer(&mut store, &answer_params("q1", "c"), 10, Ok(AnswerOutcome::Declined))
        .unwrap();
    assert_eq!(reply.get("stored"), Some(&Json::Bool(true)));
    ask(&mut service, &mut store, "c", "q2").unwrap();
}

#[test]
fn answers_for_other_calls_are_refused() {
    let mut store = store();
    let mut service = Service::new();
    ask(&mut service, &mut store, "c", "q").unwrap();
    let foreign =
        service.answer(&mut store, &answer_params("q", "d"), 10, Ok(AnswerOutcome::Declined));
    assert_eq!(foreign.unwrap_err(), "stale or foreign question response");
    let unknown =
        service.answer(&mut store, &answer_params("x", "c"), 10, Ok(AnswerOutcome::Declined));
    assert_eq!(unknown.unwrap_err(), "question is no longer live");
    let large =
        service.answer(&mut store, &answer_params("q", "c"), 60001, Ok(AnswerOutcome::Declined));
    assert_eq!(large.unwrap_err(), "answer exceeds JSON limits");
    service.end_call("c");
    let late =
        service.answer(&mut store, &answer_params("q", "c"), 10, Ok(AnswerOutcome::Declined));
    assert_eq!(late.unwrap_err(), "stale or foreign question response");
    service.forget("q");
    assert_eq!(service.pending(&Json::Null), Json::Array(Vec::new()));
}

#[test]
fn questions_that_exceed_the_transport_are_refused() {
    let mut store = store();
    let mut service = Service::new();
    let mut wide = question();
    wide.fields[0].kind = QuestionFieldKind::Text { max_bytes: 16385 };
    let refused = service.open(
        &mut store,
        ticket("c"),
        &Json::Null,
        10,
        Ok(wide),
        Json::Null,
        RecordId::new("q".to_owned()).unwrap(),
        false,
    );
    assert_eq!(refused.unwrap_err(), "question field exceeds transport bounds");
    let ended = service.open(
        &mut store,
        ticket("c"),
        &Json::Null,
        10,
        Ok(question()),
        Json::Null,
        RecordId::new("q".to_owned()).unwrap(),
        true,
    );
    assert_eq!(ended.unwrap_err(), "invocation ended");
    let long = service.open(
        &mut store,
        ticket("c"),
        &Json::Null,
        16385,
        Ok(question()),
        Json::Null,
        RecordId::new("q".to_owned()).unwrap(),
        false,
    );
    assert_eq!(long.unwrap_err(), "question exceeds JSON limits");
}

#[test]
fn question_operations_are_limited() {
    let mut service = Service::new();
    for _ in 0..MAX_OPERATIONS {
        assert!(service.begin("r").is_none());
    }
    let refused = service.begin("r").unwrap();
    assert_eq!(
        refused.get("error").unwrap().get("code"),
        Some(&text("question_capacity"))
    );
    service.finish();
    assert!(service.begin("r").is_none());
}

#[test]
fn a_closed_question_keeps_its_answer() {
    let mut store = store();
    let mut service = Service::new();
    ask(&mut service, &mut store, "c", "q1").unwrap();
    service
        .answer(&mut store, &answer_params("q1", "c"), 10, Ok(AnswerOutcome::Declined))
        .unwrap();
    let answer = service.close(&mut store, "q1").unwrap();
    assert!(matches!(
        &answer.record.payload,
        Payload::Answer { outcome: AnswerOutcome::Declined, .. }
    ));
    ask(&mut service, &mut store, "c", "q2").unwrap();
    let cancelled = service.close(&mut store, "q2").unwrap();
    assert!(matches!(
        &cancelled.record.payload,
        Payload::Answer { outcome: AnswerOutcome::Cancelled, .. }
    ));
    assert_eq!(cancelled.record.actor, actor("host"));
    let late =
        service.answer(&mut store, &answer_params("q2", "c"), 10, Ok(AnswerOutcome::Declined));
    assert!(late.is_err());
    assert_eq!(service.close(&mut store, "x").unwrap_err(), "question is no longer live");
}

#[test]
fn closed_questions_are_announced() {
    let frame = closed_frame("q", &ticket("c"));
    assert_eq!(frame.get("event"), Some(&text("question_closed")));
    assert_eq!(frame.get("call_id"), Some(&text("c")));
    let reply = answered_reply(
        "r",
        "q",
        text("declined"),
        text("stored"),
        &RecordId::new("a".to_owned()).unwrap(),
        true,
    );
    assert_eq!(reply.get("ok"), Some(&Json::Bool(true)));
    assert_eq!(
        reply.get("result").unwrap().get("answer_record_id"),
        Some(&text("a"))
    );
}
