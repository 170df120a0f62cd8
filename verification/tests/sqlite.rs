use agent_bridge::context::{Resource, ResourceError};
use agent_bridge::id::{ActorId, ContinuationId, RecordId, ResourceId, RunId, SessionId, SlotId};
use agent_bridge::json::{Json, JsonNumber};
use agent_bridge::model::{Content, Message, Record, ResourceRef};
use agent_bridge::records::continuation::{Continuation, ContinuationState};
use agent_bridge::records::sqlite::changes::{
    changes, check_page, clock, snapshot_page, snapshot_start, validate, Change, ChangeCursor,
};
use agent_bridge::records::sqlite::codec::{check_version, DATA_VERSION};
use agent_bridge::records::sqlite::continuation::{
    claim_continuation, save_continuation, ContinuationRow, Saving,
};
use agent_bridge::records::sqlite::execution::Ancestry;
use agent_bridge::records::sqlite::recovery::{
    is_attempt, is_outcome, limit, recover_interaction, recover_run, RunRow,
};
use agent_bridge::records::sqlite::resources::{
    check_reference, confirm_blob, digest, hex, put, read, Putting, ResourceRow,
};
use agent_bridge::records::sqlite::transactions::{
    checkpoint_record, confirm_update, insert, list_after, register_run, update_row, Insertion,
    PlaceFacts, RunFacts,
};
use agent_bridge::records::sqlite::values::{are_query_equal, is_query_one};
use agent_bridge::records::sqlite::{
    migrate, number, parse_state, state_name, SchemaFound, StoredRecord,
};
use agent_bridge::records::{
    CompletionReason, Draft, MessageKind, Payload, RecordState, Snapshot, StoreError,
};
use agent_bridge::table::Table;
use std::sync::Arc;

fn session() -> SessionId {
    SessionId::new("s".to_owned()).unwrap()
}

fn message(text: &str) -> Payload {
    Payload::Message {
        kind: MessageKind::Agent,
        message: Message { content: vec![Content::Text(text.to_owned())] },
    }
}

fn snapshot(text: &str, revision: u64, state: RecordState) -> Arc<Snapshot> {
    Arc::new(Snapshot {
        record: Record {
            id: RecordId::new("m".to_owned()).unwrap(),
            session_id: session(),
            run_id: None,
            sequence: 0,
            actor: ActorId::new("a".to_owned()).unwrap(),
            reply_to_id: None,
            payload: message(text),
        },
        source: None,
        revision,
        state,
    })
}

fn draft(text: &str) -> Draft {
    Draft {
        id: RecordId::new("m".to_owned()).unwrap(),
        session_id: session(),
        run_id: None,
        actor: ActorId::new("a".to_owned()).unwrap(),
        reply_to_id: None,
        source: None,
        payload: message(text),
        state: RecordState::Open,
    }
}

#[test]
fn schemas_are_migrated_forwards_only() {
    assert_eq!(migrate(&SchemaFound::Unversioned { occupied: false }, 3), Ok(0));
    assert_eq!(
        migrate(&SchemaFound::Unversioned { occupied: true }, 3),
        Err(StoreError::UnversionedSchema)
    );
    assert_eq!(migrate(&SchemaFound::Versioned(Some(2)), 3), Ok(2));
    assert_eq!(
        migrate(&SchemaFound::Versioned(Some(4)), 3),
        Err(StoreError::UnsupportedSchemaVersion(4))
    );
}

#[test]
fn states_have_names() {
    for state in [RecordState::Open, RecordState::Complete, RecordState::Interrupted] {
        assert_eq!(parse_state(state_name(state)), Ok(state));
    }
    assert!(matches!(parse_state("done"), Err(StoreError::CorruptData(_))));
    assert_eq!(number(7), Ok(7));
    assert!(matches!(number(-1), Err(StoreError::CorruptData(_))));
}

#[test]
fn rows_hold_records() {
    let stored = StoredRecord {
        initial: snapshot("a", 0, RecordState::Open),
        current: snapshot("ab", 3, RecordState::Complete),
    };
    let read = stored.to_row().unwrap().decode().unwrap();
    assert_eq!(*read.current, *snapshot("ab", 3, RecordState::Complete));
    assert_eq!(*read.initial, *snapshot("a", 0, RecordState::Open));
    let mut broken = stored.to_row().unwrap();
    broken.id = " ".to_owned();
    assert!(matches!(broken.decode(), Err(StoreError::CorruptData(_))));
}

#[test]
fn insertions_follow_what_is_stored() {
    let place = PlaceFacts { sequence: Some(4), run_session: None, reply_found: true };
    let new = insert(draft("a"), &None, &place).unwrap();
    match new {
        Insertion::New(record) => assert_eq!(record.record.sequence, 4),
        Insertion::Existing(_) => panic!("nothing was stored"),
    }
    let stored = Some(StoredRecord {
        initial: snapshot("a", 0, RecordState::Open),
        current: snapshot("ab", 1, RecordState::Complete),
    });
    match insert(draft("a"), &stored, &place).unwrap() {
        Insertion::Existing(record) => assert_eq!(record.revision, 1),
        Insertion::New(_) => panic!("the record is stored"),
    }
    assert!(matches!(insert(draft("b"), &stored, &place), Err(StoreError::IdentityConflict)));
    let nowhere = PlaceFacts { sequence: None, run_session: None, reply_found: true };
    assert!(matches!(insert(draft("a"), &None, &nowhere), Err(StoreError::MissingSession)));
}

#[test]
fn checkpoints_advance_the_revision() {
    let stored = Some(StoredRecord {
        initial: snapshot("a", 0, RecordState::Open),
        current: snapshot("a", 0, RecordState::Open),
    });
    let next =
        checkpoint_record(&stored, 0, message("ab"), RecordState::Complete).unwrap();
    assert_eq!(next.revision, 1);
    let update = update_row(&snapshot("a", 0, RecordState::Open), &next).unwrap().unwrap();
    assert_eq!(update.revision, 1);
    assert!(update.initial.is_some());
    assert_eq!(
        checkpoint_record(&stored, 5, message("ab"), RecordState::Open).unwrap_err(),
        StoreError::RevisionConflict
    );
    assert_eq!(confirm_update(1), Ok(()));
    assert_eq!(confirm_update(0), Err(StoreError::RevisionConflict));
}

#[test]
fn pages_are_bounded() {
    assert_eq!(list_after(None, 1, true), Ok(Some(-1)));
    assert_eq!(list_after(Some(4), 1000, true), Ok(Some(4)));
    assert_eq!(list_after(None, 0, true), Err(StoreError::InvalidPageSize));
    assert_eq!(list_after(None, 1, false), Err(StoreError::MissingSession));
    assert_eq!(list_after(Some(u64::MAX), 1, true), Ok(None));
    assert!(matches!(limit(0), Err(StoreError::CorruptData(_))));
    assert!(matches!(limit(1001), Err(StoreError::CorruptData(_))));
    assert_eq!(limit(1000), Ok(1000));
    assert_eq!(check_version(DATA_VERSION), Ok(()));
    assert_eq!(check_version(9), Err(StoreError::UnsupportedDataVersion(9)));
}

#[test]
fn runs_are_registered_against_what_is_stored() {
    let spec = agent_bridge::run::RunSpec {
        id: RunId::new("r".to_owned()).unwrap(),
        session_id: session(),
        slot_id: SlotId::new("slot".to_owned()).unwrap(),
        context: agent_bridge::model::ContextManifest {
            records: vec![RecordId::new("m".to_owned()).unwrap()],
            instructions: Vec::new(),
            resources: Vec::new(),
        },
        config: agent_bridge::configuration::RunConfiguration::default(),
        continuation: None,
    };
    let mut facts = RunFacts {
        existing: None,
        session: true,
        origin: None,
        context: vec![Some(RecordState::Complete)],
    };
    assert_eq!(register_run(&spec, &facts), Ok(true));
    facts.context = vec![Some(RecordState::Open)];
    assert_eq!(register_run(&spec, &facts), Err(StoreError::OpenContextRecord));
    facts.context = vec![None];
    assert_eq!(register_run(&spec, &facts), Err(StoreError::MissingRecord));
    facts.session = false;
    assert_eq!(register_run(&spec, &facts), Err(StoreError::MissingSession));
}

fn continuation() -> Continuation {
    Continuation {
        id: ContinuationId::new("c".to_owned()).unwrap(),
        session_id: session(),
        slot_id: SlotId::new("slot".to_owned()).unwrap(),
        adapter: "acp-v1".to_owned(),
        scope: "account".to_owned(),
        native_key: "native".to_owned(),
        predecessor: None,
        data: Json::Null,
    }
}

#[test]
fn continuations_are_saved_and_claimed() {
    let record = match save_continuation(continuation(), true, &None, &None).unwrap() {
        Saving::New { record, retired } => {
            assert!(retired.is_none());
            record
        }
        Saving::Existing(_) => panic!("nothing was saved"),
    };
    assert!(record.latest);
    let again = save_continuation(continuation(), true, &Some(record.clone()), &None).unwrap();
    assert!(matches!(again, Saving::Existing(_)));
    let claimed = claim_continuation(&Some(record)).unwrap();
    assert_eq!(claimed.state, ContinuationState::Claimed);
    assert_eq!(
        claim_continuation(&Some(claimed)).unwrap_err(),
        StoreError::ContinuationClaimed
    );
    assert_eq!(claim_continuation(&None).unwrap_err(), StoreError::MissingContinuation);
}

#[test]
fn continuation_rows_must_agree_with_their_columns() {
    let id = ContinuationId::new("c".to_owned()).unwrap();
    let row = |key: &str| ContinuationRow {
        value: Ok(continuation()),
        state: "available".to_owned(),
        latest: true,
        session: "s".to_owned(),
        adapter: "acp-v1".to_owned(),
        scope: "account".to_owned(),
        key: key.to_owned(),
        predecessor: None,
    };
    assert!(row("native").read(&id).unwrap().latest);
    assert!(matches!(row("other").read(&id), Err(StoreError::CorruptData(_))));
}

#[test]
fn ancestors_are_visited_once() {
    let mut ancestry = Ancestry::new();
    assert!(ancestry.visit(RunId::new("r".to_owned()).unwrap()));
    assert!(ancestry.visit(RunId::new("q".to_owned()).unwrap()));
    assert!(!ancestry.visit(RunId::new("r".to_owned()).unwrap()));
    assert!(ancestry.endless);
}

fn cursor(epoch: &str, position: u64) -> ChangeCursor {
    ChangeCursor { epoch: epoch.to_owned(), session_id: session(), position }
}

#[test]
fn changes_are_followed_from_a_snapshot() {
    let head = clock(&session(), true, "e".to_owned(), 9).unwrap();
    assert_eq!(head.position, 9);
    assert!(clock(&session(), false, "e".to_owned(), 9).is_err());
    assert_eq!(validate(&cursor("e", 4), &head), Ok(()));
    assert_eq!(validate(&cursor("e", 10), &head), Err(StoreError::InvalidChangeCursor));
    assert_eq!(validate(&cursor("f", 4), &head), Err(StoreError::InvalidChangeCursor));
    assert_eq!(check_page(10, false, None), Ok(()));
    assert_eq!(check_page(0, false, None), Err(StoreError::InvalidPageSize));
    let (from, after) = snapshot_start(None, cursor("e", 9), None).unwrap();
    assert_eq!((from.position, after), (9, -1));
    let page = snapshot_page(vec![snapshot("a", 0, RecordState::Open)], cursor("e", 9), 1);
    assert!(page.page_full);
    assert_eq!(page.next_after, Some(0));
    let rows = vec![
        Change { record: snapshot("a", 0, RecordState::Open), position: 5 },
        Change { record: snapshot("b", 1, RecordState::Open), position: 7 },
    ];
    let full = changes(&rows, cursor("e", 9), 2).unwrap();
    assert_eq!(full.cursor.position, 7);
    let last = changes(&rows, cursor("e", 9), 3).unwrap();
    assert_eq!(last.cursor.position, 9);
}

#[test]
fn digests_are_hexadecimal() {
    assert_eq!(hex(&vec![0, 15, 255]), "000fff");
    assert_eq!(
        digest(&b"abc".to_vec()),
        "ba7816bf8f01cfea414140de5dae2223b00361a396177a9cb410ff61f20015ad"
    );
    assert_eq!(
        digest(&Vec::new()),
        "e3b0c44298fc1c149afbf4c8996fb92427ae41e4649b934ca495991b7852b855"
    );
}

fn resource(bytes: &[u8]) -> Resource {
    Resource {
        reference: ResourceRef {
            id: ResourceId::new("guide".to_owned()).unwrap(),
            revision: "1".to_owned(),
        },
        media_type: "text/plain".to_owned(),
        bytes: bytes.to_vec(),
    }
}

#[test]
fn stored_resources_are_checked_against_their_digest() {
    let guide = resource(b"abc");
    let row = |hash: &str| {
        Some(ResourceRow {
            media_type: "text/plain".to_owned(),
            hash: hash.to_owned(),
            bytes: Some(b"abc".to_vec()),
        })
    };
    let found = read(&guide.reference, row(&digest(&b"abc".to_vec()))).unwrap();
    assert_eq!(found.bytes, b"abc".to_vec());
    assert!(read(&guide.reference, row("00")).is_err());
    assert_eq!(read(&guide.reference, None).unwrap_err(), ResourceError::Missing);
    match put(&guide, Err(ResourceError::Missing)).unwrap() {
        Putting::New { hash } => assert_eq!(hash, digest(&b"abc".to_vec())),
        Putting::Existing(_) => panic!("nothing was stored"),
    }
    let conflict = put(&guide, Ok(Arc::new(resource(b"abd"))));
    assert!(matches!(conflict, Err(ResourceError::RevisionConflict)));
    assert_eq!(confirm_blob(&guide, &b"abc".to_vec()), Ok(()));
    assert!(confirm_blob(&guide, &b"abd".to_vec()).is_err());
    let blank = ResourceRef {
        id: ResourceId::new("guide".to_owned()).unwrap(),
        revision: " ".to_owned(),
    };
    assert_eq!(check_reference(&blank), Err(ResourceError::Invalid));
}

#[test]
fn finished_runs_are_recovered_with_their_reason() {
    let rows = vec![RunRow {
        payload: Ok(Payload::RunFinished { reason: CompletionReason::Completed }),
        state: "complete".to_owned(),
    }];
    let found = recover_run(
        RunId::new("r".to_owned()).unwrap(),
        session(),
        SlotId::new("slot".to_owned()).unwrap(),
        rows,
    )
    .unwrap();
    assert_eq!(found.completion, Some(CompletionReason::Completed));
    let nothing = recover_run(
        RunId::new("r".to_owned()).unwrap(),
        session(),
        SlotId::new("slot".to_owned()).unwrap(),
        Vec::new(),
    )
    .unwrap();
    assert_eq!(nothing.completion, None);
}

fn positive(n: u64) -> Json {
    Json::Number(JsonNumber::PosInt(n))
}

fn fraction(n: f64) -> Json {
    Json::Number(JsonNumber::Float(n.to_bits()))
}

fn equal(a: &Json, b: &Json) -> bool {
    are_query_equal(a, "", b, "")
}

#[test]
fn queries_compare_numbers_by_their_value() {
    assert!(is_query_one(&positive(1)));
    assert!(is_query_one(&fraction(1.0)));
    assert!(is_query_one(&Json::Bool(true)));
    assert!(!is_query_one(&fraction(1.5)));
    assert!(!is_query_one(&fraction(-1.0)));
    assert!(!is_query_one(&Json::Text("1".to_owned())));
    assert!(!is_query_one(&Json::Null));
    assert!(!is_query_one(&Json::Array(vec![positive(1)])));
    assert!(equal(&positive(6), &fraction(6.0)));
    assert!(equal(&Json::Number(JsonNumber::NegInt(-6)), &fraction(-6.0)));
    assert!(!equal(&Json::Number(JsonNumber::NegInt(-6)), &positive(6)));
    assert!(equal(&positive(0), &fraction(-0.0)));
    assert!(equal(&Json::Bool(false), &positive(0)));
    assert!(equal(&fraction(0.1), &fraction(0.1)));
    assert!(!equal(&fraction(0.1), &fraction(0.2)));
    assert!(equal(&fraction(5e-324), &fraction(5e-324)));
    assert!(!equal(&fraction(5e-324), &positive(0)));
    assert!(!equal(&fraction(1e300), &fraction(1e301)));
}

#[test]
fn queries_read_large_integers_as_the_nearest_double() {
    let large = 1u64 << 63;
    assert!(equal(&positive(large), &fraction(9223372036854775808.0)));
    assert!(equal(&positive(large + 1024), &positive(large)));
    assert!(!equal(&positive(large + 1025), &positive(large)));
    assert!(equal(&positive(large + 2048 + 1024), &positive(large + 4096)));
    assert!(equal(&positive(u64::MAX), &fraction(18446744073709551616.0)));
    assert!(!equal(&positive(large - 1), &fraction(9223372036854775808.0)));
}

#[test]
fn queries_compare_arrays_and_objects_by_their_texts() {
    let list = Json::Array(vec![positive(1)]);
    assert!(are_query_equal(&list, "[1]", &list, "[1]"));
    assert!(are_query_equal(&list, "[1]", &Json::Text("[1]".to_owned()), ""));
    assert!(!are_query_equal(&list, "[1]", &Json::Array(Vec::new()), "[]"));
    assert!(!are_query_equal(&Json::Null, "", &Json::Null, ""));
}

fn receipt(state: &str, version: Json, id: Json) -> Snapshot {
    let mut data = Table::new();
    data.insert("version".to_owned(), version);
    data.insert("state".to_owned(), Json::Text(state.to_owned()));
    data.insert("invocation_id".to_owned(), id);
    let mut record = Arc::into_inner(snapshot("x", 0, RecordState::Complete)).unwrap();
    record.record.payload = Payload::Extension {
        namespace: "agent_bridge".to_owned(),
        name: "tool_invocation".to_owned(),
        data: Json::Object(data),
    };
    record
}

#[test]
fn outcomes_are_found_as_a_query_finds_them() {
    let name = || Json::Text("c".to_owned());
    let attempt = receipt("dispatch_attempted", positive(1), name());
    assert!(is_attempt(&attempt));
    for version in [positive(1), fraction(1.0), Json::Bool(true)] {
        assert!(is_outcome(&receipt("returned", version, name()), "", &attempt, ""));
    }
    for version in [positive(2), fraction(1.5), Json::Null, Json::Text("1".to_owned())] {
        assert!(!is_outcome(&receipt("returned", version, name()), "", &attempt, ""));
    }
    let other = receipt("returned", positive(1), Json::Text("d".to_owned()));
    assert!(!is_outcome(&other, "", &attempt, ""));
    assert!(!is_outcome(&receipt("unknown", positive(1), name()), "", &attempt, ""));
    let numbered = receipt("dispatch_attempted", positive(1), positive(7));
    assert!(is_outcome(&receipt("returned", positive(1), fraction(7.0)), "", &numbered, ""));
    let unnamed = receipt("dispatch_attempted", positive(1), Json::Null);
    assert!(!is_outcome(&receipt("returned", positive(1), Json::Null), "", &unnamed, ""));
    let open = recover_interaction(&attempt, false, false).unwrap();
    assert_eq!(open.kind, "application_tool_outcome_unknown");
    assert!(recover_interaction(&attempt, false, true).is_none());
}
