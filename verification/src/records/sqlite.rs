//! Records in a local SQL database: what its rows mean, and what each transaction does
//! in the light of the rows that it reads.

pub mod changes;
pub mod codec;
pub mod continuation;
pub mod execution;
pub mod recovery;
pub mod resources;
pub mod transactions;
pub mod values;

use crate::datum::{outcome, share, Datum};
use crate::id::{ActorId, RecordId, RunId, SessionId};
use crate::model::{Record, RecordView};
use crate::records::rules::{valid_payload, validate};
use crate::records::store::EntryView;
use crate::records::{
    Payload, PayloadView, RecordState, Snapshot, SnapshotView, SourceRef, SourceRefView,
    StoreError, StoreErrorView,
};
use crate::text::{blank, same_text};
use std::sync::Arc;
use vstd::prelude::*;
use vstd::string::*;

verus! {

/// What a database holds of the library's schema.
pub enum SchemaFound {
    /// There is a schema table, with its version where it has one.
    Versioned(Option<i64>),
    /// There is none, but perhaps other tables under the reserved name.
    Unversioned { occupied: bool },
}

/// The database holds something that nothing here has written.
pub open spec fn corrupt(text: Seq<char>) -> StoreErrorView {
    StoreErrorView::CorruptData(text)
}

pub(crate) fn make_corrupt(text: &str) -> (r: StoreError)
    ensures
        r.deep_view() == corrupt(text@),
{
    StoreError::CorruptData(text.to_owned())
}

/// How many of the known migrations a database has behind it.
pub open spec fn migrations_done(found: SchemaFound, known: nat) -> Result<nat, StoreErrorView> {
    match found {
        SchemaFound::Versioned(None) => Err(corrupt("schema version row is missing"@)),
        SchemaFound::Versioned(Some(version)) => if 0 < version <= known {
            Ok(version as nat)
        } else {
            Err(StoreErrorView::UnsupportedSchemaVersion(version))
        },
        SchemaFound::Unversioned { occupied } => if occupied {
            Err(StoreErrorView::UnversionedSchema)
        } else {
            Ok(0)
        },
    }
}

/// How many of the known migrations a database has behind it. The rest are applied in
/// their order.
pub fn migrate(found: &SchemaFound, known: usize) -> (r: Result<usize, StoreError>)
    ensures
        match r {
            Ok(n) => migrations_done(*found, known as nat) == Ok::<nat, StoreErrorView>(n as nat)
                && n <= known,
            Err(e) => migrations_done(*found, known as nat) == Err::<nat, StoreErrorView>(
                e.deep_view(),
            ),
        },
{
    match found {
        SchemaFound::Versioned(None) => Err(make_corrupt("schema version row is missing")),
        SchemaFound::Versioned(Some(version)) => {
            if *version > 0 && *version as u64 <= known as u64 {
                Ok(*version as u64 as usize)
            } else {
                Err(StoreError::UnsupportedSchemaVersion(*version))
            }
        },
        SchemaFound::Unversioned { occupied } => {
            if *occupied {
                Err(StoreError::UnversionedSchema)
            } else {
                Ok(0)
            }
        },
    }
}

/// The name of a state in a row.
pub open spec fn name_of(state: RecordState) -> Seq<char> {
    match state {
        RecordState::Open => "open"@,
        RecordState::Complete => "complete"@,
        RecordState::Interrupted => "interrupted"@,
    }
}

/// The state that a row names.
pub open spec fn state_of(name: Seq<char>) -> Option<RecordState> {
    if name == "open"@ {
        Some(RecordState::Open)
    } else if name == "complete"@ {
        Some(RecordState::Complete)
    } else if name == "interrupted"@ {
        Some(RecordState::Interrupted)
    } else {
        None
    }
}

/// The name of a state in a row.
pub fn state_name(state: RecordState) -> (r: &'static str)
    ensures
        r@ == name_of(state),
{
    match state {
        RecordState::Open => "open",
        RecordState::Complete => "complete",
        RecordState::Interrupted => "interrupted",
    }
}

/// The state that a row names.
pub fn parse_state(state: &str) -> (r: Result<RecordState, StoreError>)
    ensures
        outcome(r) == match state_of(state@) {
            Some(state) => Ok::<RecordState, StoreErrorView>(state),
            None => Err(corrupt("invalid record state"@)),
        },
{
    if same_text(state, "open") {
        Ok(RecordState::Open)
    } else if same_text(state, "complete") {
        Ok(RecordState::Complete)
    } else if same_text(state, "interrupted") {
        Ok(RecordState::Interrupted)
    } else {
        Err(make_corrupt("invalid record state"))
    }
}

/// Every state can be read from its name.
pub proof fn state_names_can_be_read(state: RecordState)
    ensures
        state_of(name_of(state)) == Some(state),
{
    reveal_strlit("open");
    reveal_strlit("complete");
    reveal_strlit("interrupted");
    assert("open"@.len() == 4);
    assert("complete"@.len() == 8);
    assert("interrupted"@.len() == 11);
}

/// What is said of a blank identifier in a row.
pub open spec fn bad_id() -> StoreErrorView {
    corrupt("an identifier cannot be empty or whitespace-only"@)
}

/// What is said of a negative number in a row.
pub open spec fn bad_number() -> StoreErrorView {
    corrupt("negative sequence or revision"@)
}

/// A sequence or revision of a row.
pub fn number(value: i64) -> (r: Result<u64, StoreError>)
    ensures
        outcome(r) == if value >= 0 {
            Ok::<u64, StoreErrorView>(value as u64)
        } else {
            Err(bad_number())
        },
{
    if value >= 0 {
        Ok(value as u64)
    } else {
        Err(make_corrupt("negative sequence or revision"))
    }
}

/// What a record held when it was created.
#[derive(Debug, PartialEq, Eq)]
pub struct InitialContent {
    pub payload: Payload,
    pub state: RecordState,
}

/// What a `InitialContent` holds.
#[verifier::ext_equal]
pub struct InitialContentView {
    pub payload: PayloadView,
    pub state: RecordState,
}

impl DeepView for InitialContent {
    type V = InitialContentView;

    open spec fn deep_view(&self) -> InitialContentView {
        InitialContentView {
            payload: self.payload.deep_view(),
            state: self.state.deep_view(),
        }
    }
}

impl Datum for InitialContent {
    fn duplicate(&self) -> (r: InitialContent) {
        InitialContent {
            payload: self.payload.duplicate(),
            state: self.state.duplicate(),
        }
    }

    fn same_as(&self, other: &InitialContent) -> (r: bool) {
        self.payload.same_as(&other.payload)
            && self.state.same_as(&other.state)
    }
}


/// A row of the records table, with its documents as they were decoded.
pub struct RowData {
    pub id: String,
    pub session: String,
    pub run: Option<String>,
    pub sequence: i64,
    pub actor: String,
    pub reply: Option<String>,
    pub source: Option<Result<SourceRef, StoreError>>,
    pub payload: Result<Payload, StoreError>,
    pub state: String,
    pub revision: i64,
    pub initial: Option<Result<InitialContent, StoreError>>,
}

/// What a `RowData` holds.
#[verifier::ext_equal]
pub struct RowDataView {
    pub id: Seq<char>,
    pub session: Seq<char>,
    pub run: Option<Seq<char>>,
    pub sequence: i64,
    pub actor: Seq<char>,
    pub reply: Option<Seq<char>>,
    pub source: Option<Result<SourceRefView, StoreErrorView>>,
    pub payload: Result<PayloadView, StoreErrorView>,
    pub state: Seq<char>,
    pub revision: i64,
    pub initial: Option<Result<InitialContentView, StoreErrorView>>,
}

impl DeepView for RowData {
    type V = RowDataView;

    open spec fn deep_view(&self) -> RowDataView {
        RowDataView {
            id: self.id@,
            session: self.session@,
            run: self.run.deep_view(),
            sequence: self.sequence,
            actor: self.actor@,
            reply: self.reply.deep_view(),
            source: match self.source {
                Some(source) => Some(outcome(source)),
                None => None,
            },
            payload: outcome(self.payload),
            state: self.state@,
            revision: self.revision,
            initial: match self.initial {
                Some(initial) => Some(outcome(initial)),
                None => None,
            },
        }
    }
}

/// A record as it was created and as it is now.
#[derive(Debug, PartialEq, Eq)]
pub struct StoredRecord {
    pub initial: Arc<Snapshot>,
    pub current: Arc<Snapshot>,
}

impl DeepView for StoredRecord {
    type V = EntryView;

    open spec fn deep_view(&self) -> EntryView {
        EntryView { initial: self.initial.deep_view(), current: self.current.deep_view() }
    }
}

/// What is said of a payload that makes no sense in its record.
pub open spec fn bad_payload() -> StoreErrorView {
    corrupt("record store: InvalidPayload"@)
}

/// The record that a row holds, or why it holds none.
pub open spec fn row_meaning(row: RowDataView) -> Result<EntryView, StoreErrorView> {
    if blank(row.id) || blank(row.session) || (row.run matches Some(run) && blank(run)) {
        Err(bad_id())
    } else if row.sequence < 0 {
        Err(bad_number())
    } else if blank(row.actor) || (row.reply matches Some(reply) && blank(reply)) {
        Err(bad_id())
    } else {
        match (row.payload, row.source) {
            (Err(e), _) => Err(e),
            (Ok(_), Some(Err(e))) => Err(e),
            (Ok(payload), source) => if row.revision < 0 {
                Err(bad_number())
            } else {
                match state_of(row.state) {
                    None => Err(corrupt("invalid record state"@)),
                    Some(state) => creation_of(
                        SnapshotView {
                            record: RecordView {
                                id: row.id,
                                session_id: row.session,
                                run_id: row.run,
                                sequence: row.sequence as u64,
                                actor: row.actor,
                                reply_to_id: row.reply,
                                payload,
                            },
                            source: match source {
                                Some(Ok(source)) => Some(source),
                                _ => None,
                            },
                            revision: row.revision as u64,
                            state,
                        },
                        row.initial,
                    ),
                }
            },
        }
    }
}

/// A record with what is kept of its creation. A record that was never changed is its
/// own creation.
pub open spec fn creation_of(
    current: SnapshotView,
    initial: Option<Result<InitialContentView, StoreErrorView>>,
) -> Result<EntryView, StoreErrorView> {
    if !valid_payload(current.record.payload, current.state) {
        Err(bad_payload())
    } else {
        match initial {
            None => if current.revision == 0 {
                Ok(EntryView { initial: current, current })
            } else {
                Err(corrupt("updated record has no creation snapshot"@))
            },
            Some(Err(e)) => Err(e),
            Some(Ok(content)) => if !valid_payload(content.payload, content.state) {
                Err(bad_payload())
            } else {
                Ok(
                    EntryView {
                        initial: SnapshotView {
                            record: RecordView { payload: content.payload, ..current.record },
                            source: current.source,
                            revision: 0,
                            state: content.state,
                        },
                        current,
                    },
                )
            },
        }
    }
}

fn read_creation(
    current: Snapshot,
    initial: Option<Result<InitialContent, StoreError>>,
) -> (r: Result<StoredRecord, StoreError>)
    ensures
        outcome(r) == creation_of(
            current.deep_view(),
            match initial {
                Some(initial) => Some(outcome(initial)),
                None => None,
            },
        ),
{
    match validate(&current.record.payload, current.state) {
        Err(e) => return Err(StoreError::CorruptData(invalid_payload_text(e))),
        Ok(_) => {},
    }
    match initial {
        None => {
            if current.revision != 0 {
                return Err(make_corrupt("updated record has no creation snapshot"));
            }
            let current = Arc::new(current);
            Ok(StoredRecord { initial: share(&current), current })
        },
        Some(Err(e)) => Err(e),
        Some(Ok(content)) => {
            match validate(&content.payload, content.state) {
                Err(e) => return Err(StoreError::CorruptData(invalid_payload_text(e))),
                Ok(_) => {},
            }
            let record = &current.record;
            let initial = Snapshot {
                record: Record {
                    id: record.id.duplicate(),
                    session_id: record.session_id.duplicate(),
                    run_id: record.run_id.duplicate(),
                    sequence: record.sequence,
                    actor: record.actor.duplicate(),
                    reply_to_id: record.reply_to_id.duplicate(),
                    payload: content.payload,
                },
                source: current.source.duplicate(),
                revision: 0,
                state: content.state,
            };
            Ok(StoredRecord { initial: Arc::new(initial), current: Arc::new(current) })
        },
    }
}

fn invalid_payload_text(error: StoreError) -> (r: String)
    requires
        error == StoreError::InvalidPayload,
    ensures
        r@ == "record store: InvalidPayload"@,
{
    let r = error.to_string();
    proof {
        reveal_strlit("record store: InvalidPayload");
        reveal_strlit("record store: ");
        reveal_strlit("InvalidPayload");
        assert("record store: "@ + "InvalidPayload"@ =~= "record store: InvalidPayload"@);
    }
    r
}

impl RowData {
    /// The record that the row holds.
    pub fn decode(self) -> (r: Result<StoredRecord, StoreError>)
        ensures
            outcome(r) == row_meaning(self.deep_view()),
    {
        let id = match RecordId::new(self.id) {
            Err(e) => return Err(StoreError::CorruptData(e.to_string())),
            Ok(id) => id,
        };
        let session_id = match SessionId::new(self.session) {
            Err(e) => return Err(StoreError::CorruptData(e.to_string())),
            Ok(id) => id,
        };
        let run_id = match self.run {
            Some(run) => match RunId::new(run) {
                Err(e) => return Err(StoreError::CorruptData(e.to_string())),
                Ok(id) => Some(id),
            },
            None => None,
        };
        let sequence: u64 = match number(self.sequence) {
            Err(e) => return Err(e),
            Ok(sequence) => sequence,
        };
        let actor = match ActorId::new(self.actor) {
            Err(e) => return Err(StoreError::CorruptData(e.to_string())),
            Ok(id) => id,
        };
        let reply_to_id = match self.reply {
            Some(reply) => match RecordId::new(reply) {
                Err(e) => return Err(StoreError::CorruptData(e.to_string())),
                Ok(id) => Some(id),
            },
            None => None,
        };
        let payload = match self.payload {
            Err(e) => return Err(e),
            Ok(payload) => payload,
        };
        let source = match self.source {
            Some(Err(e)) => return Err(e),
            Some(Ok(source)) => Some(source),
            None => None,
        };
        let revision: u64 = match number(self.revision) {
            Err(e) => return Err(e),
            Ok(revision) => revision,
        };
        let state = match parse_state(self.state.as_str()) {
            Err(e) => return Err(e),
            Ok(state) => state,
        };
        let current = Snapshot {
            record: Record { id, session_id, run_id, sequence, actor, reply_to_id, payload },
            source,
            revision,
            state,
        };
        read_creation(current, self.initial)
    }
}

/// The numbers of a record fit into a row.
pub open spec fn fits(snapshot: SnapshotView) -> bool {
    snapshot.record.sequence <= i64::MAX && snapshot.revision <= i64::MAX
}

/// The row that a record is written to.
pub open spec fn row_of(entry: EntryView) -> RowDataView {
    let record = entry.current.record;
    RowDataView {
        id: record.id,
        session: record.session_id,
        run: record.run_id,
        sequence: record.sequence as i64,
        actor: record.actor,
        reply: record.reply_to_id,
        source: match entry.current.source {
            Some(source) => Some(Ok(source)),
            None => None,
        },
        payload: Ok(record.payload),
        state: name_of(entry.current.state),
        revision: entry.current.revision as i64,
        initial: if entry.current.revision == 0 {
            None
        } else {
            Some(
                Ok(
                    InitialContentView {
                        payload: entry.initial.record.payload,
                        state: entry.initial.state,
                    },
                ),
            )
        },
    }
}

impl StoredRecord {
    /// The row that the record is written to.
    pub fn to_row(&self) -> (r: Result<RowData, StoreError>)
        ensures
            match r {
                Ok(row) => fits(self.deep_view().current) && row.deep_view() == row_of(
                    self.deep_view(),
                ),
                Err(e) => !fits(self.deep_view().current) && e == StoreError::SequenceExhausted,
            },
    {
        let current = &self.current;
        if current.record.sequence > i64::MAX as u64 || current.revision > i64::MAX as u64 {
            return Err(StoreError::SequenceExhausted);
        }
        Ok(
            RowData {
                id: current.record.id.as_str().to_owned(),
                session: current.record.session_id.as_str().to_owned(),
                run: match &current.record.run_id {
                    Some(run) => Some(run.as_str().to_owned()),
                    None => None,
                },
                sequence: current.record.sequence as i64,
                actor: current.record.actor.as_str().to_owned(),
                reply: match &current.record.reply_to_id {
                    Some(reply) => Some(reply.as_str().to_owned()),
                    None => None,
                },
                source: match &current.source {
                    Some(source) => Some(Ok(source.duplicate())),
                    None => None,
                },
                payload: Ok(current.record.payload.duplicate()),
                state: state_name(current.state).to_owned(),
                revision: current.revision as i64,
                initial: if current.revision == 0 {
                    None
                } else {
                    Some(
                        Ok(
                            InitialContent {
                                payload: self.initial.record.payload.duplicate(),
                                state: self.initial.state,
                            },
                        ),
                    )
                },
            },
        )
    }
}

/// The ids of a record say something.
pub open spec fn identified(record: RecordView<PayloadView>) -> bool {
    &&& !blank(record.id)
    &&& !blank(record.session_id)
    &&& !blank(record.actor)
    &&& (record.run_id matches Some(run) ==> !blank(run))
    &&& (record.reply_to_id matches Some(reply) ==> !blank(reply))
}

/// What is written can be read: the row of a record holds the record.
pub proof fn rows_can_be_read(entry: EntryView)
    requires
        fits(entry.current),
        identified(entry.current.record),
        valid_payload(entry.current.record.payload, entry.current.state),
        valid_payload(entry.initial.record.payload, entry.initial.state),
        entry.initial == (SnapshotView {
            record: RecordView {
                payload: entry.initial.record.payload,
                ..entry.current.record
            },
            revision: 0,
            state: entry.initial.state,
            ..entry.current
        }),
        entry.current.revision == 0 ==> entry.initial == entry.current,
    ensures
        row_meaning(row_of(entry)) == Ok::<EntryView, StoreErrorView>(entry),
{
    state_names_can_be_read(entry.current.state);
}

} // verus!
