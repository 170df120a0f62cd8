//! Portable transcript payloads and the local storage contract.
//!
//! Live records can be checkpointed using revision checks. Finalized records are
//! immutable. This module does not execute tools, resolve context, or send decisions.

pub mod consistency;
pub mod continuation;
pub mod decisions;
pub mod evidence;
pub mod keeping;
pub mod laws;
pub mod memory;
pub mod question;
pub mod receipts;
pub mod rules;
pub mod sqlite;
pub mod store;

use crate::datum::Datum;
use crate::id::{ActorId, RecordId, RunId, SessionId};
use crate::json::{Json, JsonView};
use crate::model::{Message, MessageView, Record, RecordView};
use crate::records::question::{
    AnswerDelivery, AnswerOutcome, AnswerOutcomeView, Question, QuestionView,
};
use crate::table::Table;
use vstd::prelude::*;

verus! {

/// Who speaks in a message.
#[derive(Debug, Clone, Copy, PartialEq, Eq, Structural)]
pub enum MessageKind {
    User,
    Agent,
    Reasoning,
}

impl DeepView for MessageKind {
    type V = MessageKind;

    open spec fn deep_view(&self) -> MessageKind {
        *self
    }
}

impl Datum for MessageKind {
    fn duplicate(&self) -> (r: MessageKind) {
        *self
    }

    fn same_as(&self, other: &MessageKind) -> (r: bool) {
        *self == *other
    }
}

/// How far a tool call got.
#[derive(Debug, Clone, Copy, PartialEq, Eq, Structural)]
pub enum ToolStatus {
    Pending,
    Running,
    Completed,
    Failed,
    Unknown,
}

impl DeepView for ToolStatus {
    type V = ToolStatus;

    open spec fn deep_view(&self) -> ToolStatus {
        *self
    }
}

impl Datum for ToolStatus {
    fn duplicate(&self) -> (r: ToolStatus) {
        *self
    }

    fn same_as(&self, other: &ToolStatus) -> (r: bool) {
        *self == *other
    }
}

/// What is known of one tool call.
#[derive(Debug, PartialEq, Eq)]
pub struct ToolActivity {
    pub title: String,
    pub status: ToolStatus,
    pub input: Option<Json>,
    pub output: Option<Json>,
    /// Namespaced information that has no portable representation yet.
    pub extensions: Table<Json>,
}

/// What a `ToolActivity` holds.
#[verifier::ext_equal]
pub struct ToolActivityView {
    pub title: Seq<char>,
    pub status: ToolStatus,
    pub input: Option<JsonView>,
    pub output: Option<JsonView>,
    pub extensions: Map<Seq<char>, JsonView>,
}

impl DeepView for ToolActivity {
    type V = ToolActivityView;

    open spec fn deep_view(&self) -> ToolActivityView {
        ToolActivityView {
            title: self.title.deep_view(),
            status: self.status.deep_view(),
            input: self.input.deep_view(),
            output: self.output.deep_view(),
            extensions: self.extensions.deep_view(),
        }
    }
}

impl Datum for ToolActivity {
    fn duplicate(&self) -> (r: ToolActivity) {
        ToolActivity {
            title: self.title.duplicate(),
            status: self.status.duplicate(),
            input: self.input.duplicate(),
            output: self.output.duplicate(),
            extensions: self.extensions.duplicate(),
        }
    }

    fn same_as(&self, other: &ToolActivity) -> (r: bool) {
        self.title.same_as(&other.title)
            && self.status.same_as(&other.status)
            && self.input.same_as(&other.input)
            && self.output.same_as(&other.output)
            && self.extensions.same_as(&other.extensions)
    }
}

/// One way to answer a permission request.
#[derive(Debug, PartialEq, Eq)]
pub struct PermissionOption {
    pub id: String,
    pub label: String,
    /// Preserve provider scope/effect descriptions; never infer authority from labels.
    pub effect: String,
}

/// What a `PermissionOption` holds.
#[verifier::ext_equal]
pub struct PermissionOptionView {
    pub id: Seq<char>,
    pub label: Seq<char>,
    pub effect: Seq<char>,
}

impl DeepView for PermissionOption {
    type V = PermissionOptionView;

    open spec fn deep_view(&self) -> PermissionOptionView {
        PermissionOptionView {
            id: self.id.deep_view(),
            label: self.label.deep_view(),
            effect: self.effect.deep_view(),
        }
    }
}

impl Datum for PermissionOption {
    fn duplicate(&self) -> (r: PermissionOption) {
        PermissionOption {
            id: self.id.duplicate(),
            label: self.label.duplicate(),
            effect: self.effect.duplicate(),
        }
    }

    fn same_as(&self, other: &PermissionOption) -> (r: bool) {
        self.id.same_as(&other.id)
            && self.label.same_as(&other.label)
            && self.effect.same_as(&other.effect)
    }
}

/// How a permission request was answered.
#[derive(Debug, PartialEq, Eq)]
pub enum PermissionOutcome {
    Selected(String),
    Cancelled,
}

/// What a `PermissionOutcome` holds.
pub enum PermissionOutcomeView {
    Selected(Seq<char>),
    Cancelled,
}

impl DeepView for PermissionOutcome {
    type V = PermissionOutcomeView;

    open spec fn deep_view(&self) -> PermissionOutcomeView {
        match self {
            PermissionOutcome::Selected(value) => PermissionOutcomeView::Selected(value.deep_view()),
            PermissionOutcome::Cancelled => PermissionOutcomeView::Cancelled,
        }
    }
}

impl Datum for PermissionOutcome {
    fn duplicate(&self) -> (r: PermissionOutcome) {
        match self {
            PermissionOutcome::Selected(value) => PermissionOutcome::Selected(value.duplicate()),
            PermissionOutcome::Cancelled => PermissionOutcome::Cancelled,
        }
    }

    fn same_as(&self, other: &PermissionOutcome) -> (r: bool) {
        match (self, other) {
            (PermissionOutcome::Selected(a), PermissionOutcome::Selected(b)) => a.same_as(b),
            (PermissionOutcome::Cancelled, PermissionOutcome::Cancelled) => true,
            _ => false,
        }
    }
}

/// How far a decision got on its way to the provider.
#[derive(Debug, Clone, Copy, PartialEq, Eq, Structural)]
pub enum DecisionDelivery {
    /// Accepted by the local transport queue, not acknowledged by the provider.
    Queued,
    /// A decision was attempted, but its delivery is not established.
    Unknown,
}

impl DeepView for DecisionDelivery {
    type V = DecisionDelivery;

    open spec fn deep_view(&self) -> DecisionDelivery {
        *self
    }
}

impl Datum for DecisionDelivery {
    fn duplicate(&self) -> (r: DecisionDelivery) {
        *self
    }

    fn same_as(&self, other: &DecisionDelivery) -> (r: bool) {
        *self == *other
    }
}

/// Why a run ended.
#[derive(Debug, PartialEq, Eq)]
pub enum CompletionReason {
    Completed,
    Refused,
    TokenLimit,
    StepLimit,
    Cancelled,
    Other(String),
}

/// What a `CompletionReason` holds.
pub enum CompletionReasonView {
    Completed,
    Refused,
    TokenLimit,
    StepLimit,
    Cancelled,
    Other(Seq<char>),
}

impl DeepView for CompletionReason {
    type V = CompletionReasonView;

    open spec fn deep_view(&self) -> CompletionReasonView {
        match self {
            CompletionReason::Completed => CompletionReasonView::Completed,
            CompletionReason::Refused => CompletionReasonView::Refused,
            CompletionReason::TokenLimit => CompletionReasonView::TokenLimit,
            CompletionReason::StepLimit => CompletionReasonView::StepLimit,
            CompletionReason::Cancelled => CompletionReasonView::Cancelled,
            CompletionReason::Other(value) => CompletionReasonView::Other(value.deep_view()),
        }
    }
}

impl Datum for CompletionReason {
    fn duplicate(&self) -> (r: CompletionReason) {
        match self {
            CompletionReason::Completed => CompletionReason::Completed,
            CompletionReason::Refused => CompletionReason::Refused,
            CompletionReason::TokenLimit => CompletionReason::TokenLimit,
            CompletionReason::StepLimit => CompletionReason::StepLimit,
            CompletionReason::Cancelled => CompletionReason::Cancelled,
            CompletionReason::Other(value) => CompletionReason::Other(value.duplicate()),
        }
    }

    fn same_as(&self, other: &CompletionReason) -> (r: bool) {
        match (self, other) {
            (CompletionReason::Completed, CompletionReason::Completed) => true,
            (CompletionReason::Refused, CompletionReason::Refused) => true,
            (CompletionReason::TokenLimit, CompletionReason::TokenLimit) => true,
            (CompletionReason::StepLimit, CompletionReason::StepLimit) => true,
            (CompletionReason::Cancelled, CompletionReason::Cancelled) => true,
            (CompletionReason::Other(a), CompletionReason::Other(b)) => a.same_as(b),
            _ => false,
        }
    }
}

/// What a record says.
#[allow(inconsistent_fields)]
#[derive(Debug, PartialEq, Eq)]
pub enum Payload {
    Message { kind: MessageKind, message: Message },
    Tool(ToolActivity),
    Permission { title: String, options: Vec<PermissionOption> },
    Decision { outcome: PermissionOutcome, delivery: DecisionDelivery },
    Question(Question),
    Answer { outcome: AnswerOutcome, delivery: AnswerDelivery },
    Failure { message: String },
    RunFinished { reason: CompletionReason },
    /// Preserves unsupported SDK data rather than pretending it was normalized.
    Extension { namespace: String, name: String, data: Json },
}

/// What a `Payload` holds.
#[allow(inconsistent_fields)]
pub enum PayloadView {
    Message { kind: MessageKind, message: MessageView },
    Tool(ToolActivityView),
    Permission { title: Seq<char>, options: Seq<PermissionOptionView> },
    Decision { outcome: PermissionOutcomeView, delivery: DecisionDelivery },
    Question(QuestionView),
    Answer { outcome: AnswerOutcomeView, delivery: AnswerDelivery },
    Failure { message: Seq<char> },
    RunFinished { reason: CompletionReasonView },
    Extension { namespace: Seq<char>, name: Seq<char>, data: JsonView },
}

impl DeepView for Payload {
    type V = PayloadView;

    open spec fn deep_view(&self) -> PayloadView {
        match self {
            Payload::Message { kind, message } => PayloadView::Message {
                kind: kind.deep_view(),
                message: message.deep_view(),
            },
            Payload::Tool(value) => PayloadView::Tool(value.deep_view()),
            Payload::Permission { title, options } => PayloadView::Permission {
                title: title.deep_view(),
                options: options.deep_view(),
            },
            Payload::Decision { outcome, delivery } => PayloadView::Decision {
                outcome: outcome.deep_view(),
                delivery: delivery.deep_view(),
            },
            Payload::Question(value) => PayloadView::Question(value.deep_view()),
            Payload::Answer { outcome, delivery } => PayloadView::Answer {
                outcome: outcome.deep_view(),
                delivery: delivery.deep_view(),
            },
            Payload::Failure { message } => PayloadView::Failure {
                message: message.deep_view(),
            },
            Payload::RunFinished { reason } => PayloadView::RunFinished {
                reason: reason.deep_view(),
            },
            Payload::Extension { namespace, name, data } => PayloadView::Extension {
                namespace: namespace.deep_view(),
                name: name.deep_view(),
                data: data.deep_view(),
            },
        }
    }
}

impl Datum for Payload {
    fn duplicate(&self) -> (r: Payload) {
        match self {
            Payload::Message { kind, message } => Payload::Message {
                kind: kind.duplicate(),
                message: message.duplicate(),
            },
            Payload::Tool(value) => Payload::Tool(value.duplicate()),
            Payload::Permission { title, options } => Payload::Permission {
                title: title.duplicate(),
                options: options.duplicate(),
            },
            Payload::Decision { outcome, delivery } => Payload::Decision {
                outcome: outcome.duplicate(),
                delivery: delivery.duplicate(),
            },
            Payload::Question(value) => Payload::Question(value.duplicate()),
            Payload::Answer { outcome, delivery } => Payload::Answer {
                outcome: outcome.duplicate(),
                delivery: delivery.duplicate(),
            },
            Payload::Failure { message } => Payload::Failure {
                message: message.duplicate(),
            },
            Payload::RunFinished { reason } => Payload::RunFinished {
                reason: reason.duplicate(),
            },
            Payload::Extension { namespace, name, data } => Payload::Extension {
                namespace: namespace.duplicate(),
                name: name.duplicate(),
                data: data.duplicate(),
            },
        }
    }

    fn same_as(&self, other: &Payload) -> (r: bool) {
        match (self, other) {
            (Payload::Message { kind: kind_a, message: message_a }, Payload::Message { kind: kind_b, message: message_b }) => {
                kind_a.same_as(kind_b)
                    && message_a.same_as(message_b)
            },
            (Payload::Tool(a), Payload::Tool(b)) => a.same_as(b),
            (Payload::Permission { title: title_a, options: options_a }, Payload::Permission { title: title_b, options: options_b }) => {
                title_a.same_as(title_b)
                    && options_a.same_as(options_b)
            },
            (Payload::Decision { outcome: outcome_a, delivery: delivery_a }, Payload::Decision { outcome: outcome_b, delivery: delivery_b }) => {
                outcome_a.same_as(outcome_b)
                    && delivery_a.same_as(delivery_b)
            },
            (Payload::Question(a), Payload::Question(b)) => a.same_as(b),
            (Payload::Answer { outcome: outcome_a, delivery: delivery_a }, Payload::Answer { outcome: outcome_b, delivery: delivery_b }) => {
                outcome_a.same_as(outcome_b)
                    && delivery_a.same_as(delivery_b)
            },
            (Payload::Failure { message: message_a }, Payload::Failure { message: message_b }) => {
                message_a.same_as(message_b)
            },
            (Payload::RunFinished { reason: reason_a }, Payload::RunFinished { reason: reason_b }) => {
                reason_a.same_as(reason_b)
            },
            (Payload::Extension { namespace: namespace_a, name: name_a, data: data_a }, Payload::Extension { namespace: namespace_b, name: name_b, data: data_b }) => {
                namespace_a.same_as(namespace_b)
                    && name_a.same_as(name_b)
                    && data_a.same_as(data_b)
            },
            _ => false,
        }
    }
}

/// Whether a record may still change.
#[derive(Debug, Clone, Copy, PartialEq, Eq, Structural)]
pub enum RecordState {
    Open,
    Complete,
    Interrupted,
}

impl DeepView for RecordState {
    type V = RecordState;

    open spec fn deep_view(&self) -> RecordState {
        *self
    }
}

impl Datum for RecordState {
    fn duplicate(&self) -> (r: RecordState) {
        *self
    }

    fn same_as(&self, other: &RecordState) -> (r: bool) {
        *self == *other
    }
}

/// A provider's own name for something.
#[derive(Debug, PartialEq, Eq)]
pub struct SourceRef {
    pub namespace: String,
    pub id: String,
}

/// What a `SourceRef` holds.
#[verifier::ext_equal]
pub struct SourceRefView {
    pub namespace: Seq<char>,
    pub id: Seq<char>,
}

impl DeepView for SourceRef {
    type V = SourceRefView;

    open spec fn deep_view(&self) -> SourceRefView {
        SourceRefView {
            namespace: self.namespace.deep_view(),
            id: self.id.deep_view(),
        }
    }
}

impl Datum for SourceRef {
    fn duplicate(&self) -> (r: SourceRef) {
        SourceRef {
            namespace: self.namespace.duplicate(),
            id: self.id.duplicate(),
        }
    }

    fn same_as(&self, other: &SourceRef) -> (r: bool) {
        self.namespace.same_as(&other.namespace)
            && self.id.same_as(&other.id)
    }
}

/// New record data. The store assigns the session-local sequence.
#[derive(Debug, PartialEq, Eq)]
pub struct Draft {
    pub id: RecordId,
    pub session_id: SessionId,
    pub run_id: Option<RunId>,
    pub actor: ActorId,
    pub reply_to_id: Option<RecordId>,
    pub source: Option<SourceRef>,
    pub payload: Payload,
    pub state: RecordState,
}

/// What a `Draft` holds.
#[verifier::ext_equal]
pub struct DraftView {
    pub id: Seq<char>,
    pub session_id: Seq<char>,
    pub run_id: Option<Seq<char>>,
    pub actor: Seq<char>,
    pub reply_to_id: Option<Seq<char>>,
    pub source: Option<SourceRefView>,
    pub payload: PayloadView,
    pub state: RecordState,
}

impl DeepView for Draft {
    type V = DraftView;

    open spec fn deep_view(&self) -> DraftView {
        DraftView {
            id: self.id.deep_view(),
            session_id: self.session_id.deep_view(),
            run_id: self.run_id.deep_view(),
            actor: self.actor.deep_view(),
            reply_to_id: self.reply_to_id.deep_view(),
            source: self.source.deep_view(),
            payload: self.payload.deep_view(),
            state: self.state.deep_view(),
        }
    }
}

impl Datum for Draft {
    fn duplicate(&self) -> (r: Draft) {
        Draft {
            id: self.id.duplicate(),
            session_id: self.session_id.duplicate(),
            run_id: self.run_id.duplicate(),
            actor: self.actor.duplicate(),
            reply_to_id: self.reply_to_id.duplicate(),
            source: self.source.duplicate(),
            payload: self.payload.duplicate(),
            state: self.state.duplicate(),
        }
    }

    fn same_as(&self, other: &Draft) -> (r: bool) {
        self.id.same_as(&other.id)
            && self.session_id.same_as(&other.session_id)
            && self.run_id.same_as(&other.run_id)
            && self.actor.same_as(&other.actor)
            && self.reply_to_id.same_as(&other.reply_to_id)
            && self.source.same_as(&other.source)
            && self.payload.same_as(&other.payload)
            && self.state.same_as(&other.state)
    }
}

/// A record at one revision.
#[derive(Debug, PartialEq, Eq)]
pub struct Snapshot {
    pub record: Record<Payload>,
    pub source: Option<SourceRef>,
    pub revision: u64,
    pub state: RecordState,
}

/// What a `Snapshot` holds.
#[verifier::ext_equal]
pub struct SnapshotView {
    pub record: RecordView<PayloadView>,
    pub source: Option<SourceRefView>,
    pub revision: u64,
    pub state: RecordState,
}

impl DeepView for Snapshot {
    type V = SnapshotView;

    open spec fn deep_view(&self) -> SnapshotView {
        SnapshotView {
            record: self.record.deep_view(),
            source: self.source.deep_view(),
            revision: self.revision.deep_view(),
            state: self.state.deep_view(),
        }
    }
}

impl Datum for Snapshot {
    fn duplicate(&self) -> (r: Snapshot) {
        Snapshot {
            record: self.record.duplicate(),
            source: self.source.duplicate(),
            revision: self.revision.duplicate(),
            state: self.state.duplicate(),
        }
    }

    fn same_as(&self, other: &Snapshot) -> (r: bool) {
        self.record.same_as(&other.record)
            && self.source.same_as(&other.source)
            && self.revision.same_as(&other.revision)
            && self.state.same_as(&other.state)
    }
}

/// Why a store refused or failed.
#[derive(Debug, PartialEq, Eq)]
pub enum StoreError {
    MissingSession,
    MissingRun,
    MissingRecord,
    IdentityConflict,
    WrongSession,
    RevisionConflict,
    Finalized,
    InvalidPayload,
    InvalidDecision,
    AlreadyResolved,
    OpenContextRecord,
    InvalidPageSize,
    SequenceExhausted,
    Poisoned,
    Busy,
    Database(String),
    CorruptData(String),
    UnsupportedSchemaVersion(i64),
    UnsupportedDataVersion(u32),
    UnversionedSchema,
    MissingContinuation,
    ContinuationClaimed,
    ContinuationConflict,
    InvalidContinuation,
    ExecutionRelationConflict,
    InvalidExecutionRelation,
    ExecutionCycle,
    InvalidChangeCursor,
    StorageOverloaded,
    StorageUnavailable,
    StorageTimedOut,
}

/// What a `StoreError` holds.
pub enum StoreErrorView {
    MissingSession,
    MissingRun,
    MissingRecord,
    IdentityConflict,
    WrongSession,
    RevisionConflict,
    Finalized,
    InvalidPayload,
    InvalidDecision,
    AlreadyResolved,
    OpenContextRecord,
    InvalidPageSize,
    SequenceExhausted,
    Poisoned,
    Busy,
    Database(Seq<char>),
    CorruptData(Seq<char>),
    UnsupportedSchemaVersion(i64),
    UnsupportedDataVersion(u32),
    UnversionedSchema,
    MissingContinuation,
    ContinuationClaimed,
    ContinuationConflict,
    InvalidContinuation,
    ExecutionRelationConflict,
    InvalidExecutionRelation,
    ExecutionCycle,
    InvalidChangeCursor,
    StorageOverloaded,
    StorageUnavailable,
    StorageTimedOut,
}

impl DeepView for StoreError {
    type V = StoreErrorView;

    open spec fn deep_view(&self) -> StoreErrorView {
        match self {
            StoreError::MissingSession => StoreErrorView::MissingSession,
            StoreError::MissingRun => StoreErrorView::MissingRun,
            StoreError::MissingRecord => StoreErrorView::MissingRecord,
            StoreError::IdentityConflict => StoreErrorView::IdentityConflict,
            StoreError::WrongSession => StoreErrorView::WrongSession,
            StoreError::RevisionConflict => StoreErrorView::RevisionConflict,
            StoreError::Finalized => StoreErrorView::Finalized,
            StoreError::InvalidPayload => StoreErrorView::InvalidPayload,
            StoreError::InvalidDecision => StoreErrorView::InvalidDecision,
            StoreError::AlreadyResolved => StoreErrorView::AlreadyResolved,
            StoreError::OpenContextRecord => StoreErrorView::OpenContextRecord,
            StoreError::InvalidPageSize => StoreErrorView::InvalidPageSize,
            StoreError::SequenceExhausted => StoreErrorView::SequenceExhausted,
            StoreError::Poisoned => StoreErrorView::Poisoned,
            StoreError::Busy => StoreErrorView::Busy,
            StoreError::Database(value) => StoreErrorView::Database(value.deep_view()),
            StoreError::CorruptData(value) => StoreErrorView::CorruptData(value.deep_view()),
            StoreError::UnsupportedSchemaVersion(value) => StoreErrorView::UnsupportedSchemaVersion(value.deep_view()),
            StoreError::UnsupportedDataVersion(value) => StoreErrorView::UnsupportedDataVersion(value.deep_view()),
            StoreError::UnversionedSchema => StoreErrorView::UnversionedSchema,
            StoreError::MissingContinuation => StoreErrorView::MissingContinuation,
            StoreError::ContinuationClaimed => StoreErrorView::ContinuationClaimed,
            StoreError::ContinuationConflict => StoreErrorView::ContinuationConflict,
            StoreError::InvalidContinuation => StoreErrorView::InvalidContinuation,
            StoreError::ExecutionRelationConflict => StoreErrorView::ExecutionRelationConflict,
            StoreError::InvalidExecutionRelation => StoreErrorView::InvalidExecutionRelation,
            StoreError::ExecutionCycle => StoreErrorView::ExecutionCycle,
            StoreError::InvalidChangeCursor => StoreErrorView::InvalidChangeCursor,
            StoreError::StorageOverloaded => StoreErrorView::StorageOverloaded,
            StoreError::StorageUnavailable => StoreErrorView::StorageUnavailable,
            StoreError::StorageTimedOut => StoreErrorView::StorageTimedOut,
        }
    }
}

impl Datum for StoreError {
    fn duplicate(&self) -> (r: StoreError) {
        match self {
            StoreError::MissingSession => StoreError::MissingSession,
            StoreError::MissingRun => StoreError::MissingRun,
            StoreError::MissingRecord => StoreError::MissingRecord,
            StoreError::IdentityConflict => StoreError::IdentityConflict,
            StoreError::WrongSession => StoreError::WrongSession,
            StoreError::RevisionConflict => StoreError::RevisionConflict,
            StoreError::Finalized => StoreError::Finalized,
            StoreError::InvalidPayload => StoreError::InvalidPayload,
            StoreError::InvalidDecision => StoreError::InvalidDecision,
            StoreError::AlreadyResolved => StoreError::AlreadyResolved,
            StoreError::OpenContextRecord => StoreError::OpenContextRecord,
            StoreError::InvalidPageSize => StoreError::InvalidPageSize,
            StoreError::SequenceExhausted => StoreError::SequenceExhausted,
            StoreError::Poisoned => StoreError::Poisoned,
            StoreError::Busy => StoreError::Busy,
            StoreError::Database(value) => StoreError::Database(value.duplicate()),
            StoreError::CorruptData(value) => StoreError::CorruptData(value.duplicate()),
            StoreError::UnsupportedSchemaVersion(value) => StoreError::UnsupportedSchemaVersion(value.duplicate()),
            StoreError::UnsupportedDataVersion(value) => StoreError::UnsupportedDataVersion(value.duplicate()),
            StoreError::UnversionedSchema => StoreError::UnversionedSchema,
            StoreError::MissingContinuation => StoreError::MissingContinuation,
            StoreError::ContinuationClaimed => StoreError::ContinuationClaimed,
            StoreError::ContinuationConflict => StoreError::ContinuationConflict,
            StoreError::InvalidContinuation => StoreError::InvalidContinuation,
            StoreError::ExecutionRelationConflict => StoreError::ExecutionRelationConflict,
            StoreError::InvalidExecutionRelation => StoreError::InvalidExecutionRelation,
            StoreError::ExecutionCycle => StoreError::ExecutionCycle,
            StoreError::InvalidChangeCursor => StoreError::InvalidChangeCursor,
            StoreError::StorageOverloaded => StoreError::StorageOverloaded,
            StoreError::StorageUnavailable => StoreError::StorageUnavailable,
            StoreError::StorageTimedOut => StoreError::StorageTimedOut,
        }
    }

    fn same_as(&self, other: &StoreError) -> (r: bool) {
        match (self, other) {
            (StoreError::MissingSession, StoreError::MissingSession) => true,
            (StoreError::MissingRun, StoreError::MissingRun) => true,
            (StoreError::MissingRecord, StoreError::MissingRecord) => true,
            (StoreError::IdentityConflict, StoreError::IdentityConflict) => true,
            (StoreError::WrongSession, StoreError::WrongSession) => true,
            (StoreError::RevisionConflict, StoreError::RevisionConflict) => true,
            (StoreError::Finalized, StoreError::Finalized) => true,
            (StoreError::InvalidPayload, StoreError::InvalidPayload) => true,
            (StoreError::InvalidDecision, StoreError::InvalidDecision) => true,
            (StoreError::AlreadyResolved, StoreError::AlreadyResolved) => true,
            (StoreError::OpenContextRecord, StoreError::OpenContextRecord) => true,
            (StoreError::InvalidPageSize, StoreError::InvalidPageSize) => true,
            (StoreError::SequenceExhausted, StoreError::SequenceExhausted) => true,
            (StoreError::Poisoned, StoreError::Poisoned) => true,
            (StoreError::Busy, StoreError::Busy) => true,
            (StoreError::Database(a), StoreError::Database(b)) => a.same_as(b),
            (StoreError::CorruptData(a), StoreError::CorruptData(b)) => a.same_as(b),
            (StoreError::UnsupportedSchemaVersion(a), StoreError::UnsupportedSchemaVersion(b)) => a.same_as(b),
            (StoreError::UnsupportedDataVersion(a), StoreError::UnsupportedDataVersion(b)) => a.same_as(b),
            (StoreError::UnversionedSchema, StoreError::UnversionedSchema) => true,
            (StoreError::MissingContinuation, StoreError::MissingContinuation) => true,
            (StoreError::ContinuationClaimed, StoreError::ContinuationClaimed) => true,
            (StoreError::ContinuationConflict, StoreError::ContinuationConflict) => true,
            (StoreError::InvalidContinuation, StoreError::InvalidContinuation) => true,
            (StoreError::ExecutionRelationConflict, StoreError::ExecutionRelationConflict) => true,
            (StoreError::InvalidExecutionRelation, StoreError::InvalidExecutionRelation) => true,
            (StoreError::ExecutionCycle, StoreError::ExecutionCycle) => true,
            (StoreError::InvalidChangeCursor, StoreError::InvalidChangeCursor) => true,
            (StoreError::StorageOverloaded, StoreError::StorageOverloaded) => true,
            (StoreError::StorageUnavailable, StoreError::StorageUnavailable) => true,
            (StoreError::StorageTimedOut, StoreError::StorageTimedOut) => true,
            _ => false,
        }
    }
}

impl RecordState {
    /// The record is immutable.
    pub open spec fn finished(self) -> bool {
        self != RecordState::Open
    }

    /// Whether the record is immutable.
    pub fn is_final(self) -> (r: bool)
        ensures
            r == self.finished(),
    {
        self != RecordState::Open
    }
}

} // verus!
