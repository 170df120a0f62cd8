//! What happens in a run, apart from the wire.

use crate::acp::configuration::{NativeOption, NativeOptionView};
use crate::datum::Datum;
use crate::id::RunId;
use crate::json::{json_views, Json, JsonView};
use crate::records::{
    CompletionReason, CompletionReasonView, DecisionDelivery, Payload, PayloadView,
    PermissionOption, PermissionOptionView, PermissionOutcome, PermissionOutcomeView, ToolActivity,
    ToolActivityView, ToolStatus,
};
use crate::table::Table;
use crate::text::{json_quoted, quoted_for_json, same_text};
use vstd::prelude::*;

verus! {

/// Permission identity local to one run. Pass it back to that run only.
#[derive(Debug, PartialEq, Eq)]
pub struct PermissionId {
    pub run_id: RunId,
    pub sequence: u64,
}

/// What a `PermissionId` holds.
#[verifier::ext_equal]
pub struct PermissionIdView {
    pub run_id: Seq<char>,
    pub sequence: u64,
}

impl DeepView for PermissionId {
    type V = PermissionIdView;

    open spec fn deep_view(&self) -> PermissionIdView {
        PermissionIdView {
            run_id: self.run_id.deep_view(),
            sequence: self.sequence.deep_view(),
        }
    }
}

impl Datum for PermissionId {
    fn duplicate(&self) -> (r: PermissionId) {
        PermissionId {
            run_id: self.run_id.duplicate(),
            sequence: self.sequence.duplicate(),
        }
    }

    fn same_as(&self, other: &PermissionId) -> (r: bool) {
        self.run_id.same_as(&other.run_id)
            && self.sequence.same_as(&other.sequence)
    }
}

/// How far an agent says a tool call got.
#[derive(Debug, Clone, Copy, PartialEq, Eq, Structural)]
pub enum NativeToolStatus {
    Pending,
    InProgress,
    Completed,
    Failed,
    /// A status that is not understood.
    Other,
}

impl DeepView for NativeToolStatus {
    type V = NativeToolStatus;

    open spec fn deep_view(&self) -> NativeToolStatus {
        *self
    }
}

impl Datum for NativeToolStatus {
    fn duplicate(&self) -> (r: NativeToolStatus) {
        *self
    }

    fn same_as(&self, other: &NativeToolStatus) -> (r: bool) {
        *self == *other
    }
}

/// A tool call as an agent reports it.
#[derive(Debug, PartialEq, Eq)]
pub struct NativeTool {
    pub id: String,
    pub title: String,
    pub name: Option<String>,
    /// The kind's name on the wire, `other` where none was given.
    pub kind: String,
    pub status: NativeToolStatus,
    pub content: Vec<Json>,
    pub locations: Vec<Json>,
    pub raw_input: Option<Json>,
    pub raw_output: Option<Json>,
    pub meta: Option<Json>,
}

/// What a `NativeTool` holds.
#[verifier::ext_equal]
pub struct NativeToolView {
    pub id: Seq<char>,
    pub title: Seq<char>,
    pub name: Option<Seq<char>>,
    pub kind: Seq<char>,
    pub status: NativeToolStatus,
    pub content: Seq<JsonView>,
    pub locations: Seq<JsonView>,
    pub raw_input: Option<JsonView>,
    pub raw_output: Option<JsonView>,
    pub meta: Option<JsonView>,
}

impl DeepView for NativeTool {
    type V = NativeToolView;

    open spec fn deep_view(&self) -> NativeToolView {
        NativeToolView {
            id: self.id.deep_view(),
            title: self.title.deep_view(),
            name: self.name.deep_view(),
            kind: self.kind.deep_view(),
            status: self.status.deep_view(),
            content: self.content.deep_view(),
            locations: self.locations.deep_view(),
            raw_input: self.raw_input.deep_view(),
            raw_output: self.raw_output.deep_view(),
            meta: self.meta.deep_view(),
        }
    }
}

impl Datum for NativeTool {
    fn duplicate(&self) -> (r: NativeTool) {
        NativeTool {
            id: self.id.duplicate(),
            title: self.title.duplicate(),
            name: self.name.duplicate(),
            kind: self.kind.duplicate(),
            status: self.status.duplicate(),
            content: self.content.duplicate(),
            locations: self.locations.duplicate(),
            raw_input: self.raw_input.duplicate(),
            raw_output: self.raw_output.duplicate(),
            meta: self.meta.duplicate(),
        }
    }

    fn same_as(&self, other: &NativeTool) -> (r: bool) {
        self.id.same_as(&other.id)
            && self.title.same_as(&other.title)
            && self.name.same_as(&other.name)
            && self.kind.same_as(&other.kind)
            && self.status.same_as(&other.status)
            && self.content.same_as(&other.content)
            && self.locations.same_as(&other.locations)
            && self.raw_input.same_as(&other.raw_input)
            && self.raw_output.same_as(&other.raw_output)
            && self.meta.same_as(&other.meta)
    }
}

/// What changed of a tool call. Absent fields keep their values.
#[derive(Debug, PartialEq, Eq)]
pub struct NativeToolUpdate {
    pub id: String,
    pub title: Option<String>,
    pub name: Option<String>,
    pub kind: Option<String>,
    pub status: Option<NativeToolStatus>,
    pub content: Option<Vec<Json>>,
    pub locations: Option<Vec<Json>>,
    pub raw_input: Option<Json>,
    pub raw_output: Option<Json>,
    pub meta: Option<Json>,
}

/// What a `NativeToolUpdate` holds.
#[verifier::ext_equal]
pub struct NativeToolUpdateView {
    pub id: Seq<char>,
    pub title: Option<Seq<char>>,
    pub name: Option<Seq<char>>,
    pub kind: Option<Seq<char>>,
    pub status: Option<NativeToolStatus>,
    pub content: Option<Seq<JsonView>>,
    pub locations: Option<Seq<JsonView>>,
    pub raw_input: Option<JsonView>,
    pub raw_output: Option<JsonView>,
    pub meta: Option<JsonView>,
}

impl DeepView for NativeToolUpdate {
    type V = NativeToolUpdateView;

    open spec fn deep_view(&self) -> NativeToolUpdateView {
        NativeToolUpdateView {
            id: self.id.deep_view(),
            title: self.title.deep_view(),
            name: self.name.deep_view(),
            kind: self.kind.deep_view(),
            status: self.status.deep_view(),
            content: self.content.deep_view(),
            locations: self.locations.deep_view(),
            raw_input: self.raw_input.deep_view(),
            raw_output: self.raw_output.deep_view(),
            meta: self.meta.deep_view(),
        }
    }
}

impl Datum for NativeToolUpdate {
    fn duplicate(&self) -> (r: NativeToolUpdate) {
        NativeToolUpdate {
            id: self.id.duplicate(),
            title: self.title.duplicate(),
            name: self.name.duplicate(),
            kind: self.kind.duplicate(),
            status: self.status.duplicate(),
            content: self.content.duplicate(),
            locations: self.locations.duplicate(),
            raw_input: self.raw_input.duplicate(),
            raw_output: self.raw_output.duplicate(),
            meta: self.meta.duplicate(),
        }
    }

    fn same_as(&self, other: &NativeToolUpdate) -> (r: bool) {
        self.id.same_as(&other.id)
            && self.title.same_as(&other.title)
            && self.name.same_as(&other.name)
            && self.kind.same_as(&other.kind)
            && self.status.same_as(&other.status)
            && self.content.same_as(&other.content)
            && self.locations.same_as(&other.locations)
            && self.raw_input.same_as(&other.raw_input)
            && self.raw_output.same_as(&other.raw_output)
            && self.meta.same_as(&other.meta)
    }
}

/// What a chunk of a message carries.
#[derive(Debug, PartialEq, Eq)]
pub enum ChunkContent {
    Text(String),
    /// The whole chunk, where its content is not text.
    Other(Json),
}

/// What a `ChunkContent` holds.
pub enum ChunkContentView {
    Text(Seq<char>),
    Other(JsonView),
}

impl DeepView for ChunkContent {
    type V = ChunkContentView;

    open spec fn deep_view(&self) -> ChunkContentView {
        match self {
            ChunkContent::Text(value) => ChunkContentView::Text(value.deep_view()),
            ChunkContent::Other(value) => ChunkContentView::Other(value.deep_view()),
        }
    }
}

impl Datum for ChunkContent {
    fn duplicate(&self) -> (r: ChunkContent) {
        match self {
            ChunkContent::Text(value) => ChunkContent::Text(value.duplicate()),
            ChunkContent::Other(value) => ChunkContent::Other(value.duplicate()),
        }
    }

    fn same_as(&self, other: &ChunkContent) -> (r: bool) {
        match (self, other) {
            (ChunkContent::Text(a), ChunkContent::Text(b)) => a.same_as(b),
            (ChunkContent::Other(a), ChunkContent::Other(b)) => a.same_as(b),
            _ => false,
        }
    }
}

/// Part of a message that an agent streams.
#[derive(Debug, PartialEq, Eq)]
pub struct MessageChunk {
    pub message_id: Option<String>,
    pub content: ChunkContent,
}

/// What a `MessageChunk` holds.
#[verifier::ext_equal]
pub struct MessageChunkView {
    pub message_id: Option<Seq<char>>,
    pub content: ChunkContentView,
}

impl DeepView for MessageChunk {
    type V = MessageChunkView;

    open spec fn deep_view(&self) -> MessageChunkView {
        MessageChunkView {
            message_id: self.message_id.deep_view(),
            content: self.content.deep_view(),
        }
    }
}

impl Datum for MessageChunk {
    fn duplicate(&self) -> (r: MessageChunk) {
        MessageChunk {
            message_id: self.message_id.duplicate(),
            content: self.content.duplicate(),
        }
    }

    fn same_as(&self, other: &MessageChunk) -> (r: bool) {
        self.message_id.same_as(&other.message_id)
            && self.content.same_as(&other.content)
    }
}

/// Why an agent stopped.
#[derive(Debug, PartialEq, Eq)]
pub enum StopReason {
    EndTurn,
    MaxTokens,
    MaxTurnRequests,
    Refusal,
    Cancelled,
    /// Another reason, by its name on the wire.
    Other(String),
}

/// What a `StopReason` holds.
pub enum StopReasonView {
    EndTurn,
    MaxTokens,
    MaxTurnRequests,
    Refusal,
    Cancelled,
    Other(Seq<char>),
}

impl DeepView for StopReason {
    type V = StopReasonView;

    open spec fn deep_view(&self) -> StopReasonView {
        match self {
            StopReason::EndTurn => StopReasonView::EndTurn,
            StopReason::MaxTokens => StopReasonView::MaxTokens,
            StopReason::MaxTurnRequests => StopReasonView::MaxTurnRequests,
            StopReason::Refusal => StopReasonView::Refusal,
            StopReason::Cancelled => StopReasonView::Cancelled,
            StopReason::Other(value) => StopReasonView::Other(value.deep_view()),
        }
    }
}

impl Datum for StopReason {
    fn duplicate(&self) -> (r: StopReason) {
        match self {
            StopReason::EndTurn => StopReason::EndTurn,
            StopReason::MaxTokens => StopReason::MaxTokens,
            StopReason::MaxTurnRequests => StopReason::MaxTurnRequests,
            StopReason::Refusal => StopReason::Refusal,
            StopReason::Cancelled => StopReason::Cancelled,
            StopReason::Other(value) => StopReason::Other(value.duplicate()),
        }
    }

    fn same_as(&self, other: &StopReason) -> (r: bool) {
        match (self, other) {
            (StopReason::EndTurn, StopReason::EndTurn) => true,
            (StopReason::MaxTokens, StopReason::MaxTokens) => true,
            (StopReason::MaxTurnRequests, StopReason::MaxTurnRequests) => true,
            (StopReason::Refusal, StopReason::Refusal) => true,
            (StopReason::Cancelled, StopReason::Cancelled) => true,
            (StopReason::Other(a), StopReason::Other(b)) => a.same_as(b),
            _ => false,
        }
    }
}

/// An agent's request for permission.
#[derive(Debug, PartialEq, Eq)]
pub struct PermissionRequest {
    pub tool: NativeToolUpdate,
    pub options: Vec<PermissionOption>,
}

/// What a `PermissionRequest` holds.
#[verifier::ext_equal]
pub struct PermissionRequestView {
    pub tool: NativeToolUpdateView,
    pub options: Seq<PermissionOptionView>,
}

impl DeepView for PermissionRequest {
    type V = PermissionRequestView;

    open spec fn deep_view(&self) -> PermissionRequestView {
        PermissionRequestView {
            tool: self.tool.deep_view(),
            options: self.options.deep_view(),
        }
    }
}

impl Datum for PermissionRequest {
    fn duplicate(&self) -> (r: PermissionRequest) {
        PermissionRequest {
            tool: self.tool.duplicate(),
            options: self.options.duplicate(),
        }
    }

    fn same_as(&self, other: &PermissionRequest) -> (r: bool) {
        self.tool.same_as(&other.tool)
            && self.options.same_as(&other.options)
    }
}

/// What happens in a run.
#[derive(Debug, PartialEq, Eq)]
pub enum AcpEvent {
    AgentMessage(MessageChunk),
    AgentThought(MessageChunk),
    Tool(NativeTool),
    ToolUpdate(NativeToolUpdate),
    Configuration(Vec<NativeOption>),
    /// An update that has no portable form, as it was received.
    OtherUpdate(Json),
    Permission { id: PermissionId, request: PermissionRequest },
    /// A local decision was submitted. Queued does not mean provider-acknowledged.
    PermissionResolved { id: PermissionId, outcome: PermissionOutcome, delivery: DecisionDelivery },
    /// Execution stopped; inspect the reason before treating the task as successful.
    Finished(StopReason),
}

/// What a `AcpEvent` holds.
pub enum AcpEventView {
    AgentMessage(MessageChunkView),
    AgentThought(MessageChunkView),
    Tool(NativeToolView),
    ToolUpdate(NativeToolUpdateView),
    Configuration(Seq<NativeOptionView>),
    OtherUpdate(JsonView),
    Permission { id: PermissionIdView, request: PermissionRequestView },
    PermissionResolved { id: PermissionIdView, outcome: PermissionOutcomeView, delivery: DecisionDelivery },
    Finished(StopReasonView),
}

impl DeepView for AcpEvent {
    type V = AcpEventView;

    open spec fn deep_view(&self) -> AcpEventView {
        match self {
            AcpEvent::AgentMessage(value) => AcpEventView::AgentMessage(value.deep_view()),
            AcpEvent::AgentThought(value) => AcpEventView::AgentThought(value.deep_view()),
            AcpEvent::Tool(value) => AcpEventView::Tool(value.deep_view()),
            AcpEvent::ToolUpdate(value) => AcpEventView::ToolUpdate(value.deep_view()),
            AcpEvent::Configuration(value) => AcpEventView::Configuration(value.deep_view()),
            AcpEvent::OtherUpdate(value) => AcpEventView::OtherUpdate(value.deep_view()),
            AcpEvent::Permission { id, request } => AcpEventView::Permission {
                id: id.deep_view(),
                request: request.deep_view(),
            },
            AcpEvent::PermissionResolved { id, outcome, delivery } => AcpEventView::PermissionResolved {
                id: id.deep_view(),
                outcome: outcome.deep_view(),
                delivery: delivery.deep_view(),
            },
            AcpEvent::Finished(value) => AcpEventView::Finished(value.deep_view()),
        }
    }
}

impl Datum for AcpEvent {
    fn duplicate(&self) -> (r: AcpEvent) {
        match self {
            AcpEvent::AgentMessage(value) => AcpEvent::AgentMessage(value.duplicate()),
            AcpEvent::AgentThought(value) => AcpEvent::AgentThought(value.duplicate()),
            AcpEvent::Tool(value) => AcpEvent::Tool(value.duplicate()),
            AcpEvent::ToolUpdate(value) => AcpEvent::ToolUpdate(value.duplicate()),
            AcpEvent::Configuration(value) => AcpEvent::Configuration(value.duplicate()),
            AcpEvent::OtherUpdate(value) => AcpEvent::OtherUpdate(value.duplicate()),
            AcpEvent::Permission { id, request } => AcpEvent::Permission {
                id: id.duplicate(),
                request: request.duplicate(),
            },
            AcpEvent::PermissionResolved { id, outcome, delivery } => AcpEvent::PermissionResolved {
                id: id.duplicate(),
                outcome: outcome.duplicate(),
                delivery: delivery.duplicate(),
            },
            AcpEvent::Finished(value) => AcpEvent::Finished(value.duplicate()),
        }
    }

    fn same_as(&self, other: &AcpEvent) -> (r: bool) {
        match (self, other) {
            (AcpEvent::AgentMessage(a), AcpEvent::AgentMessage(b)) => a.same_as(b),
            (AcpEvent::AgentThought(a), AcpEvent::AgentThought(b)) => a.same_as(b),
            (AcpEvent::Tool(a), AcpEvent::Tool(b)) => a.same_as(b),
            (AcpEvent::ToolUpdate(a), AcpEvent::ToolUpdate(b)) => a.same_as(b),
            (AcpEvent::Configuration(a), AcpEvent::Configuration(b)) => a.same_as(b),
            (AcpEvent::OtherUpdate(a), AcpEvent::OtherUpdate(b)) => a.same_as(b),
            (AcpEvent::Permission { id: id_a, request: request_a }, AcpEvent::Permission { id: id_b, request: request_b }) => {
                id_a.same_as(id_b)
                    && request_a.same_as(request_b)
            },
            (AcpEvent::PermissionResolved { id: id_a, outcome: outcome_a, delivery: delivery_a }, AcpEvent::PermissionResolved { id: id_b, outcome: outcome_b, delivery: delivery_b }) => {
                id_a.same_as(id_b)
                    && outcome_a.same_as(outcome_b)
                    && delivery_a.same_as(delivery_b)
            },
            (AcpEvent::Finished(a), AcpEvent::Finished(b)) => a.same_as(b),
            _ => false,
        }
    }
}

impl NativeToolStatus {
    /// The portable status.
    pub open spec fn portable(self) -> ToolStatus {
        match self {
            NativeToolStatus::Pending => ToolStatus::Pending,
            NativeToolStatus::InProgress => ToolStatus::Running,
            NativeToolStatus::Completed => ToolStatus::Completed,
            NativeToolStatus::Failed => ToolStatus::Failed,
            NativeToolStatus::Other => ToolStatus::Unknown,
        }
    }

    fn to_portable(self) -> (r: ToolStatus)
        ensures
            r == self.portable(),
    {
        match self {
            NativeToolStatus::Pending => ToolStatus::Pending,
            NativeToolStatus::InProgress => ToolStatus::Running,
            NativeToolStatus::Completed => ToolStatus::Completed,
            NativeToolStatus::Failed => ToolStatus::Failed,
            NativeToolStatus::Other => ToolStatus::Unknown,
        }
    }
}

/// A value that replaces another where it is given.
pub open spec fn or_kept<T>(given: Option<T>, kept: T) -> T {
    match given {
        Some(value) => value,
        None => kept,
    }
}

/// A value that replaces an optional one where it is given.
pub open spec fn or_same<T>(given: Option<T>, kept: Option<T>) -> Option<T> {
    match given {
        Some(value) => Some(value),
        None => kept,
    }
}

fn replace_with<T: Datum>(given: &Option<T>, kept: &T) -> (r: T)
    ensures
        r.deep_view() == or_kept(given.deep_view(), kept.deep_view()),
{
    match given {
        Some(value) => value.duplicate(),
        None => kept.duplicate(),
    }
}

fn replace_if_given<T: Datum>(given: &Option<T>, kept: &Option<T>) -> (r: Option<T>)
    ensures
        r.deep_view() == or_same(given.deep_view(), kept.deep_view()),
{
    match given {
        Some(value) => Some(value.duplicate()),
        None => kept.duplicate(),
    }
}

impl NativeToolView {
    /// A tool call of which nothing is known but its id.
    pub open spec fn unseen(id: Seq<char>) -> NativeToolView {
        NativeToolView {
            id,
            title: "Tool activity"@,
            name: None,
            kind: "other"@,
            status: NativeToolStatus::Pending,
            content: Seq::empty(),
            locations: Seq::empty(),
            raw_input: None,
            raw_output: None,
            meta: None,
        }
    }

    /// The tool call after an update. Collections are replaced, not extended.
    pub open spec fn updated(self, update: NativeToolUpdateView) -> NativeToolView {
        NativeToolView {
            id: self.id,
            title: or_kept(update.title, self.title),
            name: or_same(update.name, self.name),
            kind: or_kept(update.kind, self.kind),
            status: or_kept(update.status, self.status),
            content: or_kept(update.content, self.content),
            locations: or_kept(update.locations, self.locations),
            raw_input: or_same(update.raw_input, self.raw_input),
            raw_output: or_same(update.raw_output, self.raw_output),
            meta: or_same(update.meta, self.meta),
        }
    }

    /// What has no portable place, under its names on the wire. Absent fields, the
    /// default kind and empty collections are left out.
    pub open spec fn details(self) -> Map<Seq<char>, JsonView> {
        let named = match self.name {
            Some(name) => Map::<Seq<char>, JsonView>::empty().insert("name"@, JsonView::Text(name)),
            None => Map::empty(),
        };
        let kinded = if self.kind == "other"@ {
            named
        } else {
            named.insert("kind"@, JsonView::Text(self.kind))
        };
        let filled = if self.content.len() == 0 {
            kinded
        } else {
            kinded.insert("content"@, JsonView::Array(self.content))
        };
        let located = if self.locations.len() == 0 {
            filled
        } else {
            filled.insert("locations"@, JsonView::Array(self.locations))
        };
        match self.meta {
            Some(meta) => located.insert("_meta"@, meta),
            None => located,
        }
    }

    /// The portable record of the tool call.
    pub open spec fn payload(self) -> PayloadView {
        PayloadView::Tool(
            ToolActivityView {
                title: self.title,
                status: self.status.portable(),
                input: self.raw_input,
                output: self.raw_output,
                extensions: Map::<Seq<char>, JsonView>::empty().insert(
                    "acp"@,
                    JsonView::Object(self.details()),
                ),
            },
        )
    }
}

impl NativeTool {
    /// A tool call of which nothing is known but its id.
    pub fn unseen(id: &String) -> (r: NativeTool)
        ensures
            r.deep_view() == NativeToolView::unseen(id@),
    {
        let r = NativeTool {
            id: id.clone(),
            title: "Tool activity".to_owned(),
            name: None,
            kind: "other".to_owned(),
            status: NativeToolStatus::Pending,
            content: Vec::new(),
            locations: Vec::new(),
            raw_input: None,
            raw_output: None,
            meta: None,
        };
        assert(r.deep_view().content =~= Seq::empty());
        assert(r.deep_view().locations =~= Seq::empty());
        r
    }

    /// The tool call after an update.
    pub fn updated(&self, update: &NativeToolUpdate) -> (r: NativeTool)
        ensures
            r.deep_view() == self.deep_view().updated(update.deep_view()),
    {
        NativeTool {
            id: self.id.clone(),
            title: replace_with(&update.title, &self.title),
            name: replace_if_given(&update.name, &self.name),
            kind: replace_with(&update.kind, &self.kind),
            status: replace_with(&update.status, &self.status),
            content: replace_with(&update.content, &self.content),
            locations: replace_with(&update.locations, &self.locations),
            raw_input: replace_if_given(&update.raw_input, &self.raw_input),
            raw_output: replace_if_given(&update.raw_output, &self.raw_output),
            meta: replace_if_given(&update.meta, &self.meta),
        }
    }

    fn details(&self) -> (r: Table<Json>)
        ensures
            r.deep_view() == self.deep_view().details(),
    {
        broadcast use json_views;

        let mut details: Table<Json> = Table::new();
        assert(details.deep_view() =~= Map::<Seq<char>, JsonView>::empty());
        match &self.name {
            Some(name) => details.put("name".to_owned(), Json::Text(name.clone())),
            None => {},
        }
        if !same_text(self.kind.as_str(), "other") {
            details.put("kind".to_owned(), Json::Text(self.kind.clone()));
        }
        assert(self.deep_view().content.len() == self.content.len());
        assert(self.deep_view().locations.len() == self.locations.len());
        if self.content.len() > 0 {
            details.put("content".to_owned(), Json::Array(self.content.duplicate()));
        }
        if self.locations.len() > 0 {
            details.put("locations".to_owned(), Json::Array(self.locations.duplicate()));
        }
        match &self.meta {
            Some(meta) => details.put("_meta".to_owned(), meta.duplicate()),
            None => {},
        }
        details
    }

    /// The portable record of the tool call.
    pub fn payload(&self) -> (r: Payload)
        ensures
            r.deep_view() == self.deep_view().payload(),
    {
        broadcast use json_views;

        let mut extensions: Table<Json> = Table::new();
        assert(extensions.deep_view() =~= Map::<Seq<char>, JsonView>::empty());
        extensions.put("acp".to_owned(), Json::Object(self.details()));
        Payload::Tool(
            ToolActivity {
                title: self.title.clone(),
                status: self.status.to_portable(),
                input: self.raw_input.duplicate(),
                output: self.raw_output.duplicate(),
                extensions,
            },
        )
    }
}

impl StopReasonView {
    /// The reason's name on the wire.
    pub open spec fn wire(self) -> Seq<char> {
        match self {
            StopReasonView::EndTurn => "end_turn"@,
            StopReasonView::MaxTokens => "max_tokens"@,
            StopReasonView::MaxTurnRequests => "max_turn_requests"@,
            StopReasonView::Refusal => "refusal"@,
            StopReasonView::Cancelled => "cancelled"@,
            StopReasonView::Other(name) => name,
        }
    }

    /// The portable reason. Another reason is kept as it stands on the wire.
    pub open spec fn portable(self) -> CompletionReasonView {
        match self {
            StopReasonView::EndTurn => CompletionReasonView::Completed,
            StopReasonView::Refusal => CompletionReasonView::Refused,
            StopReasonView::MaxTokens => CompletionReasonView::TokenLimit,
            StopReasonView::MaxTurnRequests => CompletionReasonView::StepLimit,
            StopReasonView::Cancelled => CompletionReasonView::Cancelled,
            StopReasonView::Other(name) => CompletionReasonView::Other(json_quoted(name)),
        }
    }
}

impl StopReason {
    /// The reason's name on the wire.
    pub fn wire(&self) -> (r: String)
        ensures
            r@ == self.deep_view().wire(),
    {
        match self {
            StopReason::EndTurn => "end_turn".to_owned(),
            StopReason::MaxTokens => "max_tokens".to_owned(),
            StopReason::MaxTurnRequests => "max_turn_requests".to_owned(),
            StopReason::Refusal => "refusal".to_owned(),
            StopReason::Cancelled => "cancelled".to_owned(),
            StopReason::Other(name) => name.clone(),
        }
    }

    /// The portable reason.
    pub fn portable(&self) -> (r: CompletionReason)
        ensures
            r.deep_view() == self.deep_view().portable(),
    {
        match self {
            StopReason::EndTurn => CompletionReason::Completed,
            StopReason::Refusal => CompletionReason::Refused,
            StopReason::MaxTokens => CompletionReason::TokenLimit,
            StopReason::MaxTurnRequests => CompletionReason::StepLimit,
            StopReason::Cancelled => CompletionReason::Cancelled,
            StopReason::Other(name) => CompletionReason::Other(quoted_for_json(name.as_str())),
        }
    }
}

/// A partial update keeps what it does not mention.
pub proof fn updates_keep_what_they_do_not_mention(
    tool: NativeToolView,
    update: NativeToolUpdateView,
)
    ensures
        ({
            let after = tool.updated(update);
            &&& after.id == tool.id
            &&& update.raw_input is None ==> after.raw_input == tool.raw_input
            &&& update.raw_output is None ==> after.raw_output == tool.raw_output
            &&& update.title is None ==> after.title == tool.title
            &&& update.status is None ==> after.status == tool.status
            &&& update.content == Some(Seq::<JsonView>::empty()) ==> !after.details().contains_key(
                "content"@,
            )
        }),
{
    reveal_strlit("content");
    reveal_strlit("name");
    reveal_strlit("kind");
    reveal_strlit("locations");
    reveal_strlit("_meta");
    assert("content"@[0] == 'c' && "name"@[0] == 'n' && "kind"@[0] == 'k' && "locations"@[0] == 'l'
        && "_meta"@[0] == '_');
}

} // verus!
