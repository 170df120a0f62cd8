//! Sessions, slots, context selections and attributed records.

use crate::datum::Datum;
use crate::id::{ActorId, RecordId, ResourceId, RunId, SessionId, SlotId};
use vstd::prelude::*;

verus! {

/// Application context identity, independent of provider sessions and slots.
#[derive(Debug, PartialEq, Eq)]
pub struct Session {
    pub id: SessionId,
}

/// What a `Session` holds.
#[verifier::ext_equal]
pub struct SessionView {
    pub id: Seq<char>,
}

impl DeepView for Session {
    type V = SessionView;

    open spec fn deep_view(&self) -> SessionView {
        SessionView {
            id: self.id.deep_view(),
        }
    }
}

impl Datum for Session {
    fn duplicate(&self) -> (r: Session) {
        Session {
            id: self.id.duplicate(),
        }
    }

    fn same_as(&self, other: &Session) -> (r: bool) {
        self.id.same_as(&other.id)
    }
}

/// A specific resource revision. Resolution and retention belong to its store.
#[derive(Debug, PartialEq, Eq)]
pub struct ResourceRef {
    pub id: ResourceId,
    pub revision: String,
}

/// What a `ResourceRef` holds.
#[verifier::ext_equal]
pub struct ResourceRefView {
    pub id: Seq<char>,
    pub revision: Seq<char>,
}

impl DeepView for ResourceRef {
    type V = ResourceRefView;

    open spec fn deep_view(&self) -> ResourceRefView {
        ResourceRefView {
            id: self.id.deep_view(),
            revision: self.revision.deep_view(),
        }
    }
}

impl Datum for ResourceRef {
    fn duplicate(&self) -> (r: ResourceRef) {
        ResourceRef {
            id: self.id.duplicate(),
            revision: self.revision.duplicate(),
        }
    }

    fn same_as(&self, other: &ResourceRef) -> (r: bool) {
        self.id.same_as(&other.id)
            && self.revision.same_as(&other.revision)
    }
}

/// Intended instruction semantics, not a guarantee of provider support.
#[derive(Debug, Clone, Copy, PartialEq, Eq, Structural)]
pub enum InstructionRole {
    /// Requires the provider's base-instruction mechanism.
    Base,
    /// Additional guidance that does not replace base instructions.
    Supplemental,
}

impl DeepView for InstructionRole {
    type V = InstructionRole;

    open spec fn deep_view(&self) -> InstructionRole {
        *self
    }
}

impl Datum for InstructionRole {
    fn duplicate(&self) -> (r: InstructionRole) {
        *self
    }

    fn same_as(&self, other: &InstructionRole) -> (r: bool) {
        *self == *other
    }
}

/// One selected instruction resource and the role it is meant to play.
#[derive(Debug, PartialEq, Eq)]
pub struct InstructionRef {
    pub resource: ResourceRef,
    pub role: InstructionRole,
}

/// What a `InstructionRef` holds.
#[verifier::ext_equal]
pub struct InstructionRefView {
    pub resource: ResourceRefView,
    pub role: InstructionRole,
}

impl DeepView for InstructionRef {
    type V = InstructionRefView;

    open spec fn deep_view(&self) -> InstructionRefView {
        InstructionRefView {
            resource: self.resource.deep_view(),
            role: self.role.deep_view(),
        }
    }
}

impl Datum for InstructionRef {
    fn duplicate(&self) -> (r: InstructionRef) {
        InstructionRef {
            resource: self.resource.duplicate(),
            role: self.role.duplicate(),
        }
    }

    fn same_as(&self, other: &InstructionRef) -> (r: bool) {
        self.resource.same_as(&other.resource)
            && self.role.same_as(&other.role)
    }
}

/// Ordered selections supplied by the application, not the provider's hidden context.
///
/// Referenced records must be immutable once used by a run. Stores and adapters
/// must validate access, existence, and supported semantics before dispatch.
/// An empty manifest selects no explicit context; it does not disable provider defaults.
#[derive(Debug, PartialEq, Eq)]
pub struct ContextManifest {
    pub records: Vec<RecordId>,
    pub instructions: Vec<InstructionRef>,
    pub resources: Vec<ResourceRef>,
}

/// What a `ContextManifest` holds.
#[verifier::ext_equal]
pub struct ContextManifestView {
    pub records: Seq<Seq<char>>,
    pub instructions: Seq<InstructionRefView>,
    pub resources: Seq<ResourceRefView>,
}

impl DeepView for ContextManifest {
    type V = ContextManifestView;

    open spec fn deep_view(&self) -> ContextManifestView {
        ContextManifestView {
            records: self.records.deep_view(),
            instructions: self.instructions.deep_view(),
            resources: self.resources.deep_view(),
        }
    }
}

impl Datum for ContextManifest {
    fn duplicate(&self) -> (r: ContextManifest) {
        ContextManifest {
            records: self.records.duplicate(),
            instructions: self.instructions.duplicate(),
            resources: self.resources.duplicate(),
        }
    }

    fn same_as(&self, other: &ContextManifest) -> (r: bool) {
        self.records.same_as(&other.records)
            && self.instructions.same_as(&other.instructions)
            && self.resources.same_as(&other.resources)
    }
}

/// A message in its original order of contents.
#[derive(Debug, PartialEq, Eq)]
pub struct Message {
    pub content: Vec<Content>,
}

/// What a `Message` holds.
#[verifier::ext_equal]
pub struct MessageView {
    pub content: Seq<ContentView>,
}

impl DeepView for Message {
    type V = MessageView;

    open spec fn deep_view(&self) -> MessageView {
        MessageView {
            content: self.content.deep_view(),
        }
    }
}

impl Datum for Message {
    fn duplicate(&self) -> (r: Message) {
        Message {
            content: self.content.duplicate(),
        }
    }

    fn same_as(&self, other: &Message) -> (r: bool) {
        self.content.same_as(&other.content)
    }
}

/// One piece of a message.
#[derive(Debug, PartialEq, Eq)]
pub enum Content {
    Text(String),
    Resource(ResourceRef),
}

/// What a `Content` holds.
pub enum ContentView {
    Text(Seq<char>),
    Resource(ResourceRefView),
}

impl DeepView for Content {
    type V = ContentView;

    open spec fn deep_view(&self) -> ContentView {
        match self {
            Content::Text(value) => ContentView::Text(value.deep_view()),
            Content::Resource(value) => ContentView::Resource(value.deep_view()),
        }
    }
}

impl Datum for Content {
    fn duplicate(&self) -> (r: Content) {
        match self {
            Content::Text(value) => Content::Text(value.duplicate()),
            Content::Resource(value) => Content::Resource(value.duplicate()),
        }
    }

    fn same_as(&self, other: &Content) -> (r: bool) {
        match (self, other) {
            (Content::Text(a), Content::Text(b)) => a.same_as(b),
            (Content::Resource(a), Content::Resource(b)) => a.same_as(b),
            _ => false,
        }
    }
}

impl ContextManifest {
    /// A manifest that selects nothing.
    pub fn empty() -> (r: ContextManifest)
        ensures
            r.deep_view() == ContextManifestView::nothing(),
    {
        let r = ContextManifest {
            records: Vec::new(),
            instructions: Vec::new(),
            resources: Vec::new(),
        };
        assert(r.deep_view() =~= ContextManifestView::nothing());
        r
    }
}

impl ContextManifestView {
    /// No selection at all.
    pub open spec fn nothing() -> ContextManifestView {
        ContextManifestView {
            records: Seq::empty(),
            instructions: Seq::empty(),
            resources: Seq::empty(),
        }
    }
}

impl Default for ContextManifest {
    fn default() -> (r: ContextManifest)
        ensures
            r.deep_view() == ContextManifestView::nothing(),
    {
        ContextManifest::empty()
    }
}

/// Configured execution capacity; not a participant or a live process.
///
/// `C` is caller-defined configuration until provider contracts are established.
/// Configuration must not contain credentials intended for persistent storage.
#[derive(Debug, PartialEq, Eq)]
pub struct Slot<C = ()> {
    pub id: SlotId,
    pub driver: String,
    pub config: C,
}

/// An attributed record. The payload remains typed without fixing a wire format.
///
/// Storage assigns unique, increasing sequences within a session and validates
/// run/session relationships. `run_id` is absent for input outside a run.
#[derive(Debug, PartialEq, Eq)]
pub struct Record<P> {
    pub id: RecordId,
    pub session_id: SessionId,
    pub run_id: Option<RunId>,
    pub sequence: u64,
    pub actor: ActorId,
    pub reply_to_id: Option<RecordId>,
    pub payload: P,
}

/// What a `Record` holds.
#[verifier::ext_equal]
pub struct RecordView<P> {
    pub id: Seq<char>,
    pub session_id: Seq<char>,
    pub run_id: Option<Seq<char>>,
    pub sequence: u64,
    pub actor: Seq<char>,
    pub reply_to_id: Option<Seq<char>>,
    pub payload: P,
}

impl<P: DeepView> DeepView for Record<P> {
    type V = RecordView<P::V>;

    open spec fn deep_view(&self) -> RecordView<P::V> {
        RecordView {
            id: self.id.deep_view(),
            session_id: self.session_id.deep_view(),
            run_id: self.run_id.deep_view(),
            sequence: self.sequence,
            actor: self.actor.deep_view(),
            reply_to_id: self.reply_to_id.deep_view(),
            payload: self.payload.deep_view(),
        }
    }
}

impl<P: Datum> Datum for Record<P> {
    fn duplicate(&self) -> (r: Record<P>) {
        Record {
            id: self.id.duplicate(),
            session_id: self.session_id.duplicate(),
            run_id: self.run_id.duplicate(),
            sequence: self.sequence,
            actor: self.actor.duplicate(),
            reply_to_id: self.reply_to_id.duplicate(),
            payload: self.payload.duplicate(),
        }
    }

    fn same_as(&self, other: &Record<P>) -> (r: bool) {
        self.id.same_as(&other.id) && self.session_id.same_as(&other.session_id)
            && self.run_id.same_as(&other.run_id) && self.sequence == other.sequence
            && self.actor.same_as(&other.actor) && self.reply_to_id.same_as(&other.reply_to_id)
            && self.payload.same_as(&other.payload)
    }
}

} // verus!
