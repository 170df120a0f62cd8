//! Resolve explicit inputs without dispatching work or choosing provider semantics.

use crate::datum::{append, holds, included, is_included, leave_out, outcome, share, without, Datum};
use crate::id::{ActorId, RecordId, SessionId};
use crate::model::{
    Content, ContentView, ContextManifest, ContextManifestView, InstructionRef, InstructionRefView,
    ResourceRef, ResourceRefView,
};
use crate::records::store::{environmental, RecordStore, StoreView};
use crate::records::{
    Payload, PayloadView, Snapshot, SnapshotView, StoreError, StoreErrorView,
};
use crate::text::{blank, is_blank, same_text, text_up_to, trimmed, up_to, utf8_text};
use std::sync::Arc;
use vstd::prelude::*;
use vstd::utf8::valid_utf8;

verus! {

/// Host-issued permission to supply these exact instruction revisions and roles.
/// The host authenticates issuer/requester identities; this is not a bearer credential.
#[derive(Debug, PartialEq, Eq)]
pub struct InstructionGrant {
    pub issuer: ActorId,
    pub subject: ActorId,
    pub instructions: Vec<InstructionRef>,
}

/// What a `InstructionGrant` holds.
#[verifier::ext_equal]
pub struct InstructionGrantView {
    pub issuer: Seq<char>,
    pub subject: Seq<char>,
    pub instructions: Seq<InstructionRefView>,
}

impl DeepView for InstructionGrant {
    type V = InstructionGrantView;

    open spec fn deep_view(&self) -> InstructionGrantView {
        InstructionGrantView {
            issuer: self.issuer.deep_view(),
            subject: self.subject.deep_view(),
            instructions: self.instructions.deep_view(),
        }
    }
}

impl Datum for InstructionGrant {
    fn duplicate(&self) -> (r: InstructionGrant) {
        InstructionGrant {
            issuer: self.issuer.duplicate(),
            subject: self.subject.duplicate(),
            instructions: self.instructions.duplicate(),
        }
    }

    fn same_as(&self, other: &InstructionGrant) -> (r: bool) {
        self.issuer.same_as(&other.issuer)
            && self.subject.same_as(&other.subject)
            && self.instructions.same_as(&other.instructions)
    }
}

/// A grant and who relies on it.
#[derive(Debug, PartialEq, Eq)]
pub struct InstructionAuthorization {
    pub requester: ActorId,
    pub grant: InstructionGrant,
}

/// What a `InstructionAuthorization` holds.
#[verifier::ext_equal]
pub struct InstructionAuthorizationView {
    pub requester: Seq<char>,
    pub grant: InstructionGrantView,
}

impl DeepView for InstructionAuthorization {
    type V = InstructionAuthorizationView;

    open spec fn deep_view(&self) -> InstructionAuthorizationView {
        InstructionAuthorizationView {
            requester: self.requester.deep_view(),
            grant: self.grant.deep_view(),
        }
    }
}

impl Datum for InstructionAuthorization {
    fn duplicate(&self) -> (r: InstructionAuthorization) {
        InstructionAuthorization {
            requester: self.requester.duplicate(),
            grant: self.grant.duplicate(),
        }
    }

    fn same_as(&self, other: &InstructionAuthorization) -> (r: bool) {
        self.requester.same_as(&other.requester)
            && self.grant.same_as(&other.grant)
    }
}

/// One explicit selection.
#[derive(Debug, PartialEq, Eq)]
pub enum ContextItem {
    Record(RecordId),
    Instruction(InstructionRef),
    Resource(ResourceRef),
}

/// What a `ContextItem` holds.
pub enum ContextItemView {
    Record(Seq<char>),
    Instruction(InstructionRefView),
    Resource(ResourceRefView),
}

impl DeepView for ContextItem {
    type V = ContextItemView;

    open spec fn deep_view(&self) -> ContextItemView {
        match self {
            ContextItem::Record(value) => ContextItemView::Record(value.deep_view()),
            ContextItem::Instruction(value) => ContextItemView::Instruction(value.deep_view()),
            ContextItem::Resource(value) => ContextItemView::Resource(value.deep_view()),
        }
    }
}

impl Datum for ContextItem {
    fn duplicate(&self) -> (r: ContextItem) {
        match self {
            ContextItem::Record(value) => ContextItem::Record(value.duplicate()),
            ContextItem::Instruction(value) => ContextItem::Instruction(value.duplicate()),
            ContextItem::Resource(value) => ContextItem::Resource(value.duplicate()),
        }
    }

    fn same_as(&self, other: &ContextItem) -> (r: bool) {
        match (self, other) {
            (ContextItem::Record(a), ContextItem::Record(b)) => a.same_as(b),
            (ContextItem::Instruction(a), ContextItem::Instruction(b)) => a.same_as(b),
            (ContextItem::Resource(a), ContextItem::Resource(b)) => a.same_as(b),
            _ => false,
        }
    }
}

/// A selection that is left out on purpose.
#[derive(Debug, PartialEq, Eq)]
pub struct ContextOmission {
    pub item: ContextItem,
    pub reason: String,
}

/// What a `ContextOmission` holds.
#[verifier::ext_equal]
pub struct ContextOmissionView {
    pub item: ContextItemView,
    pub reason: Seq<char>,
}

impl DeepView for ContextOmission {
    type V = ContextOmissionView;

    open spec fn deep_view(&self) -> ContextOmissionView {
        ContextOmissionView {
            item: self.item.deep_view(),
            reason: self.reason.deep_view(),
        }
    }
}

impl Datum for ContextOmission {
    fn duplicate(&self) -> (r: ContextOmission) {
        ContextOmission {
            item: self.item.duplicate(),
            reason: self.reason.duplicate(),
        }
    }

    fn same_as(&self, other: &ContextOmission) -> (r: bool) {
        self.item.same_as(&other.item)
            && self.reason.same_as(&other.reason)
    }
}

/// What may be supplied and what is left out.
#[derive(Debug, PartialEq, Eq)]
pub struct ContextPolicy {
    pub omissions: Vec<ContextOmission>,
    pub instruction_authorization: Option<Arc<InstructionAuthorization>>,
}

/// What a `ContextPolicy` holds.
#[verifier::ext_equal]
pub struct ContextPolicyView {
    pub omissions: Seq<ContextOmissionView>,
    pub instruction_authorization: Option<InstructionAuthorizationView>,
}

impl DeepView for ContextPolicy {
    type V = ContextPolicyView;

    open spec fn deep_view(&self) -> ContextPolicyView {
        ContextPolicyView {
            omissions: self.omissions.deep_view(),
            instruction_authorization: self.instruction_authorization.deep_view(),
        }
    }
}

impl Datum for ContextPolicy {
    fn duplicate(&self) -> (r: ContextPolicy) {
        ContextPolicy {
            omissions: self.omissions.duplicate(),
            instruction_authorization: self.instruction_authorization.duplicate(),
        }
    }

    fn same_as(&self, other: &ContextPolicy) -> (r: bool) {
        self.omissions.same_as(&other.omissions)
            && self.instruction_authorization.same_as(&other.instruction_authorization)
    }
}

/// Immutable bytes at an application-assigned revision. Revision labels are not hashes.
#[derive(Debug, PartialEq, Eq)]
pub struct Resource {
    pub reference: ResourceRef,
    pub media_type: String,
    pub bytes: Vec<u8>,
}

/// What a `Resource` holds.
#[verifier::ext_equal]
pub struct ResourceView {
    pub reference: ResourceRefView,
    pub media_type: Seq<char>,
    pub bytes: Seq<u8>,
}

impl DeepView for Resource {
    type V = ResourceView;

    open spec fn deep_view(&self) -> ResourceView {
        ResourceView {
            reference: self.reference.deep_view(),
            media_type: self.media_type.deep_view(),
            bytes: self.bytes.deep_view(),
        }
    }
}

impl Datum for Resource {
    fn duplicate(&self) -> (r: Resource) {
        Resource {
            reference: self.reference.duplicate(),
            media_type: self.media_type.duplicate(),
            bytes: self.bytes.duplicate(),
        }
    }

    fn same_as(&self, other: &Resource) -> (r: bool) {
        self.reference.same_as(&other.reference)
            && self.media_type.same_as(&other.media_type)
            && self.bytes.same_as(&other.bytes)
    }
}

/// Why a resource could not be had.
#[derive(Debug, PartialEq, Eq)]
pub enum ResourceError {
    Store(StoreError),
    Missing,
    Invalid,
    RevisionConflict,
    Poisoned,
}

/// What a `ResourceError` holds.
pub enum ResourceErrorView {
    Store(StoreErrorView),
    Missing,
    Invalid,
    RevisionConflict,
    Poisoned,
}

impl DeepView for ResourceError {
    type V = ResourceErrorView;

    open spec fn deep_view(&self) -> ResourceErrorView {
        match self {
            ResourceError::Store(value) => ResourceErrorView::Store(value.deep_view()),
            ResourceError::Missing => ResourceErrorView::Missing,
            ResourceError::Invalid => ResourceErrorView::Invalid,
            ResourceError::RevisionConflict => ResourceErrorView::RevisionConflict,
            ResourceError::Poisoned => ResourceErrorView::Poisoned,
        }
    }
}

impl Datum for ResourceError {
    fn duplicate(&self) -> (r: ResourceError) {
        match self {
            ResourceError::Store(value) => ResourceError::Store(value.duplicate()),
            ResourceError::Missing => ResourceError::Missing,
            ResourceError::Invalid => ResourceError::Invalid,
            ResourceError::RevisionConflict => ResourceError::RevisionConflict,
            ResourceError::Poisoned => ResourceError::Poisoned,
        }
    }

    fn same_as(&self, other: &ResourceError) -> (r: bool) {
        match (self, other) {
            (ResourceError::Store(a), ResourceError::Store(b)) => a.same_as(b),
            (ResourceError::Missing, ResourceError::Missing) => true,
            (ResourceError::Invalid, ResourceError::Invalid) => true,
            (ResourceError::RevisionConflict, ResourceError::RevisionConflict) => true,
            (ResourceError::Poisoned, ResourceError::Poisoned) => true,
            _ => false,
        }
    }
}

/// An instruction with its content.
#[derive(Debug, PartialEq, Eq)]
pub struct PreparedInstruction {
    pub reference: InstructionRef,
    pub resource: Arc<Resource>,
}

/// What a `PreparedInstruction` holds.
#[verifier::ext_equal]
pub struct PreparedInstructionView {
    pub reference: InstructionRefView,
    pub resource: ResourceView,
}

impl DeepView for PreparedInstruction {
    type V = PreparedInstructionView;

    open spec fn deep_view(&self) -> PreparedInstructionView {
        PreparedInstructionView {
            reference: self.reference.deep_view(),
            resource: self.resource.deep_view(),
        }
    }
}

impl Datum for PreparedInstruction {
    fn duplicate(&self) -> (r: PreparedInstruction) {
        PreparedInstruction {
            reference: self.reference.duplicate(),
            resource: self.resource.duplicate(),
        }
    }

    fn same_as(&self, other: &PreparedInstruction) -> (r: bool) {
        self.reference.same_as(&other.reference)
            && self.resource.same_as(&other.resource)
    }
}

/// Resolved evidence only. It is not a provider prompt or proof of delivery.
#[derive(Debug, PartialEq, Eq)]
pub struct PreparedContext {
    pub requested_manifest: ContextManifest,
    pub policy: ContextPolicy,
    pub manifest: ContextManifest,
    pub records: Vec<Arc<Snapshot>>,
    pub instructions: Vec<PreparedInstruction>,
    /// Unique resources in first-reference order, including message attachments.
    pub resources: Vec<Arc<Resource>>,
    pub resource_bytes: usize,
}

/// What a `PreparedContext` holds.
#[verifier::ext_equal]
pub struct PreparedContextView {
    pub requested_manifest: ContextManifestView,
    pub policy: ContextPolicyView,
    pub manifest: ContextManifestView,
    pub records: Seq<SnapshotView>,
    pub instructions: Seq<PreparedInstructionView>,
    pub resources: Seq<ResourceView>,
    pub resource_bytes: usize,
}

impl DeepView for PreparedContext {
    type V = PreparedContextView;

    open spec fn deep_view(&self) -> PreparedContextView {
        PreparedContextView {
            requested_manifest: self.requested_manifest.deep_view(),
            policy: self.policy.deep_view(),
            manifest: self.manifest.deep_view(),
            records: self.records.deep_view(),
            instructions: self.instructions.deep_view(),
            resources: self.resources.deep_view(),
            resource_bytes: self.resource_bytes.deep_view(),
        }
    }
}

impl Datum for PreparedContext {
    fn duplicate(&self) -> (r: PreparedContext) {
        PreparedContext {
            requested_manifest: self.requested_manifest.duplicate(),
            policy: self.policy.duplicate(),
            manifest: self.manifest.duplicate(),
            records: self.records.duplicate(),
            instructions: self.instructions.duplicate(),
            resources: self.resources.duplicate(),
            resource_bytes: self.resource_bytes.duplicate(),
        }
    }

    fn same_as(&self, other: &PreparedContext) -> (r: bool) {
        self.requested_manifest.same_as(&other.requested_manifest)
            && self.policy.same_as(&other.policy)
            && self.manifest.same_as(&other.manifest)
            && self.records.same_as(&other.records)
            && self.instructions.same_as(&other.instructions)
            && self.resources.same_as(&other.resources)
            && self.resource_bytes.same_as(&other.resource_bytes)
    }
}

/// Why a context could not be prepared.
#[derive(Debug, PartialEq, Eq)]
pub enum ContextError {
    InstructionUnauthorized,
    InvalidOmission,
    ReferencedOmission(ResourceRef),
    Store(StoreError),
    Resource { reference: ResourceRef, error: ResourceError },
    RecordOutsideScope(RecordId),
    OpenRecord(RecordId),
    InvalidInstruction(ResourceRef),
    ItemLimit,
    ResourceByteLimit,
}

/// What a `ContextError` holds.
pub enum ContextErrorView {
    InstructionUnauthorized,
    InvalidOmission,
    ReferencedOmission(ResourceRefView),
    Store(StoreErrorView),
    Resource { reference: ResourceRefView, error: ResourceErrorView },
    RecordOutsideScope(Seq<char>),
    OpenRecord(Seq<char>),
    InvalidInstruction(ResourceRefView),
    ItemLimit,
    ResourceByteLimit,
}

impl DeepView for ContextError {
    type V = ContextErrorView;

    open spec fn deep_view(&self) -> ContextErrorView {
        match self {
            ContextError::InstructionUnauthorized => ContextErrorView::InstructionUnauthorized,
            ContextError::InvalidOmission => ContextErrorView::InvalidOmission,
            ContextError::ReferencedOmission(value) => ContextErrorView::ReferencedOmission(value.deep_view()),
            ContextError::Store(value) => ContextErrorView::Store(value.deep_view()),
            ContextError::Resource { reference, error } => ContextErrorView::Resource {
                reference: reference.deep_view(),
                error: error.deep_view(),
            },
            ContextError::RecordOutsideScope(value) => ContextErrorView::RecordOutsideScope(value.deep_view()),
            ContextError::OpenRecord(value) => ContextErrorView::OpenRecord(value.deep_view()),
            ContextError::InvalidInstruction(value) => ContextErrorView::InvalidInstruction(value.deep_view()),
            ContextError::ItemLimit => ContextErrorView::ItemLimit,
            ContextError::ResourceByteLimit => ContextErrorView::ResourceByteLimit,
        }
    }
}

impl Datum for ContextError {
    fn duplicate(&self) -> (r: ContextError) {
        match self {
            ContextError::InstructionUnauthorized => ContextError::InstructionUnauthorized,
            ContextError::InvalidOmission => ContextError::InvalidOmission,
            ContextError::ReferencedOmission(value) => ContextError::ReferencedOmission(value.duplicate()),
            ContextError::Store(value) => ContextError::Store(value.duplicate()),
            ContextError::Resource { reference, error } => ContextError::Resource {
                reference: reference.duplicate(),
                error: error.duplicate(),
            },
            ContextError::RecordOutsideScope(value) => ContextError::RecordOutsideScope(value.duplicate()),
            ContextError::OpenRecord(value) => ContextError::OpenRecord(value.duplicate()),
            ContextError::InvalidInstruction(value) => ContextError::InvalidInstruction(value.duplicate()),
            ContextError::ItemLimit => ContextError::ItemLimit,
            ContextError::ResourceByteLimit => ContextError::ResourceByteLimit,
        }
    }

    fn same_as(&self, other: &ContextError) -> (r: bool) {
        match (self, other) {
            (ContextError::InstructionUnauthorized, ContextError::InstructionUnauthorized) => true,
            (ContextError::InvalidOmission, ContextError::InvalidOmission) => true,
            (ContextError::ReferencedOmission(a), ContextError::ReferencedOmission(b)) => a.same_as(b),
            (ContextError::Store(a), ContextError::Store(b)) => a.same_as(b),
            (ContextError::Resource { reference: reference_a, error: error_a }, ContextError::Resource { reference: reference_b, error: error_b }) => {
                reference_a.same_as(reference_b)
                    && error_a.same_as(error_b)
            },
            (ContextError::RecordOutsideScope(a), ContextError::RecordOutsideScope(b)) => a.same_as(b),
            (ContextError::OpenRecord(a), ContextError::OpenRecord(b)) => a.same_as(b),
            (ContextError::InvalidInstruction(a), ContextError::InvalidInstruction(b)) => a.same_as(b),
            (ContextError::ItemLimit, ContextError::ItemLimit) => true,
            (ContextError::ResourceByteLimit, ContextError::ResourceByteLimit) => true,
            _ => false,
        }
    }
}

/// How much a context may hold.
#[derive(Debug, Clone, Copy)]
pub struct ContextLimits {
    /// Explicit selections plus resource references inside selected messages.
    pub max_items: usize,
    /// Sum of unique resource byte lengths. This is not a model token budget.
    pub max_resource_bytes: usize,
}

impl ContextPolicyView {
    /// Nothing is left out and no instruction is authorized.
    pub open spec fn none() -> ContextPolicyView {
        ContextPolicyView { omissions: Seq::empty(), instruction_authorization: None }
    }
}

impl Default for ContextPolicy {
    fn default() -> (r: ContextPolicy)
        ensures
            r.deep_view() == ContextPolicyView::none(),
    {
        let r = ContextPolicy { omissions: Vec::new(), instruction_authorization: None };
        assert(r.deep_view() =~= ContextPolicyView::none());
        r
    }
}

impl ContextPolicy {
    /// Explicit host-owned selection. Delegated selections use a grant naming
    /// their actual requester instead of this convenience constructor.
    pub fn for_host(host: ActorId, instructions: Vec<InstructionRef>) -> (r: ContextPolicy)
        ensures
            r.deep_view() == (ContextPolicyView {
                omissions: Seq::empty(),
                instruction_authorization: Some(
                    InstructionAuthorizationView {
                        requester: host.deep_view(),
                        grant: InstructionGrantView {
                            issuer: host.deep_view(),
                            subject: host.deep_view(),
                            instructions: instructions.deep_view(),
                        },
                    },
                ),
            }),
    {
        let r = ContextPolicy {
            omissions: Vec::new(),
            instruction_authorization: Some(
                Arc::new(
                    InstructionAuthorization {
                        requester: host.duplicate(),
                        grant: InstructionGrant {
                            issuer: host.duplicate(),
                            subject: host,
                            instructions,
                        },
                    },
                ),
            ),
        };
        assert(r.deep_view().omissions =~= Seq::empty());
        r
    }
}

/// Resources by their exact revision.
pub type Resources = Map<ResourceRefView, ResourceView>;

/// The exact revision that a reference names.
pub open spec fn resource_found(held: Resources, reference: ResourceRefView) -> Result<
    ResourceView,
    ResourceErrorView,
> {
    if blank(reference.revision) {
        Err(ResourceErrorView::Invalid)
    } else if held.contains_key(reference) {
        Ok(held[reference])
    } else {
        Err(ResourceErrorView::Missing)
    }
}

/// The resources after a write, with what is stored, or why the write is refused.
pub open spec fn resource_put(held: Resources, resource: ResourceView) -> Result<
    (ResourceView, Resources),
    ResourceErrorView,
> {
    if blank(resource.reference.revision) || blank(resource.media_type) {
        Err(ResourceErrorView::Invalid)
    } else if held.contains_key(resource.reference) {
        if held[resource.reference] == resource {
            Ok((resource, held))
        } else {
            Err(ResourceErrorView::RevisionConflict)
        }
    } else {
        Ok((resource, held.insert(resource.reference, resource)))
    }
}

/// The resource store could not be used, which says nothing of the request.
pub open spec fn resource_environmental(e: ResourceErrorView) -> bool {
    match e {
        ResourceErrorView::Store(inner) => environmental(inner),
        ResourceErrorView::Poisoned => true,
        _ => false,
    }
}

/// Stores must return the exact immutable revision, never the latest revision.
/// Access control and retention belong to the application's store implementation.
pub trait ResourceStore {
    /// The resources that can be had from the store.
    spec fn held(&self) -> Resources;

    /// The resources can always be had.
    spec fn obtainable(&self) -> bool;

    fn get(&self, reference: &ResourceRef) -> (r: Result<Arc<Resource>, ResourceError>)
        ensures
            outcome(r) == resource_found(self.held(), reference.deep_view()) || (outcome(
                r,
            ) matches Err(e) && resource_environmental(e) && !self.obtainable()),
    ;
}

/// Optional write contract. Retention and durability are properties of the store.
pub trait ResourceArchive: ResourceStore {
    fn put(&mut self, resource: Resource) -> (r: Result<Arc<Resource>, ResourceError>)
        ensures
            match resource_put(old(self).held(), resource.deep_view()) {
                Ok((stored, after)) => outcome(r) == Ok::<ResourceView, ResourceErrorView>(stored)
                    && final(self).held() == after,
                Err(e) => outcome(r) == Err::<ResourceView, ResourceErrorView>(e)
                    && final(self).held() == old(self).held(),
            } || (outcome(r) matches Err(e) && resource_environmental(e) && !old(self).obtainable()
                && final(self).held() == old(self).held()),
            final(self).obtainable() == old(self).obtainable(),
    ;
}

/// Resources in memory.
pub struct MemoryResourceStore {
    resources: Vec<Arc<Resource>>,
}

/// The resources of a list whose references are distinct.
pub open spec fn listed(resources: Seq<ResourceView>) -> Resources {
    Map::new(
        |reference: ResourceRefView| position_of(resources, reference) is Some,
        |reference: ResourceRefView| resources[position_of(resources, reference)->0],
    )
}

/// Where the list holds a reference first.
pub open spec fn position_of(resources: Seq<ResourceView>, reference: ResourceRefView) -> Option<
    int,
>
    decreases resources.len(),
{
    if resources.len() == 0 {
        None
    } else {
        match position_of(resources.drop_last(), reference) {
            Some(i) => Some(i),
            None => if resources.last().reference == reference {
                Some(resources.len() - 1)
            } else {
                None
            },
        }
    }
}

proof fn position_is_sound(resources: Seq<ResourceView>, reference: ResourceRefView)
    ensures
        position_of(resources, reference) matches Some(i) ==> 0 <= i < resources.len()
            && resources[i].reference == reference,
        position_of(resources, reference) is None ==> forall|i: int|
            0 <= i < resources.len() ==> (#[trigger] resources[i]).reference != reference,
    decreases resources.len(),
{
    if resources.len() > 0 {
        position_is_sound(resources.drop_last(), reference);
        assert forall|i: int|
            position_of(resources, reference) is None && 0 <= i < resources.len() implies (
        #[trigger] resources[i]).reference != reference by {
            if i < resources.len() - 1 {
                assert(resources.drop_last()[i] == resources[i]);
            }
        }
    }
}

fn find_resource(resources: &Vec<Arc<Resource>>, reference: &ResourceRef) -> (r: Option<usize>)
    ensures
        match position_of(resources.deep_view(), reference.deep_view()) {
            Some(i) => r matches Some(j) && j == i && j < resources.len()
                && resources@[j as int].deep_view().reference == reference.deep_view(),
            None => r is None,
        },
{
    let ghost views = resources.deep_view();
    let ghost wanted = reference.deep_view();
    let mut i: usize = 0;
    assert(position_of(views.take(0), wanted) is None);
    while i < resources.len()
        invariant
            i <= resources.len(),
            views == resources.deep_view(),
            wanted == reference.deep_view(),
            position_of(views.take(i as int), wanted) is None,
        decreases resources.len() - i,
    {
        assert(views.take(i + 1).drop_last() =~= views.take(i as int));
        assert(views.take(i + 1).last() == resources@[i as int].deep_view());
        if resources[i].reference.same_as(reference) {
            proof {
                position_in_prefix(views, wanted, i + 1);
            }
            return Some(i);
        }
        i = i + 1;
    }
    assert(views.take(resources.len() as int) =~= views);
    None
}

proof fn position_in_prefix(resources: Seq<ResourceView>, reference: ResourceRefView, n: int)
    requires
        0 <= n <= resources.len(),
        position_of(resources.take(n), reference) is Some,
    ensures
        position_of(resources, reference) == position_of(resources.take(n), reference),
    decreases resources.len(),
{
    if n < resources.len() {
        assert(resources.drop_last().take(n) =~= resources.take(n));
        position_in_prefix(resources.drop_last(), reference, n);
    } else {
        assert(resources.take(n) =~= resources);
    }
}

impl MemoryResourceStore {
    /// A store without resources.
    pub fn new() -> (r: MemoryResourceStore)
        ensures
            r.held() == Resources::empty(),
    {
        let r = MemoryResourceStore { resources: Vec::new() };
        assert(r.held() =~= Resources::empty());
        r
    }

    /// Repeated identical writes share the stored allocation. Conflicting writes fail.
    pub fn put(&mut self, resource: Resource) -> (r: Result<Arc<Resource>, ResourceError>)
        ensures
            match resource_put(old(self).held(), resource.deep_view()) {
                Ok((stored, after)) => outcome(r) == Ok::<ResourceView, ResourceErrorView>(stored)
                    && final(self).held() == after,
                Err(e) => outcome(r) == Err::<ResourceView, ResourceErrorView>(e)
                    && final(self).held() == old(self).held(),
            },
    {
        if is_blank(resource.reference.revision.as_str()) || is_blank(
            resource.media_type.as_str(),
        ) {
            return Err(ResourceError::Invalid);
        }
        proof {
            position_is_sound(self.resources.deep_view(), resource.reference.deep_view());
        }
        match find_resource(&self.resources, &resource.reference) {
            Some(i) => {
                let existing = &self.resources[i];
                return if (**existing).same_as(&resource) {
                    Ok(share(existing))
                } else {
                    Err(ResourceError::RevisionConflict)
                };
            },
            None => {},
        }
        let resource = Arc::new(resource);
        let ghost before = self.resources.deep_view();
        append(&mut self.resources, share(&resource));
        proof {
            let after = self.resources.deep_view();
            assert(after.drop_last() =~= before);
            assert forall|reference: ResourceRefView| listed(before).contains_key(
                reference,
            ) implies listed(after)[reference] == listed(before)[reference] by {
                position_is_sound(before, reference);
            }
            assert(listed(after) =~= listed(before).insert(
                resource.deep_view().reference,
                resource.deep_view(),
            ));
        }
        Ok(resource)
    }
}

impl ResourceStore for MemoryResourceStore {
    closed spec fn held(&self) -> Resources {
        listed(self.resources.deep_view())
    }

    open spec fn obtainable(&self) -> bool {
        true
    }

    fn get(&self, reference: &ResourceRef) -> (r: Result<Arc<Resource>, ResourceError>)
        ensures
            outcome(r) == resource_found(self.held(), reference.deep_view()),
    {
        if is_blank(reference.revision.as_str()) {
            return Err(ResourceError::Invalid);
        }
        match find_resource(&self.resources, reference) {
            Some(i) => Ok(share(&self.resources[i])),
            None => Err(ResourceError::Missing),
        }
    }
}

impl ResourceArchive for MemoryResourceStore {
    fn put(&mut self, resource: Resource) -> (r: Result<Arc<Resource>, ResourceError>) {
        MemoryResourceStore::put(self, resource)
    }
}

/// Resources that were written can be read back, and a revision never changes: other
/// bytes under the same revision are refused.
pub proof fn revisions_are_immutable(
    held: Resources,
    resource: ResourceView,
    other: ResourceView,
)
    requires
        other.reference == resource.reference,
        other != resource,
        !blank(other.media_type),
    ensures
        resource_put(held, resource) matches Ok((_, after)) ==> {
            &&& resource_found(after, resource.reference) == Ok::<ResourceView, ResourceErrorView>(
                resource,
            )
            &&& resource_put(after, resource) == Ok::<(ResourceView, Resources), ResourceErrorView>(
                (resource, after),
            )
            &&& resource_put(after, other) == Err::<(ResourceView, Resources), ResourceErrorView>(
                ResourceErrorView::RevisionConflict,
            )
        },
{
}

/// What a preparation draws on.
pub struct Sources {
    pub records: StoreView,
    pub resources: Resources,
    /// The sessions whose records may be read.
    pub allowed: Seq<Seq<char>>,
    /// References that may not be resolved, wherever they occur.
    pub forbidden: Seq<ResourceRefView>,
    pub max_bytes: nat,
}

/// How far a preparation got.
#[verifier::ext_equal]
pub struct Progress {
    pub remaining: nat,
    pub records: Seq<SnapshotView>,
    pub instructions: Seq<PreparedInstructionView>,
    pub resources: Seq<ResourceView>,
    pub bytes: nat,
}

impl Progress {
    /// Nothing is resolved yet.
    pub open spec fn start(max_items: nat) -> Progress {
        Progress {
            remaining: max_items,
            records: Seq::empty(),
            instructions: Seq::empty(),
            resources: Seq::empty(),
            bytes: 0,
        }
    }

    /// One more item counts against the limit.
    pub open spec fn consumed(self) -> Result<Progress, ContextErrorView> {
        if self.remaining == 0 {
            Err(ContextErrorView::ItemLimit)
        } else {
            Ok(Progress { remaining: (self.remaining - 1) as nat, ..self })
        }
    }

    /// The resource of a reference, which counts against the byte limit once.
    pub open spec fn resolved(self, sources: Sources, reference: ResourceRefView) -> Result<
        (ResourceView, Progress),
        ContextErrorView,
    > {
        if sources.forbidden.contains(reference) {
            Err(ContextErrorView::ReferencedOmission(reference))
        } else {
            match position_of(self.resources, reference) {
                Some(i) => Ok((self.resources[i], self)),
                None => match resource_found(sources.resources, reference) {
                    Err(error) => Err(ContextErrorView::Resource { reference, error }),
                    Ok(resource) => if resource.reference != reference {
                        Err(
                            ContextErrorView::Resource {
                                reference,
                                error: ResourceErrorView::RevisionConflict,
                            },
                        )
                    } else if self.bytes + resource.bytes.len() > sources.max_bytes {
                        Err(ContextErrorView::ResourceByteLimit)
                    } else {
                        Ok(
                            (
                                resource,
                                Progress {
                                    resources: self.resources.push(resource),
                                    bytes: self.bytes + resource.bytes.len(),
                                    ..self
                                },
                            ),
                        )
                    },
                },
            }
        }
    }

    /// A reference that counts as an item of its own.
    pub open spec fn referenced(self, sources: Sources, reference: ResourceRefView) -> Result<
        Progress,
        ContextErrorView,
    > {
        match self.consumed() {
            Err(e) => Err(e),
            Ok(counted) => match counted.resolved(sources, reference) {
                Err(e) => Err(e),
                Ok((_, next)) => Ok(next),
            },
        }
    }

    /// The attachments of a message.
    pub open spec fn attached(self, sources: Sources, contents: Seq<ContentView>) -> Result<
        Progress,
        ContextErrorView,
    >
        decreases contents.len(),
    {
        if contents.len() == 0 {
            Ok(self)
        } else {
            match contents[0] {
                ContentView::Text(_) => self.attached(sources, contents.skip(1)),
                ContentView::Resource(reference) => match self.referenced(sources, reference) {
                    Err(e) => Err(e),
                    Ok(next) => next.attached(sources, contents.skip(1)),
                },
            }
        }
    }

    /// One selected record: one that may be read, is final, and whose attachments
    /// can be had.
    pub open spec fn recorded(self, sources: Sources, id: Seq<char>) -> Result<
        Progress,
        ContextErrorView,
    > {
        match self.consumed() {
            Err(e) => Err(e),
            Ok(counted) => match sources.records.record(id) {
                Err(e) => Err(ContextErrorView::Store(e)),
                Ok(snapshot) => if !sources.allowed.contains(snapshot.record.session_id) {
                    Err(ContextErrorView::RecordOutsideScope(id))
                } else if !snapshot.state.finished() {
                    Err(ContextErrorView::OpenRecord(id))
                } else {
                    let contents = match snapshot.record.payload {
                        PayloadView::Message { message, .. } => message.content,
                        _ => Seq::empty(),
                    };
                    match counted.attached(sources, contents) {
                        Err(e) => Err(e),
                        Ok(next) => Ok(Progress { records: next.records.push(snapshot), ..next }),
                    }
                },
            },
        }
    }

    /// The selected records, in their order.
    pub open spec fn all_recorded(self, sources: Sources, ids: Seq<Seq<char>>) -> Result<
        Progress,
        ContextErrorView,
    >
        decreases ids.len(),
    {
        if ids.len() == 0 {
            Ok(self)
        } else {
            match self.recorded(sources, ids[0]) {
                Err(e) => Err(e),
                Ok(next) => next.all_recorded(sources, ids.skip(1)),
            }
        }
    }

    /// One selected instruction, which has to be readable text.
    pub open spec fn instructed(self, sources: Sources, instruction: InstructionRefView) -> Result<
        Progress,
        ContextErrorView,
    > {
        match self.consumed() {
            Err(e) => Err(e),
            Ok(counted) => match counted.resolved(sources, instruction.resource) {
                Err(e) => Err(e),
                Ok((resource, next)) => if readable_instruction(resource) {
                    Ok(
                        Progress {
                            instructions: next.instructions.push(
                                PreparedInstructionView { reference: instruction, resource },
                            ),
                            ..next
                        },
                    )
                } else {
                    Err(ContextErrorView::InvalidInstruction(instruction.resource))
                },
            },
        }
    }

    /// The selected instructions, in their order.
    pub open spec fn all_instructed(
        self,
        sources: Sources,
        instructions: Seq<InstructionRefView>,
    ) -> Result<Progress, ContextErrorView>
        decreases instructions.len(),
    {
        if instructions.len() == 0 {
            Ok(self)
        } else {
            match self.instructed(sources, instructions[0]) {
                Err(e) => Err(e),
                Ok(next) => next.all_instructed(sources, instructions.skip(1)),
            }
        }
    }

    /// The selected resources, in their order.
    pub open spec fn all_referenced(
        self,
        sources: Sources,
        references: Seq<ResourceRefView>,
    ) -> Result<Progress, ContextErrorView>
        decreases references.len(),
    {
        if references.len() == 0 {
            Ok(self)
        } else {
            match self.referenced(sources, references[0]) {
                Err(e) => Err(e),
                Ok(next) => next.all_referenced(sources, references.skip(1)),
            }
        }
    }
}

/// Plain or Markdown text in UTF-8, whatever the parameters of its media type.
pub open spec fn readable_instruction(resource: ResourceView) -> bool {
    let essence = trimmed(up_to(resource.media_type, ';'));
    (essence == "text/plain"@ || essence == "text/markdown"@) && valid_utf8(resource.bytes)
}

/// The number of explicit selections.
pub open spec fn selection_count(manifest: ContextManifestView) -> nat {
    manifest.records.len() + manifest.instructions.len() + manifest.resources.len()
}

/// The evidence for a manifest, or why there is none: first the records with their
/// attachments, then the instructions, then the resources.
pub open spec fn context_prepared(
    sources: Sources,
    manifest: ContextManifestView,
    max_items: nat,
) -> Result<Progress, ContextErrorView> {
    if selection_count(manifest) > max_items {
        Err(ContextErrorView::ItemLimit)
    } else {
        match Progress::start(max_items).all_recorded(sources, manifest.records) {
            Err(e) => Err(e),
            Ok(read) => match read.all_instructed(sources, manifest.instructions) {
                Err(e) => Err(e),
                Ok(instructed) => instructed.all_referenced(sources, manifest.resources),
            },
        }
    }
}

/// The prepared context holds the evidence.
pub open spec fn evidence_of(prepared: PreparedContextView, progress: Progress) -> bool {
    &&& prepared.records == progress.records
    &&& prepared.instructions == progress.instructions
    &&& prepared.resources == progress.resources
    &&& prepared.resource_bytes == progress.bytes
}

/// A store could not be used, which says nothing of the request.
pub open spec fn context_environmental(e: ContextErrorView) -> bool {
    match e {
        ContextErrorView::Store(inner) => environmental(inner),
        ContextErrorView::Resource { error, .. } => resource_environmental(error),
        _ => false,
    }
}

/// A store that could not be used is blamed, which happens only if one of them is not
/// dependable.
pub open spec fn blamed(e: ContextErrorView, dependable: bool) -> bool {
    !dependable && context_environmental(e)
}

/// The step led where it should, or a store could not be used.
pub open spec fn advanced(
    reply: Result<(), ContextErrorView>,
    expected: Result<Progress, ContextErrorView>,
    after: Progress,
    dependable: bool,
) -> bool {
    match reply {
        Ok(_) => expected == Ok::<Progress, ContextErrorView>(after),
        Err(e) => expected == Err::<Progress, ContextErrorView>(e) || blamed(e, dependable),
    }
}

struct Preparation<'a, R, S> {
    records: &'a R,
    store: &'a S,
    allowed: &'a Vec<SessionId>,
    forbidden: &'a Vec<ResourceRef>,
    max_bytes: usize,
}

struct Evidence {
    remaining: usize,
    records: Vec<Arc<Snapshot>>,
    instructions: Vec<PreparedInstruction>,
    resources: Vec<Arc<Resource>>,
    bytes: usize,
}

impl DeepView for Evidence {
    type V = Progress;

    closed spec fn deep_view(&self) -> Progress {
        Progress {
            remaining: self.remaining as nat,
            records: self.records.deep_view(),
            instructions: self.instructions.deep_view(),
            resources: self.resources.deep_view(),
            bytes: self.bytes as nat,
        }
    }
}

impl Evidence {
    fn start(max_items: usize) -> (r: Evidence)
        ensures
            r.deep_view() == Progress::start(max_items as nat),
    {
        let r = Evidence {
            remaining: max_items,
            records: Vec::new(),
            instructions: Vec::new(),
            resources: Vec::new(),
            bytes: 0,
        };
        assert(r.deep_view() =~= Progress::start(max_items as nat));
        r
    }

    fn consume(&mut self) -> (r: Result<(), ContextError>)
        ensures
            advanced(outcome(r), old(self).deep_view().consumed(), final(self).deep_view(), true),
            r matches Err(e) ==> e == ContextError::ItemLimit,
    {
        if self.remaining == 0 {
            return Err(ContextError::ItemLimit);
        }
        self.remaining = self.remaining - 1;
        Ok(())
    }
}

/// Whether the resource is plain or Markdown text.
fn is_readable_instruction(resource: &Resource) -> (r: bool)
    ensures
        r == readable_instruction(resource.deep_view()),
{
    let essence = text_up_to(resource.media_type.as_str(), ';').trim();
    assert(resource.bytes.deep_view() =~= resource.bytes@);
    (same_text(essence, "text/plain") || same_text(essence, "text/markdown")) && utf8_text(
        &resource.bytes,
    ).is_some()
}

impl<'a, R: RecordStore, S: ResourceStore> Preparation<'a, R, S> {
    spec fn sources(&self) -> Sources {
        Sources {
            records: self.records.contents(),
            resources: self.store.held(),
            allowed: self.allowed.deep_view(),
            forbidden: self.forbidden.deep_view(),
            max_bytes: self.max_bytes as nat,
        }
    }

    spec fn dependable(&self) -> bool {
        self.records.dependable() && self.store.obtainable()
    }

    fn resolve(&self, evidence: &mut Evidence, reference: &ResourceRef) -> (r: Result<
        Arc<Resource>,
        ContextError,
    >)
        ensures
            match r {
                Ok(resource) => old(evidence).deep_view().resolved(
                    self.sources(),
                    reference.deep_view(),
                ) == Ok::<(ResourceView, Progress), ContextErrorView>(
                    (resource.deep_view(), final(evidence).deep_view()),
                ),
                Err(e) => old(evidence).deep_view().resolved(self.sources(), reference.deep_view())
                    == Err::<(ResourceView, Progress), ContextErrorView>(e.deep_view())
                    || blamed(e.deep_view(), self.dependable()),
            },
    {
        if holds(self.forbidden, reference) {
            return Err(ContextError::ReferencedOmission(reference.duplicate()));
        }
        match find_resource(&evidence.resources, reference) {
            Some(i) => return Ok(share(&evidence.resources[i])),
            None => {},
        }
        let resource = match self.store.get(reference) {
            Err(error) => {
                return Err(ContextError::Resource { reference: reference.duplicate(), error });
            },
            Ok(resource) => resource,
        };
        if !resource.reference.same_as(reference) {
            return Err(
                ContextError::Resource {
                    reference: reference.duplicate(),
                    error: ResourceError::RevisionConflict,
                },
            );
        }
        let size: usize = resource.bytes.len();
        assert(resource.deep_view().bytes.len() == size);
        if evidence.bytes > self.max_bytes || size > self.max_bytes - evidence.bytes {
            return Err(ContextError::ResourceByteLimit);
        }
        evidence.bytes = evidence.bytes + size;
        append(&mut evidence.resources, share(&resource));
        Ok(resource)
    }

    fn reference(&self, evidence: &mut Evidence, reference: &ResourceRef) -> (r: Result<
        (),
        ContextError,
    >)
        ensures
            advanced(
                outcome(r),
                old(evidence).deep_view().referenced(self.sources(), reference.deep_view()),
                final(evidence).deep_view(),
                self.dependable(),
            ),
    {
        match evidence.consume() {
            Err(e) => return Err(e),
            Ok(_) => {},
        }
        match self.resolve(evidence, reference) {
            Err(e) => Err(e),
            Ok(_) => Ok(()),
        }
    }

    fn attach(&self, evidence: &mut Evidence, contents: &Vec<Content>) -> (r: Result<
        (),
        ContextError,
    >)
        ensures
            advanced(
                outcome(r),
                old(evidence).deep_view().attached(self.sources(), contents.deep_view()),
                final(evidence).deep_view(),
                self.dependable(),
            ),
    {
        let ghost start = evidence.deep_view();
        let ghost all = contents.deep_view();
        let mut i: usize = 0;
        assert(all.skip(0) =~= all);
        while i < contents.len()
            invariant
                i <= contents.len(),
                all == contents.deep_view(),
                start == old(evidence).deep_view(),
                start.attached(self.sources(), all) == evidence.deep_view().attached(
                    self.sources(),
                    all.skip(i as int),
                ),
            decreases contents.len() - i,
        {
            assert(all.skip(i as int)[0] == contents@[i as int].deep_view());
            assert(all.skip(i as int).skip(1) =~= all.skip(i + 1));
            match &contents[i] {
                Content::Text(_) => {},
                Content::Resource(reference) => match self.reference(evidence, reference) {
                    Err(e) => return Err(e),
                    Ok(_) => {},
                },
            }
            i = i + 1;
        }
        Ok(())
    }

    fn record(&self, evidence: &mut Evidence, id: &RecordId) -> (r: Result<(), ContextError>)
        ensures
            advanced(
                outcome(r),
                old(evidence).deep_view().recorded(self.sources(), id.deep_view()),
                final(evidence).deep_view(),
                self.dependable(),
            ),
    {
        match evidence.consume() {
            Err(e) => return Err(e),
            Ok(_) => {},
        }
        let snapshot = match self.records.get(id) {
            Err(e) => return Err(ContextError::Store(e)),
            Ok(snapshot) => snapshot,
        };
        if !holds(self.allowed, &snapshot.record.session_id) {
            return Err(ContextError::RecordOutsideScope(id.duplicate()));
        }
        if !snapshot.state.is_final() {
            return Err(ContextError::OpenRecord(id.duplicate()));
        }
        match &snapshot.record.payload {
            Payload::Message { message, .. } => match self.attach(evidence, &message.content) {
                Err(e) => return Err(e),
                Ok(_) => {},
            },
            _ => {},
        }
        append(&mut evidence.records, snapshot);
        Ok(())
    }

    fn record_all(&self, evidence: &mut Evidence, ids: &Vec<RecordId>) -> (r: Result<
        (),
        ContextError,
    >)
        ensures
            advanced(
                outcome(r),
                old(evidence).deep_view().all_recorded(self.sources(), ids.deep_view()),
                final(evidence).deep_view(),
                self.dependable(),
            ),
            ids.len() == 0 ==> r is Ok,
    {
        let ghost start = evidence.deep_view();
        let ghost all = ids.deep_view();
        let mut i: usize = 0;
        assert(all.skip(0) =~= all);
        while i < ids.len()
            invariant
                i <= ids.len(),
                all == ids.deep_view(),
                start == old(evidence).deep_view(),
                start.all_recorded(self.sources(), all) == evidence.deep_view().all_recorded(
                    self.sources(),
                    all.skip(i as int),
                ),
            decreases ids.len() - i,
        {
            assert(all.skip(i as int)[0] == ids@[i as int].deep_view());
            assert(all.skip(i as int).skip(1) =~= all.skip(i + 1));
            match self.record(evidence, &ids[i]) {
                Err(e) => return Err(e),
                Ok(_) => {},
            }
            i = i + 1;
        }
        Ok(())
    }

    fn instruct(&self, evidence: &mut Evidence, instruction: &InstructionRef) -> (r: Result<
        (),
        ContextError,
    >)
        ensures
            advanced(
                outcome(r),
                old(evidence).deep_view().instructed(self.sources(), instruction.deep_view()),
                final(evidence).deep_view(),
                self.dependable(),
            ),
    {
        match evidence.consume() {
            Err(e) => return Err(e),
            Ok(_) => {},
        }
        let resource = match self.resolve(evidence, &instruction.resource) {
            Err(e) => return Err(e),
            Ok(resource) => resource,
        };
        if !is_readable_instruction(&resource) {
            return Err(ContextError::InvalidInstruction(instruction.resource.duplicate()));
        }
        append(
            &mut evidence.instructions,
            PreparedInstruction { reference: instruction.duplicate(), resource },
        );
        Ok(())
    }

    fn instruct_all(&self, evidence: &mut Evidence, instructions: &Vec<InstructionRef>) -> (r:
        Result<(), ContextError>)
        ensures
            advanced(
                outcome(r),
                old(evidence).deep_view().all_instructed(self.sources(), instructions.deep_view()),
                final(evidence).deep_view(),
                self.dependable(),
            ),
            instructions.len() == 0 ==> r is Ok,
    {
        let ghost start = evidence.deep_view();
        let ghost all = instructions.deep_view();
        let mut i: usize = 0;
        assert(all.skip(0) =~= all);
        while i < instructions.len()
            invariant
                i <= instructions.len(),
                all == instructions.deep_view(),
                start == old(evidence).deep_view(),
                start.all_instructed(self.sources(), all) == evidence.deep_view().all_instructed(
                    self.sources(),
                    all.skip(i as int),
                ),
            decreases instructions.len() - i,
        {
            assert(all.skip(i as int)[0] == instructions@[i as int].deep_view());
            assert(all.skip(i as int).skip(1) =~= all.skip(i + 1));
            match self.instruct(evidence, &instructions[i]) {
                Err(e) => return Err(e),
                Ok(_) => {},
            }
            i = i + 1;
        }
        Ok(())
    }

    fn reference_all(&self, evidence: &mut Evidence, references: &Vec<ResourceRef>) -> (r: Result<
        (),
        ContextError,
    >)
        ensures
            advanced(
                outcome(r),
                old(evidence).deep_view().all_referenced(self.sources(), references.deep_view()),
                final(evidence).deep_view(),
                self.dependable(),
            ),
            references.len() == 0 ==> r is Ok,
    {
        let ghost start = evidence.deep_view();
        let ghost all = references.deep_view();
        let mut i: usize = 0;
        assert(all.skip(0) =~= all);
        while i < references.len()
            invariant
                i <= references.len(),
                all == references.deep_view(),
                start == old(evidence).deep_view(),
                start.all_referenced(self.sources(), all) == evidence.deep_view().all_referenced(
                    self.sources(),
                    all.skip(i as int),
                ),
            decreases references.len() - i,
        {
            assert(all.skip(i as int)[0] == references@[i as int].deep_view());
            assert(all.skip(i as int).skip(1) =~= all.skip(i + 1));
            match self.reference(evidence, &references[i]) {
                Err(e) => return Err(e),
                Ok(_) => {},
            }
            i = i + 1;
        }
        Ok(())
    }
}

/// Refuses a manifest with more explicit selections than the limit.
pub fn check_count(manifest: &ContextManifest, limits: ContextLimits) -> (r: Result<
    (),
    ContextError,
>)
    ensures
        r is Ok <==> selection_count(manifest.deep_view()) <= limits.max_items,
        r matches Err(e) ==> e == ContextError::ItemLimit,
{
    let a: usize = manifest.records.len();
    let b: usize = manifest.instructions.len();
    let c: usize = manifest.resources.len();
    assert(selection_count(manifest.deep_view()) == a + b + c);
    let count = match a.checked_add(b) {
        Some(n) => n.checked_add(c),
        None => None,
    };
    match count {
        Some(n) => if n <= limits.max_items {
            Ok(())
        } else {
            Err(ContextError::ItemLimit)
        },
        None => Err(ContextError::ItemLimit),
    }
}

/// The stores are asked for what the manifest selects: it selects something, and not
/// too much.
pub open spec fn consulted(manifest: ContextManifestView, max_items: nat) -> bool {
    0 < selection_count(manifest) <= max_items
}

/// The reply is the expected evidence, or a store that was asked could not be used.
pub open spec fn prepared_as(
    reply: Result<PreparedContextView, ContextErrorView>,
    sources: Sources,
    manifest: ContextManifestView,
    max_items: nat,
    dependable: bool,
) -> bool {
    let expected = context_prepared(sources, manifest, max_items);
    match reply {
        Ok(prepared) => expected matches Ok(progress) && evidence_of(prepared, progress),
        Err(e) => expected == Err::<Progress, ContextErrorView>(e) || (consulted(
            manifest,
            max_items,
        ) && blamed(e, dependable)),
    }
}

fn prepare_inner<R: RecordStore, S: ResourceStore>(
    manifest: &ContextManifest,
    records: &R,
    resources: &S,
    allowed_sessions: &Vec<SessionId>,
    limits: ContextLimits,
    forbidden: &Vec<ResourceRef>,
) -> (r: Result<PreparedContext, ContextError>)
    ensures
        prepared_as(
            outcome(r),
            (Sources {
                records: records.contents(),
                resources: resources.held(),
                allowed: allowed_sessions.deep_view(),
                forbidden: forbidden.deep_view(),
                max_bytes: limits.max_resource_bytes as nat,
            }),
            manifest.deep_view(),
            limits.max_items as nat,
            records.dependable() && resources.obtainable(),
        ),
        selection_count(manifest.deep_view()) > limits.max_items ==> outcome(r) == Err::<
            PreparedContextView,
            ContextErrorView,
        >(ContextErrorView::ItemLimit),
        r matches Ok(prepared) ==> {
            &&& prepared.deep_view().requested_manifest == manifest.deep_view()
            &&& prepared.deep_view().manifest == manifest.deep_view()
            &&& prepared.deep_view().policy == ContextPolicyView::none()
        },
{
    match check_count(manifest, limits) {
        Err(e) => return Err(e),
        Ok(_) => {},
    }
    let preparation = Preparation {
        records,
        store: resources,
        allowed: allowed_sessions,
        forbidden,
        max_bytes: limits.max_resource_bytes,
    };
    let mut evidence = Evidence::start(limits.max_items);
    match preparation.record_all(&mut evidence, &manifest.records) {
        Err(e) => return Err(e),
        Ok(_) => {},
    }
    match preparation.instruct_all(&mut evidence, &manifest.instructions) {
        Err(e) => return Err(e),
        Ok(_) => {},
    }
    match preparation.reference_all(&mut evidence, &manifest.resources) {
        Err(e) => return Err(e),
        Ok(_) => {},
    }
    Ok(
        PreparedContext {
            requested_manifest: manifest.duplicate(),
            policy: ContextPolicy::default(),
            manifest: manifest.duplicate(),
            records: evidence.records,
            instructions: evidence.instructions,
            resources: evidence.resources,
            resource_bytes: evidence.bytes,
        },
    )
}

/// The host supplies the sessions it permits this preparation to read. Resource
/// access is delegated to the supplied ResourceStore. No omitted input is inferred.
pub fn prepare<R: RecordStore, S: ResourceStore>(
    manifest: &ContextManifest,
    records: &R,
    resources: &S,
    allowed_sessions: &Vec<SessionId>,
    limits: ContextLimits,
) -> (r: Result<PreparedContext, ContextError>)
    ensures
        prepared_as(
            outcome(r),
            (Sources {
                records: records.contents(),
                resources: resources.held(),
                allowed: allowed_sessions.deep_view(),
                forbidden: Seq::empty(),
                max_bytes: limits.max_resource_bytes as nat,
            }),
            manifest.deep_view(),
            limits.max_items as nat,
            records.dependable() && resources.obtainable(),
        ),
        selection_count(manifest.deep_view()) > limits.max_items ==> outcome(r) == Err::<
            PreparedContextView,
            ContextErrorView,
        >(ContextErrorView::ItemLimit),
        r matches Ok(prepared) ==> {
            &&& prepared.deep_view().requested_manifest == manifest.deep_view()
            &&& prepared.deep_view().manifest == manifest.deep_view()
            &&& prepared.deep_view().policy == ContextPolicyView::none()
        },
{
    let none: Vec<ResourceRef> = Vec::new();
    assert(none.deep_view() =~= Seq::empty());
    prepare_inner(manifest, records, resources, allowed_sessions, limits, &none)
}

/// The policy lets the manifest's instructions be supplied: nobody but the subject
/// of the grant relies on it, and it grants each of them in its exact revision and
/// role.
pub open spec fn instructions_authorized(
    policy: ContextPolicyView,
    instructions: Seq<InstructionRefView>,
) -> bool {
    match policy.instruction_authorization {
        Some(authorization) => authorization.requester == authorization.grant.subject && included(
            instructions,
            authorization.grant.instructions,
        ),
        None => instructions.len() == 0,
    }
}

/// A selection from which omissions are taken.
#[verifier::ext_equal]
pub struct Selection {
    pub manifest: ContextManifestView,
    pub omitted: Seq<ContextItemView>,
    pub forbidden: Seq<ResourceRefView>,
}

impl Selection {
    /// The whole manifest.
    pub open spec fn whole(manifest: ContextManifestView) -> Selection {
        Selection { manifest, omitted: Seq::empty(), forbidden: Seq::empty() }
    }

    /// The item is selected.
    pub open spec fn selects(self, item: ContextItemView) -> bool {
        match item {
            ContextItemView::Record(id) => self.manifest.records.contains(id),
            ContextItemView::Instruction(instruction) => self.manifest.instructions.contains(
                instruction,
            ),
            ContextItemView::Resource(reference) => self.manifest.resources.contains(reference),
        }
    }

    /// The selection without the item. An omitted resource may not come back as an
    /// attachment or as an instruction.
    pub open spec fn dropped(self, item: ContextItemView) -> Selection {
        let omitted = self.omitted.push(item);
        match item {
            ContextItemView::Record(id) => Selection {
                manifest: ContextManifestView {
                    records: without(self.manifest.records, id),
                    ..self.manifest
                },
                omitted,
                forbidden: self.forbidden,
            },
            ContextItemView::Instruction(instruction) => Selection {
                manifest: ContextManifestView {
                    instructions: without(self.manifest.instructions, instruction),
                    ..self.manifest
                },
                omitted,
                forbidden: self.forbidden,
            },
            ContextItemView::Resource(reference) => Selection {
                manifest: ContextManifestView {
                    resources: without(self.manifest.resources, reference),
                    ..self.manifest
                },
                omitted,
                forbidden: self.forbidden.push(reference),
            },
        }
    }

    /// One omission: of a selected item, with a reason, and not twice.
    pub open spec fn omitted_one(self, omission: ContextOmissionView) -> Result<
        Selection,
        ContextErrorView,
    > {
        if blank(omission.reason) || self.omitted.contains(omission.item) || !self.selects(
            omission.item,
        ) {
            Err(ContextErrorView::InvalidOmission)
        } else {
            Ok(self.dropped(omission.item))
        }
    }

    /// The omissions, in their order.
    pub open spec fn omitted_all(self, omissions: Seq<ContextOmissionView>) -> Result<
        Selection,
        ContextErrorView,
    >
        decreases omissions.len(),
    {
        if omissions.len() == 0 {
            Ok(self)
        } else {
            match self.omitted_one(omissions[0]) {
                Err(e) => Err(e),
                Ok(next) => next.omitted_all(omissions.skip(1)),
            }
        }
    }
}

/// What is left to be prepared under a policy, or why nothing is.
pub open spec fn selection_under(
    manifest: ContextManifestView,
    policy: ContextPolicyView,
    max_items: nat,
) -> Result<Selection, ContextErrorView> {
    if selection_count(manifest) > max_items || policy.omissions.len() > max_items || (
    policy.instruction_authorization matches Some(authorization)
        && authorization.grant.instructions.len() > max_items) {
        Err(ContextErrorView::ItemLimit)
    } else if !instructions_authorized(policy, manifest.instructions) {
        Err(ContextErrorView::InstructionUnauthorized)
    } else {
        Selection::whole(manifest).omitted_all(policy.omissions)
    }
}

struct Remaining {
    manifest: ContextManifest,
    omitted: Vec<ContextItem>,
    forbidden: Vec<ResourceRef>,
}

impl DeepView for Remaining {
    type V = Selection;

    closed spec fn deep_view(&self) -> Selection {
        Selection {
            manifest: self.manifest.deep_view(),
            omitted: self.omitted.deep_view(),
            forbidden: self.forbidden.deep_view(),
        }
    }
}

impl Remaining {
    fn omit(&mut self, omission: &ContextOmission) -> (r: Result<(), ContextError>)
        ensures
            match old(self).deep_view().omitted_one(omission.deep_view()) {
                Ok(next) => r is Ok && final(self).deep_view() == next,
                Err(e) => outcome(r) == Err::<(), ContextErrorView>(e),
            },
    {
        if is_blank(omission.reason.as_str()) || holds(&self.omitted, &omission.item) {
            return Err(ContextError::InvalidOmission);
        }
        let exists = match &omission.item {
            ContextItem::Record(id) => {
                let exists = holds(&self.manifest.records, id);
                self.manifest.records = leave_out(&self.manifest.records, id);
                exists
            },
            ContextItem::Instruction(instruction) => {
                let exists = holds(&self.manifest.instructions, instruction);
                self.manifest.instructions = leave_out(&self.manifest.instructions, instruction);
                exists
            },
            ContextItem::Resource(reference) => {
                let exists = holds(&self.manifest.resources, reference);
                self.manifest.resources = leave_out(&self.manifest.resources, reference);
                append(&mut self.forbidden, reference.duplicate());
                exists
            },
        };
        if !exists {
            return Err(ContextError::InvalidOmission);
        }
        append(&mut self.omitted, omission.item.duplicate());
        Ok(())
    }

    fn omit_all(&mut self, omissions: &Vec<ContextOmission>) -> (r: Result<(), ContextError>)
        ensures
            match old(self).deep_view().omitted_all(omissions.deep_view()) {
                Ok(next) => r is Ok && final(self).deep_view() == next,
                Err(e) => outcome(r) == Err::<(), ContextErrorView>(e),
            },
    {
        let ghost start = self.deep_view();
        let ghost all = omissions.deep_view();
        let mut i: usize = 0;
        assert(all.skip(0) =~= all);
        while i < omissions.len()
            invariant
                i <= omissions.len(),
                all == omissions.deep_view(),
                start == old(self).deep_view(),
                start.omitted_all(all) == self.deep_view().omitted_all(all.skip(i as int)),
            decreases omissions.len() - i,
        {
            assert(all.skip(i as int)[0] == omissions@[i as int].deep_view());
            assert(all.skip(i as int).skip(1) =~= all.skip(i + 1));
            match self.omit(&omissions[i]) {
                Err(e) => return Err(e),
                Ok(_) => {},
            }
            i = i + 1;
        }
        Ok(())
    }
}

fn check_policy(manifest: &ContextManifest, limits: ContextLimits, policy: &ContextPolicy) -> (r:
    Result<(), ContextError>)
    ensures
        ({
            let selection = selection_under(
                manifest.deep_view(),
                policy.deep_view(),
                limits.max_items as nat,
            );
            match r {
                Ok(_) => selection == Selection::whole(manifest.deep_view()).omitted_all(
                    policy.deep_view().omissions,
                ),
                Err(e) => selection == Err::<Selection, ContextErrorView>(e.deep_view()),
            }
        }),
{
    match check_count(manifest, limits) {
        Err(e) => return Err(e),
        Ok(_) => {},
    }
    assert(policy.deep_view().omissions.len() == policy.omissions.len());
    assert(manifest.deep_view().instructions.len() == manifest.instructions.len());
    if policy.omissions.len() > limits.max_items {
        return Err(ContextError::ItemLimit);
    }
    match &policy.instruction_authorization {
        Some(authorization) => {
            assert(authorization.deep_view().grant.instructions.len()
                == authorization.grant.instructions.len());
            if authorization.grant.instructions.len() > limits.max_items {
                return Err(ContextError::ItemLimit);
            }
            if !authorization.requester.same_as(&authorization.grant.subject) || !is_included(
                &manifest.instructions,
                &authorization.grant.instructions,
            ) {
                return Err(ContextError::InstructionUnauthorized);
            }
        },
        None => {
            if manifest.instructions.len() > 0 {
                return Err(ContextError::InstructionUnauthorized);
            }
        },
    }
    Ok(())
}

/// Policy applies to explicit selections. Missing inputs are omitted only when
/// named here, and omitted instructions still require an exact grant.
pub fn prepare_with_policy<R: RecordStore, S: ResourceStore>(
    manifest: &ContextManifest,
    records: &R,
    resources: &S,
    allowed_sessions: &Vec<SessionId>,
    limits: ContextLimits,
    policy: &ContextPolicy,
) -> (r: Result<PreparedContext, ContextError>)
    ensures
        match selection_under(manifest.deep_view(), policy.deep_view(), limits.max_items as nat) {
            Err(e) => outcome(r) == Err::<PreparedContextView, ContextErrorView>(e),
            Ok(selection) => {
                &&& prepared_as(
                    outcome(r),
                    (Sources {
                        records: records.contents(),
                        resources: resources.held(),
                        allowed: allowed_sessions.deep_view(),
                        forbidden: selection.forbidden,
                        max_bytes: limits.max_resource_bytes as nat,
                    }),
                    selection.manifest,
                    limits.max_items as nat,
                    records.dependable() && resources.obtainable(),
                )
                &&& r matches Ok(prepared) ==> {
                    &&& prepared.deep_view().requested_manifest == manifest.deep_view()
                    &&& prepared.deep_view().manifest == selection.manifest
                    &&& prepared.deep_view().policy == policy.deep_view()
                }
            },
        },
{
    match check_policy(manifest, limits, policy) {
        Err(e) => return Err(e),
        Ok(_) => {},
    }
    let mut remaining = Remaining {
        manifest: manifest.duplicate(),
        omitted: Vec::new(),
        forbidden: Vec::new(),
    };
    assert(remaining.deep_view() =~= Selection::whole(manifest.deep_view()));
    match remaining.omit_all(&policy.omissions) {
        Err(e) => return Err(e),
        Ok(_) => {},
    }
    match prepare_inner(
        &remaining.manifest,
        records,
        resources,
        allowed_sessions,
        limits,
        &remaining.forbidden,
    ) {
        Err(e) => Err(e),
        Ok(mut prepared) => {
            prepared.requested_manifest = manifest.duplicate();
            prepared.policy = policy.duplicate();
            Ok(prepared)
        },
    }
}

/// The sizes of the resources together.
pub open spec fn total_bytes(resources: Seq<ResourceView>) -> nat
    decreases resources.len(),
{
    if resources.len() == 0 {
        0
    } else {
        total_bytes(resources.drop_last()) + resources.last().bytes.len()
    }
}

impl Progress {
    /// What is resolved so far keeps the rules: each resource is there once, none is
    /// forbidden, their sizes add up to no more than the limit, and every record may
    /// be read and is final.
    pub open spec fn sound(self, sources: Sources) -> bool {
        &&& self.bytes == total_bytes(self.resources)
        &&& self.bytes <= sources.max_bytes
        &&& forall|i: int, j: int|
            0 <= i < j < self.resources.len() ==> (#[trigger] self.resources[i]).reference != (
            #[trigger] self.resources[j]).reference
        &&& forall|i: int|
            0 <= i < self.resources.len() ==> !sources.forbidden.contains(
                (#[trigger] self.resources[i]).reference,
            )
        &&& forall|i: int|
            0 <= i < self.records.len() ==> sources.allowed.contains(
                (#[trigger] self.records[i]).record.session_id,
            ) && self.records[i].state.finished()
        &&& forall|i: int|
            0 <= i < self.instructions.len() ==> readable_instruction(
                (#[trigger] self.instructions[i]).resource,
            )
    }
}

proof fn resolving_is_sound(at: Progress, sources: Sources, reference: ResourceRefView)
    requires
        at.sound(sources),
    ensures
        at.resolved(sources, reference) matches Ok((resource, next)) ==> next.sound(sources)
            && next.remaining == at.remaining && next.instructions == at.instructions
            && next.records == at.records,
{
    position_is_sound(at.resources, reference);
    if let Ok((resource, next)) = at.resolved(sources, reference) {
        if position_of(at.resources, reference) is None {
            assert(next.resources.drop_last() =~= at.resources);
        }
    }
}

proof fn attaching_is_sound(at: Progress, sources: Sources, contents: Seq<ContentView>)
    requires
        at.sound(sources),
    ensures
        at.attached(sources, contents) matches Ok(next) ==> next.sound(sources) && next.remaining
            <= at.remaining && next.records == at.records && next.instructions == at.instructions,
    decreases contents.len(),
{
    if contents.len() > 0 {
        match contents[0] {
            ContentView::Text(_) => attaching_is_sound(at, sources, contents.skip(1)),
            ContentView::Resource(reference) => {
                if let Ok(counted) = at.consumed() {
                    resolving_is_sound(counted, sources, reference);
                    if let Ok(next) = at.referenced(sources, reference) {
                        attaching_is_sound(next, sources, contents.skip(1));
                    }
                }
            },
        }
    }
}

proof fn recording_is_sound(at: Progress, sources: Sources, ids: Seq<Seq<char>>)
    requires
        at.sound(sources),
    ensures
        at.all_recorded(sources, ids) matches Ok(next) ==> next.sound(sources) && next.records.len()
            == at.records.len() + ids.len() && next.instructions == at.instructions,
    decreases ids.len(),
{
    if ids.len() > 0 {
        if let Ok(next) = at.recorded(sources, ids[0]) {
            let counted = at.consumed()->Ok_0;
            let snapshot = sources.records.record(ids[0])->Ok_0;
            let contents = match snapshot.record.payload {
                PayloadView::Message { message, .. } => message.content,
                _ => Seq::empty(),
            };
            attaching_is_sound(counted, sources, contents);
            recording_is_sound(next, sources, ids.skip(1));
        }
    }
}

proof fn instructing_is_sound(
    at: Progress,
    sources: Sources,
    instructions: Seq<InstructionRefView>,
)
    requires
        at.sound(sources),
    ensures
        at.all_instructed(sources, instructions) matches Ok(next) ==> {
            &&& next.sound(sources)
            &&& next.records == at.records
            &&& next.instructions.len() == at.instructions.len() + instructions.len()
            &&& forall|i: int|
                0 <= i < at.instructions.len() ==> #[trigger] next.instructions[i]
                    == at.instructions[i]
            &&& forall|i: int|
                0 <= i < instructions.len() ==> (#[trigger] next.instructions[at.instructions.len()
                    + i]).reference == instructions[i]
        },
    decreases instructions.len(),
{
    if instructions.len() > 0 {
        if let Ok(next) = at.instructed(sources, instructions[0]) {
            let counted = at.consumed()->Ok_0;
            resolving_is_sound(counted, sources, instructions[0].resource);
            instructing_is_sound(next, sources, instructions.skip(1));
            if let Ok(done) = at.all_instructed(sources, instructions) {
                assert forall|i: int| 0 <= i < instructions.len() implies (
                #[trigger] done.instructions[at.instructions.len() + i]).reference
                    == instructions[i] by {
                    if i == 0 {
                        assert(done.instructions[at.instructions.len() as int]
                            == next.instructions[at.instructions.len() as int]);
                    } else {
                        assert(instructions.skip(1)[i - 1] == instructions[i]);
                        assert(done.instructions[next.instructions.len() + (i - 1)].reference
                            == instructions.skip(1)[i - 1]);
                    }
                }
                assert forall|i: int| 0 <= i < at.instructions.len() implies #[trigger] done.instructions[i]
                    == at.instructions[i] by {
                    assert(done.instructions[i] == next.instructions[i]);
                }
            }
        }
    }
}

proof fn referencing_is_sound(at: Progress, sources: Sources, references: Seq<ResourceRefView>)
    requires
        at.sound(sources),
    ensures
        at.all_referenced(sources, references) matches Ok(next) ==> next.sound(sources)
            && next.records == at.records && next.instructions == at.instructions,
    decreases references.len(),
{
    if references.len() > 0 {
        if let Ok(counted) = at.consumed() {
            resolving_is_sound(counted, sources, references[0]);
            if let Ok(next) = at.referenced(sources, references[0]) {
                referencing_is_sound(next, sources, references.skip(1));
            }
        }
    }
}

/// A prepared context keeps its limits and its scope: the unique resources together
/// are within the byte limit, none of them was omitted, every record is final and of
/// an allowed session, and there is one entry for each selected record and for each
/// selected instruction, all of them readable.
pub proof fn preparation_keeps_the_rules(
    sources: Sources,
    manifest: ContextManifestView,
    max_items: nat,
)
    ensures
        context_prepared(sources, manifest, max_items) matches Ok(done) ==> {
            &&& done.sound(sources)
            &&& done.records.len() == manifest.records.len()
            &&& done.instructions.len() == manifest.instructions.len()
            &&& forall|i: int|
                0 <= i < manifest.instructions.len() ==> (#[trigger] done.instructions[i]).reference
                    == manifest.instructions[i]
        },
{
    let start = Progress::start(max_items);
    assert(start.sound(sources));
    recording_is_sound(start, sources, manifest.records);
    if let Ok(read) = start.all_recorded(sources, manifest.records) {
        instructing_is_sound(read, sources, manifest.instructions);
        if let Ok(instructed) = read.all_instructed(sources, manifest.instructions) {
            referencing_is_sound(instructed, sources, manifest.resources);
            if let Ok(done) = instructed.all_referenced(sources, manifest.resources) {
                assert forall|i: int| 0 <= i < manifest.instructions.len() implies (
                #[trigger] done.instructions[i]).reference == manifest.instructions[i] by {
                    assert(done.instructions[read.instructions.len() + i].reference
                        == manifest.instructions[i]);
                }
            }
        }
    }
}

proof fn omitted_is_gone<T>(list: Seq<T>, value: T)
    ensures
        !without(list, value).contains(value),
        forall|x: T| #[trigger] without(list, value).contains(x) ==> list.contains(x),
    decreases list.len(),
{
    if list.len() > 0 {
        let rest = list.drop_last();
        omitted_is_gone(rest, value);
        assert forall|x: T| #[trigger] without(list, value).contains(x) implies list.contains(x)
            && x != value by {
            let i = choose|i: int| 0 <= i < without(list, value).len() && without(list, value)[i] == x;
            if i < without(rest, value).len() {
                assert(without(rest, value)[i] == x);
                assert(without(rest, value).contains(x));
                let j = choose|j: int| 0 <= j < rest.len() && rest[j] == x;
                assert(list[j] == x);
            } else {
                assert(list[list.len() - 1] == x);
            }
        }
    }
}

/// What was omitted stays omitted: it is no longer selected, and an omitted resource
/// is forbidden wherever else it may be referred to.
pub open spec fn keeps_omissions(selection: Selection) -> bool {
    forall|i: int|
        0 <= i < selection.omitted.len() ==> {
            &&& !selection.selects(#[trigger] selection.omitted[i])
            &&& selection.omitted[i] matches ContextItemView::Resource(reference)
                ==> selection.forbidden.contains(reference)
        }
}

proof fn dropping_keeps_omissions(selection: Selection, item: ContextItemView)
    requires
        keeps_omissions(selection),
    ensures
        keeps_omissions(selection.dropped(item)),
{
    let next = selection.dropped(item);
    match item {
        ContextItemView::Record(id) => omitted_is_gone(selection.manifest.records, id),
        ContextItemView::Instruction(i) => omitted_is_gone(selection.manifest.instructions, i),
        ContextItemView::Resource(r) => {
            omitted_is_gone(selection.manifest.resources, r);
            assert(next.forbidden[selection.forbidden.len() as int] == r);
        },
    }
    assert forall|i: int| 0 <= i < next.omitted.len() implies {
        &&& !next.selects(#[trigger] next.omitted[i])
        &&& next.omitted[i] matches ContextItemView::Resource(reference)
            ==> next.forbidden.contains(reference)
    } by {
        if i < selection.omitted.len() {
            assert(next.omitted[i] == selection.omitted[i]);
            if let ContextItemView::Resource(reference) = selection.omitted[i] {
                let j = choose|j: int|
                    0 <= j < selection.forbidden.len() && selection.forbidden[j] == reference;
                assert(next.forbidden[j] == reference);
            }
        }
    }
}

/// Under a policy every omitted item is left out, for good: an omitted resource is
/// not resolved as an attachment or as an instruction either.
pub proof fn omissions_are_kept(
    selection: Selection,
    omissions: Seq<ContextOmissionView>,
)
    requires
        keeps_omissions(selection),
    ensures
        selection.omitted_all(omissions) matches Ok(next) ==> {
            &&& keeps_omissions(next)
            &&& next.omitted.len() == selection.omitted.len() + omissions.len()
            &&& forall|i: int|
                0 <= i < selection.omitted.len() ==> #[trigger] next.omitted[i]
                    == selection.omitted[i]
            &&& forall|i: int|
                0 <= i < omissions.len() ==> #[trigger] next.omitted[selection.omitted.len() + i]
                    == omissions[i].item && !blank(omissions[i].reason)
        },
    decreases omissions.len(),
{
    if omissions.len() > 0 {
        if let Ok(next) = selection.omitted_one(omissions[0]) {
            dropping_keeps_omissions(selection, omissions[0].item);
            omissions_are_kept(next, omissions.skip(1));
            if let Ok(done) = selection.omitted_all(omissions) {
                assert forall|i: int| 0 <= i < omissions.len() implies #[trigger] done.omitted[selection.omitted.len()
                    + i] == omissions[i].item && !blank(omissions[i].reason) by {
                    if i == 0 {
                        assert(done.omitted[selection.omitted.len() as int]
                            == next.omitted[selection.omitted.len() as int]);
                    } else {
                        assert(omissions.skip(1)[i - 1] == omissions[i]);
                        assert(done.omitted[next.omitted.len() + (i - 1)]
                            == omissions.skip(1)[i - 1].item);
                    }
                }
                assert forall|i: int| 0 <= i < selection.omitted.len() implies #[trigger] done.omitted[i]
                    == selection.omitted[i] by {
                    assert(done.omitted[i] == next.omitted[i]);
                }
            }
        }
    }
}

} // verus!
