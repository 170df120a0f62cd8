//! Host-authorized bridge-managed child execution. Not a scheduler or native subagent API.

use crate::authority::{ToolGrant, ToolGrantView, ToolRef, ToolRefView, ToolScope, ToolScopeView};
use crate::configuration::{RunConfiguration, RunConfigurationView};
use crate::datum::{included, is_included, outcome, Datum};
use crate::id::{ActorId, RunId, SlotId};
use crate::model::{ContextManifest, ContextManifestView};
use crate::records::store::{answered, ExecutionStore, StoreView};
use crate::records::{StoreError, StoreErrorView};
use crate::run::{RunSpec, RunSpecView};
use vstd::prelude::*;

verus! {

/// What an issuer lets the subject hand on to children of a run.
#[derive(Debug, PartialEq, Eq)]
pub struct DelegationGrant {
    pub issuer: ActorId,
    pub subject: ActorId,
    pub parent: RunId,
    pub context: ContextManifest,
    pub tools: Vec<ToolRef>,
}

/// What a `DelegationGrant` holds.
#[verifier::ext_equal]
pub struct DelegationGrantView {
    pub issuer: Seq<char>,
    pub subject: Seq<char>,
    pub parent: Seq<char>,
    pub context: ContextManifestView,
    pub tools: Seq<ToolRefView>,
}

impl DeepView for DelegationGrant {
    type V = DelegationGrantView;

    open spec fn deep_view(&self) -> DelegationGrantView {
        DelegationGrantView {
            issuer: self.issuer.deep_view(),
            subject: self.subject.deep_view(),
            parent: self.parent.deep_view(),
            context: self.context.deep_view(),
            tools: self.tools.deep_view(),
        }
    }
}

impl Datum for DelegationGrant {
    fn duplicate(&self) -> (r: DelegationGrant) {
        DelegationGrant {
            issuer: self.issuer.duplicate(),
            subject: self.subject.duplicate(),
            parent: self.parent.duplicate(),
            context: self.context.duplicate(),
            tools: self.tools.duplicate(),
        }
    }

    fn same_as(&self, other: &DelegationGrant) -> (r: bool) {
        self.issuer.same_as(&other.issuer)
            && self.subject.same_as(&other.subject)
            && self.parent.same_as(&other.parent)
            && self.context.same_as(&other.context)
            && self.tools.same_as(&other.tools)
    }
}

/// What a child run is asked to be.
#[derive(Debug, PartialEq, Eq)]
pub struct ChildRequest {
    pub id: RunId,
    pub slot: SlotId,
    pub actor: ActorId,
    pub context: ContextManifest,
    pub tools: Vec<ToolRef>,
}

/// What a `ChildRequest` holds.
#[verifier::ext_equal]
pub struct ChildRequestView {
    pub id: Seq<char>,
    pub slot: Seq<char>,
    pub actor: Seq<char>,
    pub context: ContextManifestView,
    pub tools: Seq<ToolRefView>,
}

impl DeepView for ChildRequest {
    type V = ChildRequestView;

    open spec fn deep_view(&self) -> ChildRequestView {
        ChildRequestView {
            id: self.id.deep_view(),
            slot: self.slot.deep_view(),
            actor: self.actor.deep_view(),
            context: self.context.deep_view(),
            tools: self.tools.deep_view(),
        }
    }
}

impl Datum for ChildRequest {
    fn duplicate(&self) -> (r: ChildRequest) {
        ChildRequest {
            id: self.id.duplicate(),
            slot: self.slot.duplicate(),
            actor: self.actor.duplicate(),
            context: self.context.duplicate(),
            tools: self.tools.duplicate(),
        }
    }

    fn same_as(&self, other: &ChildRequest) -> (r: bool) {
        self.id.same_as(&other.id)
            && self.slot.same_as(&other.slot)
            && self.actor.same_as(&other.actor)
            && self.context.same_as(&other.context)
            && self.tools.same_as(&other.tools)
    }
}

/// The edge from a child run to its parent, with the authority that it carries.
#[derive(Debug, PartialEq, Eq)]
pub struct ExecutionRelation {
    pub parent: RunId,
    pub child: RunId,
    pub parent_authority: ToolGrant,
    pub delegation: DelegationGrant,
    pub child_authority: ToolGrant,
}

/// What a `ExecutionRelation` holds.
#[verifier::ext_equal]
pub struct ExecutionRelationView {
    pub parent: Seq<char>,
    pub child: Seq<char>,
    pub parent_authority: ToolGrantView,
    pub delegation: DelegationGrantView,
    pub child_authority: ToolGrantView,
}

impl DeepView for ExecutionRelation {
    type V = ExecutionRelationView;

    open spec fn deep_view(&self) -> ExecutionRelationView {
        ExecutionRelationView {
            parent: self.parent.deep_view(),
            child: self.child.deep_view(),
            parent_authority: self.parent_authority.deep_view(),
            delegation: self.delegation.deep_view(),
            child_authority: self.child_authority.deep_view(),
        }
    }
}

impl Datum for ExecutionRelation {
    fn duplicate(&self) -> (r: ExecutionRelation) {
        ExecutionRelation {
            parent: self.parent.duplicate(),
            child: self.child.duplicate(),
            parent_authority: self.parent_authority.duplicate(),
            delegation: self.delegation.duplicate(),
            child_authority: self.child_authority.duplicate(),
        }
    }

    fn same_as(&self, other: &ExecutionRelation) -> (r: bool) {
        self.parent.same_as(&other.parent)
            && self.child.same_as(&other.child)
            && self.parent_authority.same_as(&other.parent_authority)
            && self.delegation.same_as(&other.delegation)
            && self.child_authority.same_as(&other.child_authority)
    }
}

/// A frozen assignment with its configuration.
pub type Assignment = RunSpecView<RunConfigurationView>;

/// The scope in which a run uses tools.
pub open spec fn scope_of(run: Assignment) -> ToolScopeView {
    ToolScopeView { session: run.session_id, slot: run.slot_id }
}

/// Every selection of `inner` is a selection of `outer`.
pub open spec fn context_within(inner: ContextManifestView, outer: ContextManifestView) -> bool {
    &&& included(inner.records, outer.records)
    &&& included(inner.resources, outer.resources)
    &&& included(inner.instructions, outer.instructions)
}

impl ExecutionRelationView {
    /// The edge joins these two runs: distinct runs of one session, of which the
    /// child starts afresh.
    pub open spec fn joins(self, parent: Assignment, child: Assignment) -> bool {
        &&& self.parent != self.child
        &&& self.parent == parent.id
        &&& self.child == child.id
        &&& self.delegation.parent == parent.id
        &&& parent.session_id == child.session_id
        &&& child.continuation is None
    }

    /// The authority on both sides comes from one issuer, the delegating subject is
    /// the parent's, and each side is scoped to its own run.
    pub open spec fn authorized(self, parent: Assignment, child: Assignment) -> bool {
        &&& self.parent_authority.scope == scope_of(parent)
        &&& self.child_authority.scope == scope_of(child)
        &&& self.parent_authority.issuer == self.delegation.issuer
        &&& self.child_authority.issuer == self.delegation.issuer
        &&& self.parent_authority.subject == self.delegation.subject
    }

    /// The child gets no tool and no context beyond what was delegated, and no tool
    /// that the parent does not have.
    pub open spec fn narrows(self, child: Assignment) -> bool {
        &&& included(self.child_authority.tools, self.parent_authority.tools)
        &&& included(self.child_authority.tools, self.delegation.tools)
        &&& context_within(child.context, self.delegation.context)
    }

    /// The edge is admissible between these two runs.
    pub open spec fn valid(self, parent: Assignment, child: Assignment) -> bool {
        self.joins(parent, child) && self.authorized(parent, child) && self.narrows(child)
    }
}

impl ExecutionRelation {
    fn is_joining(&self, parent: &RunSpec, child: &RunSpec) -> (r: bool)
        ensures
            r == self.deep_view().joins(parent.deep_view(), child.deep_view()),
    {
        !self.parent.same_as(&self.child) && self.parent.same_as(&parent.id) && self.child.same_as(
            &child.id,
        ) && self.delegation.parent.same_as(&parent.id) && parent.session_id.same_as(
            &child.session_id,
        ) && child.continuation.is_none()
    }

    fn is_authorized(&self, parent: &RunSpec, child: &RunSpec) -> (r: bool)
        ensures
            r == self.deep_view().authorized(parent.deep_view(), child.deep_view()),
    {
        self.parent_authority.scope.session.same_as(&parent.session_id)
            && self.parent_authority.scope.slot.same_as(&parent.slot_id)
            && self.child_authority.scope.session.same_as(&child.session_id)
            && self.child_authority.scope.slot.same_as(&child.slot_id)
            && self.parent_authority.issuer.same_as(&self.delegation.issuer)
            && self.child_authority.issuer.same_as(&self.delegation.issuer)
            && self.parent_authority.subject.same_as(&self.delegation.subject)
    }

    fn is_narrowing(&self, child: &RunSpec) -> (r: bool)
        ensures
            r == self.deep_view().narrows(child.deep_view()),
    {
        is_included(&self.child_authority.tools, &self.parent_authority.tools) && is_included(
            &self.child_authority.tools,
            &self.delegation.tools,
        ) && is_included(&child.context.records, &self.delegation.context.records) && is_included(
            &child.context.resources,
            &self.delegation.context.resources,
        ) && is_included(&child.context.instructions, &self.delegation.context.instructions)
    }

    /// Whether the edge is admissible between these two runs.
    pub fn validate(&self, parent: &RunSpec, child: &RunSpec) -> (r: Result<(), StoreError>)
        ensures
            r is Ok <==> self.deep_view().valid(parent.deep_view(), child.deep_view()),
            r matches Err(e) ==> e == StoreError::InvalidExecutionRelation,
    {
        if self.is_joining(parent, child) && self.is_authorized(parent, child)
            && self.is_narrowing(child) {
            Ok(())
        } else {
            Err(StoreError::InvalidExecutionRelation)
        }
    }
}

/// A checked selection. It does not dispatch, grant native tools, or inherit history.
#[derive(Debug)]
pub struct ChildPlan {
    parent: RunSpec,
    request: ChildRequest,
    relation: ExecutionRelation,
}

/// What a `ChildPlan` holds.
#[verifier::ext_equal]
pub struct ChildPlanView {
    pub parent: Assignment,
    pub request: ChildRequestView,
    pub relation: ExecutionRelationView,
}

impl DeepView for ChildPlan {
    type V = ChildPlanView;

    closed spec fn deep_view(&self) -> ChildPlanView {
        ChildPlanView {
            parent: self.parent.deep_view(),
            request: self.request.deep_view(),
            relation: self.relation.deep_view(),
        }
    }
}

/// The edge that a request asks for: the child acts for the request's actor, in the
/// parent's session and the request's slot, with the tools of the request.
pub open spec fn requested_edge(
    parent: Assignment,
    parent_authority: ToolGrantView,
    delegation: DelegationGrantView,
    request: ChildRequestView,
) -> ExecutionRelationView {
    ExecutionRelationView {
        parent: parent.id,
        child: request.id,
        parent_authority,
        delegation,
        child_authority: ToolGrantView {
            issuer: delegation.issuer,
            subject: request.actor,
            scope: ToolScopeView { session: parent.session_id, slot: request.slot },
            tools: request.tools,
        },
    }
}

/// The run that a request asks for, before anything is known of its configuration.
pub open spec fn requested_run(parent: Assignment, request: ChildRequestView) -> Assignment {
    RunSpecView {
        id: request.id,
        session_id: parent.session_id,
        slot_id: request.slot,
        context: request.context,
        config: RunConfigurationView::unset(),
        continuation: None,
    }
}

/// The authority is what the edge above the run gives it, if there is one.
pub open spec fn authority_held(store: StoreView, run: Seq<char>, authority: ToolGrantView) -> bool {
    store.parent_edge(run) matches Some(edge) ==> edge.child_authority == authority
}

/// The plan for a child of a run in the store, or why there is none.
pub open spec fn planned(
    store: StoreView,
    parent_authority: ToolGrantView,
    delegation: DelegationGrantView,
    request: ChildRequestView,
) -> Result<ChildPlanView, StoreErrorView> {
    match store.run(delegation.parent) {
        Err(e) => Err(e),
        Ok(parent) => {
            let relation = requested_edge(parent, parent_authority, delegation, request);
            if authority_held(store, parent.id, parent_authority) && relation.valid(
                parent,
                requested_run(parent, request),
            ) {
                Ok(ChildPlanView { parent, request, relation })
            } else {
                Err(StoreErrorView::InvalidExecutionRelation)
            }
        },
    }
}

/// The edge for a run that was started from the plan, or why the run does not fit it.
pub open spec fn plan_checked(store: StoreView, plan: ChildPlanView, child: Assignment) -> Result<
    ExecutionRelationView,
    StoreErrorView,
> {
    match store.run(plan.parent.id) {
        Err(e) => Err(e),
        Ok(parent) => if parent == plan.parent && child.context == plan.request.context
            && authority_held(store, plan.parent.id, plan.relation.parent_authority)
            && plan.relation.valid(plan.parent, child) {
            Ok(plan.relation)
        } else {
            Err(StoreErrorView::InvalidExecutionRelation)
        },
    }
}

impl ChildPlan {
    /// Checks a request against what the store holds.
    pub fn new<S: ExecutionStore>(
        store: &S,
        parent_authority: ToolGrant,
        delegation: DelegationGrant,
        request: ChildRequest,
    ) -> (r: Result<ChildPlan, StoreError>)
        ensures
            answered(
                outcome(r),
                planned(
                    store.contents(),
                    parent_authority.deep_view(),
                    delegation.deep_view(),
                    request.deep_view(),
                ),
                store.dependable(),
            ),
    {
        let parent = match store.get_run(&delegation.parent) {
            Err(e) => return Err(e),
            Ok(parent) => parent,
        };
        match store.execution_parent(&parent.id) {
            Err(e) => return Err(e),
            Ok(Some(edge)) => {
                if !edge.child_authority.same_as(&parent_authority) {
                    return Err(StoreError::InvalidExecutionRelation);
                }
            },
            Ok(None) => {},
        }
        let child_authority = ToolGrant {
            issuer: delegation.issuer.duplicate(),
            subject: request.actor.duplicate(),
            scope: ToolScope {
                session: parent.session_id.duplicate(),
                slot: request.slot.duplicate(),
            },
            tools: request.tools.duplicate(),
        };
        let relation = ExecutionRelation {
            parent: parent.id.duplicate(),
            child: request.id.duplicate(),
            parent_authority,
            delegation,
            child_authority,
        };
        let provisional = RunSpec {
            id: request.id.duplicate(),
            session_id: parent.session_id.duplicate(),
            slot_id: request.slot.duplicate(),
            context: request.context.duplicate(),
            config: RunConfiguration::default(),
            continuation: None,
        };
        match relation.validate(&parent, &provisional) {
            Err(e) => return Err(e),
            Ok(_) => {},
        }
        Ok(ChildPlan { parent, request, relation })
    }

    /// The request.
    pub fn request(&self) -> (r: &ChildRequest)
        ensures
            r.deep_view() == self.deep_view().request,
    {
        &self.request
    }

    /// The authority that the child gets.
    pub fn authority(&self) -> (r: &ToolGrant)
        ensures
            r.deep_view() == self.deep_view().relation.child_authority,
    {
        &self.relation.child_authority
    }

    /// Checks a run that was started from the plan, and gives its edge.
    pub fn validate_run<S: ExecutionStore>(&self, store: &S, child: &RunSpec) -> (r: Result<
        ExecutionRelation,
        StoreError,
    >)
        ensures
            answered(
                outcome(r),
                plan_checked(store.contents(), self.deep_view(), child.deep_view()),
                store.dependable(),
            ),
    {
        let parent = match store.get_run(&self.parent.id) {
            Err(e) => return Err(e),
            Ok(parent) => parent,
        };
        if !parent.same_as(&self.parent) || !child.context.same_as(&self.request.context) {
            return Err(StoreError::InvalidExecutionRelation);
        }
        match store.execution_parent(&self.parent.id) {
            Err(e) => return Err(e),
            Ok(Some(edge)) => {
                if !edge.child_authority.same_as(&self.relation.parent_authority) {
                    return Err(StoreError::InvalidExecutionRelation);
                }
            },
            Ok(None) => {},
        }
        match self.relation.validate(&self.parent, child) {
            Err(e) => return Err(e),
            Ok(_) => {},
        }
        Ok(self.relation.duplicate())
    }
}

/// A plan never gives a child a tool that its parent does not have, nor a tool or a
/// selection that was not delegated.
pub proof fn plans_narrow_authority(
    store: StoreView,
    parent_authority: ToolGrantView,
    delegation: DelegationGrantView,
    request: ChildRequestView,
)
    ensures
        planned(store, parent_authority, delegation, request) matches Ok(plan) ==> {
            &&& included(plan.relation.child_authority.tools, parent_authority.tools)
            &&& included(plan.relation.child_authority.tools, delegation.tools)
            &&& context_within(request.context, delegation.context)
            &&& plan.relation.child_authority.issuer == delegation.issuer
        },
{
}

/// The edge of a checked run can be linked, as long as the two runs are in the store,
/// the run has no edge yet, no run below it has other authority, its records are of
/// its session, and it is not above its parent.
pub proof fn checked_plans_can_be_linked(
    store: StoreView,
    plan: ChildPlanView,
    child: Assignment,
)
    requires
        plan_checked(store, plan, child) is Ok,
        store.runs.contains_key(child.id),
        store.runs[child.id] == child,
        !store.relations.contains_key(child.id),
        forall|c: Seq<char>| #[trigger]
            store.relations.contains_key(c) ==> store.relations[c].parent != child.id,
        crate::records::store::session_error(
            store.records,
            child.session_id,
            child.context.records,
        ) is None,
        !crate::records::store::reaches(store.relations, plan.parent.id, child.id),
    ensures
        store.linked(plan.relation) is Ok,
{
}

} // verus!
