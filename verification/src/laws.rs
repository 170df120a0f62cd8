//! What holds of every run, of every context that is prepared and of every delegation.

use crate::authority::ToolGrantView;
use crate::context::{
    context_environmental, context_prepared, instructions_authorized, position_of, prepared_as,
    readable_instruction, resource_environmental, resource_found, resource_put, selection_under, ContextErrorView, ContextItemView, ContextOmissionView, ContextPolicyView,
    PreparedContextView, Progress, ResourceErrorView, ResourceView, Resources, Selection, Sources,
};
use crate::datum::without;
use crate::execution::{
    plan_checked, planned, requested_run, Assignment, ChildPlanView, ChildRequestView, DelegationGrantView,
    ExecutionRelationView,
};
use crate::model::{ContentView, ContextManifestView, InstructionRefView, ResourceRefView};
use crate::records::store::{environmental, StoreView};
use crate::records::{PayloadView, RecordState, SnapshotView, StoreErrorView};
use crate::run::{next_status, RunEvent, RunStatus};
use crate::text::white_space;
use crate::wording::{texts_end_at_the_first_sign, trimming_takes_white_space_alone};
use vstd::prelude::*;
use vstd::utf8::valid_utf8;

verus! {

/// A run that was handed to its agent and is not known to be over.
pub open spec fn under_way(status: RunStatus) -> bool {
    status == RunStatus::Starting || status == RunStatus::Running || status
        == RunStatus::Cancelling
}

/// What each status is reached by. A run completes only by its completion, fails only by a
/// failure while it is not over, is cancelled only before it is handed over or by a
/// confirmation, runs only by its start or by being found running when nobody asked to
/// cancel it, and is unknown only by a lost connection. No event puts it back in the queue.
pub proof fn statuses_are_reached_in_one_way(status: RunStatus, cancelling: bool, event: RunEvent)
    ensures
        ({
            let next = next_status(status, cancelling, event);
            &&& next == Some(RunStatus::Starting) <==> (event == RunEvent::DispatchStarted && status
                == RunStatus::Queued)
            &&& next == Some(RunStatus::Running) <==> {
                ||| event == RunEvent::Started && status == RunStatus::Starting
                ||| event == RunEvent::RecoveredRunning && status == RunStatus::Unknown
                    && !cancelling
            }
            &&& next == Some(RunStatus::Cancelling) <==> {
                ||| event == RunEvent::Started && status == RunStatus::Cancelling
                ||| event == RunEvent::CancellationRequested && under_way(status)
                ||| event == RunEvent::RecoveredRunning && status == RunStatus::Unknown
                    && cancelling
            }
            &&& next == Some(RunStatus::Completed) <==> (event == RunEvent::Completed && (under_way(
                status,
            ) || status == RunStatus::Unknown))
            &&& next == Some(RunStatus::Failed) <==> (event == RunEvent::Failed && (status
                == RunStatus::Queued || under_way(status) || status == RunStatus::Unknown))
            &&& next == Some(RunStatus::Cancelled) <==> {
                ||| event == RunEvent::CancellationRequested && status == RunStatus::Queued
                ||| event == RunEvent::CancellationConfirmed && (under_way(status) || status
                    == RunStatus::Unknown)
            }
            &&& next == Some(RunStatus::Unknown) <==> {
                ||| event == RunEvent::ConnectionLost && under_way(status)
                ||| event == RunEvent::CancellationRequested && status == RunStatus::Unknown
            }
            &&& next != Some(RunStatus::Queued)
        }),
{
}

/// Which statuses are final, and which mean that the agent has the run.
pub proof fn final_statuses_are_told_apart(status: RunStatus)
    ensures
        status.terminal() <==> (status == RunStatus::Completed || status == RunStatus::Failed
            || status == RunStatus::Cancelled),
        status.dispatched() <==> under_way(status),
{
}

/// Statuses and events are printed by their names.
pub proof fn statuses_are_printed_by_name(status: RunStatus, event: RunEvent)
    ensures
        status == RunStatus::Queued ==> status.spec_name() == "Queued"@,
        status == RunStatus::Starting ==> status.spec_name() == "Starting"@,
        status == RunStatus::Running ==> status.spec_name() == "Running"@,
        status == RunStatus::Cancelling ==> status.spec_name() == "Cancelling"@,
        status == RunStatus::Completed ==> status.spec_name() == "Completed"@,
        status == RunStatus::Failed ==> status.spec_name() == "Failed"@,
        status == RunStatus::Cancelled ==> status.spec_name() == "Cancelled"@,
        status == RunStatus::Unknown ==> status.spec_name() == "Unknown"@,
        event == RunEvent::DispatchStarted ==> event.spec_name() == "DispatchStarted"@,
        event == RunEvent::Started ==> event.spec_name() == "Started"@,
        event == RunEvent::CancellationRequested ==> event.spec_name() == "CancellationRequested"@,
        event == RunEvent::Completed ==> event.spec_name() == "Completed"@,
        event == RunEvent::Failed ==> event.spec_name() == "Failed"@,
        event == RunEvent::CancellationConfirmed ==> event.spec_name() == "CancellationConfirmed"@,
        event == RunEvent::ConnectionLost ==> event.spec_name() == "ConnectionLost"@,
        event == RunEvent::RecoveredRunning ==> event.spec_name() == "RecoveredRunning"@,
{
}

/// A resource that was put can be found as it was, under its id and revision, and so can
/// every other that could be found before. The same resource can be put again, another one
/// under the same id and revision cannot, and neither can one without a revision or type.
pub proof fn resources_are_found_as_put(
    held: Resources,
    resource: ResourceView,
    other: ResourceRefView,
)
    ensures
        ({
            let reply = resource_put(held, resource);
            let named = (exists|k: int|
                0 <= k < resource.reference.revision.len() && !white_space(
                    #[trigger] resource.reference.revision[k],
                )) && exists|k: int|
                0 <= k < resource.media_type.len() && !white_space(
                    #[trigger] resource.media_type[k],
                );
            let taken = held.contains_key(resource.reference);
            &&& reply is Ok <==> (named && (taken ==> held[resource.reference] == resource))
            &&& reply matches Ok((given, after)) ==> {
                &&& given == resource
                &&& resource_found(after, resource.reference) == Ok::<
                    ResourceView,
                    ResourceErrorView,
                >(resource)
                &&& other != resource.reference ==> resource_found(after, other) == resource_found(
                    held,
                    other,
                )
            }
            &&& !named ==> reply == Err::<(ResourceView, Resources), ResourceErrorView>(
                ResourceErrorView::Invalid,
            )
            &&& named && taken && held[resource.reference] != resource ==> reply == Err::<
                (ResourceView, Resources),
                ResourceErrorView,
            >(ResourceErrorView::RevisionConflict)
        }),
        resource_found(held, other) is Ok <==> (held.contains_key(other) && exists|k: int|
            0 <= k < other.revision.len() && !white_space(#[trigger] other.revision[k])),
        resource_found(held, other) matches Ok(found) ==> found == held[other],
        resource_found(held, other) matches Err(e) ==> (e == ResourceErrorView::Missing <==> exists|
            k: int,
        |
            0 <= k < other.revision.len() && !white_space(#[trigger] other.revision[k])),
{
}

/// Instructions are authorized when everyone of them was granted to the one who asks for
/// them. Without a grant there can be none.
pub proof fn instructions_need_a_grant(
    policy: ContextPolicyView,
    instructions: Seq<InstructionRefView>,
)
    ensures
        policy.instruction_authorization is None ==> (instructions_authorized(policy, instructions)
            <==> instructions.len() == 0),
        policy.instruction_authorization matches Some(authorization) ==> (instructions_authorized(
            policy,
            instructions,
        ) <==> (authorization.requester == authorization.grant.subject && forall|i: int|
            0 <= i < instructions.len() ==> authorization.grant.instructions.contains(
                #[trigger] instructions[i],
            ))),
{
}

/// An omission takes out just the item that it names: the item must have been selected and
/// not been taken out before, and a reason must be given. A resource that was taken out may
/// not be resolved by anything else that was selected.
pub proof fn omissions_take_out_what_they_name(
    selection: Selection,
    omission: ContextOmissionView,
    id: Seq<char>,
    instruction: InstructionRefView,
    reference: ResourceRefView,
)
    ensures
        ({
            let reply = selection.omitted_one(omission);
            let item = omission.item;
            &&& reply is Ok <==> {
                &&& exists|k: int|
                    0 <= k < omission.reason.len() && !white_space(#[trigger] omission.reason[k])
                &&& !selection.omitted.contains(item)
                &&& match item {
                    ContextItemView::Record(own) => selection.manifest.records.contains(own),
                    ContextItemView::Instruction(own) => selection.manifest.instructions.contains(
                        own,
                    ),
                    ContextItemView::Resource(own) => selection.manifest.resources.contains(own),
                }
            }
            &&& reply matches Ok(next) ==> {
                &&& next.omitted == selection.omitted.push(item)
                &&& next.manifest.records.contains(id) <==> (selection.manifest.records.contains(id)
                    && item != ContextItemView::Record(id))
                &&& next.manifest.instructions.contains(instruction) <==> (
                selection.manifest.instructions.contains(instruction) && item
                    != ContextItemView::Instruction(instruction))
                &&& next.manifest.resources.contains(reference) <==> (
                selection.manifest.resources.contains(reference) && item
                    != ContextItemView::Resource(reference))
                &&& next.forbidden.contains(reference) <==> (selection.forbidden.contains(reference)
                    || item == ContextItemView::Resource(reference))
            }
        }),
{
    match omission.item {
        ContextItemView::Record(own) => taking_out_leaves_the_rest(
            selection.manifest.records,
            own,
            id,
        ),
        ContextItemView::Instruction(own) => taking_out_leaves_the_rest(
            selection.manifest.instructions,
            own,
            instruction,
        ),
        ContextItemView::Resource(own) => {
            taking_out_leaves_the_rest(selection.manifest.resources, own, reference);
            let before = selection.forbidden;
            assert(before.push(own).last() == own);
            if before.contains(reference) {
                let i = before.index_of(reference);
                assert(before.push(own)[i] == reference);
            }
        },
    }
}

proof fn taking_out_leaves_the_rest<T>(list: Seq<T>, value: T, other: T)
    ensures
        without(list, value).contains(other) <==> (list.contains(other) && other != value),
    decreases list.len(),
{
    if list.len() > 0 {
        let rest = list.drop_last();
        taking_out_leaves_the_rest(rest, value, other);
        assert(list =~= rest.push(list.last()));
        if rest.contains(other) {
            let i = rest.index_of(other);
            assert(list[i] == other);
        }
        let left = without(rest, value);
        if left.contains(other) {
            let i = left.index_of(other);
            assert(left.push(list.last())[i] == other);
        }
        if list.last() == other {
            assert(left.push(list.last()).last() == other);
        }
        if list.last() != value && left.push(list.last()).contains(other) {
            let i = left.push(list.last()).index_of(other);
            if i < left.len() {
                assert(left[i] == other);
            }
        }
        if list.contains(other) {
            let i = list.index_of(other);
            if i < rest.len() {
                assert(rest[i] == other);
            }
        }
    }
}

/// A child run may be delegated exactly when it is another run of the same session than its
/// parent and not itself a continuation, both act under grants of the same issuer as the
/// delegation, each in its own session and slot, the parent is the one that the delegation
/// was made to, and neither the tools nor the context of the child go beyond those of the
/// parent and of the delegation.
pub proof fn delegations_are_told_by_their_parts(
    edge: ExecutionRelationView,
    parent: Assignment,
    child: Assignment,
)
    ensures
        edge.valid(parent, child) <==> {
            &&& edge.parent == parent.id
            &&& edge.child == child.id
            &&& parent.id != child.id
            &&& edge.delegation.parent == parent.id
            &&& child.session_id == parent.session_id
            &&& child.continuation is None
            &&& edge.parent_authority.scope.session == parent.session_id
            &&& edge.parent_authority.scope.slot == parent.slot_id
            &&& edge.child_authority.scope.session == child.session_id
            &&& edge.child_authority.scope.slot == child.slot_id
            &&& edge.parent_authority.issuer == edge.delegation.issuer
            &&& edge.child_authority.issuer == edge.delegation.issuer
            &&& edge.parent_authority.subject == edge.delegation.subject
            &&& forall|i: int|
                0 <= i < edge.child_authority.tools.len() ==> edge.parent_authority.tools.contains(
                    #[trigger] edge.child_authority.tools[i],
                )
            &&& forall|i: int|
                0 <= i < edge.child_authority.tools.len() ==> edge.delegation.tools.contains(
                    #[trigger] edge.child_authority.tools[i],
                )
            &&& forall|i: int|
                0 <= i < child.context.records.len() ==> edge.delegation.context.records.contains(
                    #[trigger] child.context.records[i],
                )
            &&& forall|i: int|
                0 <= i < child.context.resources.len()
                    ==> edge.delegation.context.resources.contains(
                    #[trigger] child.context.resources[i],
                )
            &&& forall|i: int|
                0 <= i < child.context.instructions.len()
                    ==> edge.delegation.context.instructions.contains(
                    #[trigger] child.context.instructions[i],
                )
        },
{
}

/// A plan grants the child what was requested and nothing more: the tools, to the actor that
/// is to act, in the slot that is to be used, by the issuer of the delegation and under the
/// parent that it names.
pub proof fn plans_grant_what_was_requested(
    store: StoreView,
    authority: ToolGrantView,
    delegation: DelegationGrantView,
    request: ChildRequestView,
)
    ensures
        planned(store, authority, delegation, request) matches Ok(plan) ==> {
            let edge = plan.relation;
            &&& store.runs.contains_key(delegation.parent)
            &&& plan.parent == store.runs[delegation.parent]
            &&& plan.request == request
            &&& edge.parent == plan.parent.id
            &&& edge.child == request.id
            &&& edge.parent_authority == authority
            &&& edge.delegation == delegation
            &&& edge.child_authority.issuer == delegation.issuer
            &&& edge.child_authority.subject == request.actor
            &&& edge.child_authority.scope.session == plan.parent.session_id
            &&& edge.child_authority.scope.slot == request.slot
            &&& edge.child_authority.tools == request.tools
            &&& store.relations.contains_key(plan.parent.id)
                ==> store.relations[plan.parent.id].child_authority == authority
            &&& forall|i: int|
                0 <= i < request.tools.len() ==> authority.tools.contains(
                    #[trigger] request.tools[i],
                ) && delegation.tools.contains(request.tools[i])
            &&& forall|i: int|
                0 <= i < request.context.records.len() ==> delegation.context.records.contains(
                    #[trigger] request.context.records[i],
                )
        },
        !store.runs.contains_key(delegation.parent) ==> planned(
            store,
            authority,
            delegation,
            request,
        ) == Err::<ChildPlanView, StoreErrorView>(StoreErrorView::MissingRun),
{
}

/// A plan holds only as long as its parent is as it was and for a child with the context
/// that was requested.
pub proof fn plans_hold_for_their_child(store: StoreView, plan: ChildPlanView, child: Assignment)
    ensures
        plan_checked(store, plan, child) is Ok <==> {
            &&& store.runs.contains_key(plan.parent.id)
            &&& store.runs[plan.parent.id] == plan.parent
            &&& child.context == plan.request.context
            &&& store.relations.contains_key(plan.parent.id)
                ==> store.relations[plan.parent.id].child_authority
                == plan.relation.parent_authority
            &&& plan.relation.valid(plan.parent, child)
        },
        plan_checked(store, plan, child) matches Ok(edge) ==> edge == plan.relation,
        !store.runs.contains_key(plan.parent.id) ==> plan_checked(store, plan, child) == Err::<
            ExecutionRelationView,
            StoreErrorView,
        >(StoreErrorView::MissingRun),
{
}

/// One of the resources has the reference.
pub open spec fn resolves(resources: Seq<ResourceView>, reference: ResourceRefView) -> bool {
    exists|j: int| 0 <= j < resources.len() && (#[trigger] resources[j]).reference == reference
}

/// Every resource is the one that its store holds under its reference.
pub open spec fn held_so(resources: Seq<ResourceView>, held: Resources) -> bool {
    forall|j: int|
        0 <= j < resources.len() ==> resource_found(held, (#[trigger] resources[j]).reference)
            == Ok::<ResourceView, ResourceErrorView>(resources[j])
}

/// The resources are those before and perhaps more.
pub open spec fn goes_on(before: Seq<ResourceView>, after: Seq<ResourceView>) -> bool {
    &&& before.len() <= after.len()
    &&& forall|j: int| 0 <= j < before.len() ==> #[trigger] after[j] == before[j]
}

proof fn resolved_resources_stay(
    before: Seq<ResourceView>,
    after: Seq<ResourceView>,
    reference: ResourceRefView,
)
    requires
        goes_on(before, after),
        resolves(before, reference),
    ensures
        resolves(after, reference),
{
    let j = choose|j: int|
        0 <= j < before.len() && (#[trigger] before[j]).reference == reference;
    assert(after[j].reference == reference);
}

proof fn positions_have_the_reference(resources: Seq<ResourceView>, reference: ResourceRefView)
    ensures
        position_of(resources, reference) matches Some(i) ==> 0 <= i < resources.len()
            && resources[i].reference == reference,
    decreases resources.len(),
{
    if resources.len() > 0 {
        positions_have_the_reference(resources.drop_last(), reference);
    }
}

proof fn resolving_finds_the_resource(
    at: Progress,
    sources: Sources,
    reference: ResourceRefView,
)
    requires
        held_so(at.resources, sources.resources),
    ensures
        at.resolved(sources, reference) matches Ok((resource, next)) ==> {
            &&& resource.reference == reference
            &&& resolves(next.resources, reference)
            &&& held_so(next.resources, sources.resources)
            &&& goes_on(at.resources, next.resources)
            &&& resource_found(sources.resources, reference) == Ok::<
                ResourceView,
                ResourceErrorView,
            >(resource)
            &&& next.records == at.records
            &&& next.instructions == at.instructions
            &&& next.remaining == at.remaining
        },
{
    positions_have_the_reference(at.resources, reference);
    if let Ok((resource, next)) = at.resolved(sources, reference) {
        if position_of(at.resources, reference) is None {
            assert(next.resources.last() == resource);
            assert(next.resources[next.resources.len() - 1].reference == reference);
        }
    }
}

proof fn attaching_resolves_all(at: Progress, sources: Sources, contents: Seq<ContentView>)
    requires
        held_so(at.resources, sources.resources),
    ensures
        at.attached(sources, contents) matches Ok(next) ==> {
            &&& held_so(next.resources, sources.resources)
            &&& goes_on(at.resources, next.resources)
            &&& next.records == at.records
            &&& next.instructions == at.instructions
            &&& forall|k: int|
                0 <= k < contents.len() && (#[trigger] contents[k]) is Resource ==> resolves(
                    next.resources,
                    contents[k]->Resource_0,
                )
        },
    decreases contents.len(),
{
    if contents.len() > 0 {
        let rest = contents.skip(1);
        assert(forall|k: int| 1 <= k < contents.len() ==> contents[k] == rest[k - 1]);
        match contents[0] {
            ContentView::Text(_) => attaching_resolves_all(at, sources, rest),
            ContentView::Resource(reference) => {
                if let Ok(counted) = at.consumed() {
                    resolving_finds_the_resource(counted, sources, reference);
                }
                if let Ok(next) = at.referenced(sources, reference) {
                    attaching_resolves_all(next, sources, rest);
                    if let Ok(done) = next.attached(sources, rest) {
                        resolved_resources_stay(next.resources, done.resources, reference);
                    }
                }
            },
        }
    }
}

proof fn records_are_read_in_order(at: Progress, sources: Sources, ids: Seq<Seq<char>>)
    requires
        held_so(at.resources, sources.resources),
    ensures
        at.all_recorded(sources, ids) matches Ok(next) ==> {
            &&& held_so(next.resources, sources.resources)
            &&& goes_on(at.resources, next.resources)
            &&& next.instructions == at.instructions
            &&& next.records.len() == at.records.len() + ids.len()
            &&& forall|i: int| 0 <= i < at.records.len() ==> #[trigger] next.records[i] == at.records[i]
            &&& forall|i: int|
                0 <= i < ids.len() ==> sources.records.record(#[trigger] ids[i]) == Ok::<
                    SnapshotView,
                    StoreErrorView,
                >(next.records[at.records.len() + i])
        },
    decreases ids.len(),
{
    if ids.len() > 0 {
        let rest = ids.skip(1);
        assert(forall|i: int| 1 <= i < ids.len() ==> ids[i] == rest[i - 1]);
        if let Ok(counted) = at.consumed() {
            if let Ok(snapshot) = sources.records.record(ids[0]) {
                let contents = match snapshot.record.payload {
                    PayloadView::Message { message, .. } => message.content,
                    _ => Seq::empty(),
                };
                attaching_resolves_all(counted, sources, contents);
            }
        }
        if let Ok(next) = at.recorded(sources, ids[0]) {
            records_are_read_in_order(next, sources, rest);
            if let Ok(done) = next.all_recorded(sources, rest) {
                assert(next.records.len() == at.records.len() + 1);
                assert(done.records[at.records.len() as int] == next.records.last());
                assert forall|i: int| 0 <= i < ids.len() implies sources.records.record(
                    #[trigger] ids[i],
                ) == Ok::<SnapshotView, StoreErrorView>(done.records[at.records.len() + i]) by {
                    if i > 0 {
                        assert(ids[i] == rest[i - 1]);
                    }
                }
            }
        }
    }
}

proof fn instructions_are_read_in_order(
    at: Progress,
    sources: Sources,
    instructions: Seq<InstructionRefView>,
)
    requires
        held_so(at.resources, sources.resources),
    ensures
        at.all_instructed(sources, instructions) matches Ok(next) ==> {
            &&& held_so(next.resources, sources.resources)
            &&& goes_on(at.resources, next.resources)
            &&& next.records == at.records
            &&& next.instructions.len() == at.instructions.len() + instructions.len()
            &&& forall|i: int|
                0 <= i < at.instructions.len() ==> #[trigger] next.instructions[i]
                    == at.instructions[i]
            &&& forall|i: int|
                0 <= i < instructions.len() ==> {
                    let read = next.instructions[at.instructions.len() + i];
                    &&& read.reference == #[trigger] instructions[i]
                    &&& resource_found(sources.resources, instructions[i].resource) == Ok::<
                        ResourceView,
                        ResourceErrorView,
                    >(read.resource)
                }
        },
    decreases instructions.len(),
{
    if instructions.len() > 0 {
        let rest = instructions.skip(1);
        assert(forall|i: int| 1 <= i < instructions.len() ==> instructions[i] == rest[i - 1]);
        if let Ok(counted) = at.consumed() {
            resolving_finds_the_resource(counted, sources, instructions[0].resource);
        }
        if let Ok(next) = at.instructed(sources, instructions[0]) {
            instructions_are_read_in_order(next, sources, rest);
            if let Ok(done) = next.all_instructed(sources, rest) {
                assert(next.instructions.len() == at.instructions.len() + 1);
                assert(done.instructions[at.instructions.len() as int]
                    == next.instructions.last());
                assert forall|i: int| 0 <= i < instructions.len() implies {
                    let read = done.instructions[at.instructions.len() + i];
                    &&& read.reference == #[trigger] instructions[i]
                    &&& resource_found(sources.resources, instructions[i].resource) == Ok::<
                        ResourceView,
                        ResourceErrorView,
                    >(read.resource)
                } by {
                    if i > 0 {
                        assert(instructions[i] == rest[i - 1]);
                    }
                }
            }
        }
    }
}

proof fn references_are_resolved(
    at: Progress,
    sources: Sources,
    references: Seq<ResourceRefView>,
)
    requires
        held_so(at.resources, sources.resources),
    ensures
        at.all_referenced(sources, references) matches Ok(next) ==> {
            &&& held_so(next.resources, sources.resources)
            &&& goes_on(at.resources, next.resources)
            &&& next.records == at.records
            &&& next.instructions == at.instructions
            &&& forall|i: int|
                0 <= i < references.len() ==> resolves(next.resources, #[trigger] references[i])
        },
    decreases references.len(),
{
    if references.len() > 0 {
        let rest = references.skip(1);
        assert(forall|i: int| 1 <= i < references.len() ==> references[i] == rest[i - 1]);
        if let Ok(counted) = at.consumed() {
            resolving_finds_the_resource(counted, sources, references[0]);
        }
        if let Ok(next) = at.referenced(sources, references[0]) {
            references_are_resolved(next, sources, rest);
            if let Ok(done) = next.all_referenced(sources, rest) {
                resolved_resources_stay(next.resources, done.resources, references[0]);
                assert forall|i: int| 0 <= i < references.len() implies resolves(
                    done.resources,
                    #[trigger] references[i],
                ) by {
                    if i > 0 {
                        assert(references[i] == rest[i - 1]);
                    }
                }
            }
        }
    }
}

/// A context that was prepared holds what was selected: the records as they are stored and
/// in the order of the selection, each instruction with its resource, and every resource
/// that was selected. Each resource is the one that is held under its reference.
pub proof fn contexts_hold_what_was_selected(
    sources: Sources,
    manifest: ContextManifestView,
    max_items: nat,
)
    ensures
        context_prepared(sources, manifest, max_items) matches Ok(done) ==> {
            &&& manifest.records.len() + manifest.instructions.len() + manifest.resources.len()
                <= max_items
            &&& done.records.len() == manifest.records.len()
            &&& forall|i: int|
                0 <= i < manifest.records.len() ==> sources.records.record(
                    #[trigger] manifest.records[i],
                ) == Ok::<SnapshotView, StoreErrorView>(done.records[i])
            &&& done.instructions.len() == manifest.instructions.len()
            &&& forall|i: int|
                0 <= i < manifest.instructions.len() ==> {
                    &&& done.instructions[i].reference == #[trigger] manifest.instructions[i]
                    &&& resource_found(sources.resources, manifest.instructions[i].resource) == Ok::<
                        ResourceView,
                        ResourceErrorView,
                    >(done.instructions[i].resource)
                }
            &&& forall|i: int|
                0 <= i < manifest.resources.len() ==> resolves(
                    done.resources,
                    #[trigger] manifest.resources[i],
                )
            &&& held_so(done.resources, sources.resources)
        },
{
    let start = Progress::start(max_items);
    records_are_read_in_order(start, sources, manifest.records);
    if let Ok(read) = start.all_recorded(sources, manifest.records) {
        instructions_are_read_in_order(read, sources, manifest.instructions);
        if let Ok(instructed) = read.all_instructed(sources, manifest.instructions) {
            references_are_resolved(instructed, sources, manifest.resources);
            if let Ok(done) = instructed.all_referenced(sources, manifest.resources) {
                assert forall|i: int| 0 <= i < manifest.records.len() implies sources.records.record(
                    #[trigger] manifest.records[i],
                ) == Ok::<SnapshotView, StoreErrorView>(done.records[i]) by {
                    assert(start.records.len() + i == i);
                }
                assert forall|i: int| 0 <= i < manifest.instructions.len() implies {
                    &&& done.instructions[i].reference == #[trigger] manifest.instructions[i]
                    &&& resource_found(sources.resources, manifest.instructions[i].resource) == Ok::<
                        ResourceView,
                        ResourceErrorView,
                    >(done.instructions[i].resource)
                } by {
                    assert(read.instructions.len() + i == i);
                }
            }
        }
    }
}

/// What cannot be selected is refused for what is wrong with it: more items than allowed,
/// a record that is open, of a session that may not be read or not known, a resource that
/// was taken out, is not held or exceeds the limit, an instruction that cannot be read.
pub proof fn unfit_selections_are_refused(
    at: Progress,
    sources: Sources,
    id: Seq<char>,
    reference: ResourceRefView,
)
    ensures
        at.remaining == 0 ==> at.recorded(sources, id) == Err::<Progress, ContextErrorView>(
            ContextErrorView::ItemLimit,
        ),
        at.remaining > 0 ==> {
            let reply = at.recorded(sources, id);
            let refused = |e: ContextErrorView| reply == Err::<Progress, ContextErrorView>(e);
            match sources.records.record(id) {
                Err(e) => refused(ContextErrorView::Store(e)),
                Ok(snapshot) => {
                    &&& !sources.allowed.contains(snapshot.record.session_id) ==> refused(
                        ContextErrorView::RecordOutsideScope(id),
                    )
                    &&& sources.allowed.contains(snapshot.record.session_id) && snapshot.state
                        == RecordState::Open ==> refused(ContextErrorView::OpenRecord(id))
                    &&& sources.allowed.contains(snapshot.record.session_id) && snapshot.state
                        != RecordState::Open && !(snapshot.record.payload is Message) ==> (
                    reply matches Ok(next) && next.records == at.records.push(snapshot)
                        && next.remaining == at.remaining - 1 && next.resources == at.resources)
                }
            }
        },
        sources.forbidden.contains(reference) ==> at.resolved(sources, reference) == Err::<
            (ResourceView, Progress),
            ContextErrorView,
        >(ContextErrorView::ReferencedOmission(reference)),
        !sources.forbidden.contains(reference) && position_of(at.resources, reference) is None ==> {
            let reply = at.resolved(sources, reference);
            match resource_found(sources.resources, reference) {
                Err(error) => reply == Err::<(ResourceView, Progress), ContextErrorView>(
                    ContextErrorView::Resource { reference, error },
                ),
                Ok(resource) => {
                    &&& resource.reference == reference && at.bytes + resource.bytes.len()
                        <= sources.max_bytes ==> (reply matches Ok((given, next)) && given
                        == resource && next.resources == at.resources.push(resource) && next.bytes
                        == at.bytes + resource.bytes.len())
                    &&& resource.reference == reference && at.bytes + resource.bytes.len()
                        > sources.max_bytes ==> reply == Err::<
                        (ResourceView, Progress),
                        ContextErrorView,
                    >(ContextErrorView::ResourceByteLimit)
                },
            }
        },
{
}

/// Under a policy a selection is taken when neither it nor what is omitted or granted has
/// more items than allowed and its instructions are authorized. What is then omitted is
/// taken out of it one by one.
pub proof fn selections_need_their_policy(
    manifest: ContextManifestView,
    policy: ContextPolicyView,
    max_items: nat,
)
    ensures
        ({
            let reply = selection_under(manifest, policy, max_items);
            let many = manifest.records.len() + manifest.instructions.len()
                + manifest.resources.len() > max_items || policy.omissions.len() > max_items || (
            policy.instruction_authorization is Some
                && policy.instruction_authorization->0.grant.instructions.len() > max_items);
            let authorized = instructions_authorized(policy, manifest.instructions);
            &&& many ==> reply == Err::<Selection, ContextErrorView>(ContextErrorView::ItemLimit)
            &&& !many && !authorized ==> reply == Err::<Selection, ContextErrorView>(
                ContextErrorView::InstructionUnauthorized,
            )
            &&& !many && authorized && policy.omissions.len() == 0 ==> (reply matches Ok(selection)
                && selection.manifest == manifest && selection.omitted.len() == 0
                && selection.forbidden.len() == 0)
            &&& reply is Ok ==> !many && authorized
        }),
{
}

/// A context is prepared as it should be. Only a store that cannot be depended on may keep
/// it from that, with an error of its own, and only if it was asked at all.
pub proof fn contexts_are_prepared_as_they_should(
    reply: Result<PreparedContextView, ContextErrorView>,
    sources: Sources,
    manifest: ContextManifestView,
    max_items: nat,
    dependable: bool,
)
    requires
        prepared_as(reply, sources, manifest, max_items, dependable),
    ensures
        reply matches Ok(prepared) ==> (context_prepared(sources, manifest, max_items) matches Ok(
            done,
        ) && prepared.records == done.records && prepared.instructions == done.instructions
            && prepared.resources == done.resources && prepared.resource_bytes == done.bytes),
        dependable ==> (reply is Ok <==> context_prepared(sources, manifest, max_items) is Ok),
        reply matches Err(e) ==> context_prepared(sources, manifest, max_items) == Err::<
            Progress,
            ContextErrorView,
        >(e) || (!dependable && context_environmental(e)),
{
}

/// Errors that tell of the stores and not of what was selected.
pub proof fn failures_of_resources_are_told_apart(e: ResourceErrorView, c: ContextErrorView)
    ensures
        resource_environmental(e) <==> (e == ResourceErrorView::Poisoned || (
        e matches ResourceErrorView::Store(inner) && environmental(inner))),
        context_environmental(c) <==> {
            ||| (c matches ContextErrorView::Store(inner) && environmental(inner))
            ||| (c matches ContextErrorView::Resource { error, .. } && resource_environmental(error))
        },
{
}

/// A delegated run starts out without a configuration, without a continuation and in the
/// session of its parent.
pub proof fn requested_runs_start_afresh(parent: Assignment, request: ChildRequestView)
    ensures
        ({
            let run = requested_run(parent, request);
            &&& run.id == request.id
            &&& run.session_id == parent.session_id
            &&& run.slot_id == request.slot
            &&& run.context == request.context
            &&& run.continuation is None
            &&& run.config.confirmed is None
            &&& run.config.requested.dom() == Set::<Seq<char>>::empty()
        }),
{
}

/// An instruction can be read when it is plain text or Markdown, whatever follows the type
/// after a semicolon, and UTF-8.
pub proof fn readable_instructions_are_texts(
    resource: ResourceView,
    before: Seq<char>,
    after: Seq<char>,
)
    requires
        forall|i: int| 0 <= i < before.len() ==> #[trigger] before[i] != ';',
        before.len() > 0,
        !white_space(before[0]),
        !white_space(before.last()),
        resource.media_type == before || resource.media_type == before + seq![';'] + after,
    ensures
        readable_instruction(resource) <==> ((before == "text/plain"@ || before
            == "text/markdown"@) && valid_utf8(resource.bytes)),
{
    texts_end_at_the_first_sign(before, ';', after);
    let none = Seq::<char>::empty();
    assert(none + before + none =~= before);
    trimming_takes_white_space_alone(none, before, none);
}

} // verus!
