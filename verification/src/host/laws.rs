//! What holds of every call of an application's tools.

use crate::authority::{ToolRefView, ToolScopeView};
use crate::host::tool_hub::{
    answered_call, asking_call, call_event, call_json, concluded, declared, grantable, left_unknown, offered,
    outcome_meaning, receipt_draft, transportable, unknown_draft, well_formed_outcome, BoundView,
    DefinitionView, HubView, TicketView,
};
use crate::json::{JsonNumber, JsonView};
use crate::records::store::StoreView;
use crate::records::{PayloadView, RecordState, SnapshotView, StoreErrorView};
use crate::tools::ToolErrorView;
use vstd::prelude::*;

verus! {

/// An application answers a call with a success and its value or with an error and its
/// message, and in no other way.
pub proof fn outcomes_are_successes_or_errors(members: Map<Seq<char>, JsonView>)
    ensures
        well_formed_outcome(JsonView::Object(members)) <==> {
            ||| members.contains_key("kind"@) && members["kind"@] == JsonView::Text("success"@)
                && members.contains_key("value"@)
            ||| members.contains_key("kind"@) && members["kind"@] == JsonView::Text("error"@)
                && members.contains_key("message"@) && members["message"@] is Text
        },
        forall|value: JsonView| !(value is Object) ==> !#[trigger] well_formed_outcome(value),
{
    reveal_strlit("success");
    reveal_strlit("error");
    assert("success"@.len() != "error"@.len());
}

/// A call whose outcome was recorded succeeds if and only if the outcome is a success, and
/// then with its value. An error always ends the call with an error of the handler that
/// carries its message. A call whose outcome was not recorded fails whatever the outcome
/// was, its binding is retired, and the application is told that the call is over.
pub proof fn only_recorded_successes_succeed(
    hub: HubView,
    ticket: TicketView,
    members: Map<Seq<char>, JsonView>,
    recorded: Result<SnapshotView, StoreErrorView>,
    result: Result<JsonView, ToolErrorView>,
    frame: Option<JsonView>,
    after: HubView,
)
    requires
        well_formed_outcome(JsonView::Object(members)),
        concluded(hub, ticket, JsonView::Object(members), recorded, result, frame, after),
    ensures
        result is Ok <==> (recorded is Ok && members["kind"@] == JsonView::Text("success"@)),
        result matches Ok(value) ==> value == members["value"@],
        recorded is Ok && members["kind"@] == JsonView::Text("error"@) ==> (
        members["message"@] matches JsonView::Text(message) && result == Err::<
            JsonView,
            ToolErrorView,
        >(ToolErrorView::Handler(message))),
        recorded is Ok <==> frame is None,
        recorded matches Err(e) ==> result == Err::<JsonView, ToolErrorView>(
            ToolErrorView::Handler("tool evidence unavailable: "@ + ("record store: "@ + e.debug())),
        ),
        frame matches Some(told) ==> told == JsonView::Object(
            map![
                "version"@ => JsonView::Number(JsonNumber::PosInt(1)),
                "event"@ => JsonView::Text("tool_cancel"@),
                "call_id"@ => JsonView::Text(ticket.call),
                "binding_id"@ => JsonView::Text(ticket.binding),
                "session_id"@ => JsonView::Text(ticket.scope.session),
                "slot_id"@ => JsonView::Text(ticket.scope.slot),
            ],
        ),
        !after.pending.contains_key(ticket.call),
        hub.bindings.contains_key(ticket.scope) && hub.bindings[ticket.scope].id == ticket.binding
            ==> (after.bindings[ticket.scope].retired <==> (hub.bindings[ticket.scope].retired
            || recorded is Err)),
{
    reveal_strlit("success");
    reveal_strlit("error");
    assert("success"@.len() != "error"@.len());
}

/// What an accepted outcome means: a success its value, an error its message.
pub proof fn outcomes_are_not_confused(members: Map<Seq<char>, JsonView>)
    requires
        well_formed_outcome(JsonView::Object(members)),
    ensures
        outcome_meaning(JsonView::Object(members)) is Ok <==> members["kind"@] == JsonView::Text(
            "success"@,
        ),
        outcome_meaning(JsonView::Object(members)) matches Ok(value) ==> value == members["value"@],
        outcome_meaning(JsonView::Object(members)) matches Err(e) ==> members["kind"@]
            == JsonView::Text("error"@) && (e matches ToolErrorView::Handler(message)
            && members["message"@] == JsonView::Text(message)),
{
    reveal_strlit("success");
    reveal_strlit("error");
    assert("success"@.len() != "error"@.len());
}

/// An answer is accepted exactly when it names a call that waits, the binding, the session
/// and the slot that the call was made under, and brings an outcome of at most 65536 bytes
/// that can be carried and is well-formed.
pub proof fn answers_name_their_call(
    hub: HubView,
    params: Map<Seq<char>, JsonView>,
    bytes: usize,
    call: Seq<char>,
)
    ensures
        answered_call(hub, JsonView::Object(params), bytes) == Ok::<Seq<char>, Seq<char>>(call)
            <==> {
            let ticket = hub.pending[call];
            &&& call.len() > 0
            &&& params.contains_key("call_id"@) && params["call_id"@] == JsonView::Text(call)
            &&& hub.pending.contains_key(call)
            &&& params.contains_key("binding_id"@) && params["binding_id"@] == JsonView::Text(
                ticket.binding,
            )
            &&& params.contains_key("session_id"@) && params["session_id"@] == JsonView::Text(
                ticket.scope.session,
            )
            &&& params.contains_key("slot_id"@) && params["slot_id"@] == JsonView::Text(
                ticket.scope.slot,
            )
            &&& bytes <= 65536
            &&& params.contains_key("outcome"@)
            &&& transportable(params["outcome"@], 0)
            &&& well_formed_outcome(params["outcome"@])
        },
        params.contains_key("call_id"@) && params["call_id"@] == JsonView::Text(call) && call.len()
            > 0 && !hub.pending.contains_key(call) ==> answered_call(
            hub,
            JsonView::Object(params),
            bytes,
        ) == Err::<Seq<char>, Seq<char>>("tool call is not pending"@),
        !(params.contains_key("call_id"@) && params["call_id"@] is Text) ==> answered_call(
            hub,
            JsonView::Object(params),
            bytes,
        ) == Err::<Seq<char>, Seq<char>>("missing or empty string parameter"@),
{
    assert(!well_formed_outcome(JsonView::Null));
}

/// A question is asked during the call that it names, and only if it names the binding,
/// the session and the slot of that call too.
pub proof fn questions_name_their_call(
    hub: HubView,
    params: Map<Seq<char>, JsonView>,
    ticket: TicketView,
)
    ensures
        asking_call(hub, JsonView::Object(params)) == Ok::<TicketView, Seq<char>>(ticket) <==> {
            &&& params.contains_key("call_id"@)
            &&& params["call_id"@] matches JsonView::Text(call) && call.len() > 0
                && hub.pending.contains_key(call) && hub.pending[call] == ticket
            &&& params.contains_key("binding_id"@) && params["binding_id"@] == JsonView::Text(
                ticket.binding,
            )
            &&& params.contains_key("session_id"@) && params["session_id"@] == JsonView::Text(
                ticket.scope.session,
            )
            &&& params.contains_key("slot_id"@) && params["slot_id"@] == JsonView::Text(
                ticket.scope.slot,
            )
        },
{
}

/// A call is handed to the application with its id, the binding, session and slot that it
/// was made under, the tool and its input.
pub proof fn calls_are_handed_over(ticket: TicketView, input: JsonView)
    ensures
        call_json(ticket, input) == JsonView::Object(
            map![
                "version"@ => JsonView::Number(JsonNumber::PosInt(1)),
                "event"@ => JsonView::Text("tool_call"@),
                "call_id"@ => JsonView::Text(ticket.call),
                "binding_id"@ => JsonView::Text(ticket.binding),
                "session_id"@ => JsonView::Text(ticket.scope.session),
                "slot_id"@ => JsonView::Text(ticket.scope.slot),
                "tool"@ => JsonView::Object(
                    map![
                        "name"@ => JsonView::Text(ticket.tool.name),
                        "revision"@ => JsonView::Text(ticket.tool.revision),
                    ],
                ),
                "input"@ => input,
            ],
        ),
{
}

/// A call that is given up is reported to the application under its own id, binding,
/// session and slot.
pub proof fn cancelled_calls_are_named(ticket: TicketView)
    ensures
        JsonView::Object(call_event("tool_cancel"@, ticket)) == JsonView::Object(
            map![
                "version"@ => JsonView::Number(JsonNumber::PosInt(1)),
                "event"@ => JsonView::Text("tool_cancel"@),
                "call_id"@ => JsonView::Text(ticket.call),
                "binding_id"@ => JsonView::Text(ticket.binding),
                "session_id"@ => JsonView::Text(ticket.scope.session),
                "slot_id"@ => JsonView::Text(ticket.scope.slot),
            ],
        ),
{
}

/// Each state of a call has a record of its own in the session of the call: complete, by
/// the host, and with the call, its binding, scope and tool, who let it in and for whom,
/// the state, and what the state adds.
pub proof fn receipts_describe_their_call(
    ticket: TicketView,
    state: Seq<char>,
    name: Seq<char>,
    value: JsonView,
)
    ensures
        ({
            let draft = receipt_draft(ticket, state, name, value);
            &&& draft.id == ticket.call + "-"@ + state
            &&& draft.session_id == ticket.scope.session
            &&& draft.run_id is None
            &&& draft.actor == "host"@
            &&& draft.reply_to_id is None
            &&& draft.source is None
            &&& draft.state == RecordState::Complete
            &&& draft.payload == (PayloadView::Extension {
                namespace: "agent_bridge"@,
                name: "tool_invocation"@,
                data: JsonView::Object(
                    map![
                        "version"@ => JsonView::Number(JsonNumber::PosInt(1)),
                        "invocation_id"@ => JsonView::Text(ticket.call),
                        "binding_id"@ => JsonView::Text(ticket.binding),
                        "scope"@ => JsonView::Object(
                            map![
                                "session"@ => JsonView::Text(ticket.scope.session),
                                "slot"@ => JsonView::Text(ticket.scope.slot),
                            ],
                        ),
                        "tool"@ => JsonView::Object(
                            map![
                                "name"@ => JsonView::Text(ticket.tool.name),
                                "revision"@ => JsonView::Text(ticket.tool.revision),
                            ],
                        ),
                        "issuer"@ => JsonView::Text("host"@),
                        "subject"@ => JsonView::Text("assistant"@),
                        "state"@ => JsonView::Text(state),
                        name => value,
                    ],
                ),
            })
        }),
{
}

/// A call that is given up is on record as unknown, with the reason that its result was
/// neither acknowledged nor recorded.
pub proof fn abandoned_calls_are_unknown(ticket: TicketView)
    ensures
        unknown_draft(ticket).id == ticket.call + "-"@ + "unknown"@,
        unknown_draft(ticket).payload matches PayloadView::Extension { data, .. } && (
        data matches JsonView::Object(members) && members["state"@] == JsonView::Text("unknown"@)
            && members["reason"@] == JsonView::Text(
            "invocation ended without an acknowledged, recorded result"@,
        )),
{
    reveal_strlit("state");
    reveal_strlit("reason");
    assert("state"@.len() != "reason"@.len());
}

/// A call is let in exactly when its input can be carried in at most 65536 bytes, a run
/// goes on under its binding, the binding is not retired, fewer than sixteen calls are
/// under way and fewer than four of them under the binding. What stands in its way is
/// named in this order.
pub proof fn calls_are_let_in_within_the_limits(
    hub: HubView,
    scope: ToolScopeView,
    input: JsonView,
    bytes: usize,
)
    ensures
        ({
            let bound = hub.bindings[scope];
            let carried = bytes <= 65536 && transportable(input, 0);
            let open = hub.bindings.contains_key(scope) && bound.active && !bound.retired;
            let objection = hub.objection(scope, input, bytes);
            &&& objection is None <==> (carried && open && hub.active < 16 && bound.calls < 4)
            &&& !carried ==> objection == Some(
                ToolErrorView::InvalidArguments("input exceeds JSON transport limits"@),
            )
            &&& carried && !open ==> objection == Some(ToolErrorView::NotGranted)
            &&& carried && open && hub.active >= 16 ==> objection == Some(
                ToolErrorView::Handler("tool call capacity reached"@),
            )
            &&& carried && open && hub.active < 16 && bound.calls >= 4 ==> objection == Some(
                ToolErrorView::Handler("binding call capacity reached"@),
            )
        }),
{
}

/// A call that was let in counts once, for the host and for its binding, and a call that
/// is over counts no more: the counts are then what they were. The binding stays usable
/// exactly when the outcome was recorded, and no other binding is touched.
pub proof fn calls_are_counted_once(hub: HubView, ticket: TicketView, settled: bool)
    requires
        hub.bindings.contains_key(ticket.scope),
        hub.bindings[ticket.scope].id == ticket.binding,
        hub.active < usize::MAX,
        hub.bindings[ticket.scope].calls < usize::MAX,
    ensures
        ({
            let bound = hub.bindings[ticket.scope];
            let during = hub.admitted(ticket.scope);
            let after = during.finished(ticket, settled);
            let left = after.bindings[ticket.scope];
            &&& during.active == hub.active + 1
            &&& during.bindings[ticket.scope].calls == bound.calls + 1
            &&& during.bindings[ticket.scope].active == bound.active
            &&& during.bindings[ticket.scope].retired == bound.retired
            &&& during.bindings[ticket.scope].id == bound.id
            &&& during.bindings[ticket.scope].activity == bound.activity
            &&& during.pending == hub.pending
            &&& after.active == hub.active
            &&& left.calls == bound.calls
            &&& left.id == bound.id
            &&& left.activity == bound.activity
            &&& left.active == (bound.active && settled)
            &&& left.retired == (bound.retired || !settled)
            &&& after.pending == hub.pending.remove(ticket.call)
            &&& forall|other: ToolScopeView|
                other != ticket.scope ==> after.bindings[other] == hub.bindings[other] && (
                #[trigger] after.bindings.contains_key(other) <==> hub.bindings.contains_key(other))
        }),
{
}

/// A run can begin under a binding unless it is retired, and each run has a number of its
/// own. A run that ends while calls are under way retires its binding, one that ends
/// without any does not.
pub proof fn runs_under_a_binding_are_told_apart(bound: BoundView)
    requires
        bound.activity < u64::MAX,
    ensures
        bound.begun() is Err <==> (bound.retired || (bound.active && bound.calls != 0)),
        bound.begun() matches Err(e) ==> e
            == "tool binding retired after an uncertain invocation; create a fresh session"@,
        bound.begun() matches Ok(next) ==> next.active && next.activity == bound.activity + 1
            && next.id == bound.id && next.calls == bound.calls && !next.retired,
        !bound.ended().active,
        bound.ended().retired <==> (bound.retired || (bound.active && bound.calls != 0)),
        bound.ended().id == bound.id,
        bound.ended().calls == bound.calls,
        bound.ended().activity == bound.activity,
{
}

/// A call belongs to the run during which it was let in, and to no later one.
pub proof fn calls_do_not_outlive_their_run(hub: HubView, ticket: TicketView)
    requires
        hub.current(ticket),
    ensures
        hub.bindings[ticket.scope].id == ticket.binding,
        hub.bindings[ticket.scope].activity == ticket.activity,
        !hub.rebound(ticket.scope, hub.bindings[ticket.scope].ended()).current(ticket),
        hub.bindings[ticket.scope].begun() matches Ok(next) ==> !hub.rebound(
            ticket.scope,
            next,
        ).current(ticket),
        forall|id: Seq<char>|
            !(#[trigger] hub.rebound(ticket.scope, BoundView::fresh(id))).current(ticket),
{
}

/// A run that goes on under the binding of a call is the run of that call.
pub proof fn calls_of_the_run_are_current(hub: HubView, ticket: TicketView)
    ensures
        hub.current(ticket) <==> (hub.bindings.contains_key(ticket.scope)
            && hub.bindings[ticket.scope].id == ticket.binding && hub.bindings[ticket.scope].active
            && hub.bindings[ticket.scope].activity == ticket.activity),
{
}

/// A tool was declared when one of the declarations has its name and its revision.
pub proof fn declarations_are_of_one_revision(
    definitions: Seq<DefinitionView>,
    tool: ToolRefView,
)
    ensures
        declared(definitions, tool) <==> exists|k: int|
            0 <= k < definitions.len() && (#[trigger] definitions[k]).name == tool.name
                && definitions[k].revision == tool.revision,
{
}

/// Tools can be granted when there are at most sixteen, no two of one name, and each of
/// them was declared.
pub proof fn declared_tools_can_be_granted(
    definitions: Seq<DefinitionView>,
    tools: Seq<ToolRefView>,
)
    ensures
        grantable(definitions, tools) <==> {
            &&& tools.len() <= 16
            &&& forall|i: int, j: int|
                0 <= i < j < tools.len() ==> (#[trigger] tools[i]).name != (#[trigger] tools[j]).name
            &&& forall|i: int| 0 <= i < tools.len() ==> declared(definitions, #[trigger] tools[i])
        },
{
}

/// What is offered under a grant are the declared tools that were granted in just that
/// revision, and all of them.
pub proof fn granted_tools_are_offered(
    definitions: Seq<DefinitionView>,
    tools: Seq<ToolRefView>,
    definition: DefinitionView,
)
    ensures
        offered(definitions, tools).contains(definition) <==> (definitions.contains(definition)
            && exists|i: int|
            0 <= i < tools.len() && (#[trigger] tools[i]).name == definition.name
                && tools[i].revision == definition.revision),
        offered(definitions, tools).len() <= definitions.len(),
{
    let wanted = |definition: DefinitionView|
        tools.contains(ToolRefView { name: definition.name, revision: definition.revision });
    if offered(definitions, tools).contains(definition) {
        definitions.lemma_filter_contains_rev(wanted, definition);
    }
    let named = ToolRefView { name: definition.name, revision: definition.revision };
    if tools.contains(named) {
        let i = tools.index_of(named);
        assert(tools[i].name == definition.name);
    }
    if exists|i: int|
        0 <= i < tools.len() && (#[trigger] tools[i]).name == definition.name && tools[i].revision
            == definition.revision {
        let i = choose|i: int|
            0 <= i < tools.len() && (#[trigger] tools[i]).name == definition.name
                && tools[i].revision == definition.revision;
        assert(tools[i] == named);
    }
    definitions.lemma_filter_len(wanted);
}

/// A value can be carried when it is nested at most sixteen deep and each of its whole
/// numbers lies below two to the power of fifty-three, and a fraction by its exponent
/// too. Null, Booleans and texts always can.
pub proof fn carried_values_are_bounded(value: JsonView, depth: nat)
    ensures
        depth > 16 ==> !transportable(value, depth),
        depth <= 16 ==> {
            &&& value is Null || value is Bool || value is Text ==> transportable(value, depth)
            &&& value matches JsonView::Number(JsonNumber::PosInt(n)) ==> (transportable(
                value,
                depth,
            ) <==> n < 9007199254740992)
            &&& value matches JsonView::Number(JsonNumber::NegInt(n)) ==> (transportable(
                value,
                depth,
            ) <==> -9007199254740992 < n)
            &&& value matches JsonView::Number(JsonNumber::Float(bits)) ==> (transportable(
                value,
                depth,
            ) <==> (bits / 4503599627370496) % 2048 <= 1075)
            &&& value matches JsonView::Array(items) ==> (transportable(value, depth)
                <==> forall|i: int|
                0 <= i < items.len() ==> transportable(#[trigger] items[i], depth + 1))
            &&& value matches JsonView::Object(members) ==> (transportable(value, depth)
                <==> forall|name: Seq<char>| #[trigger]
                members.contains_key(name) ==> transportable(members[name], depth + 1))
        },
{
}

/// A call that is given up is stored as unknown, unless the store refuses that or fails.
pub proof fn given_up_calls_are_stored_as_unknown(
    before: StoreView,
    ticket: TicketView,
    after: StoreView,
    dependable: bool,
)
    requires
        left_unknown(before, ticket, after, dependable),
    ensures
        before.inserted(unknown_draft(ticket)) is Err ==> after == before,
        before.inserted(unknown_draft(ticket)) matches Ok((_, stored)) ==> after == stored || (
        !dependable && after == before),
{
}

} // verus!
