//! The application's tools: which calls are let in, what is recorded of them, and whose
//! answers are accepted.

use crate::acp::recording::{member, number_json};
use crate::authority::{
    ToolGrant, ToolGrantView, ToolRef, ToolRefView, ToolScope, ToolScopeView,
};
use crate::datum::{append, holds, outcome, Datum};
use crate::host::frames::{event, new_event, new_member, parameter, put_text, string};
use crate::id::{ActorId, RecordId};
use crate::json::{at, find_at, json_views, says_at, text_at, text_of, Json, JsonNumber, JsonView};
use crate::lookup::Lookup;
use crate::records::store::{attempted, RecordStore, StoreView};
use crate::records::{
    Draft, DraftView, Payload, PayloadView, RecordState, SnapshotView, StoreErrorView,
};
use crate::table::Table;
use crate::text::{blank, same_text};
use crate::tools::{ToolError, ToolErrorView};
use vstd::prelude::*;
use vstd::string::*;

verus! {

/// The most tools that are declared or granted.
pub const MAX_TOOLS: usize = 16;

/// The most calls that go on at a time.
pub const MAX_CALLS: usize = 16;

/// The most calls of one session and slot that go on at a time.
pub const MAX_BOUND_CALLS: usize = 4;

/// The longest JSON text of an input or an outcome.
pub const MAX_JSON: usize = 65536;

/// The number is the same for readers whose numbers are all double-precision.
pub open spec fn safe_number(n: JsonNumber) -> bool {
    match n {
        JsonNumber::PosInt(v) => v <= 9007199254740991,
        JsonNumber::NegInt(v) => v >= -9007199254740991,
        // Below two to the power of 53, by the exponent.
        JsonNumber::Float(bits) => (bits / 0x10_0000_0000_0000) % 2048 < 1076,
    }
}

/// The value may cross to readers that would round large integers, and is not nested too
/// deeply.
pub open spec fn transportable(value: JsonView, depth: nat) -> bool
    decreases 17 - depth,
{
    if depth > 16 {
        false
    } else {
        match value {
            JsonView::Array(items) => forall|i: int|
                0 <= i < items.len() ==> transportable(#[trigger] items[i], depth + 1),
            JsonView::Object(members) => forall|name: Seq<char>| #[trigger]
                members.contains_key(name) ==> transportable(members[name], depth + 1),
            JsonView::Number(n) => safe_number(n),
            _ => true,
        }
    }
}

fn is_safe_number(n: JsonNumber) -> (r: bool)
    ensures
        r == safe_number(crate::json::number_view(n)),
{
    match n {
        JsonNumber::PosInt(v) => v <= 9007199254740991,
        JsonNumber::NegInt(v) => v >= -9007199254740991,
        JsonNumber::Float(bits) => {
            assert((0x8000_0000_0000_0000u64 / 0x10_0000_0000_0000) % 2048 < 1076);
            (bits / 0x10_0000_0000_0000) % 2048 < 1076
        },
    }
}

/// Whether a value may cross to readers that would round large integers. A value that is
/// nested too deeply may not.
pub fn valid_json(value: &Json, depth: usize) -> (r: bool)
    ensures
        r == transportable(value.deep_view(), depth as nat),
    decreases 17 - depth,
{
    broadcast use json_views;

    if depth > 16 {
        return false;
    }
    match value {
        Json::Array(items) => {
            let mut i: usize = 0;
            while i < items.len()
                invariant
                    i <= items.len(),
                    depth <= 16,
                    value.deep_view() == JsonView::Array(items.deep_view()),
                    forall|j: int|
                        0 <= j < i ==> transportable(
                            #[trigger] items.deep_view()[j],
                            (depth + 1) as nat,
                        ),
                decreases items.len() - i,
            {
                assert(items.deep_view()[i as int] == items@[i as int].deep_view());
                if !valid_json(&items[i], depth + 1) {
                    assert(!transportable(items.deep_view()[i as int], (depth + 1) as nat));
                    return false;
                }
                i = i + 1;
            }
            true
        },
        Json::Object(members) => {
            let n: usize = members.len();
            let mut i: usize = 0;
            while i < n
                invariant
                    i <= n,
                    n == members.keys().len(),
                    depth <= 16,
                    value.deep_view() == JsonView::Object(members.deep_view()),
                    forall|j: int|
                        0 <= j < i ==> transportable(
                            members.deep_view()[#[trigger] members.keys()[j]],
                            (depth + 1) as nat,
                        ),
                decreases n - i,
            {
                let member = members.value_at(i);
                let ghost name = members.keys()[i as int];
                assert(members.deep_view()[name] == member.deep_view());
                if !valid_json(member, depth + 1) {
                    assert(members.deep_view().contains_key(name));
                    assert(!transportable(members.deep_view()[name], (depth + 1) as nat));
                    assert(value.deep_view() matches JsonView::Object(inner) && inner.contains_key(
                        name,
                    ) && !transportable(inner[name], (depth + 1) as nat));
                    return false;
                }
                i = i + 1;
            }
            assert forall|name: Seq<char>| #[trigger]
                members.deep_view().contains_key(name) implies transportable(
                members.deep_view()[name],
                (depth + 1) as nat,
            ) by {
                assert(members@.contains_key(name));
                assert(members.keys().contains(name));
            }
            true
        },
        Json::Number(n) => is_safe_number(*n),
        _ => true,
    }
}

/// A tool that the application declares.
#[derive(Debug, PartialEq, Eq)]
pub struct Definition {
    pub name: String,
    pub revision: String,
    pub description: String,
    pub input_schema: Json,
}

/// What a `Definition` holds.
#[verifier::ext_equal]
pub struct DefinitionView {
    pub name: Seq<char>,
    pub revision: Seq<char>,
    pub description: Seq<char>,
    pub input_schema: JsonView,
}

impl DeepView for Definition {
    type V = DefinitionView;

    open spec fn deep_view(&self) -> DefinitionView {
        DefinitionView {
            name: self.name.deep_view(),
            revision: self.revision.deep_view(),
            description: self.description.deep_view(),
            input_schema: self.input_schema.deep_view(),
        }
    }
}

impl Datum for Definition {
    fn duplicate(&self) -> (r: Definition) {
        Definition {
            name: self.name.duplicate(),
            revision: self.revision.duplicate(),
            description: self.description.duplicate(),
            input_schema: self.input_schema.duplicate(),
        }
    }

    fn same_as(&self, other: &Definition) -> (r: bool) {
        self.name.same_as(&other.name)
            && self.revision.same_as(&other.revision)
            && self.description.same_as(&other.description)
            && self.input_schema.same_as(&other.input_schema)
    }
}

/// The tools of a session and a slot.
#[derive(Debug, PartialEq, Eq)]
pub struct Bound {
    pub id: String,
    /// Whether a run goes on that may call tools.
    pub active: bool,
    /// How many runs were begun.
    pub activity: u64,
    /// How many calls are not over.
    pub calls: usize,
    /// A call ended without its outcome: no more calls are taken.
    pub retired: bool,
}

/// What a `Bound` holds.
#[verifier::ext_equal]
pub struct BoundView {
    pub id: Seq<char>,
    pub active: bool,
    pub activity: u64,
    pub calls: usize,
    pub retired: bool,
}

impl DeepView for Bound {
    type V = BoundView;

    open spec fn deep_view(&self) -> BoundView {
        BoundView {
            id: self.id.deep_view(),
            active: self.active.deep_view(),
            activity: self.activity.deep_view(),
            calls: self.calls.deep_view(),
            retired: self.retired.deep_view(),
        }
    }
}

impl Datum for Bound {
    fn duplicate(&self) -> (r: Bound) {
        Bound {
            id: self.id.duplicate(),
            active: self.active.duplicate(),
            activity: self.activity.duplicate(),
            calls: self.calls.duplicate(),
            retired: self.retired.duplicate(),
        }
    }

    fn same_as(&self, other: &Bound) -> (r: bool) {
        self.id.same_as(&other.id)
            && self.active.same_as(&other.active)
            && self.activity.same_as(&other.activity)
            && self.calls.same_as(&other.calls)
            && self.retired.same_as(&other.retired)
    }
}

/// A call that was let in.
#[derive(Debug, PartialEq, Eq)]
pub struct Ticket {
    pub call: String,
    pub binding: String,
    pub scope: ToolScope,
    pub tool: ToolRef,
    /// The run during which it was let in.
    pub activity: u64,
}

/// What a `Ticket` holds.
#[verifier::ext_equal]
pub struct TicketView {
    pub call: Seq<char>,
    pub binding: Seq<char>,
    pub scope: ToolScopeView,
    pub tool: ToolRefView,
    pub activity: u64,
}

impl DeepView for Ticket {
    type V = TicketView;

    open spec fn deep_view(&self) -> TicketView {
        TicketView {
            call: self.call.deep_view(),
            binding: self.binding.deep_view(),
            scope: self.scope.deep_view(),
            tool: self.tool.deep_view(),
            activity: self.activity.deep_view(),
        }
    }
}

impl Datum for Ticket {
    fn duplicate(&self) -> (r: Ticket) {
        Ticket {
            call: self.call.duplicate(),
            binding: self.binding.duplicate(),
            scope: self.scope.duplicate(),
            tool: self.tool.duplicate(),
            activity: self.activity.duplicate(),
        }
    }

    fn same_as(&self, other: &Ticket) -> (r: bool) {
        self.call.same_as(&other.call)
            && self.binding.same_as(&other.binding)
            && self.scope.same_as(&other.scope)
            && self.tool.same_as(&other.tool)
            && self.activity.same_as(&other.activity)
    }
}


/// What the hub holds.
#[verifier::ext_equal]
pub struct HubView {
    pub definitions: Seq<DefinitionView>,
    pub timeout_ms: u64,
    pub bindings: Map<ToolScopeView, BoundView>,
    /// The calls that wait for the application's answer.
    pub pending: Map<Seq<char>, TicketView>,
    /// How many calls are not over.
    pub active: usize,
}

/// The tool is declared in this revision.
pub open spec fn declared(definitions: Seq<DefinitionView>, tool: ToolRefView) -> bool {
    exists|i: int|
        0 <= i < definitions.len() && (#[trigger] definitions[i]).name == tool.name
            && definitions[i].revision == tool.revision
}

/// The declared tools that a grant names in their exact revision, as they were declared.
pub open spec fn offered(definitions: Seq<DefinitionView>, tools: Seq<ToolRefView>) -> Seq<
    DefinitionView,
> {
    definitions.filter(
        |definition: DefinitionView|
            tools.contains(
                ToolRefView { name: definition.name, revision: definition.revision },
            ),
    )
}

/// The tools may be granted together.
pub open spec fn grantable(definitions: Seq<DefinitionView>, tools: Seq<ToolRefView>) -> bool {
    &&& tools.len() <= MAX_TOOLS
    &&& forall|i: int| 0 <= i < tools.len() ==> declared(definitions, #[trigger] tools[i])
    &&& forall|i: int, j: int|
        0 <= i < j < tools.len() ==> (#[trigger] tools[i]).name != (#[trigger] tools[j]).name
}

impl BoundView {
    /// A binding under which nothing was called.
    pub open spec fn fresh(id: Seq<char>) -> BoundView {
        BoundView { id, active: false, activity: 0, calls: 0, retired: false }
    }

    /// The run is over. Calls that are not over retire the binding.
    pub open spec fn ended(self) -> BoundView {
        if self.active {
            BoundView { active: false, retired: self.retired || self.calls != 0, ..self }
        } else {
            self
        }
    }

    /// A run is to begin.
    pub open spec fn begun(self) -> Result<BoundView, Seq<char>> {
        let idle = self.ended();
        if idle.retired {
            Err("tool binding retired after an uncertain invocation; create a fresh session"@)
        } else if idle.activity == u64::MAX {
            Err("tool binding retired after an uncertain invocation; create a fresh session"@)
        } else {
            Ok(BoundView { active: true, activity: (idle.activity + 1) as u64, ..idle })
        }
    }
}

impl HubView {
    /// The limits hold.
    pub open spec fn bounded(self) -> bool {
        &&& self.active <= MAX_CALLS
        &&& forall|scope: ToolScopeView| #[trigger]
            self.bindings.contains_key(scope) ==> self.bindings[scope].calls <= MAX_BOUND_CALLS
    }

    /// The hub with another binding of a scope.
    pub open spec fn rebound(self, scope: ToolScopeView, bound: BoundView) -> HubView {
        HubView { bindings: self.bindings.insert(scope, bound), ..self }
    }

    /// Why a call is not let in.
    pub open spec fn objection(self, scope: ToolScopeView, input: JsonView, bytes: usize) -> Option<
        ToolErrorView,
    > {
        if bytes > MAX_JSON || !transportable(input, 0) {
            Some(ToolErrorView::InvalidArguments("input exceeds JSON transport limits"@))
        } else if !self.bindings.contains_key(scope) || !self.bindings[scope].active
            || self.bindings[scope].retired {
            Some(ToolErrorView::NotGranted)
        } else if self.active >= MAX_CALLS {
            Some(ToolErrorView::Handler("tool call capacity reached"@))
        } else if self.bindings[scope].calls >= MAX_BOUND_CALLS {
            Some(ToolErrorView::Handler("binding call capacity reached"@))
        } else {
            None
        }
    }

    /// The hub after a call was let in.
    pub open spec fn admitted(self, scope: ToolScopeView) -> HubView {
        let bound = self.bindings[scope];
        HubView {
            active: (self.active + 1) as usize,
            ..self.rebound(scope, BoundView { calls: (bound.calls + 1) as usize, ..bound })
        }
    }

    /// The run during which a call was let in goes on.
    pub open spec fn current(self, ticket: TicketView) -> bool {
        self.bindings.contains_key(ticket.scope) && self.bindings[ticket.scope].id == ticket.binding
            && self.bindings[ticket.scope].active && self.bindings[ticket.scope].activity
            == ticket.activity
    }

    /// The hub after a call is over. A call that ends without a recorded outcome retires
    /// its binding, so that delayed old work cannot acquire authority from a later run.
    pub open spec fn finished(self, ticket: TicketView, settled: bool) -> HubView {
        let left = HubView {
            pending: self.pending.remove(ticket.call),
            active: if self.active == 0 {
                0
            } else {
                (self.active - 1) as usize
            },
            ..self
        };
        if left.bindings.contains_key(ticket.scope) && left.bindings[ticket.scope].id
            == ticket.binding {
            let bound = left.bindings[ticket.scope];
            left.rebound(
                ticket.scope,
                BoundView {
                    calls: if bound.calls == 0 {
                        0
                    } else {
                        (bound.calls - 1) as usize
                    },
                    active: bound.active && settled,
                    retired: bound.retired || !settled,
                    ..bound
                },
            )
        } else {
            left
        }
    }
}

impl TicketView {
    /// The parameters name the call's binding and scope.
    pub open spec fn named_by(self, params: JsonView) -> bool {
        text_of(at(params, "binding_id"@)) == Some(self.binding) && text_of(
            at(params, "session_id"@),
        ) == Some(self.scope.session) && text_of(at(params, "slot_id"@)) == Some(self.scope.slot)
    }
}

/// The outcome is of one of the two forms.
pub open spec fn well_formed_outcome(outcome: JsonView) -> bool {
    match text_of(at(outcome, "kind"@)) {
        Some(kind) => if kind == "success"@ {
            outcome matches JsonView::Object(members) && members.contains_key("value"@)
        } else if kind == "error"@ {
            text_of(at(outcome, "message"@)) is Some
        } else {
            false
        },
        None => false,
    }
}

/// The outcome may be accepted.
pub open spec fn acceptable_outcome(outcome: JsonView, bytes: usize) -> bool {
    bytes <= MAX_JSON && transportable(outcome, 0) && well_formed_outcome(outcome)
}

/// The call that an answer belongs to, or why it is refused.
pub open spec fn answered_call(hub: HubView, params: JsonView, bytes: usize) -> Result<
    Seq<char>,
    Seq<char>,
> {
    match parameter(params, "call_id"@) {
        Err(e) => Err(e),
        Ok(call) => if !hub.pending.contains_key(call) {
            Err("tool call is not pending"@)
        } else if !hub.pending[call].named_by(params) {
            Err("tool result belongs to another binding or scope"@)
        } else if !acceptable_outcome(at(params, "outcome"@), bytes) {
            Err("invalid tool result"@)
        } else {
            Ok(call)
        },
    }
}

/// The call that a question belongs to, or why it is refused.
pub open spec fn asking_call(hub: HubView, params: JsonView) -> Result<TicketView, Seq<char>> {
    match parameter(params, "call_id"@) {
        Err(e) => Err(e),
        Ok(call) => if !hub.pending.contains_key(call) {
            Err("invocation is not pending"@)
        } else if !hub.pending[call].named_by(params) {
            Err("question belongs to another or ended invocation"@)
        } else {
            Ok(hub.pending[call])
        },
    }
}

/// What an accepted outcome means to the caller.
pub open spec fn outcome_meaning(outcome: JsonView) -> Result<JsonView, ToolErrorView> {
    if text_of(at(outcome, "kind"@)) == Some("success"@) {
        Ok(at(outcome, "value"@))
    } else {
        Err(
            ToolErrorView::Handler(
                match text_of(at(outcome, "message"@)) {
                    Some(message) => message,
                    None => ""@,
                },
            ),
        )
    }
}

/// The members that tell of a call.
pub open spec fn call_event(name: Seq<char>, ticket: TicketView) -> Map<Seq<char>, JsonView> {
    event(name).insert("call_id"@, JsonView::Text(ticket.call)).insert(
        "binding_id"@,
        JsonView::Text(ticket.binding),
    ).insert("session_id"@, JsonView::Text(ticket.scope.session)).insert(
        "slot_id"@,
        JsonView::Text(ticket.scope.slot),
    )
}

/// A tool in JSON.
pub open spec fn tool_json(tool: ToolRefView) -> JsonView {
    JsonView::Object(
        member("name"@, JsonView::Text(tool.name)).insert(
            "revision"@,
            JsonView::Text(tool.revision),
        ),
    )
}

/// The frame that hands a call to the application.
pub open spec fn call_json(ticket: TicketView, input: JsonView) -> JsonView {
    JsonView::Object(
        call_event("tool_call"@, ticket).insert("tool"@, tool_json(ticket.tool)).insert(
            "input"@,
            input,
        ),
    )
}

/// What is recorded of a call.
pub open spec fn receipt_json(
    ticket: TicketView,
    state: Seq<char>,
    name: Seq<char>,
    value: JsonView,
) -> JsonView {
    JsonView::Object(
        member("version"@, number_json(1)).insert(
            "invocation_id"@,
            JsonView::Text(ticket.call),
        ).insert("binding_id"@, JsonView::Text(ticket.binding)).insert(
            "scope"@,
            JsonView::Object(
                member("session"@, JsonView::Text(ticket.scope.session)).insert(
                    "slot"@,
                    JsonView::Text(ticket.scope.slot),
                ),
            ),
        ).insert("tool"@, tool_json(ticket.tool)).insert("issuer"@, JsonView::Text("host"@)).insert(
            "subject"@,
            JsonView::Text("assistant"@),
        ).insert("state"@, JsonView::Text(state)).insert(name, value),
    )
}

/// The record of a call in a state.
pub open spec fn receipt_draft(
    ticket: TicketView,
    state: Seq<char>,
    name: Seq<char>,
    value: JsonView,
) -> DraftView {
    DraftView {
        id: ticket.call + "-"@ + state,
        session_id: ticket.scope.session,
        run_id: None,
        actor: "host"@,
        reply_to_id: None,
        source: None,
        payload: PayloadView::Extension {
            namespace: "agent_bridge"@,
            name: "tool_invocation"@,
            data: receipt_json(ticket, state, name, value),
        },
        state: RecordState::Complete,
    }
}

fn make_tool(tool: &ToolRef) -> (r: Json)
    ensures
        r.deep_view() == tool_json(tool.deep_view()),
{
    broadcast use json_views;

    let mut members = new_member("name", Json::Text(tool.name.clone()));
    put_text(&mut members, "revision", tool.revision.as_str());
    Json::Object(members)
}

fn make_host() -> (r: ActorId)
    ensures
        r.deep_view() == "host"@,
{
    proof {
        reveal_strlit("host");
        assert("host"@[0] == 'h');
        assert(!blank("host"@));
    }
    ActorId::new("host".to_owned()).unwrap()
}

impl Ticket {
    /// The record of the call in a state, with one member that is the state's own.
    pub fn receipt(&self, state: &str, name: &str, value: Json) -> (r: Draft)
        ensures
            r.deep_view() == receipt_draft(self.deep_view(), state@, name@, value.deep_view()),
    {
        broadcast use json_views;

        let mut scope = new_member("session", Json::Text(self.scope.session.as_str().to_owned()));
        put_text(&mut scope, "slot", self.scope.slot.as_str());
        let mut data = new_member("version", Json::Number(JsonNumber::PosInt(1)));
        put_text(&mut data, "invocation_id", self.call.as_str());
        put_text(&mut data, "binding_id", self.binding.as_str());
        data.put("scope".to_owned(), Json::Object(scope));
        data.put("tool".to_owned(), make_tool(&self.tool));
        put_text(&mut data, "issuer", "host");
        put_text(&mut data, "subject", "assistant");
        put_text(&mut data, "state", state);
        data.put(name.to_owned(), value);
        let mut id = self.call.clone();
        id.append("-");
        id.append(state);
        proof {
            reveal_strlit("-");
            assert(id@[self.call@.len() as int] == '-');
            assert(!blank(id@));
        }
        Draft {
            id: RecordId::new(id).unwrap(),
            session_id: self.scope.session.duplicate(),
            run_id: None,
            actor: make_host(),
            reply_to_id: None,
            source: None,
            payload: Payload::Extension {
                namespace: "agent_bridge".to_owned(),
                name: "tool_invocation".to_owned(),
                data: Json::Object(data),
            },
            state: RecordState::Complete,
        }
    }

    fn new_event(&self, name: &str) -> (r: Table<Json>)
        ensures
            r.deep_view() == call_event(name@, self.deep_view()),
    {
        let mut members = new_event(name);
        put_text(&mut members, "call_id", self.call.as_str());
        put_text(&mut members, "binding_id", self.binding.as_str());
        put_text(&mut members, "session_id", self.scope.session.as_str());
        put_text(&mut members, "slot_id", self.scope.slot.as_str());
        members
    }

    /// The frame that tells the application that the call is over.
    pub fn cancel_frame(&self) -> (r: Json)
        ensures
            r.deep_view() == JsonView::Object(call_event("tool_cancel"@, self.deep_view())),
    {
        broadcast use json_views;

        Json::Object(self.new_event("tool_cancel"))
    }

    /// The frame that hands the call to the application.
    pub fn call_frame(&self, input: Json) -> (r: Json)
        ensures
            r.deep_view() == call_json(self.deep_view(), input.deep_view()),
    {
        broadcast use json_views;

        let mut members = self.new_event("tool_call");
        members.put("tool".to_owned(), make_tool(&self.tool));
        members.put("input".to_owned(), input);
        Json::Object(members)
    }
}

/// The application's tools and the calls of them.
pub struct Hub {
    definitions: Vec<Definition>,
    timeout_ms: u64,
    bindings: Lookup<ToolScope, Bound>,
    pending: Table<Ticket>,
    active: usize,
}

impl DeepView for Hub {
    type V = HubView;

    closed spec fn deep_view(&self) -> HubView {
        HubView {
            definitions: self.definitions.deep_view(),
            timeout_ms: self.timeout_ms,
            bindings: self.bindings.deep_view(),
            pending: self.pending.deep_view(),
            active: self.active,
        }
    }
}

fn is_declared(definitions: &Vec<Definition>, tool: &ToolRef) -> (r: bool)
    ensures
        r == declared(definitions.deep_view(), tool.deep_view()),
{
    let mut i: usize = 0;
    while i < definitions.len()
        invariant
            i <= definitions.len(),
            forall|j: int|
                0 <= j < i ==> !((#[trigger] definitions.deep_view()[j]).name
                    == tool.deep_view().name && definitions.deep_view()[j].revision
                    == tool.deep_view().revision),
        decreases definitions.len() - i,
    {
        assert(definitions.deep_view()[i as int] == definitions@[i as int].deep_view());
        if same_text(definitions[i].name.as_str(), tool.name.as_str()) && same_text(
            definitions[i].revision.as_str(),
            tool.revision.as_str(),
        ) {
            return true;
        }
        i = i + 1;
    }
    false
}

fn is_named_before(tools: &Vec<ToolRef>, n: usize) -> (r: bool)
    requires
        n < tools.len(),
    ensures
        r == exists|i: int|
            0 <= i < n && (#[trigger] tools.deep_view()[i]).name == tools.deep_view()[n as int].name,
{
    let mut i: usize = 0;
    assert(tools.deep_view()[n as int] == tools@[n as int].deep_view());
    while i < n
        invariant
            i <= n,
            n < tools.len(),
            tools.deep_view()[n as int] == tools@[n as int].deep_view(),
            forall|j: int|
                0 <= j < i ==> (#[trigger] tools.deep_view()[j]).name
                    != tools.deep_view()[n as int].name,
        decreases n - i,
    {
        assert(tools.deep_view()[i as int] == tools@[i as int].deep_view());
        if same_text(tools[i].name.as_str(), tools[n].name.as_str()) {
            return true;
        }
        i = i + 1;
    }
    false
}

/// Refuses input that cannot be handed to an application. `bytes` is the length of its
/// JSON text.
pub fn check_input(input: &Json, bytes: usize) -> (r: Result<(), ToolError>)
    ensures
        outcome(r) == if bytes > MAX_JSON || !transportable(input.deep_view(), 0) {
            Err::<(), ToolErrorView>(
                ToolErrorView::InvalidArguments("input exceeds JSON transport limits"@),
            )
        } else {
            Ok::<(), ToolErrorView>(())
        },
{
    if bytes > MAX_JSON || !valid_json(input, 0) {
        Err(ToolError::InvalidArguments("input exceeds JSON transport limits".to_owned()))
    } else {
        Ok(())
    }
}

impl Hub {
    /// Declares tools, with the time in which each call has to be answered.
    pub fn new(definitions: Vec<Definition>, timeout_ms: u64) -> (r: Result<Hub, String>)
        ensures
            match r {
                Ok(hub) => definitions.len() <= MAX_TOOLS && 50 <= timeout_ms <= 300000
                    && hub.deep_view() == (HubView {
                    definitions: definitions.deep_view(),
                    timeout_ms,
                    bindings: Map::empty(),
                    pending: Map::empty(),
                    active: 0,
                }),
                Err(e) => !(definitions.len() <= MAX_TOOLS && 50 <= timeout_ms <= 300000) && e@
                    == "tool limits exceeded"@,
            },
    {
        if definitions.len() > MAX_TOOLS || timeout_ms < 50 || timeout_ms > 300000 {
            return Err("tool limits exceeded".to_owned());
        }
        let hub = Hub {
            definitions,
            timeout_ms,
            bindings: Lookup::new(),
            pending: Table::new(),
            active: 0,
        };
        assert(hub.deep_view().bindings =~= Map::<ToolScopeView, BoundView>::empty());
        assert(hub.deep_view().pending =~= Map::<Seq<char>, TicketView>::empty());
        Ok(hub)
    }

    /// The time in which each call has to be answered, in milliseconds.
    pub fn timeout_ms(&self) -> (r: u64)
        ensures
            r == self.deep_view().timeout_ms,
    {
        self.timeout_ms
    }

    /// What is offered under a grant.
    pub fn catalog(&self, grant: &ToolGrant) -> (r: Vec<Definition>)
        ensures
            r.deep_view() == offered(self.deep_view().definitions, grant.deep_view().tools),
    {
        let ghost all = self.deep_view().definitions;
        let ghost tools = grant.deep_view().tools;
        let mut r: Vec<Definition> = Vec::new();
        let mut i: usize = 0;
        proof {
            reveal(Seq::filter);
            assert(all.take(0) =~= Seq::empty());
            assert(r.deep_view() =~= offered(all.take(0), tools));
        }
        while i < self.definitions.len()
            invariant
                i <= self.definitions.len(),
                all == self.deep_view().definitions,
                tools == grant.deep_view().tools,
                r.deep_view() == offered(all.take(i as int), tools),
            decreases self.definitions.len() - i,
        {
            let definition = &self.definitions[i];
            assert(all[i as int] == definition.deep_view());
            let tool = ToolRef {
                name: definition.name.clone(),
                revision: definition.revision.clone(),
            };
            proof {
                reveal(Seq::filter);
                assert(all.take(i + 1).drop_last() =~= all.take(i as int));
                assert(all.take(i + 1).last() == definition.deep_view());
            }
            if holds(&grant.tools, &tool) {
                append(&mut r, definition.duplicate());
            }
            i = i + 1;
        }
        assert(all.take(all.len() as int) =~= all);
        r
    }

    /// Refuses tools that are not declared in that revision, or are named twice.
    pub fn validate(&self, tools: &Vec<ToolRef>) -> (r: Result<(), String>)
        ensures
            outcome(r) == if grantable(self.deep_view().definitions, tools.deep_view()) {
                Ok::<(), Seq<char>>(())
            } else {
                Err("unknown, duplicate, or stale tool grant"@)
            },
    {
        if tools.len() > MAX_TOOLS {
            return Err("unknown, duplicate, or stale tool grant".to_owned());
        }
        let ghost all = tools.deep_view();
        let mut i: usize = 0;
        while i < tools.len()
            invariant
                i <= tools.len(),
                all == tools.deep_view(),
                tools.len() <= MAX_TOOLS,
                forall|j: int|
                    0 <= j < i ==> declared(self.deep_view().definitions, #[trigger] all[j]),
                forall|j: int, k: int|
                    0 <= j < k < i ==> (#[trigger] all[j]).name != (#[trigger] all[k]).name,
            decreases tools.len() - i,
        {
            assert(all[i as int] == tools@[i as int].deep_view());
            if is_named_before(tools, i) || !is_declared(&self.definitions, &tools[i]) {
                return Err("unknown, duplicate, or stale tool grant".to_owned());
            }
            i = i + 1;
        }
        Ok(())
    }

    /// Binds tools to a session and a slot under an id. Without tools there is nothing to
    /// bind.
    pub fn bind(&mut self, scope: ToolScope, tools: &Vec<ToolRef>, id: String) -> (r: Result<
        bool,
        String,
    >)
        ensures
            if !grantable(old(self).deep_view().definitions, tools.deep_view()) {
                outcome(r) == Err::<bool, Seq<char>>("unknown, duplicate, or stale tool grant"@)
                    && final(self).deep_view() == old(self).deep_view()
            } else if tools.len() == 0 {
                outcome(r) == Ok::<bool, Seq<char>>(false) && final(self).deep_view() == old(
                    self,
                ).deep_view()
            } else {
                outcome(r) == Ok::<bool, Seq<char>>(true) && final(self).deep_view() == old(
                    self,
                ).deep_view().rebound(scope.deep_view(), BoundView::fresh(id@))
            },
    {
        match self.validate(tools) {
            Err(e) => return Err(e),
            Ok(_) => {},
        }
        if tools.len() == 0 {
            return Ok(false);
        }
        let bound = Bound { id, active: false, activity: 0, calls: 0, retired: false };
        self.bindings.insert(scope, bound);
        assert(self.deep_view().bindings =~= old(self).deep_view().bindings.insert(
            scope.deep_view(),
            BoundView::fresh(id@),
        ));
        Ok(true)
    }

    /// The grant that a binding stands for.
    pub fn grant(scope: ToolScope, tools: Vec<ToolRef>) -> (r: ToolGrant)
        ensures
            r.deep_view() == (ToolGrantView {
                issuer: "host"@,
                subject: "assistant"@,
                scope: scope.deep_view(),
                tools: tools.deep_view(),
            }),
    {
        proof {
            reveal_strlit("assistant");
            assert("assistant"@[0] == 'a');
            assert(!blank("assistant"@));
        }
        ToolGrant {
            issuer: make_host(),
            subject: ActorId::new("assistant".to_owned()).unwrap(),
            scope,
            tools,
        }
    }

    fn bound_of(&self, scope: &ToolScope) -> (r: Option<Bound>)
        ensures
            match r {
                Some(bound) => self.deep_view().bindings.contains_key(scope.deep_view())
                    && bound.deep_view() == self.deep_view().bindings[scope.deep_view()],
                None => !self.deep_view().bindings.contains_key(scope.deep_view()),
            },
    {
        match self.bindings.get(scope) {
            Some(bound) => Some(bound.duplicate()),
            None => None,
        }
    }

    fn rebind(&mut self, scope: &ToolScope, bound: Bound)
        ensures
            final(self).deep_view() == old(self).deep_view().rebound(
                scope.deep_view(),
                bound.deep_view(),
            ),
    {
        let ghost view = bound.deep_view();
        self.bindings.insert(scope.duplicate(), bound);
        assert(self.deep_view().bindings =~= old(self).deep_view().bindings.insert(
            scope.deep_view(),
            view,
        ));
    }

    /// The run of a binding is over.
    pub fn end(&mut self, scope: &ToolScope)
        ensures
            final(self).deep_view() == if old(self).deep_view().bindings.contains_key(
                scope.deep_view(),
            ) {
                old(self).deep_view().rebound(
                    scope.deep_view(),
                    old(self).deep_view().bindings[scope.deep_view()].ended(),
                )
            } else {
                old(self).deep_view()
            },
    {
        match self.bound_of(scope) {
            None => {},
            Some(mut bound) => {
                if bound.active {
                    if bound.calls != 0 {
                        bound.retired = true;
                    }
                    bound.active = false;
                }
                self.rebind(scope, bound);
            },
        }
    }

    /// A run of a binding begins.
    pub fn begin(&mut self, scope: &ToolScope) -> (r: Result<(), String>)
        ensures
            if !old(self).deep_view().bindings.contains_key(scope.deep_view()) {
                r is Ok && final(self).deep_view() == old(self).deep_view()
            } else {
                let bound = old(self).deep_view().bindings[scope.deep_view()];
                match bound.begun() {
                    Ok(next) => r is Ok && final(self).deep_view() == old(self).deep_view().rebound(
                        scope.deep_view(),
                        next,
                    ),
                    Err(e) => outcome(r) == Err::<(), Seq<char>>(e) && final(self).deep_view()
                        == old(self).deep_view().rebound(scope.deep_view(), bound.ended()),
                }
            },
    {
        self.end(scope);
        match self.bound_of(scope) {
            None => Ok(()),
            Some(mut bound) => {
                if bound.retired || bound.activity == u64::MAX {
                    return Err(
                        "tool binding retired after an uncertain invocation; create a fresh session".to_owned(),
                    );
                }
                bound.active = true;
                bound.activity = bound.activity + 1;
                let ghost before = self.deep_view();
                self.rebind(scope, bound);
                assert(before.bindings.insert(scope.deep_view(), bound.deep_view()) =~= old(
                    self,
                ).deep_view().bindings.insert(scope.deep_view(), bound.deep_view()));
                Ok(())
            },
        }
    }

    /// The session is over: nothing is bound to it any more.
    pub fn unbind(&mut self, scope: &ToolScope)
        ensures
            final(self).deep_view() == (HubView {
                bindings: old(self).deep_view().bindings.remove(scope.deep_view()),
                ..old(self).deep_view()
            }),
    {
        let _ = self.bindings.remove(scope);
        assert(self.deep_view().bindings =~= old(self).deep_view().bindings.remove(
            scope.deep_view(),
        ));
    }

    /// Lets a call in, or not. `bytes` is the length of the input's JSON text.
    pub fn invoke(
        &mut self,
        scope: &ToolScope,
        call: String,
        tool: ToolRef,
        input: &Json,
        bytes: usize,
    ) -> (r: Result<Ticket, ToolError>)
        ensures
            match old(self).deep_view().objection(scope.deep_view(), input.deep_view(), bytes) {
                Some(e) => outcome(r) == Err::<TicketView, ToolErrorView>(e)
                    && final(self).deep_view() == old(self).deep_view(),
                None => {
                    &&& outcome(r) == Ok::<TicketView, ToolErrorView>(
                        TicketView {
                            call: call@,
                            binding: old(self).deep_view().bindings[scope.deep_view()].id,
                            scope: scope.deep_view(),
                            tool: tool.deep_view(),
                            activity: old(self).deep_view().bindings[scope.deep_view()].activity,
                        },
                    )
                    &&& final(self).deep_view() == old(self).deep_view().admitted(
                        scope.deep_view(),
                    )
                },
            },
    {
        match check_input(input, bytes) {
            Err(e) => return Err(e),
            Ok(_) => {},
        }
        let mut bound = match self.bound_of(scope) {
            None => return Err(ToolError::NotGranted),
            Some(bound) => bound,
        };
        if !bound.active || bound.retired {
            return Err(ToolError::NotGranted);
        }
        if self.active >= MAX_CALLS {
            return Err(ToolError::Handler("tool call capacity reached".to_owned()));
        }
        if bound.calls >= MAX_BOUND_CALLS {
            return Err(ToolError::Handler("binding call capacity reached".to_owned()));
        }
        let ticket = Ticket {
            call,
            binding: bound.id.clone(),
            scope: scope.duplicate(),
            tool,
            activity: bound.activity,
        };
        bound.calls = bound.calls + 1;
        self.rebind(scope, bound);
        self.active = self.active + 1;
        Ok(ticket)
    }

    /// Hands a call to the application, unless it was cancelled meanwhile: its run is
    /// over, its session is over, or `stopped` tells that the host or the caller gave up.
    pub fn dispatch(&mut self, ticket: &Ticket, stopped: bool) -> (r: Result<(), ToolError>)
        ensures
            if stopped || !old(self).deep_view().current(ticket.deep_view()) {
                outcome(r) == Err::<(), ToolErrorView>(ToolErrorView::Cancelled)
                    && final(self).deep_view() == old(self).deep_view()
            } else {
                r is Ok && final(self).deep_view() == (HubView {
                    pending: old(self).deep_view().pending.insert(
                        ticket.deep_view().call,
                        ticket.deep_view(),
                    ),
                    ..old(self).deep_view()
                })
            },
    {
        if stopped || !self.is_current(ticket) {
            return Err(ToolError::Cancelled);
        }
        self.pending.put(ticket.call.clone(), ticket.duplicate());
        Ok(())
    }

    /// Whether the run during which a call was let in goes on.
    pub fn is_current(&self, ticket: &Ticket) -> (r: bool)
        ensures
            r == self.deep_view().current(ticket.deep_view()),
    {
        match self.bound_of(&ticket.scope) {
            None => false,
            Some(bound) => same_text(bound.id.as_str(), ticket.binding.as_str()) && bound.active
                && bound.activity == ticket.activity,
        }
    }

    /// Accepts the application's answer to a call. `bytes` is the length of the outcome's
    /// JSON text. An answer is accepted once.
    pub fn reply(&mut self, params: &Json, bytes: usize) -> (r: Result<(String, Json), String>)
        ensures
            match answered_call(old(self).deep_view(), params.deep_view(), bytes) {
                Err(e) => r matches Err(error) && error@ == e && final(self).deep_view() == old(
                    self,
                ).deep_view(),
                Ok(call) => r matches Ok((name, given)) && name@ == call && given.deep_view() == at(
                    params.deep_view(),
                    "outcome"@,
                ) && final(self).deep_view() == (HubView {
                    pending: old(self).deep_view().pending.remove(call),
                    ..old(self).deep_view()
                }),
            },
    {
        let call = match string(params, "call_id") {
            Err(e) => return Err(e),
            Ok(call) => call,
        };
        match self.pending.find(call.as_str()) {
            None => return Err("tool call is not pending".to_owned()),
            Some(ticket) => {
                if !is_owner(ticket, params) {
                    return Err("tool result belongs to another binding or scope".to_owned());
                }
            },
        }
        let given = match find_at(params, "outcome") {
            Some(given) => {
                if bytes > MAX_JSON || !valid_json(given, 0) || !is_well_formed(given) {
                    return Err("invalid tool result".to_owned());
                }
                given.duplicate()
            },
            None => {
                assert(!well_formed_outcome(at(params.deep_view(), "outcome"@)));
                return Err("invalid tool result".to_owned());
            },
        };
        self.pending.remove(call.as_str());
        assert(self.deep_view().pending =~= old(self).deep_view().pending.remove(call@));
        Ok((call.clone(), given))
    }

    /// The call during which a question is asked.
    pub fn question_owner(&self, params: &Json) -> (r: Result<Ticket, String>)
        ensures
            outcome(r) == asking_call(self.deep_view(), params.deep_view()),
    {
        let call = match string(params, "call_id") {
            Err(e) => return Err(e),
            Ok(call) => call,
        };
        match self.pending.find(call.as_str()) {
            None => Err("invocation is not pending".to_owned()),
            Some(ticket) => {
                if is_owner(ticket, params) {
                    Ok(ticket.duplicate())
                } else {
                    Err("question belongs to another or ended invocation".to_owned())
                }
            },
        }
    }

    /// A call is over; `settled` tells whether its outcome was recorded.
    pub fn finish(&mut self, ticket: &Ticket, settled: bool)
        ensures
            final(self).deep_view() == old(self).deep_view().finished(ticket.deep_view(), settled),
    {
        self.pending.remove(ticket.call.as_str());
        assert(self.deep_view().pending =~= old(self).deep_view().pending.remove(
            ticket.deep_view().call,
        ));
        self.active =
        if self.active == 0 {
            0
        } else {
            self.active - 1
        };
        match self.bound_of(&ticket.scope) {
            None => {},
            Some(mut bound) => {
                if same_text(bound.id.as_str(), ticket.binding.as_str()) {
                    bound.calls =
                    if bound.calls == 0 {
                        0
                    } else {
                        bound.calls - 1
                    };
                    bound.active = bound.active && settled;
                    bound.retired = bound.retired || !settled;
                    self.rebind(&ticket.scope, bound);
                }
            },
        }
    }
}

fn is_owner(ticket: &Ticket, params: &Json) -> (r: bool)
    ensures
        r == ticket.deep_view().named_by(params.deep_view()),
{
    says_at(params, "binding_id", ticket.binding.as_str()) && says_at(
        params,
        "session_id",
        ticket.scope.session.as_str(),
    ) && says_at(params, "slot_id", ticket.scope.slot.as_str())
}

fn is_well_formed(given: &Json) -> (r: bool)
    ensures
        r == well_formed_outcome(given.deep_view()),
{
    broadcast use json_views;

    match text_at(given, "kind") {
        None => false,
        Some(kind) => {
            if same_text(kind.as_str(), "success") {
                match given {
                    Json::Object(members) => members.find("value").is_some(),
                    _ => false,
                }
            } else if same_text(kind.as_str(), "error") {
                text_at(given, "message").is_some()
            } else {
                false
            }
        },
    }
}

/// What an accepted outcome means to the caller.
pub fn read_outcome(given: &Json) -> (r: Result<Json, ToolError>)
    requires
        well_formed_outcome(given.deep_view()),
    ensures
        outcome(r) == outcome_meaning(given.deep_view()),
{
    broadcast use json_views;

    if says_at(given, "kind", "success") {
        match find_at(given, "value") {
            Some(value) => Ok(value.duplicate()),
            None => Ok(Json::Null),
        }
    } else {
        match text_at(given, "message") {
            Some(message) => Err(ToolError::Handler(message.clone())),
            None => Err(ToolError::Handler("".to_owned())),
        }
    }
}

/// What is said of a call whose evidence could not be stored.
pub open spec fn no_evidence(error: StoreErrorView) -> ToolErrorView {
    ToolErrorView::Handler("tool evidence unavailable: "@ + ("record store: "@ + error.debug()))
}

/// Records a call in a state.
pub fn record<S: RecordStore>(store: &mut S, ticket: &Ticket, state: &str, name: &str, value: Json) -> (r:
    Result<(), ToolError>)
    ensures
        final(store).dependable() == old(store).dependable(),
        exists|reply: Result<SnapshotView, StoreErrorView>| #[trigger]
            attempted(
                reply,
                old(store).contents().inserted(
                    receipt_draft(ticket.deep_view(), state@, name@, value.deep_view()),
                ),
                old(store).contents(),
                final(store).contents(),
                old(store).dependable(),
            ) && outcome(r) == match reply {
                Ok(_) => Ok::<(), ToolErrorView>(()),
                Err(e) => Err(no_evidence(e)),
            },
{
    let reply = store.insert(ticket.receipt(state, name, value));
    assert(attempted(
        outcome(reply),
        old(store).contents().inserted(
            receipt_draft(ticket.deep_view(), state@, name@, value.deep_view()),
        ),
        old(store).contents(),
        store.contents(),
        old(store).dependable(),
    ));
    match reply {
        Ok(_) => Ok(()),
        Err(e) => {
            let mut message = "tool evidence unavailable: ".to_owned();
            message.append(e.to_string().as_str());
            Err(ToolError::Handler(message))
        },
    }
}

/// The record of a call whose outcome is not known.
pub open spec fn unknown_draft(ticket: TicketView) -> DraftView {
    receipt_draft(
        ticket,
        "unknown"@,
        "reason"@,
        JsonView::Text("invocation ended without an acknowledged, recorded result"@),
    )
}

/// The store was asked to record that the outcome of a call is not known.
pub open spec fn left_unknown(
    before: StoreView,
    ticket: TicketView,
    after: StoreView,
    dependable: bool,
) -> bool {
    exists|reply: Result<SnapshotView, StoreErrorView>| #[trigger]
        attempted(reply, before.inserted(unknown_draft(ticket)), before, after, dependable)
}

/// How a call ended once the application had answered: the answer is passed on only if
/// it is on record.
pub open spec fn concluded(
    hub: HubView,
    ticket: TicketView,
    given: JsonView,
    recorded: Result<SnapshotView, StoreErrorView>,
    result: Result<JsonView, ToolErrorView>,
    frame: Option<JsonView>,
    after: HubView,
) -> bool {
    match recorded {
        Ok(_) => result == outcome_meaning(given) && frame is None && after == hub.finished(
            ticket,
            true,
        ),
        Err(e) => result == Err::<JsonView, ToolErrorView>(no_evidence(e)) && frame == Some(
            JsonView::Object(call_event("tool_cancel"@, ticket)),
        ) && after == hub.finished(ticket, false),
    }
}

fn abandon<S: RecordStore>(hub: &mut Hub, store: &mut S, ticket: &Ticket) -> (r: Json)
    ensures
        final(store).dependable() == old(store).dependable(),
        r.deep_view() == JsonView::Object(call_event("tool_cancel"@, ticket.deep_view())),
        final(hub).deep_view() == old(hub).deep_view().finished(ticket.deep_view(), false),
        left_unknown(old(store).contents(), ticket.deep_view(), final(store).contents(), old(store).dependable()),
{
    broadcast use json_views;

    hub.finish(ticket, false);
    let reason = Json::Text(
        "invocation ended without an acknowledged, recorded result".to_owned(),
    );
    let _ = record(store, ticket, "unknown", "reason", reason);
    ticket.cancel_frame()
}

/// Ends a call by what came of it: the application's outcome, or why there is none. If
/// the outcome is not on record, the binding is retired, the application is told that
/// the call is over, and it is recorded that the outcome is not known.
pub fn conclude<S: RecordStore>(
    hub: &mut Hub,
    store: &mut S,
    ticket: &Ticket,
    given: Result<Json, ToolError>,
) -> (r: (Result<Json, ToolError>, Option<Json>))
    requires
        given matches Ok(value) ==> well_formed_outcome(value.deep_view()),
    ensures
        final(store).dependable() == old(store).dependable(),
        match given {
            Err(e) => {
                &&& outcome(r.0) == Err::<JsonView, ToolErrorView>(e.deep_view())
                &&& r.1.deep_view() == Some(
                    JsonView::Object(call_event("tool_cancel"@, ticket.deep_view())),
                )
                &&& final(hub).deep_view() == old(hub).deep_view().finished(
                    ticket.deep_view(),
                    false,
                )
                &&& left_unknown(old(store).contents(), ticket.deep_view(), final(store).contents(), old(store).dependable())
            },
            Ok(value) => exists|reply: Result<SnapshotView, StoreErrorView>, middle: StoreView|
                {
                    &&& #[trigger] attempted(
                        reply,
                        old(store).contents().inserted(
                            receipt_draft(
                                ticket.deep_view(),
                                "returned"@,
                                "outcome"@,
                                value.deep_view(),
                            ),
                        ),
                        old(store).contents(),
                        middle,
                        old(store).dependable(),
                    )
                    &&& concluded(
                        old(hub).deep_view(),
                        ticket.deep_view(),
                        value.deep_view(),
                        reply,
                        outcome(r.0),
                        r.1.deep_view(),
                        final(hub).deep_view(),
                    )
                    &&& reply is Ok ==> final(store).contents() == middle
                    &&& reply is Err ==> left_unknown(
                        middle,
                        ticket.deep_view(),
                        final(store).contents(),
                        old(store).dependable(),
                    )
                },
        },
{
    match given {
        Err(e) => {
            let frame = abandon(hub, store, ticket);
            (Err(e), Some(frame))
        },
        Ok(value) => {
            let ghost start = store.contents();
            let ghost draft = receipt_draft(
                ticket.deep_view(),
                "returned"@,
                "outcome"@,
                value.deep_view(),
            );
            let recorded = record(store, ticket, "returned", "outcome", value.duplicate());
            let ghost middle = store.contents();
            let ghost reply = choose|reply: Result<SnapshotView, StoreErrorView>| #[trigger]
                attempted(reply, start.inserted(draft), start, middle, old(store).dependable()) && outcome(recorded)
                    == match reply {
                    Ok(_) => Ok::<(), ToolErrorView>(()),
                    Err(e) => Err(no_evidence(e)),
                };
            match recorded {
                Ok(_) => {
                    hub.finish(ticket, true);
                    let result = read_outcome(&value);
                    assert(attempted(reply, start.inserted(draft), start, middle, old(store).dependable()));
                    (result, None)
                },
                Err(e) => {
                    let frame = abandon(hub, store, ticket);
                    assert(attempted(reply, start.inserted(draft), start, middle, old(store).dependable()));
                    (Err(e), Some(frame))
                },
            }
        },
    }
}

/// The limits on calls are kept: they hold at first, and letting a call in, ending it,
/// beginning and ending runs, binding and unbinding keep them.
pub proof fn limits_are_kept(
    hub: HubView,
    scope: ToolScopeView,
    input: JsonView,
    bytes: usize,
    ticket: TicketView,
    settled: bool,
    id: Seq<char>,
)
    requires
        hub.bounded(),
    ensures
        hub.objection(scope, input, bytes) is None ==> hub.admitted(scope).bounded(),
        hub.finished(ticket, settled).bounded(),
        hub.bindings.contains_key(scope) ==> hub.rebound(
            scope,
            hub.bindings[scope].ended(),
        ).bounded(),
        hub.bindings.contains_key(scope) && hub.bindings[scope].begun() is Ok ==> hub.rebound(
            scope,
            hub.bindings[scope].begun()->Ok_0,
        ).bounded(),
        hub.rebound(scope, BoundView::fresh(id)).bounded(),
        (HubView { bindings: hub.bindings.remove(scope), ..hub }).bounded(),
{
}

/// A call that ends without a recorded outcome retires its binding for good: no later
/// run of the binding begins, and no later call of it is let in.
pub proof fn uncertain_calls_retire_their_binding(
    hub: HubView,
    ticket: TicketView,
    input: JsonView,
    bytes: usize,
)
    requires
        hub.bindings.contains_key(ticket.scope),
        hub.bindings[ticket.scope].id == ticket.binding,
    ensures
        ({
            let after = hub.finished(ticket, false);
            &&& after.bindings[ticket.scope].retired
            &&& after.bindings[ticket.scope].begun() is Err
            &&& after.objection(ticket.scope, input, bytes) is Some
        }),
{
}

/// A retired binding stays retired, whatever is done with it.
pub proof fn retirement_is_permanent(hub: HubView, bound: BoundView, ticket: TicketView, settled: bool)
    requires
        bound.retired,
        hub.bindings.contains_key(ticket.scope),
        hub.bindings[ticket.scope] == bound,
    ensures
        bound.ended().retired,
        bound.begun() is Err,
        hub.finished(ticket, settled).bindings[ticket.scope].retired,
        hub.admitted(ticket.scope).bindings[ticket.scope].retired,
{
}

/// Only the owner of a call can answer it, and only once.
pub proof fn answers_are_accepted_once(hub: HubView, params: JsonView, bytes: usize, again: usize)
    requires
        answered_call(hub, params, bytes) is Ok,
    ensures
        ({
            let call = answered_call(hub, params, bytes)->Ok_0;
            let after = HubView { pending: hub.pending.remove(call), ..hub };
            &&& hub.pending[call].named_by(params)
            &&& answered_call(after, params, again) == Err::<Seq<char>, Seq<char>>(
                "tool call is not pending"@,
            )
        }),
{
}

} // verus!
