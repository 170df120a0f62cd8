//! What a session of the host does with commands and with what its runs report.

use crate::acp::event::{
    AcpEvent, AcpEventView, ChunkContent, ChunkContentView, PermissionId, PermissionIdView,
    PermissionRequest, PermissionRequestView, StopReason, StopReasonView,
};
use crate::acp::recording::member;
use crate::acp::session::{Route, RouteView};
use crate::datum::{outcome, Datum};
use crate::host::frames::{
    error, error_json, event, new_event, new_member, ok, ok_json, parameter, put_text, state,
    status_name, string, Request, RequestView,
};
use crate::json::{at, find_at, json_views, says_at, text_of, Json, JsonView};
use crate::records::{PermissionOption, PermissionOptionView};
use crate::run::RunStatus;
use crate::table::Table;
use crate::text::{blank, is_blank, same_text, text_before};
use vstd::prelude::*;

verus! {

/// Refuses a session before anything is opened or launched. The flags tell whether the
/// two paths are absolute.
pub fn check_open(database: bool, workspace: bool, executable: &str) -> (r: Result<(), String>)
    ensures
        outcome(r) == if database && workspace && !blank(executable@) {
            Ok::<(), Seq<char>>(())
        } else {
            Err(
                "database/workspace must be absolute paths and executable must be nonempty"@,
            )
        },
{
    if !database || !workspace || is_blank(executable) {
        return Err(
            "database/workspace must be absolute paths and executable must be nonempty".to_owned(),
        );
    }
    Ok(())
}

/// A permission request that was handed out under a token, with the frame that did so.
#[derive(Debug, PartialEq, Eq)]
pub struct HeldPermission {
    pub id: PermissionId,
    pub event: Json,
}

/// What a `HeldPermission` holds.
#[verifier::ext_equal]
pub struct HeldPermissionView {
    pub id: PermissionIdView,
    pub event: JsonView,
}

impl DeepView for HeldPermission {
    type V = HeldPermissionView;

    open spec fn deep_view(&self) -> HeldPermissionView {
        HeldPermissionView {
            id: self.id.deep_view(),
            event: self.event.deep_view(),
        }
    }
}

impl Datum for HeldPermission {
    fn duplicate(&self) -> (r: HeldPermission) {
        HeldPermission {
            id: self.id.duplicate(),
            event: self.event.duplicate(),
        }
    }

    fn same_as(&self, other: &HeldPermission) -> (r: bool) {
        self.id.same_as(&other.id)
            && self.event.same_as(&other.event)
    }
}


/// The requests that were handed out, by token.
pub type Held = Map<Seq<char>, HeldPermissionView>;

/// The requests that are still unanswered.
pub open spec fn unanswered(held: Held, route: RouteView) -> Held {
    Map::new(
        |token: Seq<char>| held.contains_key(token) && route.pending.contains_key(held[token].id),
        |token: Seq<char>| held[token],
    )
}

/// The tokens in ascending order.
pub open spec fn lists_tokens(held: Held, tokens: Seq<Seq<char>>) -> bool {
    &&& forall|token: Seq<char>| #[trigger] held.contains_key(token) <==> tokens.contains(token)
    &&& forall|i: int, j: int|
        0 <= i < j < tokens.len() ==> text_before(#[trigger] tokens[i], #[trigger] tokens[j])
}

/// A run of the session.
pub struct ActiveWork {
    /// The request that started it.
    pub stream: String,
    pub run_id: String,
    pub held: Table<HeldPermission>,
    pub reason: Option<StopReason>,
    pub failure: Option<String>,
}

/// What an `ActiveWork` holds.
#[verifier::ext_equal]
pub struct ActiveWorkView {
    pub stream: Seq<char>,
    pub run_id: Seq<char>,
    pub held: Held,
    pub reason: Option<StopReasonView>,
    pub failure: Option<Seq<char>>,
}

impl DeepView for ActiveWork {
    type V = ActiveWorkView;

    open spec fn deep_view(&self) -> ActiveWorkView {
        ActiveWorkView {
            stream: self.stream@,
            run_id: self.run_id@,
            held: self.held.deep_view(),
            reason: self.reason.deep_view(),
            failure: self.failure.deep_view(),
        }
    }
}

/// What a command leads to while nothing runs.
pub enum IdleStep {
    Reply(Json),
    /// A run with this prompt is to be started.
    Start { prompt: String },
}

/// What a command leads to while nothing runs.
pub enum IdleStepView {
    Reply(JsonView),
    Start { prompt: Seq<char> },
}

impl DeepView for IdleStep {
    type V = IdleStepView;

    open spec fn deep_view(&self) -> IdleStepView {
        match self {
            IdleStep::Reply(frame) => IdleStepView::Reply(frame.deep_view()),
            IdleStep::Start { prompt } => IdleStepView::Start { prompt: prompt@ },
        }
    }
}

/// What a command leads to while nothing runs.
pub open spec fn idle_step(request: RequestView) -> IdleStepView {
    if request.method != "run"@ {
        IdleStepView::Reply(
            error_json(request.id, "not_running"@, "session has no active run"@),
        )
    } else {
        match parameter(request.params, "prompt"@) {
            Ok(prompt) => IdleStepView::Start { prompt },
            Err(e) => IdleStepView::Reply(error_json(request.id, "invalid_params"@, e)),
        }
    }
}

/// What a command leads to while nothing runs.
pub fn idle_command(request: &Request) -> (r: IdleStep)
    ensures
        r.deep_view() == idle_step(request.deep_view()),
{
    let id = request.id.as_str();
    if !same_text(request.method.as_str(), "run") {
        return IdleStep::Reply(error(id, "not_running", "session has no active run"));
    }
    match string(&request.params, "prompt") {
        Ok(prompt) => IdleStep::Start { prompt: prompt.clone() },
        Err(e) => IdleStep::Reply(error(id, "invalid_params", e.as_str())),
    }
}

/// What a command leads to while a run goes on.
pub enum ActiveStep {
    Reply(Json),
    /// The unanswered requests are to be listed.
    ListPermissions,
    /// The run is to be cancelled.
    Cancel,
    /// A request is to be answered.
    Respond { token: String, permission: PermissionId, option: Option<String> },
}

/// What a command leads to while a run goes on.
pub enum ActiveStepView {
    Reply(JsonView),
    ListPermissions,
    Cancel,
    Respond { token: Seq<char>, permission: PermissionIdView, option: Option<Seq<char>> },
}

impl DeepView for ActiveStep {
    type V = ActiveStepView;

    open spec fn deep_view(&self) -> ActiveStepView {
        match self {
            ActiveStep::Reply(frame) => ActiveStepView::Reply(frame.deep_view()),
            ActiveStep::ListPermissions => ActiveStepView::ListPermissions,
            ActiveStep::Cancel => ActiveStepView::Cancel,
            ActiveStep::Respond { token, permission, option } => ActiveStepView::Respond {
                token: token@,
                permission: permission.deep_view(),
                option: option.deep_view(),
            },
        }
    }
}

/// The option that an answer chooses, if any.
pub open spec fn chosen_option(params: JsonView) -> Result<Option<Seq<char>>, Seq<char>> {
    match at(params, "option_id"@) {
        JsonView::Null => Ok(None),
        JsonView::Text(option) => Ok(Some(option)),
        _ => Err("option_id must be a string or null"@),
    }
}

/// The answer to a request that was handed out.
pub open spec fn response_step(held: Held, request: RequestView) -> ActiveStepView {
    match parameter(request.params, "permission_id"@) {
        Err(e) => ActiveStepView::Reply(error_json(request.id, "invalid_response"@, e)),
        Ok(token) => if !held.contains_key(token) {
            ActiveStepView::Reply(
                error_json(request.id, "invalid_response"@, "permission is not pending"@),
            )
        } else {
            match chosen_option(request.params) {
                Err(e) => ActiveStepView::Reply(error_json(request.id, "invalid_response"@, e)),
                Ok(option) => ActiveStepView::Respond {
                    token,
                    permission: held[token].id,
                    option,
                },
            }
        },
    }
}

impl ActiveWorkView {
    /// A run that has just started.
    pub open spec fn started(stream: Seq<char>, run_id: Seq<char>) -> ActiveWorkView {
        ActiveWorkView { stream, run_id, held: Map::empty(), reason: None, failure: None }
    }

    /// What a command leads to.
    pub open spec fn step(self, request: RequestView) -> ActiveStepView {
        if request.method == "run"@ {
            ActiveStepView::Reply(
                error_json(request.id, "session_busy"@, "session already has an active run"@),
            )
        } else if text_of(at(request.params, "run_id"@)) != Some(self.run_id) {
            ActiveStepView::Reply(
                error_json(request.id, "stale_run"@, "run ID is not active"@),
            )
        } else if request.method == "pending_permissions"@ {
            ActiveStepView::ListPermissions
        } else if request.method == "cancel"@ {
            ActiveStepView::Cancel
        } else if request.method == "respond"@ {
            response_step(self.held, request)
        } else {
            ActiveStepView::Reply(
                error_json(request.id, "unknown_method"@, "unsupported session command"@),
            )
        }
    }

    /// The members of an event of this run.
    pub open spec fn event(self, name: Seq<char>, session: Seq<char>) -> Map<Seq<char>, JsonView> {
        event(name).insert("stream"@, JsonView::Text(self.stream)).insert(
            "session_id"@,
            JsonView::Text(session),
        ).insert("run_id"@, JsonView::Text(self.run_id))
    }

    /// The frame that hands a request out.
    pub open spec fn permission_json(
        self,
        session: Seq<char>,
        token: Seq<char>,
        request: PermissionRequestView,
    ) -> JsonView {
        JsonView::Object(
            self.event("permission"@, session).insert(
                "permission_id"@,
                JsonView::Text(token),
            ).insert(
                "title"@,
                match request.tool.title {
                    Some(title) => JsonView::Text(title),
                    None => JsonView::Null,
                },
            ).insert(
                "options"@,
                JsonView::Array(
                    request.options.map_values(|option: PermissionOptionView| option_json(option)),
                ),
            ),
        )
    }

    /// What is known after an event, and the frame that tells of it.
    pub open spec fn observed(
        self,
        session: Seq<char>,
        route: RouteView,
        token: Seq<char>,
        seen: AcpEventView,
    ) -> (ActiveWorkView, Option<JsonView>) {
        match seen {
            AcpEventView::AgentMessage(chunk) => match chunk.content {
                ChunkContentView::Text(text) => (
                    self,
                    Some(
                        JsonView::Object(
                            self.event("text_delta"@, session).insert(
                                "text"@,
                                JsonView::Text(text),
                            ),
                        ),
                    ),
                ),
                _ => (self, None),
            },
            AcpEventView::Permission { id, request } => if route.pending.contains_key(id) {
                let frame = self.permission_json(session, token, request);
                (
                    ActiveWorkView {
                        held: unanswered(self.held, route).insert(
                            token,
                            HeldPermissionView { id, event: frame },
                        ),
                        ..self
                    },
                    Some(frame),
                )
            } else {
                (self, None)
            },
            AcpEventView::Finished(reason) => (
                ActiveWorkView { reason: Some(reason), ..self },
                None,
            ),
            _ => (self, None),
        }
    }

    /// The frame that tells of the end. A run whose recording failed has no known end.
    pub open spec fn end_json(self, session: Seq<char>, status: RunStatus) -> JsonView {
        JsonView::Object(
            self.event("run_finished"@, session).insert(
                "status"@,
                JsonView::Text(
                    if self.failure is Some {
                        "unknown"@
                    } else {
                        status_name(status)
                    },
                ),
            ).insert(
                "reason"@,
                match self.reason {
                    Some(reason) => JsonView::Text(reason.wire()),
                    None => JsonView::Null,
                },
            ).insert(
                "recording_error"@,
                match self.failure {
                    Some(failure) => JsonView::Text(failure),
                    None => JsonView::Null,
                },
            ),
        )
    }
}

/// An option in a frame.
pub open spec fn option_json(option: PermissionOptionView) -> JsonView {
    JsonView::Object(
        member("id"@, JsonView::Text(option.id)).insert(
            "label"@,
            JsonView::Text(option.label),
        ).insert("effect"@, JsonView::Text(option.effect)),
    )
}

fn make_options(options: &Vec<PermissionOption>) -> (r: Json)
    ensures
        r.deep_view() == JsonView::Array(
            options.deep_view().map_values(|option: PermissionOptionView| option_json(option)),
        ),
{
    broadcast use json_views;

    let mut items: Vec<Json> = Vec::new();
    let mut i: usize = 0;
    while i < options.len()
        invariant
            i <= options.len(),
            items.len() == i,
            forall|j: int|
                0 <= j < i ==> (#[trigger] items@[j]).deep_view() == option_json(
                    options.deep_view()[j],
                ),
        decreases options.len() - i,
    {
        broadcast use json_views;

        assert(options.deep_view()[i as int] == options@[i as int].deep_view());
        let option = &options[i];
        let mut members = new_member("id", Json::Text(option.id.clone()));
        put_text(&mut members, "label", option.label.as_str());
        put_text(&mut members, "effect", option.effect.as_str());
        items.push(Json::Object(members));
        i = i + 1;
    }
    assert(items.deep_view() =~= options.deep_view().map_values(
        |option: PermissionOptionView| option_json(option),
    ));
    Json::Array(items)
}

fn keep_unanswered(held: &Table<HeldPermission>, route: &Route) -> (r: Table<HeldPermission>)
    ensures
        r.deep_view() == unanswered(held.deep_view(), route.deep_view()),
{
    let n: usize = held.len();
    let mut kept: Table<HeldPermission> = Table::new();
    let mut i: usize = 0;
    assert(kept.deep_view() =~= Map::<Seq<char>, HeldPermissionView>::empty());
    while i < n
        invariant
            i <= n,
            n == held.keys().len(),
            forall|token: Seq<char>| #[trigger]
                held.deep_view().contains_key(token) <==> held.keys().contains(token),
            forall|a: int, b: int|
                0 <= a < b < held.keys().len() ==> text_before(
                    #[trigger] held.keys()[a],
                    #[trigger] held.keys()[b],
                ),
            forall|token: Seq<char>| #[trigger]
                kept.deep_view().contains_key(token) <==> held.keys().take(i as int).contains(token)
                    && route.deep_view().pending.contains_key(held.deep_view()[token].id),
            forall|token: Seq<char>| #[trigger]
                kept.deep_view().contains_key(token) ==> kept.deep_view()[token]
                    == held.deep_view()[token],
        decreases n - i,
    {
        let token = held.key_at(i);
        let permission = held.value_at(i);
        assert(held.deep_view()[token@] == permission.deep_view());
        let ghost before = kept.deep_view();
        assert(held.keys().take(i + 1) =~= held.keys().take(i as int).push(token@));
        assert forall|other: Seq<char>| #[trigger]
            held.keys().take(i + 1).contains(other) <==> held.keys().take(i as int).contains(other)
                || other == token@ by {
            let more = held.keys().take(i + 1);
            let fewer = held.keys().take(i as int);
            assert(more[i as int] == token@);
            if fewer.contains(other) {
                let j = choose|j: int| 0 <= j < fewer.len() && fewer[j] == other;
                assert(more[j] == other);
            }
            if more.contains(other) && other != token@ {
                let j = choose|j: int| 0 <= j < more.len() && more[j] == other;
                assert(fewer[j] == other);
            }
        }
        let ghost name = token@;
        let ghost earlier = held.keys().take(i as int);
        let ghost later = held.keys().take(i + 1);
        if route.is_pending(&permission.id) {
            kept.put(token.clone(), permission.duplicate());
        }
        assert forall|other: Seq<char>| #[trigger]
            kept.deep_view().contains_key(other) <==> later.contains(other)
                && route.deep_view().pending.contains_key(held.deep_view()[other].id) by {
            assert(later.contains(other) <==> earlier.contains(other) || other == name);
            assert(before.contains_key(other) <==> earlier.contains(other)
                && route.deep_view().pending.contains_key(held.deep_view()[other].id));
        }
        i = i + 1;
    }
    assert(held.keys().take(n as int) =~= held.keys());
    assert(kept.deep_view() =~= unanswered(held.deep_view(), route.deep_view()));
    kept
}

impl ActiveWork {
    /// A run that has just started.
    pub fn new(stream: String, run_id: String) -> (r: ActiveWork)
        ensures
            r.deep_view() == ActiveWorkView::started(stream@, run_id@),
    {
        let held: Table<HeldPermission> = Table::new();
        assert(held.deep_view() =~= Map::<Seq<char>, HeldPermissionView>::empty());
        ActiveWork { stream, run_id, held, reason: None, failure: None }
    }

    /// What a command leads to.
    pub fn command(&self, request: &Request) -> (r: ActiveStep)
        ensures
            r.deep_view() == self.deep_view().step(request.deep_view()),
    {
        let id = request.id.as_str();
        let method = request.method.as_str();
        if same_text(method, "run") {
            return ActiveStep::Reply(
                error(id, "session_busy", "session already has an active run"),
            );
        }
        if !says_at(&request.params, "run_id", self.run_id.as_str()) {
            return ActiveStep::Reply(error(id, "stale_run", "run ID is not active"));
        }
        if same_text(method, "pending_permissions") {
            return ActiveStep::ListPermissions;
        }
        if same_text(method, "cancel") {
            return ActiveStep::Cancel;
        }
        if same_text(method, "respond") {
            return self.response(request);
        }
        ActiveStep::Reply(error(id, "unknown_method", "unsupported session command"))
    }

    fn response(&self, request: &Request) -> (r: ActiveStep)
        ensures
            r.deep_view() == response_step(self.deep_view().held, request.deep_view()),
    {
        broadcast use json_views;

        let id = request.id.as_str();
        let token = match string(&request.params, "permission_id") {
            Err(e) => return ActiveStep::Reply(error(id, "invalid_response", e.as_str())),
            Ok(token) => token,
        };
        let permission = match self.held.find(token.as_str()) {
            None => {
                return ActiveStep::Reply(
                    error(id, "invalid_response", "permission is not pending"),
                );
            },
            Some(permission) => permission,
        };
        let option = match find_at(&request.params, "option_id") {
            None | Some(Json::Null) => None,
            Some(Json::Text(option)) => Some(option.clone()),
            _ => {
                return ActiveStep::Reply(
                    error(id, "invalid_response", "option_id must be a string or null"),
                );
            },
        };
        ActiveStep::Respond {
            token: token.clone(),
            permission: permission.id.duplicate(),
            option,
        }
    }

    /// The answer with the unanswered requests, in the order of their tokens.
    pub fn list_permissions(&mut self, id: &str, route: &Route) -> (r: Json)
        ensures
            final(self).deep_view() == (ActiveWorkView {
                held: unanswered(old(self).deep_view().held, route.deep_view()),
                ..old(self).deep_view()
            }),
            exists|tokens: Seq<Seq<char>>|
                #[trigger] lists_tokens(final(self).deep_view().held, tokens) && r.deep_view() == ok_json(
                    id@,
                    JsonView::Array(
                        tokens.map_values(
                            |token: Seq<char>| final(self).deep_view().held[token].event,
                        ),
                    ),
                ),
    {
        broadcast use json_views;

        self.held = keep_unanswered(&self.held, route);
        let ghost held = self.held.deep_view();
        let n: usize = self.held.len();
        let ghost tokens = self.held.keys();
        let mut events: Vec<Json> = Vec::new();
        let mut i: usize = 0;
        while i < n
            invariant
                i <= n,
                n == self.held.keys().len(),
                held == self.held.deep_view(),
                tokens == self.held.keys(),
                events.len() == i,
                forall|j: int|
                    0 <= j < i ==> (#[trigger] events@[j]).deep_view() == held[tokens[j]].event,
            decreases n - i,
        {
            let permission = self.held.value_at(i);
            assert(held[tokens[i as int]] == permission.deep_view());
            events.push(permission.event.duplicate());
            i = i + 1;
        }
        assert(events.deep_view() =~= tokens.map_values(
            |token: Seq<char>| self.deep_view().held[token].event,
        ));
        assert(lists_tokens(held, tokens)) by {
            assert forall|token: Seq<char>| #[trigger]
                held.contains_key(token) <==> tokens.contains(token) by {
                assert(self.held@.contains_key(token) <==> tokens.contains(token));
            }
        }
        ok(id, Json::Array(events))
    }

    /// The answer to a cancellation, by what came of it.
    pub fn cancelled(&self, id: &str, result: Result<(), String>) -> (r: Json)
        ensures
            r.deep_view() == match result {
                Ok(_) => ok_json(
                    id@,
                    JsonView::Object(member("cancellation_requested"@, JsonView::Bool(true))),
                ),
                Err(e) => error_json(id@, "cancel_failed"@, e@),
            },
    {
        broadcast use json_views;

        match result {
            Ok(_) => ok(id, Json::Object(new_member("cancellation_requested", Json::Bool(true)))),
            Err(e) => error(id, "cancel_failed", e.as_str()),
        }
    }

    /// The answer to a response, by whether it was accepted. Only then is the request
    /// gone.
    pub fn responded(&mut self, id: &str, token: &str, accepted: bool) -> (r: Json)
        ensures
            accepted ==> final(self).deep_view() == (ActiveWorkView {
                held: old(self).deep_view().held.remove(token@),
                ..old(self).deep_view()
            }) && r.deep_view() == ok_json(
                id@,
                JsonView::Object(member("response_queued"@, JsonView::Bool(true))),
            ),
            !accepted ==> final(self).deep_view() == old(self).deep_view() && r.deep_view()
                == error_json(id@, "invalid_response"@, "permission response was rejected"@),
    {
        broadcast use json_views;

        if accepted {
            self.held.remove(token);
            assert(self.held.deep_view() =~= old(self).deep_view().held.remove(token@));
            ok(id, Json::Object(new_member("response_queued", Json::Bool(true))))
        } else {
            error(id, "invalid_response", "permission response was rejected")
        }
    }

    fn new_event(&self, name: &str, session: &str) -> (r: Table<Json>)
        ensures
            r.deep_view() == self.deep_view().event(name@, session@),
    {
        let mut members = new_event(name);
        put_text(&mut members, "stream", self.stream.as_str());
        put_text(&mut members, "session_id", session);
        put_text(&mut members, "run_id", self.run_id.as_str());
        members
    }

    fn permission_frame(&self, session: &str, token: &str, request: &PermissionRequest) -> (r: Json)
        ensures
            r.deep_view() == self.deep_view().permission_json(
                session@,
                token@,
                request.deep_view(),
            ),
    {
        broadcast use json_views;

        let mut members = self.new_event("permission", session);
        put_text(&mut members, "permission_id", token);
        members.put(
            "title".to_owned(),
            match &request.tool.title {
                Some(title) => Json::Text(title.clone()),
                None => Json::Null,
            },
        );
        members.put("options".to_owned(), make_options(&request.options));
        Json::Object(members)
    }

    /// Takes note of an event. `token` names a request that the event may hand out.
    pub fn observe(&mut self, session: &str, route: &Route, token: String, seen: &AcpEvent) -> (r:
        Option<Json>)
        ensures
            (final(self).deep_view(), r.deep_view()) == old(self).deep_view().observed(
                session@,
                route.deep_view(),
                token@,
                seen.deep_view(),
            ),
    {
        broadcast use json_views;

        match seen {
            AcpEvent::AgentMessage(chunk) => match &chunk.content {
                ChunkContent::Text(text) => {
                    let mut members = self.new_event("text_delta", session);
                    put_text(&mut members, "text", text.as_str());
                    Some(Json::Object(members))
                },
                _ => None,
            },
            AcpEvent::Permission { id, request } => {
                if !route.is_pending(id) {
                    return None;
                }
                let frame = self.permission_frame(session, token.as_str(), request);
                self.held = keep_unanswered(&self.held, route);
                self.held.put(
                    token,
                    HeldPermission { id: id.duplicate(), event: frame.duplicate() },
                );
                Some(frame)
            },
            AcpEvent::Finished(reason) => {
                self.reason = Some(reason.duplicate());
                None
            },
            _ => None,
        }
    }

    /// The recording or the connection failed.
    pub fn fail(&mut self, message: String)
        ensures
            final(self).deep_view() == (ActiveWorkView {
                failure: Some(message@),
                ..old(self).deep_view()
            }),
    {
        self.failure = Some(message);
    }

    /// The frame that tells of the end.
    pub fn end(&self, session: &str, status: RunStatus) -> (r: Json)
        ensures
            r.deep_view() == self.deep_view().end_json(session@, status),
    {
        broadcast use json_views;

        let mut members = self.new_event("run_finished", session);
        put_text(
            &mut members,
            "status",
            if self.failure.is_some() {
                "unknown"
            } else {
                state(status)
            },
        );
        members.put(
            "reason".to_owned(),
            match &self.reason {
                Some(reason) => Json::Text(reason.wire()),
                None => Json::Null,
            },
        );
        members.put(
            "recording_error".to_owned(),
            match &self.failure {
                Some(failure) => Json::Text(failure.clone()),
                None => Json::Null,
            },
        );
        Json::Object(members)
    }
}

/// The answer that a session was created.
pub fn created(
    id: &str,
    session: &str,
    slot: &str,
    configuration: Json,
    binding: Option<&String>,
) -> (r: Json)
    ensures
        r.deep_view() == ok_json(
            id@,
            JsonView::Object(
                member("session_id"@, JsonView::Text(session@)).insert(
                    "slot_id"@,
                    JsonView::Text(slot@),
                ).insert("configuration"@, configuration.deep_view()).insert(
                    "tool_binding_id"@,
                    match binding {
                        Some(binding) => JsonView::Text(binding@),
                        None => JsonView::Null,
                    },
                ),
            ),
        ),
{
    broadcast use json_views;

    let mut members = new_member("session_id", Json::Text(session.to_owned()));
    put_text(&mut members, "slot_id", slot);
    members.put("configuration".to_owned(), configuration);
    members.put(
        "tool_binding_id".to_owned(),
        match binding {
            Some(binding) => Json::Text(binding.clone()),
            None => Json::Null,
        },
    );
    ok(id, Json::Object(members))
}

/// The answer that a run was started.
pub fn started(id: &str, run: &str, session: &str) -> (r: Json)
    ensures
        r.deep_view() == ok_json(
            id@,
            JsonView::Object(
                member("run_id"@, JsonView::Text(run@)).insert(
                    "session_id"@,
                    JsonView::Text(session@),
                ),
            ),
        ),
{
    broadcast use json_views;

    let mut members = new_member("run_id", Json::Text(run.to_owned()));
    put_text(&mut members, "session_id", session);
    ok(id, Json::Object(members))
}

/// The frame that tells of an error of a session.
pub fn session_error(session: &str, message: &str) -> (r: Json)
    ensures
        r.deep_view() == JsonView::Object(
            event("session_error"@).insert("session_id"@, JsonView::Text(session@)).insert(
                "message"@,
                JsonView::Text(message@),
            ),
        ),
{
    broadcast use json_views;

    let mut members = new_event("session_error");
    put_text(&mut members, "session_id", session);
    put_text(&mut members, "message", message);
    Json::Object(members)
}

/// A command that names another run than the active one has no effect: it is refused
/// whatever it asks for.
pub proof fn stale_commands_are_refused(work: ActiveWorkView, request: RequestView)
    requires
        text_of(at(request.params, "run_id"@)) != Some(work.run_id),
    ensures
        work.step(request) is Reply,
{
}

/// Only one run goes on at a time: a second is refused.
pub proof fn runs_do_not_overlap(work: ActiveWorkView, request: RequestView)
    requires
        request.method == "run"@,
    ensures
        work.step(request) == ActiveStepView::Reply(
            error_json(request.id, "session_busy"@, "session already has an active run"@),
        ),
{
}

} // verus!
