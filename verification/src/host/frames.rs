//! Requests to the host and the frames that it answers with. Every frame is of protocol
//! version 1.

use crate::acp::recording::{member, number_json};
use crate::json::{at, json_views, text_at, text_of, Json, JsonNumber, JsonView};
use crate::run::RunStatus;
use crate::table::Table;
use crate::text::same_text;
use vstd::prelude::*;
use vstd::string::*;

verus! {

/// The longest line that is read or written.
pub const MAX_LINE: usize = 1048576;

/// The most sessions that the host has at a time.
pub const MAX_SESSIONS: usize = 8;

/// The most reads of histories that the host has at a time.
pub const MAX_READS: usize = 4;

/// A request.
pub struct Request {
    pub version: u32,
    pub id: String,
    pub method: String,
    pub params: Json,
}

/// What a `Request` holds.
#[verifier::ext_equal]
pub struct RequestView {
    pub version: u32,
    pub id: Seq<char>,
    pub method: Seq<char>,
    pub params: JsonView,
}

impl DeepView for Request {
    type V = RequestView;

    open spec fn deep_view(&self) -> RequestView {
        RequestView {
            version: self.version,
            id: self.id@,
            method: self.method@,
            params: self.params.deep_view(),
        }
    }
}

/// The members that every frame has.
pub open spec fn frame() -> Map<Seq<char>, JsonView> {
    member("version"@, number_json(1))
}

/// The answer that a request succeeded.
pub open spec fn ok_json(id: Seq<char>, result: JsonView) -> JsonView {
    JsonView::Object(
        frame().insert("id"@, JsonView::Text(id)).insert("ok"@, JsonView::Bool(true)).insert(
            "result"@,
            result,
        ),
    )
}

/// The answer that a request was refused.
pub open spec fn error_json(id: Seq<char>, code: Seq<char>, message: Seq<char>) -> JsonView {
    JsonView::Object(
        frame().insert("id"@, JsonView::Text(id)).insert("ok"@, JsonView::Bool(false)).insert(
            "error"@,
            JsonView::Object(
                member("code"@, JsonView::Text(code)).insert("message"@, JsonView::Text(message)),
            ),
        ),
    )
}

/// The members of an event.
pub open spec fn event(name: Seq<char>) -> Map<Seq<char>, JsonView> {
    frame().insert("event"@, JsonView::Text(name))
}

fn new_frame() -> (r: Table<Json>)
    ensures
        r.deep_view() == frame(),
{
    broadcast use json_views;

    let mut members: Table<Json> = Table::new();
    assert(members.deep_view() =~= Map::<Seq<char>, JsonView>::empty());
    members.put("version".to_owned(), Json::Number(JsonNumber::PosInt(1)));
    members
}

/// The members of an event.
pub fn new_event(name: &str) -> (r: Table<Json>)
    ensures
        r.deep_view() == event(name@),
{
    broadcast use json_views;

    let mut members = new_frame();
    members.put("event".to_owned(), Json::Text(name.to_owned()));
    members
}

/// An object with one member.
pub fn new_member(name: &str, value: Json) -> (r: Table<Json>)
    ensures
        r.deep_view() == member(name@, value.deep_view()),
{
    let mut members: Table<Json> = Table::new();
    assert(members.deep_view() =~= Map::<Seq<char>, JsonView>::empty());
    members.put(name.to_owned(), value);
    members
}

/// Sets a member to a text.
pub fn put_text(members: &mut Table<Json>, name: &str, text: &str)
    ensures
        final(members).deep_view() == old(members).deep_view().insert(name@, JsonView::Text(text@)),
{
    broadcast use json_views;

    members.put(name.to_owned(), Json::Text(text.to_owned()));
}

/// The answer that a request succeeded.
pub fn ok(id: &str, result: Json) -> (r: Json)
    ensures
        r.deep_view() == ok_json(id@, result.deep_view()),
{
    broadcast use json_views;

    let mut members = new_frame();
    put_text(&mut members, "id", id);
    members.put("ok".to_owned(), Json::Bool(true));
    members.put("result".to_owned(), result);
    Json::Object(members)
}

/// The answer that a request was refused.
pub fn error(id: &str, code: &str, message: &str) -> (r: Json)
    ensures
        r.deep_view() == error_json(id@, code@, message@),
{
    broadcast use json_views;

    let mut inner: Table<Json> = Table::new();
    assert(inner.deep_view() =~= Map::<Seq<char>, JsonView>::empty());
    put_text(&mut inner, "code", code);
    put_text(&mut inner, "message", message);
    let mut members = new_frame();
    put_text(&mut members, "id", id);
    members.put("ok".to_owned(), Json::Bool(false));
    members.put("error".to_owned(), Json::Object(inner));
    Json::Object(members)
}

/// What is said of a line that is no request.
pub open spec fn protocol_error_json(code: Seq<char>) -> JsonView {
    JsonView::Object(event("protocol_error"@).insert("code"@, JsonView::Text(code)))
}

/// What is said of a line that is no request.
pub fn protocol_error(code: &str) -> (r: Json)
    ensures
        r.deep_view() == protocol_error_json(code@),
{
    broadcast use json_views;

    let mut members = new_event("protocol_error");
    put_text(&mut members, "code", code);
    Json::Object(members)
}

/// The frame with which the host starts.
pub fn ready() -> (r: Json)
    ensures
        r.deep_view() == JsonView::Object(event("ready"@).insert("protocol"@, number_json(1))),
{
    broadcast use json_views;

    let mut members = new_event("ready");
    members.put("protocol".to_owned(), Json::Number(JsonNumber::PosInt(1)));
    Json::Object(members)
}

/// A line that is too long ends the conversation.
pub fn check_line(length: usize) -> (r: Option<Json>)
    ensures
        length <= MAX_LINE ==> r is None,
        length > MAX_LINE ==> r is Some && r->0.deep_view() == protocol_error_json(
            "frame_too_large"@,
        ),
{
    if length > MAX_LINE {
        Some(protocol_error("frame_too_large"))
    } else {
        None
    }
}

/// A text parameter that has to say something.
pub open spec fn parameter(params: JsonView, key: Seq<char>) -> Result<Seq<char>, Seq<char>> {
    match text_of(at(params, key)) {
        Some(text) => if text.len() == 0 {
            Err("missing or empty string parameter"@)
        } else {
            Ok(text)
        },
        None => Err("missing or empty string parameter"@),
    }
}

/// A text parameter that has to say something.
pub fn string<'a>(params: &'a Json, key: &str) -> (r: Result<&'a String, String>)
    ensures
        match r {
            Ok(text) => parameter(params.deep_view(), key@) == Ok::<Seq<char>, Seq<char>>(text@),
            Err(e) => parameter(params.deep_view(), key@) == Err::<Seq<char>, Seq<char>>(e@),
        },
{
    match text_at(params, key) {
        Some(text) => {
            if text.as_str().unicode_len() == 0 {
                Err("missing or empty string parameter".to_owned())
            } else {
                Ok(text)
            }
        },
        None => Err("missing or empty string parameter".to_owned()),
    }
}

/// The name of a run's status.
pub open spec fn status_name(status: RunStatus) -> Seq<char> {
    match status {
        RunStatus::Queued => "queued"@,
        RunStatus::Starting => "starting"@,
        RunStatus::Running => "running"@,
        RunStatus::Cancelling => "cancelling"@,
        RunStatus::Completed => "completed"@,
        RunStatus::Failed => "failed"@,
        RunStatus::Cancelled => "cancelled"@,
        RunStatus::Unknown => "unknown"@,
    }
}

/// The name of a run's status.
pub fn state(status: RunStatus) -> (r: &'static str)
    ensures
        r@ == status_name(status),
{
    match status {
        RunStatus::Queued => "queued",
        RunStatus::Starting => "starting",
        RunStatus::Running => "running",
        RunStatus::Cancelling => "cancelling",
        RunStatus::Completed => "completed",
        RunStatus::Failed => "failed",
        RunStatus::Cancelled => "cancelled",
        RunStatus::Unknown => "unknown",
    }
}

/// What the host knows when a request comes.
#[derive(Debug, Clone, Copy, PartialEq, Eq, Structural)]
pub struct HostState {
    /// Whether tools may no longer be declared.
    pub tools_locked: bool,
    /// Whether questions were negotiated.
    pub question_protocol: bool,
    /// The sessions that are open.
    pub sessions: usize,
    /// The reads that go on.
    pub reads: usize,
}

/// What is done with a request.
pub enum Route {
    /// It is answered.
    Reply(Json),
    /// It is answered, and the host stops.
    Stop(Json),
    /// Its parameters declare tools.
    Configure,
    ToolResult,
    /// It is about a question; the flag tells whether it asks one.
    Question { asks: bool },
    CreateSession,
    /// It reads a history.
    Read,
    /// It goes to a session.
    Session(String),
}

/// What is done with a request.
pub enum RouteView {
    Reply(JsonView),
    Stop(JsonView),
    Configure,
    ToolResult,
    Question { asks: bool },
    CreateSession,
    Read,
    Session(Seq<char>),
}

impl DeepView for Route {
    type V = RouteView;

    open spec fn deep_view(&self) -> RouteView {
        match self {
            Route::Reply(frame) => RouteView::Reply(frame.deep_view()),
            Route::Stop(frame) => RouteView::Stop(frame.deep_view()),
            Route::Configure => RouteView::Configure,
            Route::ToolResult => RouteView::ToolResult,
            Route::Question { asks } => RouteView::Question { asks: *asks },
            Route::CreateSession => RouteView::CreateSession,
            Route::Read => RouteView::Read,
            Route::Session(id) => RouteView::Session(id@),
        }
    }
}

/// The method is one of a session.
pub open spec fn session_method(method: Seq<char>) -> bool {
    method == "run"@ || method == "cancel"@ || method == "respond"@ || method
        == "pending_permissions"@
}

/// The method reads a history.
pub open spec fn read_method(method: Seq<char>) -> bool {
    method == "history"@ || method == "snapshot"@ || method == "changes"@
}

/// The method is about a question.
pub open spec fn question_method(method: Seq<char>) -> bool {
    method == "question_ask"@ || method == "question_answer"@ || method == "question_pending"@
}

/// What is done with a request.
pub open spec fn routed(state: HostState, request: RequestView) -> RouteView {
    let id = request.id;
    let method = request.method;
    if request.version != 1 || id.len() == 0 {
        RouteView::Reply(
            error_json(
                id,
                "unsupported_protocol"@,
                "version 1 and a nonempty request ID are required"@,
            ),
        )
    } else if method == "configure_tools"@ {
        if state.tools_locked {
            RouteView::Reply(
                error_json(
                    id,
                    "tools_locked"@,
                    "tool declarations are immutable after configuration or session creation"@,
                ),
            )
        } else {
            RouteView::Configure
        }
    } else if method == "tool_result"@ {
        RouteView::ToolResult
    } else if question_method(method) {
        if state.question_protocol {
            RouteView::Question { asks: method == "question_ask"@ }
        } else {
            RouteView::Reply(
                error_json(
                    id,
                    "questions_disabled"@,
                    "question callbacks were not negotiated"@,
                ),
            )
        }
    } else if method == "ping"@ {
        RouteView::Reply(ok_json(id, JsonView::Object(member("alive"@, JsonView::Bool(true)))))
    } else if method == "shutdown"@ {
        RouteView::Stop(
            ok_json(id, JsonView::Object(member("shutdown_requested"@, JsonView::Bool(true)))),
        )
    } else if method == "create_session"@ {
        if state.sessions >= MAX_SESSIONS {
            RouteView::Reply(error_json(id, "session_limit"@, "host session limit reached"@))
        } else {
            RouteView::CreateSession
        }
    } else if read_method(method) {
        if state.reads >= MAX_READS {
            RouteView::Reply(
                error_json(id, "history_limit"@, "too many concurrent history requests"@),
            )
        } else {
            RouteView::Read
        }
    } else if session_method(method) {
        match parameter(request.params, "session_id"@) {
            Ok(session) => RouteView::Session(session),
            Err(e) => RouteView::Reply(error_json(id, "invalid_params"@, e)),
        }
    } else {
        RouteView::Reply(error_json(id, "unknown_method"@, "unknown host method"@))
    }
}

/// What is done with a request.
pub fn route(state: HostState, request: &Request) -> (r: Route)
    ensures
        r.deep_view() == routed(state, request.deep_view()),
{
    broadcast use json_views;

    let id = request.id.as_str();
    let method = request.method.as_str();
    if request.version != 1 || id.unicode_len() == 0 {
        return Route::Reply(
            error(
                id,
                "unsupported_protocol",
                "version 1 and a nonempty request ID are required",
            ),
        );
    }
    if same_text(method, "configure_tools") {
        if state.tools_locked {
            return Route::Reply(
                error(
                    id,
                    "tools_locked",
                    "tool declarations are immutable after configuration or session creation",
                ),
            );
        }
        return Route::Configure;
    }
    if same_text(method, "tool_result") {
        return Route::ToolResult;
    }
    let asks = same_text(method, "question_ask");
    if asks || same_text(method, "question_answer") || same_text(method, "question_pending") {
        if !state.question_protocol {
            return Route::Reply(
                error(id, "questions_disabled", "question callbacks were not negotiated"),
            );
        }
        return Route::Question { asks };
    }
    if same_text(method, "ping") {
        return Route::Reply(ok(id, Json::Object(new_member("alive", Json::Bool(true)))));
    }
    if same_text(method, "shutdown") {
        return Route::Stop(
            ok(id, Json::Object(new_member("shutdown_requested", Json::Bool(true)))),
        );
    }
    if same_text(method, "create_session") {
        if state.sessions >= MAX_SESSIONS {
            return Route::Reply(error(id, "session_limit", "host session limit reached"));
        }
        return Route::CreateSession;
    }
    if same_text(method, "history") || same_text(method, "snapshot") || same_text(
        method,
        "changes",
    ) {
        if state.reads >= MAX_READS {
            return Route::Reply(
                error(id, "history_limit", "too many concurrent history requests"),
            );
        }
        return Route::Read;
    }
    if same_text(method, "run") || same_text(method, "cancel") || same_text(method, "respond")
        || same_text(method, "pending_permissions") {
        return match string(&request.params, "session_id") {
            Ok(session) => Route::Session(session.clone()),
            Err(e) => Route::Reply(error(id, "invalid_params", e.as_str())),
        };
    }
    Route::Reply(error(id, "unknown_method", "unknown host method"))
}

/// Why a request does not reach its session: there is no such session, or its queue
/// takes no more.
pub fn unreachable_session(id: &str, known: bool) -> (r: Json)
    ensures
        r.deep_view() == if known {
            error_json(id@, "session_unavailable"@, "session queue is full or closed"@)
        } else {
            error_json(id@, "unknown_session"@, "session is not owned by this host"@)
        },
{
    if known {
        error(id, "session_unavailable", "session queue is full or closed")
    } else {
        error(id, "unknown_session", "session is not owned by this host")
    }
}

/// Why declared tools cannot be served, by the protocols that were asked for.
pub fn check_protocols(id: &str, callbacks: u32, questions: Option<u32>) -> (r: Option<Json>)
    ensures
        match r {
            None => callbacks == 1 && (questions is None || questions == Some(1u32)),
            Some(frame) => frame.deep_view() == if callbacks != 1 {
                error_json(
                    id@,
                    "unsupported_tool_protocol"@,
                    "tool callback protocol 1 required"@,
                )
            } else {
                error_json(
                    id@,
                    "unsupported_question_protocol"@,
                    "question protocol 1 required"@,
                )
            } && !(callbacks == 1 && (questions is None || questions == Some(1u32))),
        },
{
    if callbacks != 1 {
        return Some(
            error(id, "unsupported_tool_protocol", "tool callback protocol 1 required"),
        );
    }
    match questions {
        Some(version) => {
            if version != 1 {
                return Some(
                    error(id, "unsupported_question_protocol", "question protocol 1 required"),
                );
            }
        },
        None => {},
    }
    None
}

/// The answer that tools were declared, and the state that follows: they cannot be
/// declared again.
pub fn configured(state: HostState, id: &str, questions: Option<u32>) -> (r: (HostState, Json))
    ensures
        r.0 == (HostState {
            tools_locked: true,
            question_protocol: questions == Some(1u32),
            ..state
        }),
        r.1.deep_view() == ok_json(
            id@,
            JsonView::Object(
                member("callback_protocol"@, number_json(1)).insert(
                    "question_protocol"@,
                    match questions {
                        Some(version) => number_json(version as u64),
                        None => JsonView::Null,
                    },
                ),
            ),
        ),
{
    broadcast use json_views;

    let mut members = new_member("callback_protocol", Json::Number(JsonNumber::PosInt(1)));
    members.put(
        "question_protocol".to_owned(),
        match questions {
            Some(version) => Json::Number(JsonNumber::PosInt(version as u64)),
            None => Json::Null,
        },
    );
    let question_protocol = match questions {
        Some(version) => version == 1,
        None => false,
    };
    (
        HostState {
            tools_locked: true,
            question_protocol,
            sessions: state.sessions,
            reads: state.reads,
        },
        ok(id, Json::Object(members)),
    )
}

/// Tools are declared once at most: after that, and after the first session was
/// created, the request is refused.
pub proof fn tools_are_declared_once(state: HostState, request: RequestView)
    requires
        state.tools_locked,
        request.version == 1,
        request.id.len() > 0,
        request.method == "configure_tools"@,
    ensures
        routed(state, request) matches RouteView::Reply(_),
{
}

} // verus!
