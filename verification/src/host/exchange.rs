//! What holds of every frame that the host reads and writes.

use crate::acp::event::{
    AcpEventView, ChunkContentView, PermissionIdView, PermissionRequestView, StopReasonView,
};
use crate::host::frames::{
    error_json, ok_json, parameter, protocol_error_json, routed, status_name, HostState,
    RequestView, RouteView,
};
use crate::host::history::{
    after_of, cursor_json, cursor_of, digits_read, limit_of, next_json, query_of, record_json,
    session_of, unsigned_of, HistoryQueryView,
};
use crate::host::session::{
    idle_step, response_step, ActiveStepView, ActiveWorkView, HeldPermissionView, IdleStepView,
};
use crate::json::{JsonNumber, JsonView};
use crate::records::sqlite::changes::ChangeCursorView;
use crate::records::{RecordState, SnapshotView};
use crate::run::RunStatus;
use crate::text::{blank, decimal, white_space};
use vstd::prelude::*;

verus! {

/// A reply names its request and says whether it succeeded: a success brings its result,
/// an error its code and its message.
pub proof fn replies_say_whether_they_succeeded(
    id: Seq<char>,
    result: JsonView,
    code: Seq<char>,
    message: Seq<char>,
)
    ensures
        ok_json(id, result) == JsonView::Object(
            map![
                "version"@ => JsonView::Number(JsonNumber::PosInt(1)),
                "id"@ => JsonView::Text(id),
                "ok"@ => JsonView::Bool(true),
                "result"@ => result,
            ],
        ),
        error_json(id, code, message) == JsonView::Object(
            map![
                "version"@ => JsonView::Number(JsonNumber::PosInt(1)),
                "id"@ => JsonView::Text(id),
                "ok"@ => JsonView::Bool(false),
                "error"@ => JsonView::Object(
                    map!["code"@ => JsonView::Text(code), "message"@ => JsonView::Text(message)],
                ),
            ],
        ),
        protocol_error_json(code) == JsonView::Object(
            map![
                "version"@ => JsonView::Number(JsonNumber::PosInt(1)),
                "event"@ => JsonView::Text("protocol_error"@),
                "code"@ => JsonView::Text(code),
            ],
        ),
{
}

/// A parameter is the text that stands under its name, if there is one and it is not
/// empty.
pub proof fn parameters_are_texts(params: Map<Seq<char>, JsonView>, key: Seq<char>)
    ensures
        ({
            let given = parameter(JsonView::Object(params), key);
            &&& given is Ok <==> (params.contains_key(key) && (
            params[key] matches JsonView::Text(text) && text.len() > 0))
            &&& given matches Ok(text) ==> params[key] == JsonView::Text(text)
            &&& given matches Err(e) ==> e == "missing or empty string parameter"@
        }),
        forall|value: JsonView|
            !(value is Object) ==> (#[trigger] parameter(value, key)) is Err,
{
}

/// Every status has a name of its own.
pub proof fn statuses_have_names(status: RunStatus)
    ensures
        status == RunStatus::Queued ==> status_name(status) == "queued"@,
        status == RunStatus::Starting ==> status_name(status) == "starting"@,
        status == RunStatus::Running ==> status_name(status) == "running"@,
        status == RunStatus::Cancelling ==> status_name(status) == "cancelling"@,
        status == RunStatus::Completed ==> status_name(status) == "completed"@,
        status == RunStatus::Failed ==> status_name(status) == "failed"@,
        status == RunStatus::Cancelled ==> status_name(status) == "cancelled"@,
        status == RunStatus::Unknown ==> status_name(status) == "unknown"@,
{
}

/// The request is refused under its id with the code.
pub open spec fn refuses(reply: JsonView, id: Seq<char>, code: Seq<char>) -> bool {
    exists|message: Seq<char>| reply == #[trigger] error_json(id, code, message)
}

/// A request goes where its method sends it: of another version, without an id, or with a
/// method that is not known it is refused, and so are declarations after the tools are
/// locked, questions that were not negotiated, a session above the limit of eight and a
/// read above the limit of four.
pub proof fn requests_go_where_they_belong(state: HostState, request: RequestView)
    ensures
        ({
            let route = routed(state, request);
            let refused = |code: Seq<char>|
                route matches RouteView::Reply(reply) && refuses(reply, request.id, code);
            let method = request.method;
            let asks = method == "question_ask"@ || method == "question_answer"@ || method
                == "question_pending"@;
            let reads = method == "history"@ || method == "snapshot"@ || method == "changes"@;
            let acts = method == "run"@ || method == "cancel"@ || method == "respond"@ || method
                == "pending_permissions"@;
            if request.version != 1 || request.id.len() == 0 {
                refused("unsupported_protocol"@)
            } else {
                &&& method == "configure_tools"@ ==> if state.tools_locked {
                    refused("tools_locked"@)
                } else {
                    route is Configure
                }
                &&& method == "tool_result"@ ==> route is ToolResult
                &&& asks ==> if state.question_protocol {
                    route == (RouteView::Question { asks: method == "question_ask"@ })
                } else {
                    refused("questions_disabled"@)
                }
                &&& method == "ping"@ ==> route == RouteView::Reply(
                    ok_json(request.id, JsonView::Object(map!["alive"@ => JsonView::Bool(true)])),
                )
                &&& method == "shutdown"@ ==> route == RouteView::Stop(
                    ok_json(
                        request.id,
                        JsonView::Object(map!["shutdown_requested"@ => JsonView::Bool(true)]),
                    ),
                )
                &&& method == "create_session"@ ==> if state.sessions >= 8 {
                    refused("session_limit"@)
                } else {
                    route is CreateSession
                }
                &&& reads ==> if state.reads >= 4 {
                    refused("history_limit"@)
                } else {
                    route is Read
                }
                &&& acts ==> match parameter(request.params, "session_id"@) {
                    Ok(session) => route == RouteView::Session(session),
                    Err(_) => refused("invalid_params"@),
                }
                &&& method != "configure_tools"@ && method != "tool_result"@ && !asks && method
                    != "ping"@ && method != "shutdown"@ && method != "create_session"@ && !reads
                    && !acts ==> refused("unknown_method"@)
            }
        }),
{
    methods_are_told_apart();
}

/// No two methods share a name.
proof fn methods_are_told_apart()
    ensures
        forall|i: int, j: int|
            0 <= i < j < 15 ==> #[trigger] methods()[i] != #[trigger] methods()[j],
        methods().len() == 15,
{
    reveal_strlit("configure_tools");
    reveal_strlit("tool_result");
    reveal_strlit("question_ask");
    reveal_strlit("question_answer");
    reveal_strlit("question_pending");
    reveal_strlit("ping");
    reveal_strlit("shutdown");
    reveal_strlit("create_session");
    reveal_strlit("history");
    reveal_strlit("snapshot");
    reveal_strlit("changes");
    reveal_strlit("run");
    reveal_strlit("cancel");
    reveal_strlit("respond");
    reveal_strlit("pending_permissions");
    assert(methods().len() == 15);
    assert forall|i: int, j: int| 0 <= i < j < 15 implies #[trigger] methods()[i]
        != #[trigger] methods()[j] by {
        let a = methods()[i];
        let b = methods()[j];
        if a.len() == b.len() {
            assert(a[0] != b[0] || a[1] != b[1]);
        }
    }
}

/// The names of the methods.
spec fn methods() -> Seq<Seq<char>> {
    seq![
        "configure_tools"@,
        "tool_result"@,
        "question_ask"@,
        "question_answer"@,
        "question_pending"@,
        "ping"@,
        "shutdown"@,
        "create_session"@,
        "history"@,
        "snapshot"@,
        "changes"@,
        "run"@,
        "cancel"@,
        "respond"@,
        "pending_permissions"@,
    ]
}

/// A session without a run starts one when it is asked to with a prompt, and is told that
/// nothing runs by any other command.
pub proof fn idle_sessions_start_runs(request: RequestView)
    ensures
        ({
            let step = idle_step(request);
            let prompt = parameter(request.params, "prompt"@);
            &&& request.method == "run"@ && prompt is Ok ==> step == (IdleStepView::Start {
                prompt: prompt->Ok_0,
            })
            &&& request.method == "run"@ && prompt is Err ==> step == IdleStepView::Reply(
                error_json(request.id, "invalid_params"@, prompt->Err_0),
            )
            &&& request.method != "run"@ ==> step == IdleStepView::Reply(
                error_json(request.id, "not_running"@, "session has no active run"@),
            )
        }),
{
}

/// A command to a running session is carried out only if it names the run: it lists the
/// requests, cancels, or answers a request that is held. A second run is refused while one
/// goes on.
pub proof fn commands_name_their_run(
    work: ActiveWorkView,
    request: RequestView,
    params: Map<Seq<char>, JsonView>,
)
    requires
        request.params == JsonView::Object(params),
    ensures
        ({
            let step = work.step(request);
            let named = params.contains_key("run_id"@) && params["run_id"@] == JsonView::Text(
                work.run_id,
            );
            let refused = |code: Seq<char>|
                step matches ActiveStepView::Reply(reply) && refuses(reply, request.id, code);
            &&& request.method == "run"@ ==> refused("session_busy"@)
            &&& request.method != "run"@ && !named ==> refused("stale_run"@)
            &&& named && request.method == "pending_permissions"@ ==> step is ListPermissions
            &&& named && request.method == "cancel"@ ==> step is Cancel
            &&& named && request.method == "respond"@ ==> step == response_step(work.held, request)
            &&& named && request.method != "run"@ && request.method != "pending_permissions"@
                && request.method != "cancel"@ && request.method != "respond"@ ==> refused(
                "unknown_method"@,
            )
        }),
{
    methods_are_told_apart();
}

/// A request is answered with the option that the command names, or with none if it names
/// none, and only a request that is held is answered. What was asked under the token is
/// what is answered.
pub proof fn held_requests_are_answered_as_told(
    held: Map<Seq<char>, HeldPermissionView>,
    request: RequestView,
    params: Map<Seq<char>, JsonView>,
    token: Seq<char>,
)
    requires
        request.params == JsonView::Object(params),
        params.contains_key("permission_id"@),
        params["permission_id"@] == JsonView::Text(token),
        token.len() > 0,
    ensures
        ({
            let step = response_step(held, request);
            let refused = step matches ActiveStepView::Reply(reply) && refuses(
                reply,
                request.id,
                "invalid_response"@,
            );
            let silent = !params.contains_key("option_id"@) || params["option_id"@]
                == JsonView::Null;
            &&& !held.contains_key(token) ==> refused
            &&& held.contains_key(token) && silent ==> step == (ActiveStepView::Respond {
                token,
                permission: held[token].id,
                option: None,
            })
            &&& held.contains_key(token) && params.contains_key("option_id"@) ==> (
            params["option_id"@] matches JsonView::Text(option) ==> step == (
            ActiveStepView::Respond {
                token,
                permission: held[token].id,
                option: Some(option),
            }))
            &&& held.contains_key(token) && !silent && !(params["option_id"@] is Text) ==> refused
        }),
{
}

/// What an agent says is passed on as it comes, under the stream, the session and the run.
/// What it thinks and what it does is not.
pub proof fn texts_are_passed_on(
    work: ActiveWorkView,
    session: Seq<char>,
    route: crate::acp::session::RouteView,
    token: Seq<char>,
    seen: AcpEventView,
)
    ensures
        ({
            let (after, frame) = work.observed(session, route, token, seen);
            &&& seen matches AcpEventView::AgentMessage(chunk) ==> match chunk.content {
                ChunkContentView::Text(text) => after == work && frame == Some(
                    JsonView::Object(
                        map![
                            "version"@ => JsonView::Number(JsonNumber::PosInt(1)),
                            "event"@ => JsonView::Text("text_delta"@),
                            "stream"@ => JsonView::Text(work.stream),
                            "session_id"@ => JsonView::Text(session),
                            "run_id"@ => JsonView::Text(work.run_id),
                            "text"@ => JsonView::Text(text),
                        ],
                    ),
                ),
                ChunkContentView::Other(_) => after == work && frame is None,
            }
            &&& seen matches AcpEventView::Finished(reason) ==> frame is None && after.reason
                == Some(reason) && after.held == work.held && after.failure == work.failure
                && after.run_id == work.run_id && after.stream == work.stream
            &&& seen is AgentThought || seen is Tool || seen is ToolUpdate || seen is Configuration
                || seen is OtherUpdate || seen is PermissionResolved ==> after == work
                && frame is None
        }),
{
}

/// A request that waits for an answer is passed on under a token of its own, with its title
/// and its options in order, and is held until it is answered. One that no longer waits is
/// not passed on.
pub proof fn requests_are_passed_on(
    work: ActiveWorkView,
    session: Seq<char>,
    route: crate::acp::session::RouteView,
    token: Seq<char>,
    id: PermissionIdView,
    request: PermissionRequestView,
)
    ensures
        ({
            let (after, frame) = work.observed(
                session,
                route,
                token,
                AcpEventView::Permission { id, request },
            );
            &&& !route.pending.contains_key(id) ==> after == work && frame is None
            &&& route.pending.contains_key(id) ==> {
                &&& frame is Some
                &&& after.held.contains_key(token)
                &&& after.held[token].id == id
                &&& after.held[token].event == frame->0
                &&& frame->0 is Object
                &&& asks_for(frame->0->Object_0, work, session, token, request)
                &&& forall|other: Seq<char>|
                    other != token ==> (#[trigger] after.held.contains_key(other) <==> (
                    work.held.contains_key(other) && route.pending.contains_key(
                        work.held[other].id,
                    )))
                &&& forall|other: Seq<char>|
                    other != token && #[trigger] after.held.contains_key(other)
                        ==> after.held[other] == work.held[other]
            }
        }),
{
    reveal_strlit("version");
    reveal_strlit("event");
    reveal_strlit("stream");
    reveal_strlit("session_id");
    reveal_strlit("run_id");
    reveal_strlit("permission_id");
    reveal_strlit("title");
    reveal_strlit("options");
    assert("version"@.len() == 7 && "event"@.len() == 5 && "stream"@.len() == 6
        && "session_id"@.len() == 10 && "run_id"@.len() == 6 && "permission_id"@.len() == 13
        && "title"@.len() == 5 && "options"@.len() == 7);
    assert("version"@[0] != "options"@[0] && "event"@[0] != "title"@[0] && "stream"@[0]
        != "run_id"@[0]);
}

/// The frame asks for a decision on the request.
pub open spec fn asks_for(
    frame: Map<Seq<char>, JsonView>,
    work: ActiveWorkView,
    session: Seq<char>,
    token: Seq<char>,
    request: PermissionRequestView,
) -> bool {
    &&& frame["version"@] == JsonView::Number(JsonNumber::PosInt(1))
    &&& frame["event"@] == JsonView::Text("permission"@)
    &&& frame["stream"@] == JsonView::Text(work.stream)
    &&& frame["session_id"@] == JsonView::Text(session)
    &&& frame["run_id"@] == JsonView::Text(work.run_id)
    &&& frame["permission_id"@] == JsonView::Text(token)
    &&& frame["title"@] == match request.tool.title {
        Some(title) => JsonView::Text(title),
        None => JsonView::Null,
    }
    &&& frame["options"@] matches JsonView::Array(options) && options.len()
        == request.options.len() && forall|i: int|
        0 <= i < request.options.len() ==> #[trigger] options[i] == JsonView::Object(
            map![
                "id"@ => JsonView::Text(request.options[i].id),
                "label"@ => JsonView::Text(request.options[i].label),
                "effect"@ => JsonView::Text(request.options[i].effect),
            ],
        )
}

/// The end of a run is told with its status, unknown if its recording failed, with the
/// reason that the agent gave, and with the failure of the recording, if any.
pub proof fn ends_are_told(work: ActiveWorkView, session: Seq<char>, status: RunStatus)
    ensures
        work.end_json(session, status) == JsonView::Object(
            map![
                "version"@ => JsonView::Number(JsonNumber::PosInt(1)),
                "event"@ => JsonView::Text("run_finished"@),
                "stream"@ => JsonView::Text(work.stream),
                "session_id"@ => JsonView::Text(session),
                "run_id"@ => JsonView::Text(work.run_id),
                "status"@ => if work.failure is Some {
                    JsonView::Text("unknown"@)
                } else {
                    JsonView::Text(status_name(status))
                },
                "reason"@ => match work.reason {
                    Some(StopReasonView::EndTurn) => JsonView::Text("end_turn"@),
                    Some(StopReasonView::MaxTokens) => JsonView::Text("max_tokens"@),
                    Some(StopReasonView::MaxTurnRequests) => JsonView::Text("max_turn_requests"@),
                    Some(StopReasonView::Refusal) => JsonView::Text("refusal"@),
                    Some(StopReasonView::Cancelled) => JsonView::Text("cancelled"@),
                    Some(StopReasonView::Other(name)) => JsonView::Text(name),
                    None => JsonView::Null,
                },
                "recording_error"@ => match work.failure {
                    Some(failure) => JsonView::Text(failure),
                    None => JsonView::Null,
                },
            ],
        ),
{
}

/// What follows a sign that is no digit is never read as a number.
pub proof fn numbers_are_digits_alone(text: Seq<char>, i: int)
    requires
        0 <= i < text.len(),
        !('0' <= text[i] && text[i] <= '9'),
        i > 0 || text[i] != '+',
    ensures
        unsigned_of(text) is Err,
        unsigned_of(Seq::empty()) is Err,
{
    if text[0] == '+' {
        if text.len() > 1 {
            assert(text.skip(1)[i - 1] == text[i]);
            other_signs_end_reading(text.skip(1), 0, i - 1);
        }
    } else {
        other_signs_end_reading(text, 0, i);
    }
}

proof fn other_signs_end_reading(text: Seq<char>, value: nat, i: int)
    requires
        0 <= i < text.len(),
        !('0' <= text[i] && text[i] <= '9'),
    ensures
        digits_read(text, value) is Err,
    decreases text.len(),
{
    if i > 0 && '0' <= text[0] && text[0] <= '9' {
        let next = value * 10 + (text[0] as nat - 48) as nat;
        assert(text.skip(1)[i - 1] == text[i]);
        other_signs_end_reading(text.skip(1), next, i - 1);
    }
}

/// A page holds as many records as asked for, at least one and at most a thousand, and as
/// many as usual if nothing is asked.
pub proof fn limits_are_between_one_and_a_thousand(
    params: Map<Seq<char>, JsonView>,
    usual: u64,
    complaint: Seq<char>,
)
    requires
        1 <= usual <= 1000,
    ensures
        ({
            let limit = limit_of(JsonView::Object(params), usual, complaint);
            &&& !params.contains_key("limit"@) ==> limit == Ok::<u64, Seq<char>>(usual)
            &&& params.contains_key("limit"@) ==> match params["limit"@] {
                JsonView::Number(JsonNumber::PosInt(n)) => if 1 <= n && n <= 1000 {
                    limit == Ok::<u64, Seq<char>>(n)
                } else {
                    limit == Err::<u64, Seq<char>>("limit must be 1..=1000"@)
                },
                _ => limit == Err::<u64, Seq<char>>(complaint),
            }
        }),
{
}

/// Reading goes on after the number that is given, and starts at the beginning if none is.
pub proof fn starts_are_numbers(params: Map<Seq<char>, JsonView>, complaint: Seq<char>)
    ensures
        ({
            let after = after_of(JsonView::Object(params), complaint);
            &&& !params.contains_key("after"@) ==> after == Ok::<Option<u64>, Seq<char>>(None)
            &&& params.contains_key("after"@) ==> match params["after"@] {
                JsonView::Null => after == Ok::<Option<u64>, Seq<char>>(None),
                JsonView::Text(text) => match unsigned_of(text) {
                    Ok(n) => after == Ok::<Option<u64>, Seq<char>>(Some(n)),
                    Err(_) => after == Err::<Option<u64>, Seq<char>>(complaint),
                },
                _ => after == Err::<Option<u64>, Seq<char>>(complaint),
            }
        }),
{
}

/// A session is named by a text that is not blank, and a cursor by its epoch, its session
/// and its position in decimal digits.
pub proof fn cursors_are_named_in_full(params: Map<Seq<char>, JsonView>)
    ensures
        session_of(JsonView::Object(params)) is Ok <==> (params.contains_key("session_id"@) && (
        params["session_id"@] matches JsonView::Text(id) && exists|k: int|
            0 <= k < id.len() && !white_space(#[trigger] id[k]))),
        session_of(JsonView::Object(params)) matches Ok(id) ==> params["session_id"@]
            == JsonView::Text(id),
        cursor_of(JsonView::Object(params)) matches Ok(cursor) ==> {
            &&& params["epoch"@] == JsonView::Text(cursor.epoch)
            &&& cursor.epoch.len() > 0
            &&& params["session_id"@] == JsonView::Text(cursor.session_id)
            &&& !blank(cursor.session_id)
            &&& params["position"@] matches JsonView::Text(position) && unsigned_of(position) == Ok::<
                u64,
                Seq<char>,
            >(cursor.position)
        },
{
    if params.contains_key("session_id"@) && params["session_id"@] is Text {
        let id = params["session_id"@]->Text_0;
        if exists|k: int| 0 <= k < id.len() && !white_space(#[trigger] id[k]) {
            assert(!blank(id));
        }
    }
}

/// What is read is what the method says: changes after a cursor, a snapshot, or the records
/// themselves. It is read of the session that is named, after the number and within the
/// limit that are given, of which a hundred are usual, or a thousand for records alone. A
/// cursor of another session is refused, and changes need one.
pub proof fn reads_are_what_the_method_says(
    method: Seq<char>,
    params: Map<Seq<char>, JsonView>,
)
    requires
        method == "history"@ || method == "snapshot"@ || method == "changes"@,
    ensures
        ({
            let query = query_of(method, JsonView::Object(params));
            let session = session_of(JsonView::Object(params));
            let pointed = params.contains_key("cursor"@) && params["cursor"@] != JsonView::Null;
            let cursor = cursor_of(params["cursor"@]);
            &&& query is Ok ==> session is Ok
            &&& method == "changes"@ ==> (query matches Ok(read) ==> (
            read matches HistoryQueryView::Changes { cursor: from, limit } && pointed && cursor
                == Ok::<ChangeCursorView, Seq<char>>(from) && from.session_id == session->Ok_0
                && limit_of(JsonView::Object(params), 100, "invalid limit"@) == Ok::<
                u64,
                Seq<char>,
            >(limit as u64)))
            &&& method == "changes"@ && session is Ok && !pointed && limit_of(
                JsonView::Object(params),
                100,
                "invalid limit"@,
            ) is Ok ==> query == Err::<HistoryQueryView, Seq<char>>("cursor required"@)
            &&& method == "snapshot"@ ==> (query matches Ok(read) ==> (
            read matches HistoryQueryView::Snapshot { session: own, cursor: from, after, limit }
                && own == session->Ok_0 && match from {
                Some(from) => pointed && cursor == Ok::<ChangeCursorView, Seq<char>>(from)
                    && from.session_id == own,
                None => !pointed,
            } && after_of(JsonView::Object(params), "invalid after"@) == Ok::<
                Option<u64>,
                Seq<char>,
            >(after) && limit_of(JsonView::Object(params), 100, "invalid limit"@) == Ok::<
                u64,
                Seq<char>,
            >(limit as u64)))
            &&& method == "history"@ ==> (query matches Ok(read) ==> (
            read matches HistoryQueryView::List { session: own, after, limit } && own
                == session->Ok_0 && after_of(
                JsonView::Object(params),
                "after must be an unsigned decimal string"@,
            ) == Ok::<Option<u64>, Seq<char>>(after) && limit_of(
                JsonView::Object(params),
                1000,
                "limit must be an unsigned integer"@,
            ) == Ok::<u64, Seq<char>>(limit as u64)))
            &&& method != "history"@ && session is Ok && pointed && (cursor matches Ok(from)
                && from.session_id != session->Ok_0) ==> query == Err::<
                HistoryQueryView,
                Seq<char>,
            >("cursor belongs to another session"@)
            &&& {
                let limit = |usual: u64, complaint: Seq<char>|
                    limit_of(JsonView::Object(params), usual, complaint) is Ok;
                let after = |complaint: Seq<char>|
                    after_of(JsonView::Object(params), complaint) is Ok;
                let own = cursor is Ok && cursor->Ok_0.session_id == session->Ok_0;
                session is Ok ==> {
                    &&& method == "history"@ && after("after must be an unsigned decimal string"@)
                        && limit(1000, "limit must be an unsigned integer"@) ==> query is Ok
                    &&& method == "snapshot"@ && (!pointed || own) && after("invalid after"@)
                        && limit(100, "invalid limit"@) ==> query is Ok
                    &&& method == "changes"@ && pointed && own && limit(100, "invalid limit"@)
                        ==> query is Ok
                }
            }
        }),
{
    methods_are_told_apart();
    assert(methods()[8] != methods()[9] && methods()[8] != methods()[10] && methods()[9]
        != methods()[10]);
}

/// A record is written with everything that is known of it: numbers as decimal texts, and
/// nothing where there is no run, reply or source.
pub proof fn records_are_written_in_full(
    value: SnapshotView,
    payload: JsonView,
    receipt: JsonView,
    source: JsonView,
)
    ensures
        record_json(value, payload, receipt, source) == JsonView::Object(
            map![
                "id"@ => JsonView::Text(value.record.id),
                "session_id"@ => JsonView::Text(value.record.session_id),
                "run_id"@ => match value.record.run_id {
                    Some(run) => JsonView::Text(run),
                    None => JsonView::Null,
                },
                "actor"@ => JsonView::Text(value.record.actor),
                "sequence"@ => JsonView::Text(decimal(value.record.sequence as nat)),
                "revision"@ => JsonView::Text(decimal(value.revision as nat)),
                "state"@ => match value.state {
                    RecordState::Open => JsonView::Text("open"@),
                    RecordState::Complete => JsonView::Text("complete"@),
                    RecordState::Interrupted => JsonView::Text("interrupted"@),
                },
                "payload"@ => payload,
                "receipt"@ => receipt,
                "reply_to_id"@ => match value.record.reply_to_id {
                    Some(reply) => JsonView::Text(reply),
                    None => JsonView::Null,
                },
                "source"@ => source,
            ],
        ),
{
}

/// A cursor is written as it is read, and so is the number after which reading goes on.
pub proof fn cursors_are_written_in_full(cursor: ChangeCursorView, next: Option<u64>)
    ensures
        cursor_json(cursor) == JsonView::Object(
            map![
                "epoch"@ => JsonView::Text(cursor.epoch),
                "session_id"@ => JsonView::Text(cursor.session_id),
                "position"@ => JsonView::Text(decimal(cursor.position as nat)),
            ],
        ),
        next_json(next) == match next {
            Some(n) => JsonView::Text(decimal(n as nat)),
            None => JsonView::Null,
        },
{
}

} // verus!
