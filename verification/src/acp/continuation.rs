//! Native sessions that are saved and resumed.

use crate::acp::connection::{ConnectionFacts, NativeSessions};
use crate::acp::configuration::ConfigurationState;
use crate::acp::error::{AcpError, AcpErrorView};
use crate::acp::recording::{member, number_json};
use crate::acp::session::{validate_mcp, SessionState, SessionStateView, ToolServer};
use crate::datum::{outcome, Datum};
use crate::id::ContinuationId;
use crate::json::{json_views, Json, JsonNumber, JsonView};
use crate::records::continuation::{
    found, Continuation, ContinuationRecord, ContinuationRecordView, ContinuationState,
    ContinuationView,
};
use crate::records::store::{attempted, environmental, ContinuationStore, StoreView};
use crate::records::{StoreError, StoreErrorView};
use crate::table::Table;
use crate::text::same_text;
use std::sync::Arc;
use vstd::prelude::*;
use vstd::string::*;

verus! {

/// The adapter whose sessions these are.
pub const ADAPTER: &'static str = "acp-v1";

/// What is saved of a native session beside its key.
#[derive(Debug, PartialEq, Eq)]
pub struct AcpData {
    pub version: u32,
    pub cwd: String,
    pub agent_name: String,
    pub agent_version: String,
}

/// What a `AcpData` holds.
#[verifier::ext_equal]
pub struct AcpDataView {
    pub version: u32,
    pub cwd: Seq<char>,
    pub agent_name: Seq<char>,
    pub agent_version: Seq<char>,
}

impl DeepView for AcpData {
    type V = AcpDataView;

    open spec fn deep_view(&self) -> AcpDataView {
        AcpDataView {
            version: self.version.deep_view(),
            cwd: self.cwd.deep_view(),
            agent_name: self.agent_name.deep_view(),
            agent_version: self.agent_version.deep_view(),
        }
    }
}

impl Datum for AcpData {
    fn duplicate(&self) -> (r: AcpData) {
        AcpData {
            version: self.version.duplicate(),
            cwd: self.cwd.duplicate(),
            agent_name: self.agent_name.duplicate(),
            agent_version: self.agent_version.duplicate(),
        }
    }

    fn same_as(&self, other: &AcpData) -> (r: bool) {
        self.version.same_as(&other.version)
            && self.cwd.same_as(&other.cwd)
            && self.agent_name.same_as(&other.agent_name)
            && self.agent_version.same_as(&other.agent_version)
    }
}

/// A saved session that can be resumed.
#[derive(Debug, PartialEq, Eq)]
pub struct ResumePlan {
    pub continuation: Continuation,
    pub data: AcpData,
}

/// What a `ResumePlan` holds.
#[verifier::ext_equal]
pub struct ResumePlanView {
    pub continuation: ContinuationView,
    pub data: AcpDataView,
}

impl DeepView for ResumePlan {
    type V = ResumePlanView;

    open spec fn deep_view(&self) -> ResumePlanView {
        ResumePlanView {
            continuation: self.continuation.deep_view(),
            data: self.data.deep_view(),
        }
    }
}

impl Datum for ResumePlan {
    fn duplicate(&self) -> (r: ResumePlan) {
        ResumePlan {
            continuation: self.continuation.duplicate(),
            data: self.data.duplicate(),
        }
    }

    fn same_as(&self, other: &ResumePlan) -> (r: bool) {
        self.continuation.same_as(&other.continuation)
            && self.data.same_as(&other.data)
    }
}


impl AcpDataView {
    /// The data as it is saved.
    pub open spec fn json(self) -> JsonView {
        JsonView::Object(
            member("version"@, number_json(self.version as u64)).insert(
                "cwd"@,
                JsonView::Text(self.cwd),
            ).insert("agent_name"@, JsonView::Text(self.agent_name)).insert(
                "agent_version"@,
                JsonView::Text(self.agent_version),
            ),
        )
    }
}

impl AcpData {
    /// The data as it is saved.
    pub fn to_json(&self) -> (r: Json)
        ensures
            r.deep_view() == self.deep_view().json(),
    {
        broadcast use json_views;

        let mut members: Table<Json> = Table::new();
        assert(members.deep_view() =~= Map::<Seq<char>, JsonView>::empty());
        members.put("version".to_owned(), Json::Number(JsonNumber::PosInt(self.version as u64)));
        members.put("cwd".to_owned(), Json::Text(self.cwd.clone()));
        members.put("agent_name".to_owned(), Json::Text(self.agent_name.clone()));
        members.put("agent_version".to_owned(), Json::Text(self.agent_version.clone()));
        Json::Object(members)
    }
}

/// The name of a member of saved data.
pub open spec fn data_member(name: Seq<char>) -> bool {
    name == "version"@ || name == "cwd"@ || name == "agent_name"@ || name == "agent_version"@
}

/// The parts of saved data, where they are of the right kind.
pub open spec fn data_parts(
    version: JsonView,
    cwd: JsonView,
    agent_name: JsonView,
    agent_version: JsonView,
) -> Option<AcpDataView> {
    match (version, cwd, agent_name, agent_version) {
        (
            JsonView::Number(JsonNumber::PosInt(n)),
            JsonView::Text(cwd),
            JsonView::Text(agent_name),
            JsonView::Text(agent_version),
        ) => if n <= u32::MAX {
            Some(AcpDataView { version: n as u32, cwd, agent_name, agent_version })
        } else {
            None
        },
        _ => None,
    }
}

/// The saved data that a value holds: an object with these members and no others, or a
/// list of the four parts.
pub open spec fn data_of(value: JsonView) -> Option<AcpDataView> {
    match value {
        JsonView::Object(members) => {
            if (forall|name: Seq<char>| #[trigger] members.contains_key(name) ==> data_member(name))
                && members.contains_key("version"@) && members.contains_key("cwd"@)
                && members.contains_key("agent_name"@) && members.contains_key("agent_version"@) {
                data_parts(
                    members["version"@],
                    members["cwd"@],
                    members["agent_name"@],
                    members["agent_version"@],
                )
            } else {
                None
            }
        },
        JsonView::Array(items) => if items.len() == 4 {
            data_parts(items[0], items[1], items[2], items[3])
        } else {
            None
        },
        _ => None,
    }
}

fn read_parts(version: &Json, cwd: &Json, agent_name: &Json, agent_version: &Json) -> (r: Option<
    AcpData,
>)
    ensures
        r.deep_view() == data_parts(
            version.deep_view(),
            cwd.deep_view(),
            agent_name.deep_view(),
            agent_version.deep_view(),
        ),
{
    broadcast use json_views;

    match (version, cwd, agent_name, agent_version) {
        (
            Json::Number(JsonNumber::PosInt(n)),
            Json::Text(cwd),
            Json::Text(agent_name),
            Json::Text(agent_version),
        ) => {
            if *n <= u32::MAX as u64 {
                Some(
                    AcpData {
                        version: *n as u32,
                        cwd: cwd.clone(),
                        agent_name: agent_name.clone(),
                        agent_version: agent_version.clone(),
                    },
                )
            } else {
                None
            }
        },
        _ => None,
    }
}

fn only_data_members(members: &Table<Json>) -> (r: bool)
    ensures
        r == forall|name: Seq<char>| #[trigger]
            members.deep_view().contains_key(name) ==> data_member(name),
{
    let n: usize = members.len();
    let mut i: usize = 0;
    while i < n
        invariant
            i <= n,
            n == members.keys().len(),
            forall|j: int| 0 <= j < i ==> data_member(#[trigger] members.keys()[j]),
        decreases n - i,
    {
        let name = members.key_at(i).as_str();
        if !(same_text(name, "version") || same_text(name, "cwd") || same_text(name, "agent_name")
            || same_text(name, "agent_version")) {
            assert(members.deep_view().contains_key(name@));
            return false;
        }
        i = i + 1;
    }
    assert forall|name: Seq<char>| #[trigger]
        members.deep_view().contains_key(name) implies data_member(name) by {
        assert(members@.contains_key(name));
        assert(members.keys().contains(name));
    }
    true
}

/// Reads saved data.
pub fn read_data(value: &Json) -> (r: Option<AcpData>)
    ensures
        r.deep_view() == data_of(value.deep_view()),
{
    broadcast use json_views;

    match value {
        Json::Object(members) => {
            if !only_data_members(members) {
                return None;
            }
            match (
                members.find("version"),
                members.find("cwd"),
                members.find("agent_name"),
                members.find("agent_version"),
            ) {
                (Some(version), Some(cwd), Some(agent_name), Some(agent_version)) => read_parts(
                    version,
                    cwd,
                    agent_name,
                    agent_version,
                ),
                _ => None,
            }
        },
        Json::Array(items) => {
            if items.len() == 4 {
                assert(items.deep_view()[0] == items@[0].deep_view());
                assert(items.deep_view()[1] == items@[1].deep_view());
                assert(items.deep_view()[2] == items@[2].deep_view());
                assert(items.deep_view()[3] == items@[3].deep_view());
                read_parts(&items[0], &items[1], &items[2], &items[3])
            } else {
                None
            }
        },
        _ => None,
    }
}

/// What is saved can be read.
pub proof fn saved_data_can_be_read(data: AcpDataView)
    ensures
        data_of(data.json()) == Some(data),
{
    reveal_strlit("version");
    reveal_strlit("cwd");
    reveal_strlit("agent_name");
    reveal_strlit("agent_version");
    assert("version"@[0] != "cwd"@[0]);
    assert("agent_name"@.len() != "agent_version"@.len());
    assert("version"@.len() != "agent_name"@.len());
    assert("version"@.len() != "agent_version"@.len());
    assert("cwd"@.len() != "agent_name"@.len());
    assert("cwd"@.len() != "agent_version"@.len());
}

/// The saved session fits the connection.
pub open spec fn compatible(
    connection: ConnectionFacts,
    value: ContinuationView,
    data: AcpDataView,
) -> Result<bool, AcpErrorView> {
    match connection.agent {
        None => Ok(false),
        Some(agent) => if value.adapter != ADAPTER@ {
            Ok(false)
        } else {
            match connection.handoff_scope() {
                Err(e) => Err(e),
                Ok(scope) => Ok(
                    value.scope == scope && data.version == 1 && agent.name@ == data.agent_name
                        && agent.version@ == data.agent_version,
                ),
            }
        },
    }
}

/// The session that a connection may resume, or why it may not.
pub open spec fn resumable(
    connection: ConnectionFacts,
    saved: Result<ContinuationRecordView, StoreErrorView>,
) -> Result<ResumePlanView, AcpErrorView> {
    if connection.closed {
        Err(AcpErrorView::Closed)
    } else if !connection.resumes {
        Err(AcpErrorView::ResumeUnsupported)
    } else {
        match saved {
            Err(e) => Err(AcpErrorView::Store(e)),
            Ok(record) => match data_of(record.continuation.data) {
                None => Err(AcpErrorView::IncompatibleContinuation),
                Some(data) => match compatible(connection, record.continuation, data) {
                    Err(e) => Err(e),
                    Ok(false) => Err(AcpErrorView::IncompatibleContinuation),
                    Ok(true) => Ok(ResumePlanView { continuation: record.continuation, data }),
                },
            },
        }
    }
}

fn is_compatible(connection: &ConnectionFacts, value: &Continuation, data: &AcpData) -> (r: Result<
    bool,
    AcpError,
>)
    ensures
        outcome(r) == compatible(*connection, value.deep_view(), data.deep_view()),
{
    match &connection.agent {
        None => Ok(false),
        Some(agent) => {
            if !same_text(value.adapter.as_str(), ADAPTER) {
                return Ok(false);
            }
            match connection.scope() {
                Err(e) => Err(e),
                Ok(scope) => Ok(
                    same_text(value.scope.as_str(), scope.as_str()) && data.version == 1
                        && same_text(agent.name.as_str(), data.agent_name.as_str())
                        && same_text(agent.version.as_str(), data.agent_version.as_str()),
                ),
            }
        },
    }
}

/// Finds out whether a saved native session can be resumed. This does not claim it.
pub fn plan_resume<S: ContinuationStore>(
    connection: &ConnectionFacts,
    store: &S,
    id: &ContinuationId,
) -> (r: Result<ResumePlan, AcpError>)
    ensures
        outcome(r) == resumable(*connection, found(store.contents().continuations, id.deep_view()))
            || (r matches Err(AcpError::Store(e)) && environmental(e.deep_view())
            && !store.dependable() && !connection.closed && connection.resumes),
{
    if connection.closed {
        return Err(AcpError::Closed);
    }
    if !connection.resumes {
        return Err(AcpError::ResumeUnsupported);
    }
    let saved = match store.get_continuation(id) {
        Err(e) => return Err(AcpError::Store(e)),
        Ok(saved) => saved,
    };
    let data = match read_data(&saved.continuation.data) {
        None => return Err(AcpError::IncompatibleContinuation),
        Some(data) => data,
    };
    match is_compatible(connection, &saved.continuation, &data) {
        Err(e) => Err(e),
        Ok(false) => Err(AcpError::IncompatibleContinuation),
        Ok(true) => Ok(ResumePlan { continuation: saved.continuation.duplicate(), data }),
    }
}

/// Why a session that may be resumed is not claimed.
pub open spec fn claim_objection(
    absolute: bool,
    connection: ConnectionFacts,
    servers: Seq<ToolServer>,
    in_use: bool,
) -> Option<AcpErrorView> {
    if !absolute {
        Some(AcpErrorView::InvalidWorkingDirectory)
    } else {
        match connection.servers.first_objection(servers) {
            Some(e) => Some(e),
            None => if in_use {
                Some(AcpErrorView::SessionUnavailable)
            } else {
                None
            },
        }
    }
}

/// Claims a saved session for this connection. `absolute` tells whether its working
/// directory is absolute.
///
/// The native session is reserved before anything is sent: if setting it up fails, it
/// stays reserved and claimed, so that a late reply cannot collide with another session.
/// A claim that is refused leaves no reservation.
pub fn claim_resume<S: ContinuationStore>(
    connection: &ConnectionFacts,
    sessions: &mut NativeSessions,
    store: &mut S,
    plan: &ResumePlan,
    absolute: bool,
    servers: &Vec<ToolServer>,
) -> (r: Result<Arc<ContinuationRecord>, AcpError>)
    ensures
        final(store).dependable() == old(store).dependable(),
        match claim_objection(
            absolute,
            *connection,
            servers@,
            old(sessions).in_use(plan.deep_view().continuation.native_key),
        ) {
            Some(e) => r matches Err(error) && error.deep_view() == e && final(store).contents()
                == old(store).contents(),
            None => match r {
                Ok(record) => attempted(
                    Ok(record.deep_view()),
                    old(store).contents().continuation_claimed(plan.deep_view().continuation.id),
                    old(store).contents(),
                    final(store).contents(),
                    old(store).dependable(),
                ),
                Err(AcpError::Store(e)) => attempted(
                    Err(e.deep_view()),
                    old(store).contents().continuation_claimed(plan.deep_view().continuation.id),
                    old(store).contents(),
                    final(store).contents(),
                    old(store).dependable(),
                ),
                Err(_) => false,
            },
        },
        forall|key: Seq<char>| #[trigger]
            final(sessions).in_use(key) == (old(sessions).in_use(key) || (r is Ok && key
                == plan.deep_view().continuation.native_key)),
{
    if !absolute {
        return Err(AcpError::InvalidWorkingDirectory);
    }
    match validate_mcp(connection.servers, servers) {
        Err(e) => return Err(e),
        Ok(_) => {},
    }
    let native = plan.continuation.native_key.as_str();
    if !sessions.reserve(native) {
        return Err(AcpError::SessionUnavailable);
    }
    match store.claim_continuation(&plan.continuation.id) {
        Err(e) => {
            sessions.release(native);
            Err(AcpError::Store(e))
        },
        Ok(record) => Ok(record),
    }
}

/// The session that was resumed.
pub fn resumed_session(plan: ResumePlan, configuration: ConfigurationState) -> (r: SessionState)
    ensures
        r.deep_view() == (SessionStateView {
            session_id: plan.deep_view().continuation.session_id,
            slot_id: plan.deep_view().continuation.slot_id,
            retired: false,
            quiescent: true,
            predecessor: Some(plan.deep_view().continuation.id),
            configuration: configuration.deep_view(),
        }),
{
    SessionState::new(
        plan.continuation.session_id,
        plan.continuation.slot_id,
        Some(plan.continuation.id),
        configuration,
    )
}

/// What is saved of a session that is handed off, or why it cannot be.
pub open spec fn handed_off(
    session: SessionStateView,
    connection: ConnectionFacts,
    cwd: Seq<char>,
    native_key: Seq<char>,
    id: Seq<char>,
) -> Result<ContinuationView, AcpErrorView> {
    if !session.available() {
        Err(AcpErrorView::UnsafeHandoff)
    } else {
        match session.configuration.frozen() {
            Err(e) => Err(e),
            Ok(_) => if connection.closed {
                Err(AcpErrorView::Closed)
            } else if !connection.resumes {
                Err(AcpErrorView::ResumeUnsupported)
            } else {
                match connection.handoff_scope() {
                    Err(e) => Err(e),
                    Ok(scope) => match connection.agent {
                        None => Err(AcpErrorView::IncompatibleContinuation),
                        Some(agent) => Ok(
                            ContinuationView {
                                id,
                                session_id: session.session_id,
                                slot_id: session.slot_id,
                                adapter: ADAPTER@,
                                scope,
                                native_key,
                                predecessor: session.predecessor,
                                data: (AcpDataView {
                                    version: 1,
                                    cwd,
                                    agent_name: agent.name@,
                                    agent_version: agent.version@,
                                }).json(),
                            },
                        ),
                    },
                }
            },
        }
    }
}

/// The record is the newest of its session, and nobody has claimed it.
pub open spec fn unclaimed(record: ContinuationRecordView) -> bool {
    record.state is Available && record.latest
}

/// What a handoff replies once the session is stored, and whether the native session is
/// released.
pub open spec fn handoff_reply(
    saved: Result<(ContinuationRecordView, StoreView), StoreErrorView>,
) -> Result<ContinuationRecordView, AcpErrorView> {
    match saved {
        Err(e) => Err(AcpErrorView::Store(e)),
        Ok((record, _)) => if unclaimed(record) {
            Ok(record)
        } else {
            Err(AcpErrorView::Store(StoreErrorView::ContinuationClaimed))
        },
    }
}

fn describe_handoff(
    session: SessionState,
    connection: &ConnectionFacts,
    cwd: String,
    native_key: &str,
    id: ContinuationId,
) -> (r: Result<Continuation, AcpError>)
    ensures
        outcome(r) == handed_off(
            session.deep_view(),
            *connection,
            cwd@,
            native_key@,
            id.deep_view(),
        ),
{
    if session.retired || !session.quiescent {
        return Err(AcpError::UnsafeHandoff);
    }
    match session.configuration.for_run() {
        Err(e) => return Err(e),
        Ok(_) => {},
    }
    if connection.closed {
        return Err(AcpError::Closed);
    }
    if !connection.resumes {
        return Err(AcpError::ResumeUnsupported);
    }
    let scope = match connection.scope() {
        Err(e) => return Err(e),
        Ok(scope) => scope,
    };
    match &connection.agent {
        None => Err(AcpError::IncompatibleContinuation),
        Some(agent) => {
            let data = AcpData {
                version: 1,
                cwd,
                agent_name: agent.name.clone(),
                agent_version: agent.version.clone(),
            };
            Ok(
                Continuation {
                    id,
                    session_id: session.session_id,
                    slot_id: session.slot_id,
                    adapter: ADAPTER.to_owned(),
                    scope: scope.clone(),
                    native_key: native_key.to_owned(),
                    predecessor: session.predecessor,
                    data: data.to_json(),
                },
            )
        },
    }
}

/// Relinquish an idle session and persist a single-use native continuation. The session
/// is consumed even on error. No credentials or tool-server environment are saved. Native
/// data is not a snapshot of application history.
pub fn handoff<S: ContinuationStore>(
    session: SessionState,
    connection: &ConnectionFacts,
    sessions: &mut NativeSessions,
    cwd: String,
    native_key: &str,
    id: ContinuationId,
    store: &mut S,
) -> (r: Result<Arc<ContinuationRecord>, AcpError>)
    ensures
        final(store).dependable() == old(store).dependable(),
        match handed_off(session.deep_view(), *connection, cwd@, native_key@, id.deep_view()) {
            Err(e) => r matches Err(error) && error.deep_view() == e && final(store).contents()
                == old(store).contents(),
            Ok(value) => {
                let created = old(store).contents().session_created(session.deep_view().session_id);
                let saved = created.continuation_saved(value);
                ||| (r matches Err(AcpError::Store(e)) && environmental(e.deep_view())
                    && !old(store).dependable() && (
                final(store).contents() == old(store).contents() || final(store).contents()
                    == created))
                ||| {
                    &&& outcome(r) == handoff_reply(saved)
                    &&& final(store).contents() == match saved {
                        Ok((_, after)) => after,
                        Err(_) => created,
                    }
                }
            },
        },
        forall|key: Seq<char>| #[trigger]
            final(sessions).in_use(key) == (old(sessions).in_use(key) && !(r is Ok && key
                == native_key@)),
{
    let ghost session_id = session.deep_view().session_id;
    let value = match describe_handoff(session, connection, cwd, native_key, id) {
        Err(e) => return Err(e),
        Ok(value) => value,
    };
    match store.create_session(value.session_id.duplicate()) {
        Err(e) => return Err(AcpError::Store(e)),
        Ok(_) => {},
    }
    match store.save_continuation(value) {
        Err(e) => Err(AcpError::Store(e)),
        Ok(saved) => {
            if saved.state != ContinuationState::Available || !saved.latest {
                return Err(AcpError::Store(StoreError::ContinuationClaimed));
            }
            sessions.release(native_key);
            Ok(saved)
        },
    }
}

/// A session that was handed off can be resumed over any open connection to the same
/// agent in the same namespace: it is found again with the same working directory, and
/// can be claimed.
pub proof fn handoffs_can_be_resumed(
    session: SessionStateView,
    connection: ConnectionFacts,
    cwd: Seq<char>,
    native_key: Seq<char>,
    id: Seq<char>,
    store: StoreView,
    later: ConnectionFacts,
)
    requires
        handed_off(session, connection, cwd, native_key, id) is Ok,
        store.session_created(session.session_id).continuation_saved(
            handed_off(session, connection, cwd, native_key, id)->Ok_0,
        ) matches Ok((record, _)) && unclaimed(record),
        !later.closed,
        later.resumes,
        later.scope is Some && connection.scope is Some && later.scope->0@ == connection.scope->0@,
        later.agent is Some && connection.agent is Some && later.agent->0.name@
            == connection.agent->0.name@ && later.agent->0.version@ == connection.agent->0.version@,
    ensures
        ({
            let value = handed_off(session, connection, cwd, native_key, id)->Ok_0;
            let after = store.session_created(session.session_id).continuation_saved(value)->Ok_0.1;
            &&& resumable(later, found(after.continuations, id)) == Ok::<
                ResumePlanView,
                AcpErrorView,
            >(
                ResumePlanView {
                    continuation: value,
                    data: AcpDataView {
                        version: 1,
                        cwd,
                        agent_name: connection.agent->0.name@,
                        agent_version: connection.agent->0.version@,
                    },
                },
            )
            &&& after.continuation_claimed(id) is Ok
        }),
{
    saved_data_can_be_read(
        AcpDataView {
            version: 1,
            cwd,
            agent_name: connection.agent->0.name@,
            agent_version: connection.agent->0.version@,
        },
    );
}

/// A session can be resumed once: after a claim, no other claim succeeds.
pub proof fn resumed_sessions_cannot_be_resumed_again(store: StoreView, id: Seq<char>)
    ensures
        store.continuation_claimed(id) matches Ok((_, after)) ==> after.continuation_claimed(id)
            == Err::<(ContinuationRecordView, StoreView), StoreErrorView>(
            StoreErrorView::ContinuationClaimed,
        ),
{
}

} // verus!
