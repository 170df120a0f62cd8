//! Sessions, runs and permissions, apart from the connection that carries them.

use crate::acp::configuration::{ConfigurationState, ConfigurationStateView};
use crate::acp::error::{AcpError, AcpErrorView};
use crate::acp::event::{AcpEvent, AcpEventView, PermissionId, PermissionIdView, StopReason};
use crate::configuration::{ConfigValue, ConfigValueView, RunConfigurationView};
use crate::datum::{append, outcome, Datum};
use crate::execution::Assignment;
use crate::id::{ContinuationId, RunId, SessionId, SlotId};
use crate::lookup::Lookup;
use crate::model::{ContextManifest, ContextManifestView};
use crate::records::{DecisionDelivery, PermissionOutcome, PermissionOutcomeView};
use crate::run::{Run, RunEvent, RunSpec, RunSpecView, RunStatus};
use crate::text::{blank, is_blank, same_text};
use vstd::prelude::*;

verus! {

/// How many events of a run may wait to be read.
pub const EVENT_CAPACITY: usize = 256;

/// How many permission requests of a run may be unanswered.
pub const PERMISSION_CAPACITY: usize = 32;

/// The permission requests of a run and whether it still takes events.
pub struct Route {
    run_id: RunId,
    pending: Lookup<PermissionId, Vec<String>>,
    next_permission: u64,
    accepting: bool,
    cancelling: bool,
    overflow: bool,
}

/// What a `Route` holds.
#[verifier::ext_equal]
pub struct RouteView {
    pub run_id: Seq<char>,
    /// The options that each unanswered request offers.
    pub pending: Map<PermissionIdView, Seq<Seq<char>>>,
    pub next_permission: u64,
    pub accepting: bool,
    pub cancelling: bool,
    /// Part of the transcript was lost.
    pub overflow: bool,
}

impl DeepView for Route {
    type V = RouteView;

    closed spec fn deep_view(&self) -> RouteView {
        RouteView {
            run_id: self.run_id.deep_view(),
            pending: self.pending.deep_view(),
            next_permission: self.next_permission,
            accepting: self.accepting,
            cancelling: self.cancelling,
            overflow: self.overflow,
        }
    }
}

/// What becomes of a permission request.
#[derive(Debug, PartialEq, Eq)]
pub enum Admission {
    /// It is answered as cancelled: the run takes no more events.
    Declined,
    /// It is answered as cancelled, and so are all others: there are too many, and the
    /// run can no longer be followed.
    Overloaded,
    /// It is handed to the application under this id.
    Offered(PermissionId),
}

impl RouteView {
    /// The route of a new run.
    pub open spec fn fresh(run_id: Seq<char>) -> RouteView {
        RouteView {
            run_id,
            pending: Map::empty(),
            next_permission: 0,
            accepting: true,
            cancelling: false,
            overflow: false,
        }
    }

    /// The id of the next request.
    pub open spec fn next_id(self) -> PermissionIdView {
        PermissionIdView { run_id: self.run_id, sequence: self.next_permission }
    }

    /// Ids are given out in ascending order, so that none is given out twice.
    pub open spec fn numbered(self) -> bool {
        &&& self.pending.dom().finite()
        &&& forall|id: PermissionIdView| #[trigger]
            self.pending.contains_key(id) ==> id.run_id == self.run_id && id.sequence
                < self.next_permission
    }

    /// Part of the transcript was lost: nothing more is taken.
    pub open spec fn overflowed(self) -> RouteView {
        RouteView { overflow: true, accepting: false, ..self }
    }
}

/// The event that tells of a decision.
pub open spec fn resolution(
    id: PermissionIdView,
    chosen: PermissionOutcomeView,
    sent: bool,
) -> AcpEventView {
    AcpEventView::PermissionResolved {
        id,
        outcome: chosen,
        delivery: if sent {
            DecisionDelivery::Queued
        } else {
            DecisionDelivery::Unknown
        },
    }
}

impl Route {
    /// The route of a new run.
    pub fn new(run_id: RunId) -> (r: Route)
        ensures
            r.deep_view() == RouteView::fresh(run_id.deep_view()),
    {
        Route {
            run_id,
            pending: Lookup::new(),
            next_permission: 0,
            accepting: true,
            cancelling: false,
            overflow: false,
        }
    }

    /// Whether events are taken.
    pub fn is_accepting(&self) -> (r: bool)
        ensures
            r == self.deep_view().accepting,
    {
        self.accepting
    }

    /// Whether cancellation was requested.
    pub fn is_cancelling(&self) -> (r: bool)
        ensures
            r == self.deep_view().cancelling,
    {
        self.cancelling
    }

    /// Whether part of the transcript was lost.
    pub fn has_overflowed(&self) -> (r: bool)
        ensures
            r == self.deep_view().overflow,
    {
        self.overflow
    }

    /// Decides on a permission request that offers these options.
    pub fn request(&mut self, options: Vec<String>) -> (r: Admission)
        requires
            old(self).deep_view().numbered(),
            old(self).deep_view().next_permission < u64::MAX,
        ensures
            final(self).deep_view().numbered(),
            ({
                let before = old(self).deep_view();
                let after = final(self).deep_view();
                if !before.accepting {
                    r is Declined && after == before
                } else if before.pending.dom().len() >= PERMISSION_CAPACITY {
                    r is Overloaded && after == before.overflowed()
                } else {
                    &&& r matches Admission::Offered(id) && id.deep_view() == before.next_id()
                    &&& after == (RouteView {
                        pending: before.pending.insert(before.next_id(), options.deep_view()),
                        next_permission: (before.next_permission + 1) as u64,
                        ..before
                    })
                }
            }),
    {
        if !self.accepting {
            return Admission::Declined;
        }
        let count = self.pending.len();
        proof {
            lookup_counts(self.pending.deep_view(), self.pending.keys());
            assert(self.pending.deep_view().dom() =~= self.pending@.dom());
        }
        if count >= PERMISSION_CAPACITY {
            self.overflow = true;
            self.accepting = false;
            return Admission::Overloaded;
        }
        let id = PermissionId { run_id: self.run_id.duplicate(), sequence: self.next_permission };
        self.pending.insert(id.duplicate(), options);
        self.next_permission = self.next_permission + 1;
        Admission::Offered(id)
    }

    /// The unanswered requests. All of them are taken off.
    pub fn drain(&mut self) -> (r: Vec<PermissionId>)
        ensures
            final(self).deep_view() == (RouteView { pending: Map::empty(), ..old(self).deep_view() }),
            r.deep_view().no_duplicates(),
            forall|id: PermissionIdView|
                r.deep_view().contains(id) <==> #[trigger] old(self).deep_view().pending.contains_key(
                    id,
                ),
    {
        let n = self.pending.len();
        let mut ids: Vec<PermissionId> = Vec::new();
        let mut i: usize = 0;
        while i < n
            invariant
                i <= n,
                n == self.pending.keys().len(),
                ids.deep_view() == self.pending.keys().take(i as int),
            decreases n - i,
        {
            append(&mut ids, self.pending.key_at(i).duplicate());
            assert(self.pending.keys().take(i + 1) =~= self.pending.keys().take(i as int).push(
                self.pending.keys()[i as int],
            ));
            i = i + 1;
        }
        assert(ids.deep_view() =~= self.pending.keys());
        assert forall|id: PermissionIdView|
            ids.deep_view().contains(id) <==> #[trigger] old(self).deep_view().pending.contains_key(
                id,
            ) by {
            assert(self.pending@.contains_key(id) <==> self.pending.keys().contains(id));
        }
        self.pending = Lookup::new();
        ids
    }

    /// The event that tells of a request that was answered as cancelled, where events
    /// are still taken.
    pub fn cancellation_event(&self, id: PermissionId, sent: bool) -> (r: Option<AcpEvent>)
        ensures
            match r {
                Some(event) => self.deep_view().accepting && event.deep_view() == resolution(
                    id.deep_view(),
                    PermissionOutcomeView::Cancelled,
                    sent,
                ),
                None => !self.deep_view().accepting,
            },
    {
        if !self.accepting {
            return None;
        }
        Some(resolution_event(id, PermissionOutcome::Cancelled, sent))
    }

    /// An event could not be delivered: part of the transcript is lost, and nothing
    /// more is taken.
    pub fn delivery_failed(&mut self)
        ensures
            final(self).deep_view() == old(self).deep_view().overflowed(),
    {
        self.overflow = true;
        self.accepting = false;
    }

    /// Nothing more is taken.
    pub fn close(&mut self)
        ensures
            final(self).deep_view() == (RouteView { accepting: false, ..old(self).deep_view() }),
    {
        self.accepting = false;
    }

    /// Requests are answered as cancelled from now on.
    pub fn begin_cancelling(&mut self)
        ensures
            final(self).deep_view() == (RouteView { cancelling: true, ..old(self).deep_view() }),
    {
        self.cancelling = true;
    }

    /// Whether the request is unanswered.
    pub fn is_pending(&self, id: &PermissionId) -> (r: bool)
        ensures
            r == self.deep_view().pending.contains_key(id.deep_view()),
    {
        self.pending.get(id).is_some()
    }

    /// Select one of this request's offered option IDs, or dismiss it with None.
    /// Invalid decisions leave the request pending; resolved requests cannot be reused.
    pub fn respond(&mut self, id: &PermissionId, option: Option<&str>) -> (r: Result<
        PermissionOutcome,
        AcpError,
    >)
        ensures
            ({
                let before = old(self).deep_view();
                let admitted = before.pending.contains_key(id.deep_view()) && match option {
                    Some(chosen) => before.pending[id.deep_view()].contains(chosen@),
                    None => true,
                };
                if admitted {
                    &&& outcome(r) == Ok::<PermissionOutcomeView, AcpErrorView>(
                        match option {
                            Some(chosen) => PermissionOutcomeView::Selected(chosen@),
                            None => PermissionOutcomeView::Cancelled,
                        },
                    )
                    &&& final(self).deep_view() == (RouteView {
                        pending: before.pending.remove(id.deep_view()),
                        ..before
                    })
                } else {
                    &&& outcome(r) == Err::<PermissionOutcomeView, AcpErrorView>(
                        AcpErrorView::InvalidPermission,
                    )
                    &&& final(self).deep_view() == before
                }
            }),
    {
        let admitted = match self.pending.get(id) {
            None => false,
            Some(options) => match option {
                Some(chosen) => has_text(options, chosen),
                None => true,
            },
        };
        if !admitted {
            return Err(AcpError::InvalidPermission);
        }
        let _ = self.pending.remove(id);
        match option {
            Some(chosen) => Ok(PermissionOutcome::Selected(chosen.to_owned())),
            None => Ok(PermissionOutcome::Cancelled),
        }
    }
}

/// The event that tells of a decision.
pub fn resolution_event(id: PermissionId, chosen: PermissionOutcome, sent: bool) -> (r: AcpEvent)
    ensures
        r.deep_view() == resolution(id.deep_view(), chosen.deep_view(), sent),
{
    AcpEvent::PermissionResolved {
        id,
        outcome: chosen,
        delivery: if sent {
            DecisionDelivery::Queued
        } else {
            DecisionDelivery::Unknown
        },
    }
}

fn has_text(list: &Vec<String>, text: &str) -> (r: bool)
    ensures
        r == list.deep_view().contains(text@),
{
    let ghost views = list.deep_view();
    let mut i: usize = 0;
    while i < list.len()
        invariant
            i <= list.len(),
            views == list.deep_view(),
            forall|j: int| 0 <= j < i ==> (#[trigger] views[j]) != text@,
        decreases list.len() - i,
    {
        assert(views[i as int] == list@[i as int]@);
        if same_text(list[i].as_str(), text) {
            return true;
        }
        i = i + 1;
    }
    false
}

proof fn lookup_counts<K, V>(map: Map<K, V>, keys: Seq<K>)
    requires
        keys.no_duplicates(),
        forall|key: K| #[trigger] map.contains_key(key) <==> keys.contains(key),
    ensures
        map.dom().len() == keys.len(),
{
    keys.unique_seq_to_set();
    assert(map.dom() =~= keys.to_set());
}

/// A permission request is answered at most once.
pub proof fn permissions_are_answered_once(route: RouteView, id: PermissionIdView)
    requires
        route.pending.contains_key(id),
    ensures
        !(RouteView { pending: route.pending.remove(id), ..route }).pending.contains_key(id),
{
}

/// A tool server that a session is to use.
#[derive(Debug, Clone, Copy, PartialEq, Eq, Structural)]
pub enum ToolServer {
    /// A program, with whether its path is absolute.
    Stdio { absolute: bool },
    Http,
    Sse,
    /// A transport that is not understood.
    Other,
}

/// Which transports an agent advertises.
#[derive(Debug, Clone, Copy, PartialEq, Eq, Structural)]
pub struct ServerCapabilities {
    pub http: bool,
    pub sse: bool,
}

impl ServerCapabilities {
    /// Why a server cannot be used.
    pub open spec fn objection(self, server: ToolServer) -> Option<AcpErrorView> {
        match server {
            ToolServer::Stdio { absolute } => if absolute {
                None
            } else {
                Some(AcpErrorView::InvalidMcpCommand)
            },
            ToolServer::Http => if self.http {
                None
            } else {
                Some(AcpErrorView::UnsupportedMcpTransport)
            },
            ToolServer::Sse => if self.sse {
                None
            } else {
                Some(AcpErrorView::UnsupportedMcpTransport)
            },
            ToolServer::Other => Some(AcpErrorView::UnsupportedMcpTransport),
        }
    }

    /// The first objection to a server.
    pub open spec fn first_objection(self, servers: Seq<ToolServer>) -> Option<AcpErrorView>
        decreases servers.len(),
    {
        if servers.len() == 0 {
            None
        } else {
            match self.objection(servers[0]) {
                Some(e) => Some(e),
                None => self.first_objection(servers.skip(1)),
            }
        }
    }
}

/// Refuses servers that the agent cannot use.
pub fn validate_mcp(capabilities: ServerCapabilities, servers: &Vec<ToolServer>) -> (r: Result<
    (),
    AcpError,
>)
    ensures
        match capabilities.first_objection(servers@) {
            Some(e) => outcome(r) == Err::<(), AcpErrorView>(e),
            None => r is Ok,
        },
{
    let mut i: usize = 0;
    assert(servers@.skip(0) =~= servers@);
    while i < servers.len()
        invariant
            i <= servers.len(),
            capabilities.first_objection(servers@) == capabilities.first_objection(
                servers@.skip(i as int),
            ),
        decreases servers.len() - i,
    {
        assert(servers@.skip(i as int)[0] == servers@[i as int]);
        assert(servers@.skip(i as int).skip(1) =~= servers@.skip(i + 1));
        let supported = match servers[i] {
            ToolServer::Stdio { absolute } => {
                if !absolute {
                    return Err(AcpError::InvalidMcpCommand);
                }
                true
            },
            ToolServer::Http => capabilities.http,
            ToolServer::Sse => capabilities.sse,
            ToolServer::Other => false,
        };
        if !supported {
            return Err(AcpError::UnsupportedMcpTransport);
        }
        i = i + 1;
    }
    Ok(())
}

/// Why a session cannot be created.
pub open spec fn session_objection(
    absolute: bool,
    closed: bool,
    capabilities: ServerCapabilities,
    servers: Seq<ToolServer>,
) -> Option<AcpErrorView> {
    if !absolute {
        Some(AcpErrorView::InvalidWorkingDirectory)
    } else if closed {
        Some(AcpErrorView::Closed)
    } else {
        capabilities.first_objection(servers)
    }
}

/// Refuses a session before anything is sent. `absolute` tells whether its working
/// directory is absolute, and `closed` whether the connection is closed.
pub fn check_new_session(
    absolute: bool,
    closed: bool,
    capabilities: ServerCapabilities,
    servers: &Vec<ToolServer>,
) -> (r: Result<(), AcpError>)
    ensures
        match session_objection(absolute, closed, capabilities, servers@) {
            Some(e) => outcome(r) == Err::<(), AcpErrorView>(e),
            None => r is Ok,
        },
{
    if !absolute {
        return Err(AcpError::InvalidWorkingDirectory);
    }
    if closed {
        return Err(AcpError::Closed);
    }
    validate_mcp(capabilities, servers)
}

/// A native session that belongs to a session and a slot of the application.
///
/// Only one run may use it at a time. A dropped or interrupted stream retires the
/// session rather than allowing late provider traffic to mix into another run.
pub struct SessionState {
    pub session_id: SessionId,
    pub slot_id: SlotId,
    pub retired: bool,
    pub quiescent: bool,
    pub predecessor: Option<ContinuationId>,
    pub configuration: ConfigurationState,
}

/// What a `SessionState` holds.
#[verifier::ext_equal]
pub struct SessionStateView {
    pub session_id: Seq<char>,
    pub slot_id: Seq<char>,
    pub retired: bool,
    pub quiescent: bool,
    pub predecessor: Option<Seq<char>>,
    pub configuration: ConfigurationStateView,
}

impl DeepView for SessionState {
    type V = SessionStateView;

    open spec fn deep_view(&self) -> SessionStateView {
        SessionStateView {
            session_id: self.session_id.deep_view(),
            slot_id: self.slot_id.deep_view(),
            retired: self.retired,
            quiescent: self.quiescent,
            predecessor: self.predecessor.deep_view(),
            configuration: self.configuration.deep_view(),
        }
    }
}

impl SessionStateView {
    /// The session takes a run.
    pub open spec fn available(self) -> bool {
        !self.retired && self.quiescent
    }

    /// Why nothing can be sent.
    pub open spec fn objection(self, text: Seq<char>, closed: bool) -> Option<AcpErrorView> {
        if blank(text) {
            Some(AcpErrorView::EmptyPrompt)
        } else if !self.available() {
            Some(AcpErrorView::SessionUnavailable)
        } else if closed {
            Some(AcpErrorView::Closed)
        } else {
            None
        }
    }

    /// The assignment of a run of this session.
    pub open spec fn assignment(self, id: Seq<char>) -> Result<Assignment, AcpErrorView> {
        match self.configuration.frozen() {
            Err(e) => Err(e),
            Ok(config) => Ok(
                RunSpecView {
                    id,
                    session_id: self.session_id,
                    slot_id: self.slot_id,
                    context: ContextManifestView::nothing(),
                    config,
                    continuation: self.predecessor,
                },
            ),
        }
    }

    /// Why a run with this assignment cannot be dispatched: the configuration has to be
    /// the one that the assignment froze.
    pub open spec fn dispatch_objection(
        self,
        config: RunConfigurationView,
        text: Seq<char>,
        closed: bool,
    ) -> Option<AcpErrorView> {
        match self.objection(text, closed) {
            Some(e) => Some(e),
            None => match self.configuration.frozen() {
                Err(e) => Some(e),
                Ok(current) => if current == config {
                    None
                } else {
                    Some(AcpErrorView::ConfigurationChanged)
                },
            },
        }
    }

    /// Why a value cannot be requested.
    pub open spec fn option_objection(
        self,
        closed: bool,
        id: Seq<char>,
        value: ConfigValueView,
    ) -> Option<AcpErrorView> {
        if !self.available() {
            Some(AcpErrorView::SessionUnavailable)
        } else if closed {
            Some(AcpErrorView::Closed)
        } else {
            self.configuration.refusal(id, value)
        }
    }
}

impl SessionState {
    /// A session that takes runs.
    pub fn new(
        session_id: SessionId,
        slot_id: SlotId,
        predecessor: Option<ContinuationId>,
        configuration: ConfigurationState,
    ) -> (r: SessionState)
        ensures
            r.deep_view() == (SessionStateView {
                session_id: session_id.deep_view(),
                slot_id: slot_id.deep_view(),
                retired: false,
                quiescent: true,
                predecessor: predecessor.deep_view(),
                configuration: configuration.deep_view(),
            }),
    {
        SessionState {
            session_id,
            slot_id,
            retired: false,
            quiescent: true,
            predecessor,
            configuration,
        }
    }

    /// Refuses a prompt before anything is recorded or sent.
    pub fn check(&self, text: &str, closed: bool) -> (r: Result<(), AcpError>)
        ensures
            match self.deep_view().objection(text@, closed) {
                Some(e) => outcome(r) == Err::<(), AcpErrorView>(e),
                None => r is Ok,
            },
    {
        if is_blank(text) {
            return Err(AcpError::EmptyPrompt);
        }
        if self.retired || !self.quiescent {
            return Err(AcpError::SessionUnavailable);
        }
        if closed {
            return Err(AcpError::Closed);
        }
        Ok(())
    }

    /// The assignment of a run of this session.
    pub fn run_spec(&self, id: RunId) -> (r: Result<RunSpec, AcpError>)
        ensures
            outcome(r) == self.deep_view().assignment(id.deep_view()),
    {
        match self.configuration.for_run() {
            Err(e) => Err(e),
            Ok(config) => Ok(
                RunSpec {
                    id,
                    session_id: self.session_id.duplicate(),
                    slot_id: self.slot_id.duplicate(),
                    context: ContextManifest::empty(),
                    config,
                    continuation: self.predecessor.duplicate(),
                },
            ),
        }
    }

    /// Dispatches a run: the session is busy until the run has settled.
    pub fn dispatch(&mut self, spec: RunSpec, text: &str, closed: bool) -> (r: Result<
        ActiveRun,
        AcpError,
    >)
        ensures
            match old(self).deep_view().dispatch_objection(
                spec.deep_view().config,
                text@,
                closed,
            ) {
                Some(e) => r matches Err(error) && error.deep_view() == e && final(self).deep_view()
                    == old(self).deep_view(),
                None => {
                    &&& r matches Ok(active) && active.assignment() == spec && active.status()
                        == RunStatus::Starting && !active.cancelling() && !active.is_settled()
                    &&& final(self).deep_view() == (SessionStateView {
                        quiescent: false,
                        ..old(self).deep_view()
                    })
                },
            },
    {
        match self.check(text, closed) {
            Err(e) => return Err(e),
            Ok(_) => {},
        }
        match self.configuration.for_run() {
            Err(e) => return Err(e),
            Ok(current) => {
                if !current.same_as(&spec.config) {
                    return Err(AcpError::ConfigurationChanged);
                }
            },
        }
        self.quiescent = false;
        Ok(ActiveRun::start(spec))
    }

    /// The prompt could not be sent: whether the agent got it is not known.
    pub fn dispatch_failed(&mut self, message: String) -> (r: AcpError)
        ensures
            r.deep_view() == AcpErrorView::Protocol(message@),
            final(self).deep_view() == (SessionStateView { retired: true, ..old(self).deep_view() }),
    {
        self.retired = true;
        AcpError::Protocol(message)
    }

    /// Marks a configuration change as requested, between runs.
    pub fn begin_option(&mut self, closed: bool, id: &str, value: &ConfigValue) -> (r: Result<
        (),
        AcpError,
    >)
        ensures
            match old(self).deep_view().option_objection(closed, id@, value.deep_view()) {
                Some(e) => outcome(r) == Err::<(), AcpErrorView>(e) && final(self).deep_view()
                    == old(self).deep_view(),
                None => r is Ok && final(self).deep_view() == (SessionStateView {
                    configuration: ConfigurationStateView {
                        pending: true,
                        ..old(self).deep_view().configuration
                    },
                    ..old(self).deep_view()
                }),
            },
    {
        if self.retired || !self.quiescent {
            return Err(AcpError::SessionUnavailable);
        }
        if closed {
            return Err(AcpError::Closed);
        }
        self.configuration.propose(id, value)
    }
}

/// What comes next of a run.
pub enum Arrival {
    Event(AcpEvent),
    /// The agent answered the prompt, or the protocol failed.
    Finished(Result<StopReason, String>),
    /// The connection is closed and nothing is left to read.
    Nothing,
}

/// A dispatched run, which is settled once its end was seen.
pub struct ActiveRun {
    run: Run,
    settled: bool,
}

impl ActiveRun {
    #[verifier::type_invariant]
    spec fn well_formed(self) -> bool {
        self.settled || self.run.state().dispatched()
    }

    /// The assignment.
    pub closed spec fn assignment(&self) -> RunSpec {
        self.run.assignment()
    }

    /// Where the run stands.
    pub closed spec fn status(&self) -> RunStatus {
        self.run.state()
    }

    /// Whether cancellation was ever requested.
    pub closed spec fn cancelling(&self) -> bool {
        self.run.cancelling()
    }

    /// Whether the end was seen.
    pub closed spec fn is_settled(&self) -> bool {
        self.settled
    }

    fn start(spec: RunSpec) -> (r: ActiveRun)
        ensures
            r.assignment() == spec,
            r.status() == RunStatus::Starting,
            !r.cancelling(),
            !r.is_settled(),
    {
        let mut run = Run::new(spec);
        let _ = run.apply(RunEvent::DispatchStarted);
        ActiveRun { run, settled: false }
    }

    /// The run.
    pub fn run(&self) -> (r: &Run)
        ensures
            r.assignment() == self.assignment(),
            r.state() == self.status(),
            r.cancelling() == self.cancelling(),
    {
        &self.run
    }

    /// Whether the end was seen.
    pub fn settled(&self) -> (r: bool)
        ensures
            r == self.is_settled(),
    {
        self.settled
    }

    /// Whether there is anything to wait for: false once the end was seen. Where part of
    /// the transcript was lost the run cannot be followed any further.
    pub fn ready(&mut self, session: &mut SessionState, overflow: bool) -> (r: Result<
        bool,
        AcpError,
    >)
        ensures
            final(self).assignment() == old(self).assignment(),
            final(self).cancelling() == old(self).cancelling(),
            if old(self).is_settled() {
                &&& outcome(r) == Ok::<bool, AcpErrorView>(false)
                &&& *final(self) == *old(self)
                &&& final(session).deep_view() == old(session).deep_view()
            } else if overflow {
                &&& outcome(r) == Err::<bool, AcpErrorView>(AcpErrorView::EventBufferFull)
                &&& final(self).is_settled()
                &&& final(self).status() == RunStatus::Unknown
                &&& final(session).deep_view() == (SessionStateView {
                    retired: true,
                    ..old(session).deep_view()
                })
            } else {
                &&& outcome(r) == Ok::<bool, AcpErrorView>(true)
                &&& *final(self) == *old(self)
                &&& final(session).deep_view() == old(session).deep_view()
            },
    {
        if self.settled {
            return Ok(false);
        }
        if overflow {
            self.lose(session);
            return Err(AcpError::EventBufferFull);
        }
        Ok(true)
    }

    /// The end will not be seen: what became of the run is not known.
    fn lose(&mut self, session: &mut SessionState)
        requires
            !old(self).is_settled(),
        ensures
            final(self).assignment() == old(self).assignment(),
            final(self).cancelling() == old(self).cancelling(),
            final(self).is_settled(),
            final(self).status() == RunStatus::Unknown,
            final(session).deep_view() == (SessionStateView {
                retired: true,
                ..old(session).deep_view()
            }),
    {
        proof {
            use_type_invariant(&*self);
        }
        self.settled = true;
        let _ = self.run.apply(RunEvent::ConnectionLost);
        session.retired = true;
    }

    /// Takes in what came next. The first event acknowledges the start. A response ends
    /// the run and frees the session; a protocol error or a lost connection retires it.
    pub fn arrive(&mut self, session: &mut SessionState, arrival: Arrival) -> (r: Result<
        AcpEvent,
        AcpError,
    >)
        requires
            !old(self).is_settled(),
        ensures
            final(self).assignment() == old(self).assignment(),
            final(self).cancelling() == old(self).cancelling(),
            match arrival {
                Arrival::Event(event) => {
                    &&& r == Ok::<AcpEvent, AcpError>(event)
                    &&& !final(self).is_settled()
                    &&& final(self).status() == (if old(self).status() is Starting {
                        RunStatus::Running
                    } else {
                        old(self).status()
                    })
                    &&& final(session).deep_view() == old(session).deep_view()
                },
                Arrival::Finished(Ok(reason)) => {
                    &&& r == Ok::<AcpEvent, AcpError>(AcpEvent::Finished(reason))
                    &&& final(self).is_settled()
                    &&& final(self).status() == (if reason is Cancelled {
                        RunStatus::Cancelled
                    } else {
                        RunStatus::Completed
                    })
                    &&& final(session).deep_view() == (SessionStateView {
                        quiescent: true,
                        ..old(session).deep_view()
                    })
                },
                Arrival::Finished(Err(message)) => {
                    &&& r == Err::<AcpEvent, AcpError>(AcpError::Protocol(message))
                    &&& final(self).is_settled()
                    &&& final(self).status() == RunStatus::Failed
                    &&& final(session).deep_view() == (SessionStateView {
                        retired: true,
                        ..old(session).deep_view()
                    })
                },
                Arrival::Nothing => {
                    &&& r == Err::<AcpEvent, AcpError>(AcpError::Closed)
                    &&& final(self).is_settled()
                    &&& final(self).status() == RunStatus::Unknown
                    &&& final(session).deep_view() == (SessionStateView {
                        retired: true,
                        ..old(session).deep_view()
                    })
                },
            },
    {
        proof {
            use_type_invariant(&*self);
        }
        match arrival {
            Arrival::Event(event) => {
                if self.run.status() == RunStatus::Starting {
                    let _ = self.run.apply(RunEvent::Started);
                }
                Ok(event)
            },
            Arrival::Finished(Ok(reason)) => {
                self.settled = true;
                session.quiescent = true;
                let event = if matches!(reason, StopReason::Cancelled) {
                    RunEvent::CancellationConfirmed
                } else {
                    RunEvent::Completed
                };
                let _ = self.run.apply(event);
                Ok(AcpEvent::Finished(reason))
            },
            Arrival::Finished(Err(message)) => {
                self.settled = true;
                let _ = self.run.apply(RunEvent::Failed);
                session.retired = true;
                Err(AcpError::Protocol(message))
            },
            Arrival::Nothing => {
                self.lose(session);
                Err(AcpError::Closed)
            },
        }
    }

    /// Requests cancellation. Whether the agent has to be told: not where the end was
    /// seen or cancellation was already requested.
    pub fn cancel(&mut self) -> (r: bool)
        ensures
            final(self).assignment() == old(self).assignment(),
            final(self).is_settled() == old(self).is_settled(),
            r == (!old(self).is_settled() && !old(self).cancelling()),
            if r {
                final(self).cancelling() && final(self).status() == RunStatus::Cancelling
            } else {
                *final(self) == *old(self)
            },
    {
        proof {
            use_type_invariant(&*self);
        }
        if self.settled || self.run.cancellation_requested() {
            return false;
        }
        let _ = self.run.apply(RunEvent::CancellationRequested);
        true
    }

    /// The run is given up. A run whose end was not seen retires its session; whether
    /// the agent still has to be told to cancel is returned.
    pub fn abandon(&mut self, session: &mut SessionState) -> (r: bool)
        ensures
            r == (!old(self).is_settled() && !old(self).cancelling()),
            final(session).deep_view() == (if old(self).is_settled() {
                old(session).deep_view()
            } else {
                SessionStateView { retired: true, ..old(session).deep_view() }
            }),
    {
        if self.settled {
            return false;
        }
        let tell = self.cancel();
        session.retired = true;
        tell
    }
}

/// A session that gave up on a run takes no other: retired sessions refuse everything.
pub proof fn retired_sessions_refuse(
    session: SessionStateView,
    config: RunConfigurationView,
    text: Seq<char>,
    closed: bool,
)
    requires
        session.retired,
    ensures
        session.dispatch_objection(config, text, closed) is Some,
        session.objection(text, closed) is Some,
{
}

/// While a run is under way the session takes no other.
pub proof fn busy_sessions_refuse(
    session: SessionStateView,
    config: RunConfigurationView,
    text: Seq<char>,
    closed: bool,
)
    requires
        !session.quiescent,
    ensures
        session.dispatch_objection(config, text, closed) is Some,
{
}

/// What is dispatched runs with the configuration that its assignment froze, and only
/// with one that can be relied on.
pub proof fn dispatch_uses_the_frozen_configuration(
    session: SessionStateView,
    config: RunConfigurationView,
    text: Seq<char>,
    closed: bool,
)
    requires
        session.dispatch_objection(config, text, closed) is None,
    ensures
        session.configuration.settled(),
        session.configuration.frozen() == Ok::<RunConfigurationView, AcpErrorView>(config),
        session.available(),
        !blank(text),
{
}

} // verus!
