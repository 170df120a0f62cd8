//! The lifecycle of one bridge-managed execution.

use crate::configuration::RunConfiguration;
use crate::datum::Datum;
use crate::id::{ContinuationId, RunId, SessionId, SlotId};
use crate::model::{ContextManifest, ContextManifestView};
use vstd::prelude::*;
use vstd::string::*;

verus! {

/// A caller-prepared assignment, frozen when moved into a run.
///
/// The default configuration captures application selections and the provider's
/// report at dispatch. It does not attest the remote model's actual execution.
/// A continuation identifies the native session's origin, not a per-run re-claim.
/// This type alone does not dispatch work or enforce authority.
#[derive(Debug, PartialEq, Eq)]
pub struct RunSpec<C = RunConfiguration> {
    pub id: RunId,
    pub session_id: SessionId,
    pub slot_id: SlotId,
    pub context: ContextManifest,
    pub config: C,
    /// The claimed continuation from which this native session was resumed.
    pub continuation: Option<ContinuationId>,
}

/// What a `RunSpec` holds.
#[verifier::ext_equal]
pub struct RunSpecView<C> {
    pub id: Seq<char>,
    pub session_id: Seq<char>,
    pub slot_id: Seq<char>,
    pub context: ContextManifestView,
    pub config: C,
    pub continuation: Option<Seq<char>>,
}

impl<C: DeepView> DeepView for RunSpec<C> {
    type V = RunSpecView<C::V>;

    open spec fn deep_view(&self) -> RunSpecView<C::V> {
        RunSpecView {
            id: self.id.deep_view(),
            session_id: self.session_id.deep_view(),
            slot_id: self.slot_id.deep_view(),
            context: self.context.deep_view(),
            config: self.config.deep_view(),
            continuation: self.continuation.deep_view(),
        }
    }
}

impl<C: Datum> Datum for RunSpec<C> {
    fn duplicate(&self) -> (r: RunSpec<C>) {
        RunSpec {
            id: self.id.duplicate(),
            session_id: self.session_id.duplicate(),
            slot_id: self.slot_id.duplicate(),
            context: self.context.duplicate(),
            config: self.config.duplicate(),
            continuation: self.continuation.duplicate(),
        }
    }

    fn same_as(&self, other: &RunSpec<C>) -> (r: bool) {
        self.id.same_as(&other.id) && self.session_id.same_as(&other.session_id)
            && self.slot_id.same_as(&other.slot_id) && self.context.same_as(&other.context)
            && self.config.same_as(&other.config) && self.continuation.same_as(&other.continuation)
    }
}

/// Where a run stands.
#[derive(Debug, Clone, Copy, PartialEq, Eq, Structural)]
pub enum RunStatus {
    Queued,
    /// Dispatch has begun, but execution has not yet been acknowledged.
    Starting,
    Running,
    Cancelling,
    Completed,
    Failed,
    Cancelled,
    /// Execution may still be happening; the connection no longer establishes its outcome.
    Unknown,
}

impl DeepView for RunStatus {
    type V = RunStatus;

    open spec fn deep_view(&self) -> RunStatus {
        *self
    }
}

impl Datum for RunStatus {
    fn duplicate(&self) -> (r: RunStatus) {
        *self
    }

    fn same_as(&self, other: &RunStatus) -> (r: bool) {
        *self == *other
    }
}

/// Evidence or intent supplied by the owning runtime.
///
/// The caller must serialize dispatch with queued cancellation, confirm provider
/// outcomes, and deduplicate delivered events. This enum does not perform I/O.
#[derive(Debug, Clone, Copy, PartialEq, Eq, Structural)]
pub enum RunEvent {
    /// Must be recorded before sending work to a provider.
    DispatchStarted,
    Started,
    CancellationRequested,
    Completed,
    Failed,
    CancellationConfirmed,
    ConnectionLost,
    /// Provider evidence establishes that the previously unknown run is still active.
    RecoveredRunning,
}

impl DeepView for RunEvent {
    type V = RunEvent;

    open spec fn deep_view(&self) -> RunEvent {
        *self
    }
}

impl Datum for RunEvent {
    fn duplicate(&self) -> (r: RunEvent) {
        *self
    }

    fn same_as(&self, other: &RunEvent) -> (r: bool) {
        *self == *other
    }
}

impl RunStatus {
    /// The variant's name.
    pub open spec fn spec_name(self) -> Seq<char> {
        match self {
            RunStatus::Queued => "Queued"@,
            RunStatus::Starting => "Starting"@,
            RunStatus::Running => "Running"@,
            RunStatus::Cancelling => "Cancelling"@,
            RunStatus::Completed => "Completed"@,
            RunStatus::Failed => "Failed"@,
            RunStatus::Cancelled => "Cancelled"@,
            RunStatus::Unknown => "Unknown"@,
        }
    }

    /// The variant's name.
    pub fn name(self) -> (r: &'static str)
        ensures
            r@ == self.spec_name(),
    {
        match self {
            RunStatus::Queued => "Queued",
            RunStatus::Starting => "Starting",
            RunStatus::Running => "Running",
            RunStatus::Cancelling => "Cancelling",
            RunStatus::Completed => "Completed",
            RunStatus::Failed => "Failed",
            RunStatus::Cancelled => "Cancelled",
            RunStatus::Unknown => "Unknown",
        }
    }
}

impl RunEvent {
    /// The variant's name.
    pub open spec fn spec_name(self) -> Seq<char> {
        match self {
            RunEvent::DispatchStarted => "DispatchStarted"@,
            RunEvent::Started => "Started"@,
            RunEvent::CancellationRequested => "CancellationRequested"@,
            RunEvent::Completed => "Completed"@,
            RunEvent::Failed => "Failed"@,
            RunEvent::CancellationConfirmed => "CancellationConfirmed"@,
            RunEvent::ConnectionLost => "ConnectionLost"@,
            RunEvent::RecoveredRunning => "RecoveredRunning"@,
        }
    }

    /// The variant's name.
    pub fn name(self) -> (r: &'static str)
        ensures
            r@ == self.spec_name(),
    {
        match self {
            RunEvent::DispatchStarted => "DispatchStarted",
            RunEvent::Started => "Started",
            RunEvent::CancellationRequested => "CancellationRequested",
            RunEvent::Completed => "Completed",
            RunEvent::Failed => "Failed",
            RunEvent::CancellationConfirmed => "CancellationConfirmed",
            RunEvent::ConnectionLost => "ConnectionLost",
            RunEvent::RecoveredRunning => "RecoveredRunning",
        }
    }
}

impl RunStatus {
    /// The outcome is established and does not change any more.
    pub open spec fn terminal(self) -> bool {
        self is Completed || self is Failed || self is Cancelled
    }

    /// Whether the outcome is established.
    pub fn is_terminal(self) -> (r: bool)
        ensures
            r == self.terminal(),
    {
        matches!(self, RunStatus::Completed | RunStatus::Failed | RunStatus::Cancelled)
    }

    /// Work has been handed to a provider and the connection still stands.
    pub open spec fn dispatched(self) -> bool {
        self is Starting || self is Running || self is Cancelling
    }
}

/// An event that a run in this status does not accept.
#[derive(Debug, Clone, Copy, PartialEq, Eq, Structural)]
pub struct InvalidTransition {
    pub status: RunStatus,
    pub event: RunEvent,
}

impl InvalidTransition {
    /// What the error says.
    pub fn to_string(&self) -> (r: String)
        ensures
            r@ == "cannot apply "@ + self.event.spec_name() + " to a "@ + self.status.spec_name()
                + " run"@,
    {
        let mut r = "cannot apply ".to_owned();
        r.append(self.event.name());
        r.append(" to a ");
        r.append(self.status.name());
        r.append(" run");
        r
    }
}

/// The status that an event leads to, or None where the event is rejected.
pub open spec fn next_status(status: RunStatus, cancelling: bool, event: RunEvent) -> Option<
    RunStatus,
> {
    match event {
        RunEvent::DispatchStarted => if status is Queued {
            Some(RunStatus::Starting)
        } else {
            None
        },
        // A late start acknowledgement must not erase cancellation intent.
        RunEvent::Started => if status is Starting {
            Some(RunStatus::Running)
        } else if status is Cancelling {
            Some(RunStatus::Cancelling)
        } else {
            None
        },
        RunEvent::CancellationRequested => if status is Queued {
            Some(RunStatus::Cancelled)
        } else if status.dispatched() {
            Some(RunStatus::Cancelling)
        } else if status is Unknown {
            Some(RunStatus::Unknown)
        } else {
            None
        },
        RunEvent::Failed => if status.terminal() {
            None
        } else {
            Some(RunStatus::Failed)
        },
        RunEvent::Completed => if status.dispatched() || status is Unknown {
            Some(RunStatus::Completed)
        } else {
            None
        },
        RunEvent::CancellationConfirmed => if status.dispatched() || status is Unknown {
            Some(RunStatus::Cancelled)
        } else {
            None
        },
        RunEvent::ConnectionLost => if status.dispatched() {
            Some(RunStatus::Unknown)
        } else {
            None
        },
        RunEvent::RecoveredRunning => if status is Unknown {
            Some(
                if cancelling {
                    RunStatus::Cancelling
                } else {
                    RunStatus::Running
                },
            )
        } else {
            None
        },
    }
}

/// In-memory lifecycle of one bridge-managed execution.
#[derive(Debug, PartialEq, Eq)]
pub struct Run<C = RunConfiguration> {
    spec: RunSpec<C>,
    status: RunStatus,
    cancellation_requested: bool,
}

impl<C> Run<C> {
    /// The assignment.
    pub closed spec fn assignment(&self) -> RunSpec<C> {
        self.spec
    }

    /// The current status.
    pub closed spec fn state(&self) -> RunStatus {
        self.status
    }

    /// Whether cancellation was ever requested.
    pub closed spec fn cancelling(&self) -> bool {
        self.cancellation_requested
    }

    /// A queued run of the assignment.
    pub fn new(spec: RunSpec<C>) -> (r: Run<C>)
        ensures
            r.assignment() == spec,
            r.state() == RunStatus::Queued,
            !r.cancelling(),
    {
        Run { spec, status: RunStatus::Queued, cancellation_requested: false }
    }

    /// The assignment.
    pub fn spec(&self) -> (r: &RunSpec<C>)
        ensures
            *r == self.assignment(),
    {
        &self.spec
    }

    /// The current status.
    pub fn status(&self) -> (r: RunStatus)
        ensures
            r == self.state(),
    {
        self.status
    }

    /// Whether cancellation was ever requested.
    pub fn cancellation_requested(&self) -> (r: bool)
        ensures
            r == self.cancelling(),
    {
        self.cancellation_requested
    }

    /// Apply one lifecycle fact. Rejected events leave the run unchanged.
    ///
    /// Cancellation intent is retained across disconnection. Completing after a
    /// cancellation request is valid; losing the connection is never completion.
    pub fn apply(&mut self, event: RunEvent) -> (r: Result<RunStatus, InvalidTransition>)
        ensures
            final(self).assignment() == old(self).assignment(),
            match next_status(old(self).state(), old(self).cancelling(), event) {
                Some(next) => {
                    &&& r == Ok::<RunStatus, InvalidTransition>(next)
                    &&& final(self).state() == next
                    &&& final(self).cancelling() == (old(self).cancelling()
                        || event is CancellationRequested)
                },
                None => {
                    &&& r == Err::<RunStatus, InvalidTransition>(
                        (InvalidTransition { status: old(self).state(), event }),
                    )
                    &&& *final(self) == *old(self)
                },
            },
        no_unwind
    {
        let next = match (self.status, event) {
            (RunStatus::Queued, RunEvent::DispatchStarted) => RunStatus::Starting,
            (RunStatus::Starting, RunEvent::Started) => RunStatus::Running,
            (RunStatus::Cancelling, RunEvent::Started) => RunStatus::Cancelling,
            (RunStatus::Queued, RunEvent::CancellationRequested) => RunStatus::Cancelled,
            (
                RunStatus::Queued
                | RunStatus::Starting
                | RunStatus::Running
                | RunStatus::Cancelling
                | RunStatus::Unknown,
                RunEvent::Failed,
            ) => RunStatus::Failed,
            (
                RunStatus::Starting | RunStatus::Running | RunStatus::Cancelling,
                RunEvent::CancellationRequested,
            ) => RunStatus::Cancelling,
            (RunStatus::Unknown, RunEvent::CancellationRequested) => RunStatus::Unknown,
            (
                RunStatus::Starting
                | RunStatus::Running
                | RunStatus::Cancelling
                | RunStatus::Unknown,
                RunEvent::Completed,
            ) => RunStatus::Completed,
            (
                RunStatus::Starting
                | RunStatus::Running
                | RunStatus::Cancelling
                | RunStatus::Unknown,
                RunEvent::CancellationConfirmed,
            ) => RunStatus::Cancelled,
            (
                RunStatus::Starting | RunStatus::Running | RunStatus::Cancelling,
                RunEvent::ConnectionLost,
            ) => RunStatus::Unknown,
            (RunStatus::Unknown, RunEvent::RecoveredRunning) => {
                if self.cancellation_requested {
                    RunStatus::Cancelling
                } else {
                    RunStatus::Running
                }
            },
            _ => {
                return Err(InvalidTransition { status: self.status, event });
            },
        };
        if event == RunEvent::CancellationRequested {
            self.cancellation_requested = true;
        }
        self.status = next;
        Ok(next)
    }
}

/// The status and the cancellation intent after a history of events, of which
/// rejected ones change nothing.
pub open spec fn after_events(
    status: RunStatus,
    cancelling: bool,
    events: Seq<RunEvent>,
) -> (RunStatus, bool)
    decreases events.len(),
{
    if events.len() == 0 {
        (status, cancelling)
    } else {
        let (s, c) = after_events(status, cancelling, events.drop_last());
        match next_status(s, c, events.last()) {
            Some(next) => (next, c || events.last() is CancellationRequested),
            None => (s, c),
        }
    }
}

/// Once a run is completed, failed or cancelled, no history of events changes it.
pub proof fn terminal_statuses_are_final(
    status: RunStatus,
    cancelling: bool,
    events: Seq<RunEvent>,
)
    requires
        status.terminal(),
    ensures
        after_events(status, cancelling, events) == (status, cancelling),
    decreases events.len(),
{
    if events.len() > 0 {
        terminal_statuses_are_final(status, cancelling, events.drop_last());
    }
}

/// Cancellation intent, once recorded, is never lost.
pub proof fn cancellation_intent_is_retained(status: RunStatus, events: Seq<RunEvent>)
    ensures
        after_events(status, true, events).1,
    decreases events.len(),
{
    if events.len() > 0 {
        cancellation_intent_is_retained(status, events.drop_last());
    }
}

/// Losing the connection never establishes an outcome.
pub proof fn connection_loss_is_never_an_outcome(status: RunStatus, cancelling: bool)
    ensures
        next_status(status, cancelling, RunEvent::ConnectionLost) matches Some(next)
            ==> next == RunStatus::Unknown,
{
}

/// A run only reaches the running status while no cancellation was requested.
pub proof fn running_means_not_cancelling(events: Seq<RunEvent>)
    ensures
        ({
            let (status, cancelling) = after_events(RunStatus::Queued, false, events);
            (status is Running || status is Starting || status is Queued) ==> !cancelling
        }),
    decreases events.len(),
{
    if events.len() > 0 {
        running_means_not_cancelling(events.drop_last());
    }
}

/// Completing after a cancellation request is valid, also while the outcome is
/// unknown.
pub proof fn completion_after_cancellation_is_valid(status: RunStatus)
    requires
        status.dispatched() || status is Unknown,
    ensures
        ({
            let requested = next_status(status, false, RunEvent::CancellationRequested);
            requested is Some && next_status(requested->0, true, RunEvent::Completed) == Some(
                RunStatus::Completed,
            )
        }),
{
}

} // verus!
