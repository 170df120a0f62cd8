//! Runs that are recorded while they happen, and their structured results.

use crate::acp::error::{AcpError, RecordingError, RecordingErrorView};
use crate::acp::event::{AcpEvent, AcpEventView, StopReason, StopReasonView};
use crate::acp::recording::{followed, member, number_json, Recorder, RecorderView, RecordStep};
use crate::datum::{outcome, Datum};
use crate::json::{json_views, Json, JsonNumber, JsonView};
use crate::model::{Content, ContentView};
use crate::records::store::{environmental, RecordStore, StoreView};
use crate::records::{MessageKind, Payload, PayloadView, RecordState, Snapshot, SnapshotView};
use crate::structured::{JsonContract, JsonRejection, JsonRejectionView};
use crate::table::Table;
use crate::text::{debug_quoted, quoted_for_debug, same_text};
use vstd::prelude::*;
use vstd::string::*;

verus! {

/// The message is the agent's.
pub open spec fn from_agent(snapshot: SnapshotView) -> bool {
    snapshot.record.payload matches PayloadView::Message { kind: MessageKind::Agent, .. }
}

/// The agent sent something that is no text.
pub open spec fn without_text(snapshot: SnapshotView) -> bool {
    snapshot.record.payload matches PayloadView::Extension { namespace, name, .. } && namespace
        == "acp"@ && name == "message_content"@
}

/// The agent's messages, in their order.
pub open spec fn agent_messages(records: Seq<SnapshotView>) -> Seq<SnapshotView>
    decreases records.len(),
{
    if records.len() == 0 {
        Seq::empty()
    } else {
        let before = agent_messages(records.drop_last());
        if from_agent(records.last()) {
            before.push(records.last())
        } else {
            before
        }
    }
}

/// Which revision of which record is meant.
pub open spec fn source_json(snapshot: SnapshotView) -> JsonView {
    JsonView::Object(
        member("id"@, JsonView::Text(snapshot.record.id)).insert(
            "revision"@,
            number_json(snapshot.revision),
        ),
    )
}

/// The sources of a result, in JSON.
pub open spec fn sources_json(records: Seq<SnapshotView>) -> JsonView {
    JsonView::Array(agent_messages(records).map_values(|s: SnapshotView| source_json(s)))
}

/// The text that may be a result: the whole text of the agent's only message.
pub open spec fn result_text(records: Seq<SnapshotView>) -> Result<Seq<char>, JsonRejectionView> {
    let messages = agent_messages(records);
    if exists|i: int| 0 <= i < records.len() && without_text(#[trigger] records[i]) {
        Err(JsonRejectionView::NonTextOutput)
    } else if messages.len() == 0 {
        Err(JsonRejectionView::MissingOutput)
    } else if messages.len() > 1 {
        Err(JsonRejectionView::AmbiguousOutput)
    } else if messages[0].state != RecordState::Complete {
        Err(JsonRejectionView::Incomplete("output record is not complete"@))
    } else {
        match messages[0].record.payload {
            PayloadView::Message { message, .. } => if message.content.len() == 1 {
                match message.content[0] {
                    ContentView::Text(text) => Ok(text),
                    _ => Err(JsonRejectionView::NonTextOutput),
                }
            } else {
                Err(JsonRejectionView::NonTextOutput)
            },
            _ => Err(JsonRejectionView::NonTextOutput),
        }
    }
}

fn is_without_text(snapshot: &Snapshot) -> (r: bool)
    ensures
        r == without_text(snapshot.deep_view()),
{
    match &snapshot.record.payload {
        Payload::Extension { namespace, name, .. } => same_text(namespace.as_str(), "acp")
            && same_text(name.as_str(), "message_content"),
        _ => false,
    }
}

fn is_from_agent(snapshot: &Snapshot) -> (r: bool)
    ensures
        r == from_agent(snapshot.deep_view()),
{
    match &snapshot.record.payload {
        Payload::Message { kind, .. } => matches!(kind, MessageKind::Agent),
        _ => false,
    }
}

fn make_source(snapshot: &Snapshot) -> (r: Json)
    ensures
        r.deep_view() == source_json(snapshot.deep_view()),
{
    broadcast use json_views;

    let mut members: Table<Json> = Table::new();
    assert(members.deep_view() =~= Map::<Seq<char>, JsonView>::empty());
    members.put("id".to_owned(), Json::Text(snapshot.record.id.as_str().to_owned()));
    members.put("revision".to_owned(), Json::Number(JsonNumber::PosInt(snapshot.revision)));
    Json::Object(members)
}

fn any_without_text(records: &Vec<Snapshot>) -> (r: bool)
    ensures
        r == exists|i: int|
            0 <= i < records.deep_view().len() && without_text(#[trigger] records.deep_view()[i]),
{
    let mut i: usize = 0;
    while i < records.len()
        invariant
            i <= records.len(),
            forall|j: int| 0 <= j < i ==> !without_text(#[trigger] records.deep_view()[j]),
        decreases records.len() - i,
    {
        assert(records.deep_view()[i as int] == records@[i as int].deep_view());
        if is_without_text(&records[i]) {
            return true;
        }
        i = i + 1;
    }
    false
}

/// What the agent's messages are, and the text that may be a result.
pub fn json_candidate(records: &Vec<Snapshot>) -> (r: (Json, Result<String, JsonRejection>))
    ensures
        r.0.deep_view() == sources_json(records.deep_view()),
        outcome(r.1) == result_text(records.deep_view()),
{
    broadcast use json_views;

    let ghost all = records.deep_view();
    let mut sources: Vec<Json> = Vec::new();
    let mut last: usize = 0;
    let mut i: usize = 0;
    assert(all.take(0) =~= Seq::empty());
    assert(sources.deep_view() =~= Seq::<JsonView>::empty());
    assert(sources.deep_view() =~= agent_messages(all.take(0)).map_values(
        |s: SnapshotView| source_json(s),
    ));
    while i < records.len()
        invariant
            i <= records.len(),
            all == records.deep_view(),
            sources.deep_view() == agent_messages(all.take(i as int)).map_values(
                |s: SnapshotView| source_json(s),
            ),
            agent_messages(all.take(i as int)).len() > 0 ==> last < records.len() && agent_messages(
                all.take(i as int),
            ).last() == all[last as int],
        decreases records.len() - i,
    {
        let ghost before = sources.deep_view();
        let ghost messages = agent_messages(all.take(i as int));
        assert(all.take(i + 1).drop_last() =~= all.take(i as int));
        assert(all.take(i + 1).last() == records@[i as int].deep_view());
        if is_from_agent(&records[i]) {
            let source = make_source(&records[i]);
            let ghost view = source.deep_view();
            sources.push(source);
            last = i;
            assert(sources.deep_view() =~= before.push(view));
            assert(sources.deep_view() =~= messages.push(all[i as int]).map_values(
                |s: SnapshotView| source_json(s),
            ));
        }
        i = i + 1;
    }
    assert(all.take(i as int) =~= all);
    assert(sources.deep_view().len() == agent_messages(all).len());
    let count: usize = sources.len();
    let list = Json::Array(sources);
    if any_without_text(records) {
        return (list, Err(JsonRejection::NonTextOutput));
    }
    if count == 0 {
        return (list, Err(JsonRejection::MissingOutput));
    }
    if count > 1 {
        return (list, Err(JsonRejection::AmbiguousOutput));
    }
    assert(agent_messages(all)[0] == records@[last as int].deep_view());
    if records[last].state != RecordState::Complete {
        return (list, Err(JsonRejection::Incomplete("output record is not complete".to_owned())));
    }
    match &records[last].record.payload {
        Payload::Message { message, .. } => {
            if message.content.len() == 1 {
                assert(message.deep_view().content[0] == message.content@[0].deep_view());
                match &message.content[0] {
                    Content::Text(text) => (list, Ok(text.clone())),
                    _ => (list, Err(JsonRejection::NonTextOutput)),
                }
            } else {
                (list, Err(JsonRejection::NonTextOutput))
            }
        },
        _ => (list, Err(JsonRejection::NonTextOutput)),
    }
}

impl StopReasonView {
    /// The reason as it is shown for debugging.
    pub open spec fn debug(self) -> Seq<char> {
        match self {
            StopReasonView::EndTurn => "EndTurn"@,
            StopReasonView::MaxTokens => "MaxTokens"@,
            StopReasonView::MaxTurnRequests => "MaxTurnRequests"@,
            StopReasonView::Refusal => "Refusal"@,
            StopReasonView::Cancelled => "Cancelled"@,
            StopReasonView::Other(name) => "Other("@ + debug_quoted(name) + ")"@,
        }
    }
}

fn stop_debug(reason: &StopReason) -> (r: String)
    ensures
        r@ == reason.deep_view().debug(),
{
    match reason {
        StopReason::EndTurn => "EndTurn".to_owned(),
        StopReason::MaxTokens => "MaxTokens".to_owned(),
        StopReason::MaxTurnRequests => "MaxTurnRequests".to_owned(),
        StopReason::Refusal => "Refusal".to_owned(),
        StopReason::Cancelled => "Cancelled".to_owned(),
        StopReason::Other(name) => {
            let mut text = "Other(".to_owned();
            text.append(quoted_for_debug(name.as_str()).as_str());
            text.append(")");
            text
        },
    }
}

/// What remains to be validated of a run that ended so: nothing unless the agent ended
/// its turn.
pub open spec fn to_validate(
    reason: Option<StopReasonView>,
    text: Result<Seq<char>, JsonRejectionView>,
) -> Result<Seq<char>, JsonRejectionView> {
    match reason {
        Some(StopReasonView::EndTurn) => text,
        Some(other) => Err(JsonRejectionView::Incomplete("provider stopped: "@ + other.debug())),
        None => Err(JsonRejectionView::Incomplete("recording or provider error"@)),
    }
}

/// The outcome of validation in JSON.
pub open spec fn validation_json(rejection: Option<JsonRejectionView>) -> JsonView {
    match rejection {
        None => JsonView::Object(member("status"@, JsonView::Text("valid"@))),
        Some(rejection) => JsonView::Object(
            member("status"@, JsonView::Text("rejected"@)).insert("rejection"@, rejection.json()),
        ),
    }
}

/// The evidence of how a result was validated.
pub open spec fn settlement_json(
    contract: JsonContract,
    sources: JsonView,
    rejection: Option<JsonRejectionView>,
) -> JsonView {
    JsonView::Object(
        member("version"@, number_json(1)).insert(
            "contract"@,
            JsonView::Object(
                member("name"@, JsonView::Text(contract.name@)).insert(
                    "revision"@,
                    JsonView::Text(contract.revision@),
                ),
            ),
        ).insert("mode"@, JsonView::Text("validate_returned_text"@)).insert(
            "native_enforcement"@,
            JsonView::Bool(false),
        ).insert("sources"@, sources).insert("validation"@, validation_json(rejection)),
    )
}

fn make_validation(rejection: &Option<JsonRejection>) -> (r: Json)
    ensures
        r.deep_view() == validation_json(rejection.deep_view()),
{
    broadcast use json_views;

    let mut members: Table<Json> = Table::new();
    assert(members.deep_view() =~= Map::<Seq<char>, JsonView>::empty());
    match rejection {
        None => members.put("status".to_owned(), Json::Text("valid".to_owned())),
        Some(rejection) => {
            members.put("status".to_owned(), Json::Text("rejected".to_owned()));
            members.put("rejection".to_owned(), rejection.to_json());
        },
    }
    Json::Object(members)
}

fn make_settlement(contract: &JsonContract, sources: Json, rejection: &Option<JsonRejection>) -> (r:
    Json)
    ensures
        r.deep_view() == settlement_json(*contract, sources.deep_view(), rejection.deep_view()),
{
    broadcast use json_views;

    let mut named: Table<Json> = Table::new();
    assert(named.deep_view() =~= Map::<Seq<char>, JsonView>::empty());
    named.put("name".to_owned(), Json::Text(contract.name.clone()));
    named.put("revision".to_owned(), Json::Text(contract.revision.clone()));
    let mut members: Table<Json> = Table::new();
    assert(members.deep_view() =~= Map::<Seq<char>, JsonView>::empty());
    members.put("version".to_owned(), Json::Number(JsonNumber::PosInt(1)));
    members.put("contract".to_owned(), Json::Object(named));
    members.put("mode".to_owned(), Json::Text("validate_returned_text".to_owned()));
    members.put("native_enforcement".to_owned(), Json::Bool(false));
    members.put("sources".to_owned(), sources);
    members.put("validation".to_owned(), make_validation(rejection));
    Json::Object(members)
}

/// A run that is recorded while it happens. After a failure nothing more is recorded.
pub struct RecordedRun {
    recorder: Recorder,
    failed: bool,
}

impl RecordedRun {
    #[verifier::type_invariant]
    spec fn well_formed(self) -> bool {
        self.recorder.deep_view().indexed()
    }

    /// What is recorded.
    pub closed spec fn recording(&self) -> RecorderView {
        self.recorder.deep_view()
    }

    /// Whether recording failed.
    pub closed spec fn has_failed(&self) -> bool {
        self.failed
    }
}

/// The reply and what is known and stored are those of a step of the recording, or the
/// store, which is then not dependable, could not be used: what is known and stored is
/// then one of the halts of the step. A step without an error is replied to as given.
pub open spec fn replied(
    reply: Result<Option<AcpEventView>, RecordingErrorView>,
    success: Result<Option<AcpEventView>, RecordingErrorView>,
    step: RecordStep,
    recorder: RecorderView,
    store: StoreView,
    dependable: bool,
) -> bool {
    ||| (reply matches Err(RecordingErrorView::Store(e)) && environmental(e) && !dependable
        && step.halts.contains((recorder, store)))
    ||| {
        &&& reply == match step.error {
            None => success,
            Some(e) => Err(e),
        }
        &&& recorder == step.recorder
        &&& store == step.store
    }
}

impl RecordedRun {
    /// A run whose recording has begun.
    pub fn new(recorder: Recorder) -> (r: RecordedRun)
        requires
            recorder.deep_view().indexed(),
        ensures
            r.recording() == recorder.deep_view(),
            !r.has_failed(),
    {
        RecordedRun { recorder, failed: false }
    }

    /// Live payloads with persisted identity/revision. Reading explicitly clones content.
    pub fn snapshot(&self) -> (r: Vec<Snapshot>)
        ensures
            r.deep_view() == self.recording().live(),
    {
        self.recorder.snapshot()
    }

    /// Whether the recording has come to its end.
    pub fn is_finished(&self) -> (r: bool)
        ensures
            r == self.recording().finished,
    {
        self.recorder.is_finished()
    }

    /// Refuses to act on a run whose recording failed.
    pub fn check(&self) -> (r: Result<(), RecordingError>)
        ensures
            self.has_failed() ==> outcome(r) == Err::<(), RecordingErrorView>(
                RecordingErrorView::Closed,
            ),
            !self.has_failed() ==> r is Ok,
    {
        if self.failed {
            Err(RecordingError::Closed)
        } else {
            Ok(())
        }
    }

    /// Saves what is live. If that fails, the run has to be cancelled.
    pub fn checkpoint<S: RecordStore>(self, store: &mut S) -> (r: (
        RecordedRun,
        Result<(), RecordingError>,
    ))
        ensures
            final(store).dependable() == old(store).dependable(),
            if self.has_failed() {
                &&& outcome(r.1) == Err::<(), RecordingErrorView>(RecordingErrorView::Closed)
                &&& r.0.recording() == self.recording()
                &&& r.0.has_failed()
                &&& final(store).contents() == old(store).contents()
            } else {
                &&& followed(
                    outcome(r.1),
                    self.recording().saved_from(old(store).contents(), 0),
                    r.0.recording(),
                    final(store).contents(),
                    old(store).dependable(),
                )
                &&& r.0.has_failed() == (r.1 is Err)
            },
    {
        proof {
            use_type_invariant(&self);
        }
        if self.failed {
            return (self, Err(RecordingError::Closed));
        }
        let mut recorder = self.recorder;
        let reply = recorder.checkpoint(store);
        let failed = reply.is_err();
        (RecordedRun { recorder, failed }, reply)
    }

    /// Records what came of the run. If that fails, the run has to be cancelled.
    pub fn next<S: RecordStore>(
        self,
        store: &mut S,
        arrived: Result<Option<AcpEvent>, AcpError>,
    ) -> (r: (RecordedRun, Result<Option<AcpEvent>, RecordingError>))
        ensures
            final(store).dependable() == old(store).dependable(),
            if self.has_failed() {
                &&& outcome(r.1) == Err::<Option<AcpEventView>, RecordingErrorView>(
                    RecordingErrorView::Closed,
                )
                &&& r.0.recording() == self.recording()
                &&& r.0.has_failed()
                &&& final(store).contents() == old(store).contents()
            } else {
                &&& r.0.has_failed() == (r.1 is Err)
                &&& replied(
                    outcome(r.1),
                    arrival_view(arrived),
                    arrival_step(self.recording(), old(store).contents(), arrived),
                    r.0.recording(),
                    final(store).contents(),
                    old(store).dependable(),
                )
            },
    {
        proof {
            use_type_invariant(&self);
        }
        if self.failed {
            return (self, Err(RecordingError::Closed));
        }
        let mut recorder = self.recorder;
        match arrived {
            Err(error) => {
                let reply = match recorder.interrupt(store, error.to_string()) {
                    Err(e) => Err(e),
                    Ok(_) => Err(RecordingError::Agent(error)),
                };
                (RecordedRun { recorder, failed: true }, reply)
            },
            Ok(None) => (RecordedRun { recorder, failed: false }, Ok(None)),
            Ok(Some(event)) => match recorder.observe(store, &event) {
                Err(e) => (RecordedRun { recorder, failed: true }, Err(e)),
                Ok(_) => (RecordedRun { recorder, failed: false }, Ok(Some(event))),
            },
        }
    }

    /// Seals a recording whose end was not observed. The run has to be cancelled if so.
    pub fn close<S: RecordStore>(self, store: &mut S) -> (r: bool)
        ensures
            final(store).dependable() == old(store).dependable(),
            r == !self.recording().finished,
            if self.recording().finished {
                final(store).contents() == old(store).contents()
            } else {
                exists|reply: Result<(), RecordingErrorView>, after: RecorderView| #[trigger]
                    followed(
                        reply,
                        self.recording().interrupted(
                            old(store).contents(),
                            "Recording ended before a complete transcript was saved."@,
                        ),
                        after,
                        final(store).contents(),
                        old(store).dependable(),
                    )
            },
    {
        proof {
            use_type_invariant(&self);
        }
        if self.recorder.is_finished() {
            return false;
        }
        let mut recorder = self.recorder;
        let reply = recorder.interrupt(
            store,
            "Recording ended before a complete transcript was saved.".to_owned(),
        );
        assert(followed(
            outcome(reply),
            self.recording().interrupted(
                old(store).contents(),
                "Recording ended before a complete transcript was saved."@,
            ),
            recorder.deep_view(),
            store.contents(),
            old(store).dependable(),
        ));
        true
    }

    /// Adds evidence.
    fn note<S: RecordStore>(self, store: &mut S, name: &str, data: Json) -> (r: (
        RecordedRun,
        Result<(), RecordingError>,
    ))
        ensures
            final(store).dependable() == old(store).dependable(),
            followed(
                outcome(r.1),
                self.recording().evidenced(old(store).contents(), name@, data.deep_view()),
                r.0.recording(),
                final(store).contents(),
                old(store).dependable(),
            ),
            r.0.has_failed() == self.has_failed(),
    {
        proof {
            use_type_invariant(&self);
        }
        let failed = self.failed;
        let mut recorder = self.recorder;
        let reply = recorder.evidence(store, name, data);
        (RecordedRun { recorder, failed }, reply)
    }
}

/// What is replied if an arrival is recorded.
pub open spec fn arrival_view(arrived: Result<Option<AcpEvent>, AcpError>) -> Result<
    Option<AcpEventView>,
    RecordingErrorView,
> {
    match arrived {
        Ok(event) => Ok(event.deep_view()),
        Err(error) => Err(RecordingErrorView::Agent(error.deep_view())),
    }
}

/// What recording an arrival leads to.
pub open spec fn arrival_step(
    recorder: RecorderView,
    store: StoreView,
    arrived: Result<Option<AcpEvent>, AcpError>,
) -> RecordStep {
    match arrived {
        Ok(Some(event)) => recorder.observed(store, event.deep_view()),
        Ok(None) => recorder.done(store),
        Err(error) => recorder.interrupted(store, error.deep_view().message()),
    }
}

/// Recording an arrival failed with this error, and left this.
pub open spec fn failed_so(
    run: RecordedRun,
    store: StoreView,
    arrived: Result<Option<AcpEvent>, AcpError>,
    error: RecordingErrorView,
    after: RecorderView,
    stored: StoreView,
    dependable: bool,
) -> bool {
    if run.has_failed() {
        error is Closed && after == run.recording() && stored == store
    } else {
        replied(
            Err(error),
            arrival_view(arrived),
            arrival_step(run.recording(), store, arrived),
            after,
            stored,
            dependable,
        )
    }
}

/// The evidence that a failed run has no result is added.
pub open spec fn unsettled(recorder: RecorderView, store: StoreView, contract: JsonContract) -> RecordStep {
    recorder.evidenced(
        store,
        "result_validation"@,
        settlement_json(
            contract,
            sources_json(recorder.live()),
            Some(JsonRejectionView::Incomplete("recording or provider error"@)),
        ),
    )
}

/// How a run that failed is left: the evidence that it has no result is stored and its
/// result is rejected, or the evidence could not be stored and the result is what it was.
pub open spec fn left_unsettled(
    error: RecordingErrorView,
    first: RecordingErrorView,
    step: RecordStep,
    recorder: RecorderView,
    store: StoreView,
    before: Option<Option<JsonRejectionView>>,
    after: Option<Option<JsonRejectionView>>,
    dependable: bool,
) -> bool {
    ||| {
        &&& step.error is None && error == first
        &&& recorder == step.recorder && store == step.store
        &&& after == Some(Some(JsonRejectionView::Incomplete("recording or provider error"@)))
    }
    ||| {
        &&& step.error == Some(error)
        &&& recorder == step.recorder && store == step.store
        &&& after == before
    }
    ||| {
        &&& error matches RecordingErrorView::Store(e) && environmental(e) && !dependable
        &&& step.halts.contains((recorder, store))
        &&& after == before
    }
}

/// A recorded run whose result has to be one JSON value. A normal provider completion
/// and a valid structured result are separate facts.
pub struct RecordedJsonRun {
    pub inner: RecordedRun,
    pub contract: JsonContract,
    /// Whether the result was settled, and if so why it was rejected.
    pub result: Option<Option<JsonRejection>>,
    pub failed: bool,
}

impl RecordedJsonRun {
    /// A run whose result is awaited.
    pub fn new(inner: RecordedRun, contract: JsonContract) -> (r: RecordedJsonRun)
        ensures
            r.inner == inner,
            r.contract == contract,
            r.result is None,
            !r.failed,
    {
        RecordedJsonRun { inner, contract, result: None, failed: false }
    }

    /// Records what came of the run. A run that failed has no result, which is recorded
    /// too.
    pub fn next<S: RecordStore>(
        self,
        store: &mut S,
        arrived: Result<Option<AcpEvent>, AcpError>,
    ) -> (r: (RecordedJsonRun, Result<Option<AcpEvent>, RecordingError>))
        ensures
            final(store).dependable() == old(store).dependable(),
            r.0.contract == self.contract,
            self.failed ==> outcome(r.1) == Err::<Option<AcpEventView>, RecordingErrorView>(
                RecordingErrorView::Closed,
            ) && r.0 == self && final(store).contents() == old(store).contents(),
            r.1 matches Ok(event) ==> {
                &&& !self.failed && !self.inner.has_failed()
                &&& !r.0.failed && !r.0.inner.has_failed()
                &&& r.0.result == self.result
                &&& replied(
                    Ok(event.deep_view()),
                    arrival_view(arrived),
                    arrival_step(self.inner.recording(), old(store).contents(), arrived),
                    r.0.inner.recording(),
                    final(store).contents(),
                    old(store).dependable(),
                )
            },
            r.1 matches Err(error) ==> !self.failed ==> {
                &&& r.0.failed && r.0.inner.has_failed()
                &&& exists|first: RecordingErrorView, middle: RecorderView, between: StoreView|
                    #[trigger] failed_so(
                        self.inner,
                        old(store).contents(),
                        arrived,
                        first,
                        middle,
                        between,
                        old(store).dependable(),
                    ) && left_unsettled(
                        error.deep_view(),
                        first,
                        unsettled(middle, between, self.contract),
                        r.0.inner.recording(),
                        final(store).contents(),
                        self.result.deep_view(),
                        r.0.result.deep_view(),
                        old(store).dependable(),
                    )
            },
    {
        if self.failed {
            return (self, Err(RecordingError::Closed));
        }
        let contract = self.contract;
        let result = self.result;
        let ghost start = self.inner;
        let (inner, reply) = self.inner.next(store, arrived);
        match reply {
            Ok(event) => (RecordedJsonRun { inner, contract, result, failed: false }, Ok(event)),
            Err(error) => {
                let ghost first = error.deep_view();
                let ghost middle = inner.recording();
                let ghost between = store.contents();
                assert(failed_so(start, old(store).contents(), arrived, first, middle, between, old(store).dependable()));
                let rejection = JsonRejection::Incomplete("recording or provider error".to_owned());
                let run = RecordedJsonRun { inner, contract, result, failed: true };
                let (run, settled) = run.settle(store, Some(rejection));
                match settled {
                    Err(e) => (run, Err(e)),
                    Ok(_) => (run, Err(error)),
                }
            },
        }
    }

    /// The text that has to be validated, or why the result is rejected as it stands.
    pub fn candidate(&self, reason: Option<&StopReason>) -> (r: Result<String, JsonRejection>)
        ensures
            outcome(r) == to_validate(
                match reason {
                    Some(reason) => Some(reason.deep_view()),
                    None => None,
                },
                result_text(self.inner.recording().live()),
            ),
    {
        match reason {
            Some(StopReason::EndTurn) => json_candidate(&self.inner.snapshot()).1,
            Some(other) => {
                let mut text = "provider stopped: ".to_owned();
                text.append(stop_debug(other).as_str());
                Err(JsonRejection::Incomplete(text))
            },
            None => Err(JsonRejection::Incomplete("recording or provider error".to_owned())),
        }
    }

    /// Why the result has to be settled now: the agent stopped, and it was not settled
    /// yet.
    pub fn settles(&self, event: &Option<AcpEvent>) -> (r: Option<StopReason>)
        ensures
            r.deep_view() == match event.deep_view() {
                Some(AcpEventView::Finished(reason)) if self.result is None => Some(reason),
                _ => None,
            },
    {
        match event {
            Some(AcpEvent::Finished(reason)) => if self.result.is_none() {
                Some(reason.duplicate())
            } else {
                None
            },
            _ => None,
        }
    }

    /// Records whether the result was accepted, with its sources.
    pub fn settle<S: RecordStore>(self, store: &mut S, rejection: Option<JsonRejection>) -> (r: (
        RecordedJsonRun,
        Result<(), RecordingError>,
    ))
        ensures
            final(store).dependable() == old(store).dependable(),
            followed(
                outcome(r.1),
                self.inner.recording().evidenced(
                    old(store).contents(),
                    "result_validation"@,
                    settlement_json(
                        self.contract,
                        sources_json(self.inner.recording().live()),
                        rejection.deep_view(),
                    ),
                ),
                r.0.inner.recording(),
                final(store).contents(),
                old(store).dependable(),
            ),
            r.0.inner.has_failed() == self.inner.has_failed(),
            r.0.contract == self.contract,
            r.1 is Ok ==> r.0.result == Some(rejection) && r.0.failed == self.failed,
            r.1 is Err ==> r.0.result == self.result && r.0.failed,
    {
        let (sources, _) = json_candidate(&self.inner.snapshot());
        let data = make_settlement(&self.contract, sources, &rejection);
        let (inner, reply) = self.inner.note(store, "result_validation", data);
        match reply {
            Err(e) => (
                RecordedJsonRun { inner, contract: self.contract, result: self.result, failed: true },
                Err(e),
            ),
            Ok(_) => (
                RecordedJsonRun {
                    inner,
                    contract: self.contract,
                    result: Some(rejection),
                    failed: self.failed,
                },
                Ok(()),
            ),
        }
    }
}

} // verus!
