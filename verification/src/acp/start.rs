//! How recorded runs start.

use crate::acp::context::{context_objection, encode, envelope, prepared_receipt, ContextTask};
use crate::acp::error::{RecordingError, RecordingErrorView};
use crate::acp::recorded::RecordedRun;
use crate::acp::recording::{
    member, number_json, recording_started, RecordActors, RecordActorsView, RecordStep, Recorder,
    RecorderView,
};
use crate::acp::session::{ActiveRun, SessionState, SessionStateView};
use crate::context::{
    blamed, consulted, context_prepared, prepare, prepare_with_policy, selection_under,
    ContextError, ContextErrorView, ContextLimits, ContextPolicy, ContextPolicyView,
    PreparedContext, PreparedContextView, Progress, ResourceStore, Resources, Sources,
};
use crate::datum::{outcome, Datum};
use crate::execution::Assignment;
use crate::id::{RunId, SessionId};
use crate::json::{json_views, Json, JsonNumber, JsonView};
use crate::model::{ContextManifestView, ResourceRefView};
use crate::records::store::{environmental, RecordStore, StoreView};
use crate::records::{Snapshot, SnapshotView, StoreError, StoreErrorView};
use crate::run::{RunSpec, RunSpecView, RunStatus};
use crate::structured::JsonContract;
use crate::table::Table;
use crate::text::{json_quoted, quoted_for_json, same_text};
use std::sync::Arc;
use vstd::prelude::*;
use vstd::string::*;

verus! {

/// What starting leads to: a recorder or an error, and what is then stored. If the store
/// cannot be used for an operation, starting ends with one of the halts stored: what was
/// stored before the operation. If inputs are resolved first, what is stored then is
/// given too.
pub struct Start {
    pub reply: Result<(RecorderView, Assignment), RecordingErrorView>,
    pub store: StoreView,
    pub halts: Set<StoreView>,
    pub resolves: Option<StoreView>,
}

impl Start {
    /// The same, after inputs were resolved if the stores were asked for any.
    pub open spec fn resolving(self, store: StoreView, asked: bool) -> Start {
        if asked {
            Start { resolves: Some(store), ..self }
        } else {
            self
        }
    }

    /// The same, after the selected records were looked for in the store.
    pub open spec fn having_read(self, store: StoreView, selected: Seq<SnapshotView>) -> Start {
        if selected.len() == 0 {
            self
        } else {
            Start { halts: self.halts.insert(store), ..self }
        }
    }
}

/// Starting was refused without an operation on the store, and nothing is stored.
pub open spec fn refused(store: StoreView, error: RecordingErrorView) -> Start {
    Start { reply: Err(error), store, halts: Set::empty(), resolves: None }
}

/// What a recording that has begun leads to.
pub open spec fn begun(step: RecordStep, spec: Assignment) -> Start {
    Start {
        reply: match step.error {
            Some(e) => Err(e),
            None => Ok((step.recorder, spec)),
        },
        store: step.store,
        halts: stores_of(step.halts),
        resolves: None,
    }
}

/// What is stored in the halts.
pub open spec fn stores_of(halts: Set<(RecorderView, StoreView)>) -> Set<StoreView> {
    Set::new(
        |store: StoreView| exists|recorder: RecorderView| #[trigger] halts.contains((recorder, store)),
    )
}

proof fn halt_stores(halts: Set<(RecorderView, StoreView)>, recorder: RecorderView, store: StoreView)
    ensures
        halts.contains((recorder, store)) ==> stores_of(halts).contains(store),
{
}

/// Evidence is added where there is some and nothing went wrong before.
pub open spec fn with_evidence(step: RecordStep, name: Seq<char>, data: Option<JsonView>) -> RecordStep {
    match data {
        Some(data) => if step.error is Some {
            step
        } else {
            step.recorder.evidenced(step.store, name, data).since(step)
        },
        None => step,
    }
}

/// The evidence of what will be sent is added, and becomes what later stages refer to.
pub open spec fn with_input(step: RecordStep, receipt: JsonView) -> RecordStep {
    if step.error is Some {
        step
    } else {
        let versioned = RecorderView { input_version: 1, ..step.recorder };
        let noted = versioned.evidenced(step.store, "input_receipt"@, receipt);
        if noted.error is Some {
            noted
        } else {
            RecorderView { input_receipt: true, ..noted.recorder }.done(noted.store).since(noted)
        }.since(step)
    }
}

/// The evidence that sending was attempted is added.
pub open spec fn with_attempt(step: RecordStep) -> RecordStep {
    if step.error is Some {
        step
    } else {
        step.recorder.evidenced(
            step.store,
            "input_receipt"@,
            JsonView::Object(step.recorder.stage("dispatch_attempted"@)),
        ).since(step)
    }
}

proof fn later_stages_keep_halts(
    step: RecordStep,
    name: Seq<char>,
    data: Option<JsonView>,
    receipt: JsonView,
)
    ensures
        step.halts.subset_of(with_evidence(step, name, data).halts),
        step.halts.subset_of(with_input(step, receipt).halts),
        step.halts.subset_of(with_attempt(step).halts),
{
}

/// The evidence of a run that has begun is added: of what its result has to be, of what
/// will be sent, of how its session was restored and, where it is known what will be
/// sent, that sending was attempted.
pub open spec fn staged(
    step: RecordStep,
    contract: Option<JsonView>,
    receipt: Option<JsonView>,
    report: Option<JsonView>,
) -> RecordStep {
    let promised = with_evidence(step, "result_contract"@, contract);
    match receipt {
        Some(receipt) => with_attempt(
            with_evidence(with_input(promised, receipt), "restoration"@, report),
        ),
        None => with_evidence(promised, "restoration"@, report),
    }
}

/// A run with plain text.
pub open spec fn text_start(
    session: SessionStateView,
    closed: bool,
    store: StoreView,
    id: Seq<char>,
    text: Seq<char>,
    actors: RecordActorsView,
    report: Option<JsonView>,
) -> Start {
    match session.objection(text, closed) {
        Some(e) => refused(store, RecordingErrorView::Agent(e)),
        None => match session.assignment(id) {
            Err(e) => refused(store, RecordingErrorView::Agent(e)),
            Ok(spec) => begun(
                staged(recording_started(store, spec, text, actors), None, None, report),
                spec,
            ),
        },
    }
}

/// Why selected records can no longer be used: the first one that is gone or has
/// changed since the context was prepared.
pub open spec fn selection_objection(store: StoreView, selected: Seq<SnapshotView>) -> Option<
    StoreErrorView,
>
    decreases selected.len(),
{
    if selected.len() == 0 {
        None
    } else {
        match store.record(selected[0].record.id) {
            Err(e) => Some(e),
            Ok(current) => if current == selected[0] {
                selection_objection(store, selected.skip(1))
            } else {
                Some(StoreErrorView::RevisionConflict)
            },
        }
    }
}

/// A run with selected context.
pub open spec fn context_start(
    session: SessionStateView,
    closed: bool,
    store: StoreView,
    id: Seq<char>,
    prompt: Seq<char>,
    context: PreparedContextView,
    max_prompt_bytes: usize,
    actors: RecordActorsView,
    report: Option<JsonView>,
) -> Start {
    match session.objection(prompt, closed) {
        Some(e) => refused(store, RecordingErrorView::Agent(e)),
        None => match session.assignment(id) {
            Err(e) => refused(store, RecordingErrorView::Agent(e)),
            Ok(plain) => (match selection_objection(store, context.records) {
                Some(e) => refused(store, RecordingErrorView::Store(e)),
                None => match context_objection(context, prompt, max_prompt_bytes) {
                    Some(reason) => refused(store, RecordingErrorView::UnsupportedContext(reason)),
                    None => {
                        let spec = RunSpecView { context: context.manifest, ..plain };
                        let started = recording_started(store, spec, prompt, actors);
                        let receipt = prepared_receipt(envelope(context, prompt));
                        begun(staged(started, None, Some(receipt), report), spec)
                    },
                },
            }).having_read(store, context.records),
        },
    }
}

/// The reply and what is stored are those of the start, or the store could not be used,
/// which happens only if it is not dependable: what is stored is then what was stored
/// before one of the operations of the start.
pub open spec fn started_as(
    reply: Result<(RecorderView, Assignment), RecordingErrorView>,
    start: Start,
    store: StoreView,
    dependable: bool,
) -> bool {
    ||| (reply matches Err(RecordingErrorView::Store(e)) && environmental(e) && !dependable
        && start.halts.contains(store))
    ||| reply == start.reply && store == start.store
}

/// The view of what a start replies.
pub open spec fn start_view(r: Result<(Recorder, RunSpec), RecordingError>) -> Result<
    (RecorderView, Assignment),
    RecordingErrorView,
> {
    match r {
        Ok((recorder, spec)) => Ok((recorder.deep_view(), spec.deep_view())),
        Err(e) => Err(e.deep_view()),
    }
}

/// Begins the recording of a run, with its evidence.
#[verifier::rlimit(40)]
fn begin<S: RecordStore>(
    store: &mut S,
    spec: RunSpec,
    input: &str,
    actors: RecordActors,
    contract: Option<Json>,
    receipt: Option<Json>,
    report: Option<Json>,
) -> (r: Result<Recorder, RecordingError>)
    ensures
        final(store).dependable() == old(store).dependable(),
        ({
            let start = begun(
                staged(
                    recording_started(
                        old(store).contents(),
                        spec.deep_view(),
                        input@,
                        actors.deep_view(),
                    ),
                    contract.deep_view(),
                    receipt.deep_view(),
                    report.deep_view(),
                ),
                spec.deep_view(),
            );
            started_as(
                match r {
                    Ok(recorder) => Ok((recorder.deep_view(), spec.deep_view())),
                    Err(e) => Err(e.deep_view()),
                },
                start,
                final(store).contents(),
                old(store).dependable(),
            )
        }),
        r matches Ok(recorder) ==> recorder.deep_view().indexed(),
{
    let ghost fresh = RecorderView::fresh(spec.deep_view(), actors.deep_view());
    let ghost started = recording_started(
        store.contents(),
        spec.deep_view(),
        input@,
        actors.deep_view(),
    );
    let ghost promised = with_evidence(started, "result_contract"@, contract.deep_view());
    let ghost prepared = match receipt.deep_view() {
        Some(receipt) => with_input(promised, receipt),
        None => promised,
    };
    let ghost reported = with_evidence(prepared, "restoration"@, report.deep_view());
    let ghost last = staged(
        started,
        contract.deep_view(),
        receipt.deep_view(),
        report.deep_view(),
    );
    proof {
        later_stages_keep_halts(
            started,
            "result_contract"@,
            contract.deep_view(),
            JsonView::Null,
        );
        match receipt.deep_view() {
            Some(receipt) => later_stages_keep_halts(promised, ""@, None, receipt),
            None => {},
        }
        later_stages_keep_halts(prepared, "restoration"@, report.deep_view(), JsonView::Null);
        later_stages_keep_halts(reported, ""@, None, JsonView::Null);
    }
    let mut recorder = match Recorder::new(store, spec, input, actors) {
        Err(e) => {
            proof {
                halt_stores(last.halts, fresh, store.contents());
            }
            return Err(e);
        },
        Ok(recorder) => recorder,
    };
    match contract {
        Some(data) => match recorder.evidence(store, "result_contract", data) {
            Err(e) => {
                proof {
                    halt_stores(last.halts, recorder.deep_view(), store.contents());
                }
                return Err(e);
            },
            Ok(_) => {},
        },
        None => {},
    }
    let sending = receipt.is_some();
    match receipt {
        Some(receipt) => match recorder.prepare_input(store, 1, receipt) {
            Err(e) => {
                proof {
                    halt_stores(last.halts, recorder.deep_view(), store.contents());
                }
                return Err(e);
            },
            Ok(_) => {},
        },
        None => {},
    }
    match report {
        Some(data) => match recorder.restoration(store, data) {
            Err(e) => {
                proof {
                    halt_stores(last.halts, recorder.deep_view(), store.contents());
                }
                return Err(e);
            },
            Ok(_) => {},
        },
        None => {},
    }
    if sending {
        match recorder.input_dispatch_attempted(store) {
            Err(e) => {
                proof {
                    halt_stores(last.halts, recorder.deep_view(), store.contents());
                }
                return Err(e);
            },
            Ok(_) => {},
        }
    }
    Ok(recorder)
}

/// Register execution identity and input before dispatch, then record observed
/// events. This does not make external execution atomic with store writes.
pub fn start_recorded_with_report<S: RecordStore>(
    session: &SessionState,
    closed: bool,
    store: &mut S,
    id: RunId,
    text: &str,
    actors: RecordActors,
    report: Option<Json>,
) -> (r: Result<(Recorder, RunSpec), RecordingError>)
    ensures
        final(store).dependable() == old(store).dependable(),
        started_as(
            start_view(r),
            text_start(
                session.deep_view(),
                closed,
                old(store).contents(),
                id.deep_view(),
                text@,
                actors.deep_view(),
                report.deep_view(),
            ),
            final(store).contents(),
            old(store).dependable(),
        ),
        r matches Ok((recorder, _)) ==> recorder.deep_view().indexed(),
{
    match session.check(text, closed) {
        Err(e) => return Err(RecordingError::Agent(e)),
        Ok(_) => {},
    }
    let spec = match session.run_spec(id) {
        Err(e) => return Err(RecordingError::Agent(e)),
        Ok(spec) => spec,
    };
    let recorder = match begin(store, spec.duplicate(), text, actors, None, None, report) {
        Err(e) => return Err(e),
        Ok(recorder) => recorder,
    };
    Ok((recorder, spec))
}

fn check_selection<S: RecordStore>(store: &S, selected: &Vec<Arc<Snapshot>>) -> (r: Result<
    (),
    StoreError,
>)
    ensures
        match selection_objection(store.contents(), selected.deep_view()) {
            Some(e) => outcome(r) == Err::<(), StoreErrorView>(e),
            None => r is Ok,
        } || (outcome(r) matches Err(e) && environmental(e) && !store.dependable()
            && selected.len() > 0),
{
    let ghost all = selected.deep_view();
    let ghost contents = store.contents();
    let mut i: usize = 0;
    assert(all.skip(0) =~= all);
    while i < selected.len()
        invariant
            i <= selected.len(),
            all == selected.deep_view(),
            contents == store.contents(),
            selection_objection(contents, all) == selection_objection(contents, all.skip(i as int)),
        decreases selected.len() - i,
    {
        assert(all.skip(i as int)[0] == selected@[i as int].deep_view());
        assert(all.skip(i as int).skip(1) =~= all.skip(i + 1));
        match store.get(&selected[i].record.id) {
            Err(e) => return Err(e),
            Ok(current) => {
                if !(*current).same_as(&*selected[i]) {
                    return Err(StoreError::RevisionConflict);
                }
            },
        }
        i = i + 1;
    }
    Ok(())
}

/// Append explicit context as user-level text. Unsupported inputs fail before
/// registration; receipts precede dispatch and track observed evidence. Gives the text
/// to be sent besides.
pub fn start_prepared_context_run<S: RecordStore>(
    session: &SessionState,
    closed: bool,
    store: &mut S,
    id: RunId,
    prompt: &str,
    context: &PreparedContext,
    max_prompt_bytes: usize,
    actors: RecordActors,
    report: Option<Json>,
) -> (r: Result<(Recorder, RunSpec, String), RecordingError>)
    ensures
        final(store).dependable() == old(store).dependable(),
        ({
            let start = context_start(
                session.deep_view(),
                closed,
                old(store).contents(),
                id.deep_view(),
                prompt@,
                context.deep_view(),
                max_prompt_bytes,
                actors.deep_view(),
                report.deep_view(),
            );
            match r {
                Ok((recorder, spec, wire)) => started_as(
                    Ok((recorder.deep_view(), spec.deep_view())),
                    start,
                    final(store).contents(),
                    old(store).dependable(),
                ) && wire@ == envelope(context.deep_view(), prompt@),
                Err(e) => started_as(Err(e.deep_view()), start, final(store).contents(), old(store).dependable()),
            }
        }),
        r matches Ok((recorder, _, _)) ==> recorder.deep_view().indexed(),
{
    match session.check(prompt, closed) {
        Err(e) => return Err(RecordingError::Agent(e)),
        Ok(_) => {},
    }
    let mut spec = match session.run_spec(id) {
        Err(e) => return Err(RecordingError::Agent(e)),
        Ok(spec) => spec,
    };
    match check_selection(store, &context.records) {
        Err(e) => return Err(RecordingError::Store(e)),
        Ok(_) => {},
    }
    let (wire, receipt) = match encode(context, prompt, max_prompt_bytes) {
        Err(e) => return Err(e),
        Ok(encoded) => encoded,
    };
    spec.context = context.manifest.duplicate();
    let receipt = Some(receipt);
    let recorder = match begin(store, spec.duplicate(), prompt, actors, None, receipt, report) {
        Err(e) => return Err(e),
        Ok(recorder) => recorder,
    };
    Ok((recorder, spec, wire))
}

/// How a structured result is to be had.
#[derive(Debug, Clone, Copy, PartialEq, Eq, Structural)]
pub enum JsonOutputMode {
    ValidateReturnedText,
    RequireNativeEnforcement,
}

/// A prompt and what its result has to be.
pub struct JsonTask<'a> {
    pub prompt: &'a str,
    pub contract: &'a JsonContract,
    pub mode: JsonOutputMode,
}

/// The text that asks for one JSON value.
pub open spec fn json_wire(prompt: Seq<char>, instructions: Seq<char>) -> Seq<char> {
    "{\"task\":"@ + json_quoted(prompt) + ",\"output_instructions\":"@ + json_quoted(instructions)
        + ",\"format\":\"Return exactly one JSON value in one assistant message. No Markdown fences or surrounding prose.\"}"@
}

/// The evidence of what a result has to be.
pub open spec fn contract_json(contract: JsonContract, wire: Seq<char>) -> JsonView {
    JsonView::Object(
        member("version"@, number_json(1)).insert("name"@, JsonView::Text(contract.name@)).insert(
            "revision"@,
            JsonView::Text(contract.revision@),
        ).insert("mode"@, JsonView::Text("validate_returned_text"@)).insert(
            "native_enforcement"@,
            JsonView::Bool(false),
        ).insert("max_validation_bytes"@, number_json(contract.max_validation_bytes)).insert(
            "validator"@,
            JsonView::Text("serde_deserialize"@),
        ).insert("application_validation"@, JsonView::Bool(contract.application_validation)).insert(
            "wire_text"@,
            JsonView::Text(wire),
        ),
    )
}

/// Instructions may only be supplied on a grant of the host itself.
pub open spec fn granted_by_host(context: PreparedContextView, actors: RecordActorsView) -> bool {
    context.policy.instruction_authorization matches Some(authorization)
        ==> authorization.grant.issuer == actors.host
}

/// A run whose result has to be one JSON value. The text to be sent is returned too.
pub open spec fn json_start(
    session: SessionStateView,
    closed: bool,
    store: StoreView,
    id: Seq<char>,
    prompt: Seq<char>,
    contract: JsonContract,
    mode: JsonOutputMode,
    context: Option<(PreparedContextView, usize)>,
    actors: RecordActorsView,
) -> (Start, Seq<char>) {
    let asked = json_wire(prompt, contract.instructions@);
    if mode is RequireNativeEnforcement {
        (refused(store, RecordingErrorView::NativeStructuredOutputUnsupported), asked)
    } else {
        match session.objection(prompt, closed) {
            Some(e) => (refused(store, RecordingErrorView::Agent(e)), asked),
            None => match session.assignment(id) {
                Err(e) => (refused(store, RecordingErrorView::Agent(e)), asked),
                Ok(plain) => match context {
                    None => (
                        begun(
                            staged(
                                recording_started(store, plain, prompt, actors),
                                Some(contract_json(contract, asked)),
                                None,
                                None,
                            ),
                            plain,
                        ),
                        asked,
                    ),
                    Some((selected, limit)) => if !granted_by_host(selected, actors) {
                        (
                            refused(
                                store,
                                RecordingErrorView::Context(
                                    ContextErrorView::InstructionUnauthorized,
                                ),
                            ),
                            asked,
                        )
                    } else {
                        match selection_objection(store, selected.records) {
                            Some(e) => (
                                refused(store, RecordingErrorView::Store(e)).having_read(
                                    store,
                                    selected.records,
                                ),
                                asked,
                            ),
                            None => match context_objection(selected, asked, limit) {
                                Some(reason) => (
                                    refused(
                                        store,
                                        RecordingErrorView::UnsupportedContext(reason),
                                    ).having_read(store, selected.records),
                                    asked,
                                ),
                                None => {
                                    let spec = RunSpecView { context: selected.manifest, ..plain };
                                    let wire = envelope(selected, asked);
                                    let started = recording_started(store, spec, prompt, actors);
                                    let last = staged(
                                        started,
                                        Some(contract_json(contract, wire)),
                                        Some(prepared_receipt(wire)),
                                        None,
                                    );
                                    (
                                        begun(last, spec).having_read(store, selected.records),
                                        wire,
                                    )
                                },
                            },
                        }
                    },
                },
            },
        }
    }
}

fn write_json_wire(prompt: &str, instructions: &str) -> (r: String)
    ensures
        r@ == json_wire(prompt@, instructions@),
{
    let mut wire = "{\"task\":".to_owned();
    wire.append(quoted_for_json(prompt).as_str());
    wire.append(",\"output_instructions\":");
    wire.append(quoted_for_json(instructions).as_str());
    wire.append(
        ",\"format\":\"Return exactly one JSON value in one assistant message. No Markdown fences or surrounding prose.\"}",
    );
    wire
}

fn write_contract(contract: &JsonContract, wire: &String) -> (r: Json)
    ensures
        r.deep_view() == contract_json(*contract, wire@),
{
    broadcast use json_views;

    let mut members: Table<Json> = Table::new();
    assert(members.deep_view() =~= Map::<Seq<char>, JsonView>::empty());
    members.put("version".to_owned(), Json::Number(JsonNumber::PosInt(1)));
    members.put("name".to_owned(), Json::Text(contract.name.clone()));
    members.put("revision".to_owned(), Json::Text(contract.revision.clone()));
    members.put("mode".to_owned(), Json::Text("validate_returned_text".to_owned()));
    members.put("native_enforcement".to_owned(), Json::Bool(false));
    members.put(
        "max_validation_bytes".to_owned(),
        Json::Number(JsonNumber::PosInt(contract.max_validation_bytes)),
    );
    members.put("validator".to_owned(), Json::Text("serde_deserialize".to_owned()));
    members.put("application_validation".to_owned(), Json::Bool(contract.application_validation));
    members.put("wire_text".to_owned(), Json::Text(wire.clone()));
    Json::Object(members)
}

fn is_granted_by_host(context: &PreparedContext, actors: &RecordActors) -> (r: bool)
    ensures
        r == granted_by_host(context.deep_view(), actors.deep_view()),
{
    match &context.policy.instruction_authorization {
        Some(authorization) => authorization.grant.issuer.same_as(&actors.host),
        None => true,
    }
}

/// Starts a run whose result has to be one JSON value, with or without selected
/// context. Gives the text to be sent besides.
#[verifier::rlimit(40)]
pub fn start_json_run<S: RecordStore>(
    session: &SessionState,
    closed: bool,
    store: &mut S,
    id: RunId,
    task: &JsonTask<'_>,
    context: Option<(&PreparedContext, usize)>,
    actors: RecordActors,
) -> (r: Result<(Recorder, RunSpec, String), RecordingError>)
    ensures
        final(store).dependable() == old(store).dependable(),
        ({
            let (start, wire) = json_start(
                session.deep_view(),
                closed,
                old(store).contents(),
                id.deep_view(),
                task.prompt@,
                *task.contract,
                task.mode,
                match context {
                    Some((selected, limit)) => Some((selected.deep_view(), limit)),
                    None => None,
                },
                actors.deep_view(),
            );
            match r {
                Ok((recorder, spec, text)) => started_as(
                    Ok((recorder.deep_view(), spec.deep_view())),
                    start,
                    final(store).contents(),
                    old(store).dependable(),
                ) && text@ == wire,
                Err(e) => started_as(Err(e.deep_view()), start, final(store).contents(), old(store).dependable()),
            }
        }),
        r matches Ok((recorder, _, _)) ==> recorder.deep_view().indexed(),
{
    if task.mode == JsonOutputMode::RequireNativeEnforcement {
        return Err(RecordingError::NativeStructuredOutputUnsupported);
    }
    match session.check(task.prompt, closed) {
        Err(e) => return Err(RecordingError::Agent(e)),
        Ok(_) => {},
    }
    let mut spec = match session.run_spec(id) {
        Err(e) => return Err(RecordingError::Agent(e)),
        Ok(spec) => spec,
    };
    let asked = write_json_wire(task.prompt, task.contract.instructions.as_str());
    let (wire, receipt) = match context {
        None => (asked, None),
        Some((selected, limit)) => {
            if !is_granted_by_host(selected, &actors) {
                return Err(RecordingError::Context(ContextError::InstructionUnauthorized));
            }
            match check_selection(store, &selected.records) {
                Err(e) => return Err(RecordingError::Store(e)),
                Ok(_) => {},
            }
            spec.context = selected.manifest.duplicate();
            match encode(selected, asked.as_str(), limit) {
                Err(e) => return Err(e),
                Ok((wire, receipt)) => (wire, Some(receipt)),
            }
        },
    };
    let contract = write_contract(task.contract, &wire);
    let recorder = match begin(
        store,
        spec.duplicate(),
        task.prompt,
        actors,
        Some(contract),
        receipt,
        None,
    ) {
        Err(e) => return Err(e),
        Ok(recorder) => recorder,
    };
    Ok((recorder, spec, wire))
}

/// The context that a resolved selection makes.
pub open spec fn context_of(
    requested: ContextManifestView,
    manifest: ContextManifestView,
    policy: ContextPolicyView,
    progress: Progress,
) -> PreparedContextView {
    PreparedContextView {
        requested_manifest: requested,
        policy,
        manifest,
        records: progress.records,
        instructions: progress.instructions,
        resources: progress.resources,
        resource_bytes: progress.bytes as usize,
    }
}

/// Where the inputs of a run of this session may come from.
pub open spec fn sources_of(
    session: SessionStateView,
    store: StoreView,
    resources: Resources,
    forbidden: Seq<ResourceRefView>,
    limits: ContextLimits,
) -> Sources {
    Sources {
        records: store,
        resources,
        allowed: seq![session.session_id],
        forbidden,
        max_bytes: limits.max_resource_bytes as nat,
    }
}

/// The whole selection, resolved.
pub open spec fn whole_context(
    session: SessionStateView,
    store: StoreView,
    resources: Resources,
    manifest: ContextManifestView,
    limits: ContextLimits,
) -> Result<PreparedContextView, ContextErrorView> {
    match context_prepared(
        sources_of(session, store, resources, Seq::empty(), limits),
        manifest,
        limits.max_items as nat,
    ) {
        Err(e) => Err(e),
        Ok(progress) => Ok(context_of(manifest, manifest, ContextPolicyView::none(), progress)),
    }
}

/// What a policy leaves of the selection, resolved.
pub open spec fn policy_context(
    session: SessionStateView,
    store: StoreView,
    resources: Resources,
    manifest: ContextManifestView,
    limits: ContextLimits,
    policy: ContextPolicyView,
) -> Result<PreparedContextView, ContextErrorView> {
    match selection_under(manifest, policy, limits.max_items as nat) {
        Err(e) => Err(e),
        Ok(selection) => match context_prepared(
            sources_of(session, store, resources, selection.forbidden, limits),
            selection.manifest,
            limits.max_items as nat,
        ) {
            Err(e) => Err(e),
            Ok(progress) => Ok(context_of(manifest, selection.manifest, policy, progress)),
        },
    }
}

/// The stores are asked for what the policy leaves of the manifest.
pub open spec fn consulted_under(
    manifest: ContextManifestView,
    policy: ContextPolicyView,
    max_items: nat,
) -> bool {
    selection_under(manifest, policy, max_items) matches Ok(selection) && consulted(
        selection.manifest,
        max_items,
    )
}

/// As `started_as`; while inputs are resolved, the store of resources may be unusable
/// too, and nothing is stored then.
pub open spec fn started_from(
    reply: Result<(RecorderView, Assignment), RecordingErrorView>,
    start: Start,
    store: StoreView,
    dependable: bool,
    obtainable: bool,
) -> bool {
    ||| (reply matches Err(RecordingErrorView::Context(e)) && blamed(e, dependable && obtainable)
        && start.resolves == Some(store))
    ||| started_as(reply, start, store, dependable)
}

fn own_session(session: &SessionState) -> (r: Vec<SessionId>)
    ensures
        r.deep_view() == seq![session.deep_view().session_id],
{
    let mut allowed: Vec<SessionId> = Vec::new();
    allowed.push(session.session_id.duplicate());
    assert(allowed.deep_view() =~= seq![session.deep_view().session_id]);
    allowed
}

/// Resolve and append explicit context as user-level text. Unsupported inputs fail
/// before registration; receipts precede dispatch and track observed evidence. Gives the
/// text to be sent besides.
pub fn start_recorded_context_run<S: RecordStore, R: ResourceStore>(
    session: &SessionState,
    closed: bool,
    store: &mut S,
    id: RunId,
    task: &ContextTask<'_, R>,
    actors: RecordActors,
) -> (r: Result<(Recorder, RunSpec, String), RecordingError>)
    ensures
        final(store).dependable() == old(store).dependable(),
        ({
            let context = whole_context(
                session.deep_view(),
                old(store).contents(),
                task.resources.held(),
                task.manifest.deep_view(),
                task.limits,
            );
            let start = match session.deep_view().objection(task.prompt@, closed) {
                Some(e) => refused(old(store).contents(), RecordingErrorView::Agent(e)),
                None => (match context {
                    Err(e) => refused(old(store).contents(), RecordingErrorView::Context(e)),
                    Ok(context) => context_start(
                        session.deep_view(),
                        closed,
                        old(store).contents(),
                        id.deep_view(),
                        task.prompt@,
                        context,
                        task.max_prompt_bytes,
                        actors.deep_view(),
                        None,
                    ),
                }).resolving(
                    old(store).contents(),
                    consulted(task.manifest.deep_view(), task.limits.max_items as nat),
                ),
            };
            match r {
                Ok((recorder, spec, wire)) => {
                    &&& started_from(
                        Ok((recorder.deep_view(), spec.deep_view())),
                        start,
                        final(store).contents(),
                        old(store).dependable(), task.resources.obtainable(),
                    )
                    &&& context matches Ok(context) && wire@ == envelope(context, task.prompt@)
                },
                Err(e) => started_from(Err(e.deep_view()), start, final(store).contents(), old(store).dependable(), task.resources.obtainable()),
            }
        }),
        r matches Ok((recorder, _, _)) ==> recorder.deep_view().indexed(),
{
    match session.check(task.prompt, closed) {
        Err(e) => return Err(RecordingError::Agent(e)),
        Ok(_) => {},
    }
    let allowed = own_session(session);
    match prepare(task.manifest, &*store, task.resources, &allowed, task.limits) {
        Err(e) => Err(RecordingError::Context(e)),
        Ok(context) => {
            assert(context.deep_view() == whole_context(
                session.deep_view(),
                store.contents(),
                task.resources.held(),
                task.manifest.deep_view(),
                task.limits,
            )->Ok_0);
            start_prepared_context_run(
                session,
                closed,
                store,
                id,
                task.prompt,
                &context,
                task.max_prompt_bytes,
                actors,
                None,
            )
        },
    }
}

/// Validate returned JSON while delivering explicit selected context. Both tasks must
/// name the same prompt.
pub fn start_recorded_context_json_run<S: RecordStore, R: ResourceStore>(
    session: &SessionState,
    closed: bool,
    store: &mut S,
    id: RunId,
    task: &JsonTask<'_>,
    context: &ContextTask<'_, R>,
    policy: &ContextPolicy,
    actors: RecordActors,
) -> (r: Result<(Recorder, RunSpec, String), RecordingError>)
    ensures
        final(store).dependable() == old(store).dependable(),
        ({
            let resolved = policy_context(
                session.deep_view(),
                old(store).contents(),
                context.resources.held(),
                context.manifest.deep_view(),
                context.limits,
                policy.deep_view(),
            );
            let (start, wire) = if context.prompt@ != task.prompt@ {
                (
                    refused(
                        old(store).contents(),
                        RecordingErrorView::UnsupportedContext(
                            "context and result prompts differ"@,
                        ),
                    ),
                    Seq::empty(),
                )
            } else {
                let (start, wire) = match resolved {
                    Err(e) => (
                        refused(old(store).contents(), RecordingErrorView::Context(e)),
                        Seq::empty(),
                    ),
                    Ok(prepared) => json_start(
                        session.deep_view(),
                        closed,
                        old(store).contents(),
                        id.deep_view(),
                        task.prompt@,
                        *task.contract,
                        task.mode,
                        Some((prepared, context.max_prompt_bytes)),
                        actors.deep_view(),
                    ),
                };
                let asked = consulted_under(
                    context.manifest.deep_view(),
                    policy.deep_view(),
                    context.limits.max_items as nat,
                );
                (start.resolving(old(store).contents(), asked), wire)
            };
            match r {
                Ok((recorder, spec, text)) => started_from(
                    Ok((recorder.deep_view(), spec.deep_view())),
                    start,
                    final(store).contents(),
                    old(store).dependable(), context.resources.obtainable(),
                ) && text@ == wire,
                Err(e) => started_from(Err(e.deep_view()), start, final(store).contents(), old(store).dependable(), context.resources.obtainable()),
            }
        }),
        r matches Ok((recorder, _, _)) ==> recorder.deep_view().indexed(),
{
    if !same_text(context.prompt, task.prompt) {
        return Err(
            RecordingError::UnsupportedContext("context and result prompts differ".to_owned()),
        );
    }
    let allowed = own_session(session);
    match prepare_with_policy(
        context.manifest,
        &*store,
        context.resources,
        &allowed,
        context.limits,
        policy,
    ) {
        Err(e) => Err(RecordingError::Context(e)),
        Ok(prepared) => {
            assert(prepared.deep_view() == policy_context(
                session.deep_view(),
                store.contents(),
                context.resources.held(),
                context.manifest.deep_view(),
                context.limits,
                policy.deep_view(),
            )->Ok_0);
            start_json_run(
                session,
                closed,
                store,
                id,
                task,
                Some((&prepared, context.max_prompt_bytes)),
                actors,
            )
        },
    }
}

/// Dispatches a run whose recording has begun. If it cannot be dispatched, that is
/// recorded.
pub fn dispatch_recorded<S: RecordStore>(
    session: &mut SessionState,
    closed: bool,
    store: &mut S,
    recorder: Recorder,
    spec: RunSpec,
    text: &str,
) -> (r: Result<(ActiveRun, RecordedRun), RecordingError>)
    requires
        recorder.deep_view().indexed(),
    ensures
        final(store).dependable() == old(store).dependable(),
        match old(session).deep_view().dispatch_objection(spec.deep_view().config, text@, closed) {
            Some(e) => {
                let step = recorder.deep_view().interrupted(old(store).contents(), e.message());
                &&& final(session).deep_view() == old(session).deep_view()
                &&& r matches Err(error) && ({
                    ||| (error.deep_view() matches RecordingErrorView::Store(inner)
                        && environmental(inner) && !old(store).dependable()
                        && exists|after: RecorderView| #[trigger]
                        step.halts.contains((after, final(store).contents())))
                    ||| {
                        &&& final(store).contents() == step.store
                        &&& error.deep_view() == match step.error {
                            Some(failure) => failure,
                            None => RecordingErrorView::Agent(e),
                        }
                    }
                })
            },
            None => {
                &&& r matches Ok((active, run)) && active.assignment() == spec && active.status()
                    == RunStatus::Starting && run.recording() == recorder.deep_view()
                    && !run.has_failed()
                &&& final(session).deep_view() == (SessionStateView {
                    quiescent: false,
                    ..old(session).deep_view()
                })
                &&& final(store).contents() == old(store).contents()
            },
        },
{
    match session.dispatch(spec, text, closed) {
        Ok(active) => Ok((active, RecordedRun::new(recorder))),
        Err(error) => {
            let mut recorder = recorder;
            match recorder.interrupt(store, error.to_string()) {
                Err(e) => Err(e),
                Ok(_) => Err(RecordingError::Agent(error)),
            }
        },
    }
}

/// A prompt that cannot be used changes nothing: neither kind of run is registered
/// before the session, the prompt and the selection were found good, whether or not the
/// store can be used.
pub proof fn refusals_store_nothing(
    session: SessionStateView,
    closed: bool,
    store: StoreView,
    id: Seq<char>,
    prompt: Seq<char>,
    context: PreparedContextView,
    limit: usize,
    actors: RecordActorsView,
    report: Option<JsonView>,
)
    ensures
        session.objection(prompt, closed) is Some ==> text_start(
            session,
            closed,
            store,
            id,
            prompt,
            actors,
            report,
        ).store == store,
        session.objection(prompt, closed) is Some || selection_objection(store, context.records)
            is Some || context_objection(context, prompt, limit) is Some ==> context_start(
            session,
            closed,
            store,
            id,
            prompt,
            context,
            limit,
            actors,
            report,
        ).store == store,
        session.objection(prompt, closed) is Some ==> text_start(
            session,
            closed,
            store,
            id,
            prompt,
            actors,
            report,
        ).halts == Set::<StoreView>::empty(),
        session.objection(prompt, closed) is Some || selection_objection(store, context.records)
            is Some || context_objection(context, prompt, limit) is Some ==> forall|
            halt: StoreView,
        | #[trigger]
            context_start(
                session,
                closed,
                store,
                id,
                prompt,
                context,
                limit,
                actors,
                report,
            ).halts.contains(halt) ==> halt == store,
{
}

} // verus!
