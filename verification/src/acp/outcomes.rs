//! What holds of every start of a run and of every result that it returns.

use crate::acp::context::envelope;
use crate::acp::continuation::handoff_reply;
use crate::acp::error::{AcpError, AcpErrorView, RecordingErrorView};
use crate::acp::event::{AcpEvent, AcpEventView, StopReasonView};
use crate::acp::recorded::{
    agent_messages, arrival_step, arrival_view, failed_so, from_agent, left_unsettled, replied, result_text, settlement_json, sources_json, to_validate,
    unsettled, RecordedRun,
};
use crate::acp::recording::{followed, RecordActorsView, RecordStep, RecorderView};
use crate::acp::restoration::{native_report_json, portable_report_json};
use crate::acp::session::SessionStateView;
use crate::acp::start::{
    context_start, contract_json, json_start, json_wire, policy_context, selection_objection,
    started_as, started_from, text_start, whole_context, JsonOutputMode, Start,
};
use crate::context::{
    context_prepared, selection_under, ContextErrorView, ContextLimits, ContextPolicyView,
    PreparedContextView, PreparedInstructionView, ResourceView, Resources, Sources,
};
use crate::execution::Assignment;
use crate::json::{JsonNumber, JsonView};
use crate::model::{ContentView, ContextManifestView, MessageView};
use crate::records::continuation::{ContinuationRecordView, ContinuationState};
use crate::records::store::{environmental, StoreView};
use crate::records::{MessageKind, PayloadView, RecordState, SnapshotView, StoreErrorView};
use crate::structured::{JsonContract, JsonRejectionView};
use crate::text::json_quoted;
use vstd::prelude::*;
use vstd::utf8::encode_utf8;

verus! {

/// The record is a message of the agent.
pub open spec fn is_reply(snapshot: SnapshotView) -> bool {
    snapshot.record.payload matches PayloadView::Message { kind, .. } && kind == MessageKind::Agent
}

/// The record is something that the agent said and that is no text.
pub open spec fn is_wordless(snapshot: SnapshotView) -> bool {
    snapshot.record.payload matches PayloadView::Extension { namespace, name, .. } && namespace
        == "acp"@ && name == "message_content"@
}

proof fn replies_are_picked(records: Seq<SnapshotView>)
    ensures
        forall|i: int|
            0 <= i < records.len() && is_reply(#[trigger] records[i]) ==> agent_messages(
                records,
            ).len() > 0,
        (forall|i: int| 0 <= i < records.len() ==> !is_reply(#[trigger] records[i]))
            ==> agent_messages(records) == Seq::<SnapshotView>::empty(),
        forall|i: int|
            0 <= i < records.len() && is_reply(#[trigger] records[i]) && (forall|j: int|
                0 <= j < records.len() && j != i ==> !is_reply(#[trigger] records[j]))
                ==> agent_messages(records) == seq![records[i]],
        forall|i: int, j: int|
            0 <= i < j < records.len() && is_reply(#[trigger] records[i]) && is_reply(
                #[trigger] records[j],
            ) ==> agent_messages(records).len() > 1,
    decreases records.len(),
{
    if records.len() > 0 {
        let rest = records.drop_last();
        replies_are_picked(rest);
        assert(forall|i: int| 0 <= i < rest.len() ==> rest[i] == records[i]);
        assert(from_agent(records.last()) <==> is_reply(records[records.len() - 1]));
        assert forall|i: int|
            0 <= i < records.len() && is_reply(#[trigger] records[i]) && (forall|j: int|
                0 <= j < records.len() && j != i ==> !is_reply(
                    #[trigger] records[j],
                )) implies agent_messages(records) == seq![records[i]] by {
            if i < rest.len() {
                assert(is_reply(rest[i]));
                assert forall|j: int| 0 <= j < rest.len() && j != i implies !is_reply(
                    #[trigger] rest[j],
                ) by {
                    assert(!is_reply(records[j]));
                }
                assert(!is_reply(records[records.len() - 1]));
            } else {
                assert forall|j: int| 0 <= j < rest.len() implies !is_reply(#[trigger] rest[j]) by {
                    assert(!is_reply(records[j]));
                }
                assert(agent_messages(records) =~= seq![records[i]]);
            }
        }
        assert forall|i: int, j: int|
            0 <= i < j < records.len() && is_reply(#[trigger] records[i]) && is_reply(
                #[trigger] records[j],
            ) implies agent_messages(records).len() > 1 by {
            assert(is_reply(rest[i]));
            if j < rest.len() {
                assert(is_reply(rest[j]));
            }
        }
        assert forall|i: int| 0 <= i < records.len() && is_reply(#[trigger] records[i]) implies agent_messages(
            records,
        ).len() > 0 by {
            if i < rest.len() {
                assert(is_reply(rest[i]));
            }
        }
        if forall|i: int| 0 <= i < records.len() ==> !is_reply(#[trigger] records[i]) {
            assert forall|i: int| 0 <= i < rest.len() implies !is_reply(#[trigger] rest[i]) by {
                assert(!is_reply(records[i]));
            }
            assert(!is_reply(records[records.len() - 1]));
        }
    }
}

/// The result of a run is the text of the one message in which the agent replied. There is
/// none when the agent said something that is no text, replied in no message or in several,
/// when its message is not complete, or when it is not one text.
pub proof fn results_are_the_one_reply(records: Seq<SnapshotView>, i: int)
    requires
        0 <= i < records.len(),
    ensures
        ({
            let reply = result_text(records);
            let worded = forall|j: int|
                0 <= j < records.len() ==> !is_wordless(#[trigger] records[j]);
            let alone = is_reply(records[i]) && forall|j: int|
                0 <= j < records.len() && j != i ==> !is_reply(#[trigger] records[j]);
            let content = records[i].record.payload->Message_message.content;
            &&& worded && alone && records[i].state == RecordState::Complete && content.len() == 1
                ==> (content[0] matches ContentView::Text(text) ==> reply == Ok::<
                Seq<char>,
                JsonRejectionView,
            >(text))
            &&& worded && alone && records[i].state == RecordState::Complete && !(content.len() == 1
                && content[0] is Text) ==> reply == Err::<Seq<char>, JsonRejectionView>(
                JsonRejectionView::NonTextOutput,
            )
            &&& worded && alone && records[i].state != RecordState::Complete ==> reply == Err::<
                Seq<char>,
                JsonRejectionView,
            >(JsonRejectionView::Incomplete("output record is not complete"@))
            &&& is_wordless(records[i]) ==> reply == Err::<Seq<char>, JsonRejectionView>(
                JsonRejectionView::NonTextOutput,
            )
            &&& worded && (forall|j: int|
                0 <= j < records.len() ==> !is_reply(#[trigger] records[j])) ==> reply == Err::<
                Seq<char>,
                JsonRejectionView,
            >(JsonRejectionView::MissingOutput)
            &&& worded && is_reply(records[i]) ==> forall|j: int|
                i < j < records.len() && is_reply(#[trigger] records[j]) ==> reply == Err::<
                    Seq<char>,
                    JsonRejectionView,
                >(JsonRejectionView::AmbiguousOutput)
        }),
{
    replies_are_picked(records);
    if forall|j: int| 0 <= j < records.len() ==> !is_wordless(#[trigger] records[j]) {
        assert forall|j: int| 0 <= j < records.len() implies !crate::acp::recorded::without_text(
            #[trigger] records[j],
        ) by {
            assert(!is_wordless(records[j]));
        }
    }
    if is_wordless(records[i]) {
        assert(crate::acp::recorded::without_text(records[i]));
    }
}

/// A result is looked at only if the agent ended its turn. Any other end, and a run that
/// was broken off, leaves the result incomplete.
pub proof fn results_need_an_ended_turn(
    reason: Option<StopReasonView>,
    text: Result<Seq<char>, JsonRejectionView>,
)
    ensures
        to_validate(reason, text) is Ok <==> (reason == Some(StopReasonView::EndTurn)
            && text is Ok),
        reason == Some(StopReasonView::EndTurn) ==> to_validate(reason, text) == text,
        reason is None ==> to_validate(reason, text) == Err::<Seq<char>, JsonRejectionView>(
            JsonRejectionView::Incomplete("recording or provider error"@),
        ),
        reason matches Some(other) ==> other != StopReasonView::EndTurn ==> (to_validate(
            reason,
            text,
        ) matches Err(JsonRejectionView::Incomplete(_))),
        reason == Some(StopReasonView::MaxTokens) ==> to_validate(reason, text) == Err::<
            Seq<char>,
            JsonRejectionView,
        >(JsonRejectionView::Incomplete("provider stopped: "@ + "MaxTokens"@)),
        reason == Some(StopReasonView::MaxTurnRequests) ==> to_validate(reason, text) == Err::<
            Seq<char>,
            JsonRejectionView,
        >(JsonRejectionView::Incomplete("provider stopped: "@ + "MaxTurnRequests"@)),
        reason == Some(StopReasonView::Refusal) ==> to_validate(reason, text) == Err::<
            Seq<char>,
            JsonRejectionView,
        >(JsonRejectionView::Incomplete("provider stopped: "@ + "Refusal"@)),
        reason == Some(StopReasonView::Cancelled) ==> to_validate(reason, text) == Err::<
            Seq<char>,
            JsonRejectionView,
        >(JsonRejectionView::Incomplete("provider stopped: "@ + "Cancelled"@)),
{
}

/// What came of a result is recorded with its contract and with the messages that it was
/// read from, each with its revision: that it is valid, or why it is not.
pub proof fn results_are_recorded_with_their_sources(
    contract: JsonContract,
    sources: JsonView,
    rejection: Option<JsonRejectionView>,
    records: Seq<SnapshotView>,
)
    ensures
        settlement_json(contract, sources, rejection) == JsonView::Object(
            map![
                "version"@ => JsonView::Number(JsonNumber::PosInt(1)),
                "contract"@ => JsonView::Object(
                    map![
                        "name"@ => JsonView::Text(contract.name@),
                        "revision"@ => JsonView::Text(contract.revision@),
                    ],
                ),
                "mode"@ => JsonView::Text("validate_returned_text"@),
                "native_enforcement"@ => JsonView::Bool(false),
                "sources"@ => sources,
                "validation"@ => match rejection {
                    None => JsonView::Object(map!["status"@ => JsonView::Text("valid"@)]),
                    Some(why) => JsonView::Object(
                        map!["status"@ => JsonView::Text("rejected"@), "rejection"@ => why.json()],
                    ),
                },
            ],
        ),
        sources_json(records) matches JsonView::Array(items) && items.len() == agent_messages(
            records,
        ).len() && forall|i: int|
            0 <= i < items.len() ==> #[trigger] items[i] == JsonView::Object(
                map![
                    "id"@ => JsonView::Text(agent_messages(records)[i].record.id),
                    "revision"@ => JsonView::Number(
                        JsonNumber::PosInt(agent_messages(records)[i].revision),
                    ),
                ],
            ),
{
}

/// Every rejection is told by its name, and with its text if it has one.
pub proof fn rejections_are_told_by_name(rejection: JsonRejectionView)
    ensures
        rejection == JsonRejectionView::MissingOutput ==> rejection.json() == JsonView::Object(
            map!["type"@ => JsonView::Text("missing_output"@)],
        ),
        rejection == JsonRejectionView::NonTextOutput ==> rejection.json() == JsonView::Object(
            map!["type"@ => JsonView::Text("non_text_output"@)],
        ),
        rejection == JsonRejectionView::AmbiguousOutput ==> rejection.json() == JsonView::Object(
            map!["type"@ => JsonView::Text("ambiguous_output"@)],
        ),
        rejection matches JsonRejectionView::Incomplete(text) ==> rejection.json()
            == JsonView::Object(
            map!["type"@ => JsonView::Text("incomplete"@), "data"@ => JsonView::Text(text)],
        ),
        rejection matches JsonRejectionView::Invalid(text) ==> rejection.json() == JsonView::Object(
            map!["type"@ => JsonView::Text("invalid"@), "data"@ => JsonView::Text(text)],
        ),
{
}

/// A run that is to return a result is asked for it in words: with the task and with the
/// instructions of the contract. What was sent is on record with the contract.
pub proof fn results_are_asked_for_in_words(
    prompt: Seq<char>,
    instructions: Seq<char>,
    contract: JsonContract,
    wire: Seq<char>,
)
    ensures
        json_wire(prompt, instructions) == "{\"task\":"@ + json_quoted(prompt)
            + ",\"output_instructions\":"@ + json_quoted(instructions)
            + ",\"format\":\"Return exactly one JSON value in one assistant message. No Markdown fences or surrounding prose.\"}"@,
        contract_json(contract, wire) == JsonView::Object(
            map![
                "version"@ => JsonView::Number(JsonNumber::PosInt(1)),
                "name"@ => JsonView::Text(contract.name@),
                "revision"@ => JsonView::Text(contract.revision@),
                "mode"@ => JsonView::Text("validate_returned_text"@),
                "native_enforcement"@ => JsonView::Bool(false),
                "max_validation_bytes"@ => JsonView::Number(
                    JsonNumber::PosInt(contract.max_validation_bytes),
                ),
                "validator"@ => JsonView::Text("serde_deserialize"@),
                "application_validation"@ => JsonView::Bool(contract.application_validation),
                "wire_text"@ => JsonView::Text(wire),
            ],
        ),
{
}

/// A session that is resumed is reported as such, and that nothing of it was looked into or
/// sent again. One that is set up anew is reported with what was selected for it and with
/// what is not carried over.
pub proof fn restorations_are_reported_as_done(
    continuation: Seq<char>,
    session: Seq<char>,
    slot: Seq<char>,
    context: PreparedContextView,
)
    ensures
        native_report_json(continuation) == JsonView::Object(
            map![
                "version"@ => JsonView::Number(JsonNumber::PosInt(1)),
                "strategy"@ => JsonView::Text("native_resume"@),
                "continuation"@ => JsonView::Text(continuation),
                "native_context"@ => JsonView::Text("reused_uninspected"@),
                "portable_context_replayed"@ => JsonView::Bool(false),
            ],
        ),
        exists|
            records: Seq<JsonView>,
            resources: Seq<JsonView>,
            instructions: Seq<JsonView>,
        | #[trigger]
            lists_selection(records, resources, instructions, context) && portable_report_json(
                session,
                slot,
                context,
            ) == JsonView::Object(
                map![
                    "version"@ => JsonView::Number(JsonNumber::PosInt(1)),
                    "strategy"@ => JsonView::Text("portable_selection"@),
                    "native_context"@ => JsonView::Text("new_session"@),
                    "session_id"@ => JsonView::Text(session),
                    "slot_id"@ => JsonView::Text(slot),
                    "selected_records"@ => JsonView::Array(records),
                    "selected_resources"@ => JsonView::Array(resources),
                    "selected_instructions"@ => JsonView::Array(instructions),
                    "not_transferred"@ => JsonView::Array(
                        seq![
                            JsonView::Text("history_outside_selection"@),
                            JsonView::Text("provider_hidden_state"@),
                            JsonView::Text("native_instruction_state"@),
                            JsonView::Text("provider_configuration"@),
                            JsonView::Text("prior_tool_grants"@),
                            JsonView::Text("skill_activation_state"@),
                        ],
                    ),
                    "delivery"@ => JsonView::Text("pending_first_run"@),
                ],
            ),
{
    let records = context.records.map_values(
        |s: SnapshotView| crate::acp::restoration::record_json(s),
    );
    let resources = context.resources.map_values(
        |s: ResourceView| crate::acp::restoration::resource_json(s),
    );
    let instructions = context.instructions.map_values(
        |s: PreparedInstructionView| crate::acp::restoration::instruction_json(s),
    );
    assert(lists_selection(records, resources, instructions, context));
}

/// The lists name what was selected, in order: the records and resources with their
/// revisions, and the instructions as text of the user that only supplements.
pub open spec fn lists_selection(
    records: Seq<JsonView>,
    resources: Seq<JsonView>,
    instructions: Seq<JsonView>,
    context: PreparedContextView,
) -> bool {
    &&& records.len() == context.records.len()
    &&& forall|i: int|
        0 <= i < records.len() ==> #[trigger] records[i] == JsonView::Object(
            map![
                "id"@ => JsonView::Text(context.records[i].record.id),
                "revision"@ => JsonView::Number(JsonNumber::PosInt(context.records[i].revision)),
            ],
        )
    &&& resources.len() == context.resources.len()
    &&& forall|i: int|
        0 <= i < resources.len() ==> #[trigger] resources[i] == JsonView::Object(
            map![
                "id"@ => JsonView::Text(context.resources[i].reference.id),
                "revision"@ => JsonView::Text(context.resources[i].reference.revision),
            ],
        )
    &&& instructions.len() == context.instructions.len()
    &&& forall|i: int|
        0 <= i < instructions.len() ==> #[trigger] instructions[i] == JsonView::Object(
            map![
                "id"@ => JsonView::Text(context.instructions[i].reference.resource.id),
                "revision"@ => JsonView::Text(context.instructions[i].reference.resource.revision),
                "role"@ => JsonView::Text("supplemental"@),
                "delivery"@ => JsonView::Text("user_text"@),
            ],
        )
}

/// The payload is a message of the user that says the text.
pub open spec fn asks(payload: PayloadView, text: Seq<char>) -> bool {
    payload == (PayloadView::Message {
        kind: MessageKind::User,
        message: MessageView { content: seq![ContentView::Text(text)] },
    })
}

/// The payload is evidence of the name with the data.
pub open spec fn proves(payload: PayloadView, name: Seq<char>, data: JsonView) -> bool {
    payload == (PayloadView::Extension { namespace: "agent_bridge"@, name, data })
}

/// A run on plain text begins with what the user asked, followed by how its session was
/// restored, if that is still to be told. It is assigned to the session at hand. A session
/// that cannot take a prompt refuses it.
pub proof fn plain_runs_begin_with_the_request(
    session: SessionStateView,
    closed: bool,
    store: StoreView,
    id: Seq<char>,
    text: Seq<char>,
    actors: RecordActorsView,
    report: Option<JsonView>,
)
    ensures
        ({
            let start = text_start(session, closed, store, id, text, actors, report);
            &&& session.objection(text, closed) matches Some(e) ==> start.reply == Err::<
                (RecorderView, Assignment),
                RecordingErrorView,
            >(RecordingErrorView::Agent(e)) && start.store == store
            &&& start.reply matches Ok((recorder, spec)) ==> {
                &&& session.assignment(id) == Ok::<Assignment, AcpErrorView>(spec)
                &&& spec.id == id
                &&& recorder.spec == spec
                &&& recorder.actors == actors
                &&& !recorder.finished
                &&& !recorder.input_receipt
                &&& asks(recorder.records[0].payload, text)
                &&& report is None ==> recorder.records.len() == 1
                &&& report matches Some(told) ==> recorder.records.len() == 2 && proves(
                    recorder.records[1].payload,
                    "restoration"@,
                    told,
                )
            }
        }),
{
}

/// A run with a context is on record with what the user asked, with the text that is sent
/// for it, and with the attempt to send it, in this order. Its assignment names what was
/// selected. A record that changed since it was selected is a reason to refuse it.
pub proof fn runs_with_a_context_record_what_is_sent(
    session: SessionStateView,
    closed: bool,
    store: StoreView,
    id: Seq<char>,
    prompt: Seq<char>,
    context: PreparedContextView,
    max_bytes: usize,
    actors: RecordActorsView,
)
    ensures
        ({
            let start = context_start(
                session,
                closed,
                store,
                id,
                prompt,
                context,
                max_bytes,
                actors,
                None,
            );
            let wire = envelope(context, prompt);
            &&& session.objection(prompt, closed) matches Some(e) ==> start.reply == Err::<
                (RecorderView, Assignment),
                RecordingErrorView,
            >(RecordingErrorView::Agent(e)) && start.store == store
            &&& start.reply matches Ok((recorder, spec)) ==> {
                &&& spec.id == id
                &&& spec.session_id == session.session_id
                &&& spec.slot_id == session.slot_id
                &&& spec.context == context.manifest
                &&& recorder.spec == spec
                &&& recorder.input_receipt
                &&& recorder.records.len() == 3
                &&& asks(recorder.records[0].payload, prompt)
                &&& proves(
                    recorder.records[1].payload,
                    "input_receipt"@,
                    JsonView::Object(
                        map![
                            "version"@ => JsonView::Number(JsonNumber::PosInt(1)),
                            "state"@ => JsonView::Text("prepared"@),
                            "encoding"@ => JsonView::Text("agent_bridge.text_context.v1"@),
                            "context_mode"@ => JsonView::Text("append_to_native"@),
                            "omissions"@ => JsonView::Array(Seq::empty()),
                            "wire_text"@ => JsonView::Text(wire),
                            "wire_bytes"@ => JsonView::Number(
                                JsonNumber::PosInt(encode_utf8(wire).len() as u64),
                            ),
                        ],
                    ),
                )
                &&& proves(
                    recorder.records[2].payload,
                    "input_receipt"@,
                    JsonView::Object(
                        map![
                            "version"@ => JsonView::Number(JsonNumber::PosInt(1)),
                            "state"@ => JsonView::Text("dispatch_attempted"@),
                        ],
                    ),
                )
                &&& forall|i: int|
                    0 <= i < context.records.len() ==> store.record(
                        (#[trigger] context.records[i]).record.id,
                    ) == Ok::<SnapshotView, StoreErrorView>(context.records[i])
            }
        }),
{
    selected_records_are_unchanged(store, context.records);
}

/// The first run of a session that was set up anew tells how it was restored between the
/// text that is sent and the attempt to send it.
pub proof fn restorations_are_told_before_the_attempt(
    session: SessionStateView,
    closed: bool,
    store: StoreView,
    id: Seq<char>,
    prompt: Seq<char>,
    context: PreparedContextView,
    max_bytes: usize,
    actors: RecordActorsView,
    report: JsonView,
)
    ensures
        context_start(
            session,
            closed,
            store,
            id,
            prompt,
            context,
            max_bytes,
            actors,
            Some(report),
        ).reply matches Ok((recorder, spec)) ==> {
            &&& spec.id == id
            &&& spec.context == context.manifest
            &&& recorder.records.len() == 4
            &&& asks(recorder.records[0].payload, prompt)
            &&& proves(
                recorder.records[1].payload,
                "input_receipt"@,
                crate::acp::context::prepared_receipt(envelope(context, prompt)),
            )
            &&& proves(recorder.records[2].payload, "restoration"@, report)
            &&& proves(
                recorder.records[3].payload,
                "input_receipt"@,
                JsonView::Object(
                    map![
                        "version"@ => JsonView::Number(JsonNumber::PosInt(1)),
                        "state"@ => JsonView::Text("dispatch_attempted"@),
                    ],
                ),
            )
        },
{
}

proof fn selected_records_are_unchanged(store: StoreView, selected: Seq<SnapshotView>)
    ensures
        selection_objection(store, selected) is None <==> forall|i: int|
            0 <= i < selected.len() ==> store.record((#[trigger] selected[i]).record.id) == Ok::<
                SnapshotView,
                StoreErrorView,
            >(selected[i]),
    decreases selected.len(),
{
    if selected.len() > 0 {
        let rest = selected.skip(1);
        selected_records_are_unchanged(store, rest);
        assert forall|i: int| 1 <= i < selected.len() implies #[trigger] selected[i] == rest[i
            - 1] by {}
        assert forall|i: int| 0 <= i < rest.len() implies #[trigger] rest[i] == selected[i + 1] by {}
    }
}

/// A run that is to return a result is on record with what the user asked and with the
/// contract, in which stands what is sent. No agent is asked to enforce a contract itself.
pub proof fn runs_with_a_result_record_their_contract(
    session: SessionStateView,
    closed: bool,
    store: StoreView,
    id: Seq<char>,
    prompt: Seq<char>,
    contract: JsonContract,
    actors: RecordActorsView,
)
    ensures
        ({
            let (start, wire) = json_start(
                session,
                closed,
                store,
                id,
                prompt,
                contract,
                JsonOutputMode::ValidateReturnedText,
                None,
                actors,
            );
            &&& wire == json_wire(prompt, contract.instructions@)
            &&& session.objection(prompt, closed) matches Some(e) ==> start.reply == Err::<
                (RecorderView, Assignment),
                RecordingErrorView,
            >(RecordingErrorView::Agent(e)) && start.store == store
            &&& start.reply matches Ok((recorder, spec)) ==> {
                &&& spec.id == id
                &&& recorder.spec == spec
                &&& recorder.records.len() == 2
                &&& asks(recorder.records[0].payload, prompt)
                &&& proves(
                    recorder.records[1].payload,
                    "result_contract"@,
                    contract_json(contract, wire),
                )
            }
        }),
        ({
            let (start, _) = json_start(
                session,
                closed,
                store,
                id,
                prompt,
                contract,
                JsonOutputMode::RequireNativeEnforcement,
                None,
                actors,
            );
            start.reply == Err::<(RecorderView, Assignment), RecordingErrorView>(
                RecordingErrorView::NativeStructuredOutputUnsupported,
            ) && start.store == store
        }),
{
}

/// An observation comes to what it should with a store that can be depended on. With any
/// other it may break off before one of its operations, with an error of the store.
pub proof fn observations_come_to_what_they_should(
    reply: Result<(), RecordingErrorView>,
    step: RecordStep,
    recorder: RecorderView,
    store: StoreView,
    dependable: bool,
)
    requires
        followed(reply, step, recorder, store, dependable),
    ensures
        reply is Ok ==> step.error is None && recorder == step.recorder && store == step.store,
        dependable ==> recorder == step.recorder && store == step.store && (reply is Ok
            <==> step.error is None),
        reply matches Err(e) ==> step.error == Some(e) && recorder == step.recorder && store
            == step.store || (!dependable && (e matches RecordingErrorView::Store(inner)
            && environmental(inner)) && step.halts.contains((recorder, store))),
{
}

/// A run starts as it should with a store that can be depended on. With any other the start
/// may break off before one of its operations, with an error of the store.
pub proof fn runs_start_as_they_should(
    reply: Result<(RecorderView, Assignment), RecordingErrorView>,
    start: Start,
    store: StoreView,
    dependable: bool,
    obtainable: bool,
)
    ensures
        started_as(reply, start, store, dependable) ==> {
            &&& reply is Ok ==> reply == start.reply && store == start.store
            &&& dependable ==> reply == start.reply && store == start.store
            &&& reply != start.reply || store != start.store ==> start.halts.contains(store) && (
            reply matches Err(RecordingErrorView::Store(inner)) && environmental(inner))
        },
        started_from(reply, start, store, dependable, obtainable) ==> {
            &&& reply is Ok ==> reply == start.reply && store == start.store
            &&& dependable && obtainable ==> reply == start.reply && store == start.store
        },
{
}

/// What an agent sends is observed, the end of what it sends changes nothing, and an error
/// breaks the recording off with its message.
pub proof fn arrivals_are_taken_for_what_they_are(
    recorder: RecorderView,
    store: StoreView,
    arrived: Result<Option<AcpEvent>, AcpError>,
)
    ensures
        arrived matches Ok(Some(event)) ==> arrival_step(recorder, store, arrived)
            == recorder.observed(store, event.deep_view()),
        arrived matches Ok(None) ==> arrival_step(recorder, store, arrived).recorder == recorder
            && arrival_step(recorder, store, arrived).store == store && arrival_step(
            recorder,
            store,
            arrived,
        ).error is None,
        arrived matches Err(error) ==> arrival_step(recorder, store, arrived)
            == recorder.interrupted(store, error.deep_view().message()),
        arrived matches Err(error) ==> arrival_view(arrived) == Err::<
            Option<AcpEventView>,
            RecordingErrorView,
        >(RecordingErrorView::Agent(error.deep_view())),
        arrived matches Ok(event) ==> arrival_view(arrived) == Ok::<
            Option<AcpEventView>,
            RecordingErrorView,
        >(event.deep_view()),
{
}

/// A handoff is given out when what was saved can still be claimed.
pub proof fn handoffs_can_be_claimed(
    kept: Result<(ContinuationRecordView, StoreView), StoreErrorView>,
)
    ensures
        handoff_reply(kept) is Ok <==> (kept is Ok && kept->Ok_0.0.state
            == ContinuationState::Available && kept->Ok_0.0.latest),
        handoff_reply(kept) matches Ok(record) ==> record == kept->Ok_0.0,
        kept matches Err(e) ==> handoff_reply(kept) == Err::<ContinuationRecordView, AcpErrorView>(
            AcpErrorView::Store(e),
        ),
        kept is Ok && handoff_reply(kept) is Err ==> handoff_reply(kept) == Err::<
            ContinuationRecordView,
            AcpErrorView,
        >(AcpErrorView::Store(StoreErrorView::ContinuationClaimed)),
{
}

/// A selection is resolved from the records of the session alone, within the limits, and
/// under a policy without what the policy takes out. What was asked for is told beside what
/// was left of it.
pub proof fn selections_are_resolved_in_their_session(
    session: SessionStateView,
    store: StoreView,
    resources: Resources,
    manifest: ContextManifestView,
    limits: ContextLimits,
    policy: ContextPolicyView,
)
    ensures
        whole_context(session, store, resources, manifest, limits) matches Ok(context) ==> {
            &&& context.requested_manifest == manifest
            &&& context.manifest == manifest
            &&& context_prepared(
                Sources {
                    records: store,
                    resources,
                    allowed: seq![session.session_id],
                    forbidden: Seq::empty(),
                    max_bytes: limits.max_resource_bytes as nat,
                },
                manifest,
                limits.max_items as nat,
            ) matches Ok(found) && context.records == found.records && context.instructions
                == found.instructions && context.resources == found.resources
        },
        policy_context(session, store, resources, manifest, limits, policy) matches Ok(context)
            ==> {
            &&& context.requested_manifest == manifest
            &&& context.policy == policy
            &&& selection_under(manifest, policy, limits.max_items as nat) matches Ok(left)
                && context.manifest == left.manifest && (context_prepared(
                Sources {
                    records: store,
                    resources,
                    allowed: seq![session.session_id],
                    forbidden: left.forbidden,
                    max_bytes: limits.max_resource_bytes as nat,
                },
                left.manifest,
                limits.max_items as nat,
            ) matches Ok(found) && context.records == found.records && context.instructions
                == found.instructions && context.resources == found.resources)
        },
{
}

/// Instructions count only if the host granted them: a run with a result and a context that
/// was authorized by anyone else is refused. What is sent is the context around the request
/// for the result, and the user's own words are what is on record.
pub proof fn results_with_a_context_are_granted_by_the_host(
    session: SessionStateView,
    closed: bool,
    store: StoreView,
    id: Seq<char>,
    prompt: Seq<char>,
    contract: JsonContract,
    context: PreparedContextView,
    limit: usize,
    actors: RecordActorsView,
)
    ensures
        ({
            let (start, wire) = json_start(
                session,
                closed,
                store,
                id,
                prompt,
                contract,
                JsonOutputMode::ValidateReturnedText,
                Some((context, limit)),
                actors,
            );
            &&& start.reply matches Ok((recorder, spec)) ==> {
                &&& context.policy.instruction_authorization matches Some(authorization)
                    ==> authorization.grant.issuer == actors.host
                &&& wire == envelope(context, json_wire(prompt, contract.instructions@))
                &&& spec.id == id
                &&& spec.context == context.manifest
                &&& recorder.records.len() == 4
                &&& asks(recorder.records[0].payload, prompt)
                &&& proves(
                    recorder.records[1].payload,
                    "result_contract"@,
                    contract_json(contract, wire),
                )
                &&& proves(
                    recorder.records[2].payload,
                    "input_receipt"@,
                    crate::acp::context::prepared_receipt(wire),
                )
                &&& proves(
                    recorder.records[3].payload,
                    "input_receipt"@,
                    JsonView::Object(
                        map![
                            "version"@ => JsonView::Number(JsonNumber::PosInt(1)),
                            "state"@ => JsonView::Text("dispatch_attempted"@),
                        ],
                    ),
                )
            }
            &&& session.objection(prompt, closed) is None && session.assignment(id) is Ok
                && context.policy.instruction_authorization is Some
                && context.policy.instruction_authorization->0.grant.issuer != actors.host
                ==> start.reply == Err::<(RecorderView, Assignment), RecordingErrorView>(
                RecordingErrorView::Context(ContextErrorView::InstructionUnauthorized),
            ) && start.store == store
        }),
{
}

/// What came of waiting for an event is what should have, with a store that can be depended
/// on. With any other the recording may break off before one of its operations, with an
/// error of the store.
pub proof fn waiting_comes_to_what_it_should(
    reply: Result<Option<AcpEventView>, RecordingErrorView>,
    success: Result<Option<AcpEventView>, RecordingErrorView>,
    step: RecordStep,
    recorder: RecorderView,
    store: StoreView,
    dependable: bool,
)
    requires
        replied(reply, success, step, recorder, store, dependable),
    ensures
        reply is Ok ==> step.error is None && reply == success && recorder == step.recorder && store
            == step.store,
        dependable && step.error is None ==> reply == success,
        dependable && step.error is Some ==> reply == Err::<
            Option<AcpEventView>,
            RecordingErrorView,
        >(step.error->0),
        dependable ==> recorder == step.recorder && store == step.store,
{
}

/// A run that failed is on record as one without a result, by the host: its validation says
/// that the recording or the provider failed.
pub proof fn failed_runs_have_no_result(
    recorder: RecorderView,
    store: StoreView,
    contract: JsonContract,
)
    ensures
        ({
            let step = unsettled(recorder, store, contract);
            step.error is None ==> step.recorder.records.len() == recorder.records.len() + 1
                && proves(
                step.recorder.records.last().payload,
                "result_validation"@,
                settlement_json(
                    contract,
                    sources_json(recorder.live()),
                    Some(JsonRejectionView::Incomplete("recording or provider error"@)),
                ),
            )
        }),
        forall|i: int|
            0 <= i < recorder.records.len() ==> (#[trigger] recorder.live()[i]).record.payload
                == recorder.records[i].payload && recorder.live()[i].record.id
                == recorder.records[i].stored.record.id && recorder.live()[i].revision
                == recorder.records[i].stored.revision && recorder.live()[i].state
                == recorder.records[i].stored.state,
        recorder.live().len() == recorder.records.len(),
{
}

/// A run that failed is left without a result: the first error is told, or the one that kept
/// the evidence of it from being stored.
pub proof fn failed_runs_are_left_without_a_result(
    error: RecordingErrorView,
    first: RecordingErrorView,
    step: RecordStep,
    recorder: RecorderView,
    store: StoreView,
    before: Option<Option<JsonRejectionView>>,
    after: Option<Option<JsonRejectionView>>,
    dependable: bool,
)
    requires
        left_unsettled(error, first, step, recorder, store, before, after, dependable),
    ensures
        step.error is None && dependable ==> error == first && after == Some(
            Some(JsonRejectionView::Incomplete("recording or provider error"@)),
        ),
        step.error is Some && dependable ==> step.error == Some(error) && after == before,
        dependable ==> recorder == step.recorder && store == step.store,
        after == before || after == Some(
            Some(JsonRejectionView::Incomplete("recording or provider error"@)),
        ),
{
}

/// A run that failed takes nothing more, and tells nothing but that it is closed.
pub proof fn failed_runs_are_closed(
    run: RecordedRun,
    store: StoreView,
    arrived: Result<Option<AcpEvent>, AcpError>,
    error: RecordingErrorView,
    after: RecorderView,
    stored: StoreView,
    dependable: bool,
)
    requires
        failed_so(run, store, arrived, error, after, stored, dependable),
    ensures
        run.has_failed() ==> error == RecordingErrorView::Closed && after == run.recording()
            && stored == store,
        !run.has_failed() && dependable ==> after == arrival_step(
            run.recording(),
            store,
            arrived,
        ).recorder && stored == arrival_step(run.recording(), store, arrived).store,
        !run.has_failed() && dependable ==> match arrival_step(
            run.recording(),
            store,
            arrived,
        ).error {
            Some(e) => error == e,
            None => arrived matches Err(e) && error == RecordingErrorView::Agent(e.deep_view()),
        },
{
}

} // verus!
