//! What holds of every recording.

use crate::acp::configuration::{
    normalized_catalog, reported_values, valid_catalog, NativeOptionView,
};
use crate::acp::error::RecordingErrorView;
use crate::acp::event::{
    AcpEventView, ChunkContentView, MessageChunkView, NativeToolStatus, NativeToolUpdateView,
    NativeToolView, PermissionIdView, PermissionRequestView, StopReasonView,
};
use crate::acp::recording::{
    is_text_of, member, messages_do_not_merge, record_id, recording_started, values_json, MessageKeyView, RecordActorsView,
    RecordStep, RecorderView, ToolEntryView, WorkingView,
};
use crate::configuration::ConfigValueView;
use crate::execution::Assignment;
use crate::json::{JsonNumber, JsonView};
use crate::model::{ContentView, MessageView};
use crate::records::store::StoreView;
use crate::records::{
    CompletionReasonView, DecisionDelivery, DraftView, MessageKind, PayloadView, PermissionOutcomeView,
    RecordState, SnapshotView, SourceRefView, StoreErrorView, ToolActivityView, ToolStatus,
};
use crate::text::json_quoted;
use vstd::prelude::*;

verus! {

/// The recorded status tells the one that the agent reported.
pub open spec fn tells(recorded: ToolStatus, reported: NativeToolStatus) -> bool {
    &&& recorded == ToolStatus::Failed <==> reported == NativeToolStatus::Failed
    &&& recorded == ToolStatus::Completed <==> reported == NativeToolStatus::Completed
    &&& recorded == ToolStatus::Running <==> reported == NativeToolStatus::InProgress
    &&& recorded == ToolStatus::Pending <==> reported == NativeToolStatus::Pending
    &&& recorded == ToolStatus::Unknown <==> reported == NativeToolStatus::Other
}

/// The recorded activity is that of the call.
pub open spec fn describes(activity: ToolActivityView, call: NativeToolView) -> bool {
    &&& tells(activity.status, call.status)
    &&& activity.title == call.title
    &&& activity.input == call.raw_input
    &&& activity.output == call.raw_output
    &&& activity.extensions.contains_key("acp"@)
}

/// The status that the agent reported last of a call, if it reported the call at all. A
/// report that leaves the status out keeps the one before it, and a call that comes with
/// none is pending.
pub open spec fn last_status(events: Seq<AcpEventView>, id: Seq<char>) -> Option<NativeToolStatus>
    decreases events.len(),
{
    if events.len() == 0 {
        None
    } else {
        let before = last_status(events.drop_last(), id);
        let known = match before {
            Some(status) => status,
            None => NativeToolStatus::Pending,
        };
        match events.last() {
            AcpEventView::Tool(call) => if call.id == id {
                Some(call.status)
            } else {
                before
            },
            AcpEventView::ToolUpdate(update) => if update.id == id {
                match update.status {
                    Some(status) => Some(status),
                    None => Some(known),
                }
            } else {
                before
            },
            AcpEventView::Permission { request, .. } => if request.tool.id == id {
                match request.tool.status {
                    Some(status) => Some(status),
                    None => Some(known),
                }
            } else {
                before
            },
            _ => before,
        }
    }
}

/// What the events lead to, one after the other, up to the first error.
pub open spec fn recorded_through(
    recorder: RecorderView,
    store: StoreView,
    events: Seq<AcpEventView>,
) -> RecordStep
    decreases events.len(),
{
    if events.len() == 0 {
        recorder.done(store)
    } else {
        let before = recorded_through(recorder, store, events.drop_last());
        if before.error is Some {
            before
        } else {
            before.recorder.observed(before.store, events.last())
        }
    }
}

/// The records of the calls tell what is known of them, and no two share one.
pub open spec fn calls_told(recorder: RecorderView) -> bool {
    &&& recorder.apart()
    &&& forall|id: Seq<char>| #[trigger]
        recorder.tools.contains_key(id) ==> {
            let entry = recorder.tools[id];
            &&& entry.call.id == id
            &&& recorder.records[entry.index as int].payload is Tool
            &&& describes(recorder.records[entry.index as int].payload->Tool_0, entry.call)
        }
    &&& forall|a: Seq<char>, b: Seq<char>|
        #![trigger recorder.tools.contains_key(a), recorder.tools.contains_key(b)]
        recorder.tools.contains_key(a) && recorder.tools.contains_key(b) && a != b
            ==> recorder.tools[a].index != recorder.tools[b].index
}

/// The calls are known as before, but for one.
pub open spec fn other_calls_kept(before: RecorderView, after: RecorderView, id: Seq<char>) -> bool {
    forall|other: Seq<char>|
        other != id ==> (#[trigger] after.tools.contains_key(other) <==> before.tools.contains_key(
            other,
        )) && after.tools[other] == before.tools[other]
}

proof fn setting_apart_keeps_calls(recorder: RecorderView)
    requires
        calls_told(recorder),
    ensures
        calls_told(RecorderView { anonymous: None, ..recorder }),
{
    let next = RecorderView { anonymous: None, ..recorder };
    assert(next.records == recorder.records && next.messages == recorder.messages && next.tools
        == recorder.tools && next.permissions == recorder.permissions);
    assert(forall|key: MessageKeyView| #[trigger]
        next.messages.contains_key(key) ==> recorder.messages.contains_key(key));
    assert(forall|key: Seq<char>| #[trigger]
        next.tools.contains_key(key) ==> recorder.tools.contains_key(key));
    assert(forall|id: PermissionIdView| #[trigger]
        next.permissions.contains_key(id) ==> recorder.permissions.contains_key(id));
}

proof fn inserting_keeps_calls(
    recorder: RecorderView,
    store: StoreView,
    payload: PayloadView,
    actor: Seq<char>,
    reply: Option<Seq<char>>,
    source: Option<SourceRefView>,
    state: RecordState,
)
    requires
        calls_told(recorder),
    ensures
        ({
            let step = recorder.inserted(store, payload, actor, reply, source, state);
            &&& calls_told(step.recorder)
            &&& step.recorder.tools == recorder.tools
            &&& step.error is None ==> {
                &&& step.recorder.records.len() == recorder.records.len() + 1
                &&& step.recorder.records.last().payload == payload
                &&& step.recorder.records.drop_last() == recorder.records
            }
            &&& step.error is Some ==> step.recorder == recorder
        }),
{
    let next = recorder.inserted(store, payload, actor, reply, source, state).recorder;
    assert(next.messages == recorder.messages && next.tools == recorder.tools && next.permissions
        == recorder.permissions && next.anonymous == recorder.anonymous);
    assert(forall|i: int|
        0 <= i < recorder.records.len() ==> next.records[i] == recorder.records[i]);
    assert(forall|key: MessageKeyView| #[trigger]
        next.messages.contains_key(key) ==> recorder.messages.contains_key(key));
    assert(forall|key: Seq<char>| #[trigger]
        next.tools.contains_key(key) ==> recorder.tools.contains_key(key));
    assert(forall|id: PermissionIdView| #[trigger]
        next.permissions.contains_key(id) ==> recorder.permissions.contains_key(id));
    assert(next.records.len() == recorder.records.len() + 1 ==> next.records.drop_last()
        =~= recorder.records);
}

proof fn calls_are_taken_up(recorder: RecorderView, store: StoreView, call: NativeToolView)
    requires
        calls_told(recorder),
        recorder.records.len() < usize::MAX,
    ensures
        ({
            let step = recorder.tool_observed(store, call);
            let after = step.recorder;
            &&& calls_told(after)
            &&& recorder.records.len() <= after.records.len() <= recorder.records.len() + 1
            &&& step.error is None ==> {
                &&& after.tools.contains_key(call.id)
                &&& after.tools[call.id].call == call
                &&& other_calls_kept(recorder, after, call.id)
            }
        }),
{
    let step = recorder.tool_observed(store, call);
    let after = step.recorder;
    assert(describes(call.payload()->Tool_0, call));
    if recorder.tools.contains_key(call.id) {
        let index = recorder.tools[call.id].index;
        assert(after.records[index as int].payload == call.payload());
        assert(forall|i: int|
            0 <= i < recorder.records.len() && i != index ==> after.records[i]
                == recorder.records[i]);
        assert(forall|key: MessageKeyView| #[trigger]
            after.messages.contains_key(key) ==> recorder.messages.contains_key(key));
        assert(forall|key: Seq<char>| #[trigger]
            after.tools.contains_key(key) ==> recorder.tools.contains_key(key));
        assert(forall|id: PermissionIdView| #[trigger]
            after.permissions.contains_key(id) ==> recorder.permissions.contains_key(id));
        assert(after.apart());
    } else {
        let source = Some(SourceRefView { namespace: "acp"@, id: call.id });
        inserting_keeps_calls(
            recorder,
            store,
            call.payload(),
            recorder.actors.agent,
            None,
            source,
            RecordState::Open,
        );
        let opened = recorder.inserted(
            store,
            call.payload(),
            recorder.actors.agent,
            None,
            source,
            RecordState::Open,
        );
        if opened.error is None {
            let middle = opened.recorder;
            assert(after.records == middle.records && after.messages == middle.messages
                && after.permissions == middle.permissions && after.anonymous == middle.anonymous);
            assert(forall|key: Seq<char>| #[trigger]
                after.tools.contains_key(key) && key != call.id ==> middle.tools.contains_key(key)
                    && recorder.tools.contains_key(key));
            assert(forall|key: Seq<char>| #[trigger]
                recorder.tools.contains_key(key) ==> recorder.tools[key].index
                    < recorder.records.len());
            assert(forall|key: MessageKeyView| #[trigger]
                after.messages.contains_key(key) ==> middle.messages.contains_key(key));
            assert(forall|id: PermissionIdView| #[trigger]
                after.permissions.contains_key(id) ==> middle.permissions.contains_key(id));
            assert(after.records.last().payload == call.payload());
            assert(after.apart());
        }
    }
}

proof fn texts_keep_calls(
    recorder: RecorderView,
    store: StoreView,
    kind: MessageKind,
    chunk: MessageChunkView,
)
    requires
        calls_told(recorder),
        recorder.records.len() < usize::MAX,
    ensures
        ({
            let step = recorder.chunk_observed(store, kind, chunk);
            step.error is None ==> {
                &&& calls_told(step.recorder)
                &&& step.recorder.tools == recorder.tools
                &&& recorder.records.len() <= step.recorder.records.len()
                    <= recorder.records.len() + 1
            }
        }),
{
    let step = recorder.chunk_observed(store, kind, chunk);
    match chunk.content {
        ChunkContentView::Other(data) => {
            setting_apart_keeps_calls(recorder);
            let apart = RecorderView { anonymous: None, ..recorder };
            inserting_keeps_calls(
                apart,
                store,
                PayloadView::Extension { namespace: "acp"@, name: "message_content"@, data },
                apart.actors.agent,
                None,
                None,
                RecordState::Complete,
            );
        },
        ChunkContentView::Text(text) => {
            messages_do_not_merge(recorder, store, kind, chunk, text);
            if step.error is None {
                let after = step.recorder;
                assert(after.tools == recorder.tools);
                assert forall|id: Seq<char>| #[trigger] after.tools.contains_key(id) implies {
                    let entry = after.tools[id];
                    &&& entry.call.id == id
                    &&& after.records[entry.index as int].payload is Tool
                    &&& describes(after.records[entry.index as int].payload->Tool_0, entry.call)
                } by {
                    assert(recorder.tools.contains_key(id));
                    let index = recorder.tools[id].index as int;
                    assert(recorder.records[index].payload is Tool);
                    assert(after.records[index] == recorder.records[index]);
                }
            }
        },
    }
}

proof fn decisions_keep_calls(
    recorder: RecorderView,
    store: StoreView,
    id: PermissionIdView,
    outcome: PermissionOutcomeView,
    delivery: DecisionDelivery,
)
    requires
        calls_told(recorder),
    ensures
        ({
            let step = recorder.decision_observed(store, id, outcome, delivery);
            &&& calls_told(step.recorder)
            &&& step.recorder.tools == recorder.tools
            &&& recorder.records.len() <= step.recorder.records.len() <= recorder.records.len() + 1
        }),
{
    let after = recorder.decision_observed(store, id, outcome, delivery).recorder;
    assert(after.messages == recorder.messages && after.tools == recorder.tools
        && after.permissions == recorder.permissions && after.anonymous == recorder.anonymous);
    assert(forall|i: int|
        0 <= i < recorder.records.len() ==> after.records[i].payload
            == recorder.records[i].payload);
    assert(forall|key: MessageKeyView| #[trigger]
        after.messages.contains_key(key) ==> recorder.messages.contains_key(key));
    assert(forall|key: Seq<char>| #[trigger]
        after.tools.contains_key(key) ==> recorder.tools.contains_key(key));
    assert(forall|key: PermissionIdView| #[trigger]
        after.permissions.contains_key(key) ==> recorder.permissions.contains_key(key));
}

proof fn requests_take_up_their_call(
    recorder: RecorderView,
    store: StoreView,
    id: PermissionIdView,
    request: PermissionRequestView,
)
    requires
        calls_told(recorder),
        recorder.records.len() + 1 < usize::MAX,
    ensures
        ({
            let step = recorder.permission_observed(store, id, request);
            let after = step.recorder;
            step.error is None ==> {
                &&& calls_told(after)
                &&& recorder.records.len() <= after.records.len() <= recorder.records.len() + 2
                &&& after.tools.contains_key(request.tool.id)
                &&& after.tools[request.tool.id].call == recorder.merged(request.tool)
                &&& other_calls_kept(recorder, after, request.tool.id)
            }
        }),
{
    let step = recorder.permission_observed(store, id, request);
    let call = recorder.merged(request.tool);
    merged_calls_keep_their_id(recorder, request.tool);
    calls_are_taken_up(recorder, store, call);
    let known = recorder.tool_observed(store, call);
    if step.error is None {
        let tool = known.recorder.tools[call.id].index;
        let payload = PayloadView::Permission {
            title: match request.tool.title {
                Some(title) => title,
                None => "Tool permission"@,
            },
            options: request.options,
        };
        let reply = Some(known.recorder.records[tool as int].stored.record.id);
        inserting_keeps_calls(
            known.recorder,
            known.store,
            payload,
            recorder.actors.agent,
            reply,
            None,
            RecordState::Open,
        );
        let asked = known.recorder.inserted(
            known.store,
            payload,
            recorder.actors.agent,
            reply,
            None,
            RecordState::Open,
        ).recorder;
        let after = step.recorder;
        assert(after.records == asked.records && after.messages == asked.messages && after.tools
            == asked.tools && after.anonymous == asked.anonymous);
        assert(forall|key: MessageKeyView| #[trigger]
            after.messages.contains_key(key) ==> asked.messages.contains_key(key));
        assert(forall|key: Seq<char>| #[trigger]
            after.tools.contains_key(key) ==> asked.tools.contains_key(key));
        assert(forall|key: PermissionIdView| #[trigger]
            after.permissions.contains_key(key) && key != id ==> asked.permissions.contains_key(
                key,
            ));
        assert(after.apart());
    }
}

proof fn merged_calls_keep_their_id(recorder: RecorderView, update: NativeToolUpdateView)
    requires
        calls_told(recorder),
    ensures
        recorder.merged(update).id == update.id,
{
}

proof fn sealing_keeps_calls(recorder: RecorderView, store: StoreView, i: nat, complete: bool)
    requires
        calls_told(recorder),
    ensures
        ({
            let after = recorder.sealed_from(store, i, complete).recorder;
            &&& calls_told(after)
            &&& after.tools == recorder.tools
            &&& after.records.len() == recorder.records.len()
        }),
    decreases recorder.records.len() - i,
{
    if i >= recorder.records.len() {
        let after = RecorderView { finished: true, ..recorder };
        same_payloads_keep_calls(recorder, after);
    } else {
        let working = recorder.records[i as int];
        if working.stored.state.finished() {
            sealing_keeps_calls(recorder, store, i + 1, complete);
        } else {
            match store.checkpointed(
                working.stored.record.id,
                working.stored.revision,
                working.payload,
                crate::acp::recording::sealed_state(working.payload, complete),
            ) {
                Err(_) => {},
                Ok((stored, after)) => {
                    let next = RecorderView {
                        records: recorder.records.update(
                            i as int,
                            WorkingView { stored, dirty: false, ..working },
                        ),
                        ..recorder
                    };
                    same_payloads_keep_calls(recorder, next);
                    sealing_keeps_calls(next, after, i + 1, complete);
                },
            }
        }
    }
}

proof fn same_payloads_keep_calls(before: RecorderView, after: RecorderView)
    requires
        calls_told(before),
        after.messages == before.messages,
        after.tools == before.tools,
        after.permissions == before.permissions,
        after.anonymous == before.anonymous,
        after.records.len() == before.records.len(),
        forall|i: int|
            0 <= i < before.records.len() ==> (#[trigger] after.records[i]).payload
                == before.records[i].payload,
    ensures
        calls_told(after),
{
    assert(forall|key: MessageKeyView| #[trigger]
        after.messages.contains_key(key) ==> before.messages.contains_key(key));
    assert(forall|key: Seq<char>| #[trigger]
        after.tools.contains_key(key) ==> before.tools.contains_key(key));
    assert(forall|key: PermissionIdView| #[trigger]
        after.permissions.contains_key(key) ==> before.permissions.contains_key(key));
}

proof fn stopping_keeps_calls(recorder: RecorderView, store: StoreView, reason: StopReasonView)
    requires
        calls_told(recorder),
    ensures
        ({
            let step = recorder.stop_observed(store, reason);
            step.error is None ==> {
                &&& calls_told(step.recorder)
                &&& step.recorder.tools == recorder.tools
                &&& recorder.records.len() <= step.recorder.records.len()
                    <= recorder.records.len() + 2
            }
        }),
{
    let receipt = JsonView::Object(
        recorder.stage("response_received"@).insert("stop_reason"@, JsonView::Text(reason.wire())),
    );
    let payload = PayloadView::Extension {
        namespace: "agent_bridge"@,
        name: "input_receipt"@,
        data: receipt,
    };
    inserting_keeps_calls(
        recorder,
        store,
        payload,
        recorder.actors.host,
        None,
        None,
        RecordState::Complete,
    );
    let noted = recorder.evidenced(store, "input_receipt"@, receipt);
    let received = if recorder.input_receipt {
        RecorderView { input_response: true, ..noted.recorder }
    } else {
        recorder
    };
    let held = if recorder.input_receipt {
        noted.store
    } else {
        store
    };
    same_payloads_keep_calls(
        if recorder.input_receipt {
            noted.recorder
        } else {
            recorder
        },
        received,
    );
    let end = PayloadView::RunFinished { reason: reason.portable() };
    inserting_keeps_calls(
        received,
        held,
        end,
        recorder.actors.agent,
        None,
        None,
        RecordState::Complete,
    );
    let finished = received.inserted(
        held,
        end,
        recorder.actors.agent,
        None,
        None,
        RecordState::Complete,
    );
    sealing_keeps_calls(
        finished.recorder,
        finished.store,
        0,
        reason is EndTurn || reason is Refusal,
    );
}

proof fn reports_keep_calls(
    recorder: RecorderView,
    store: StoreView,
    options: Seq<NativeOptionView>,
)
    requires
        calls_told(recorder),
    ensures
        ({
            let step = recorder.report_observed(store, options);
            step.error is None ==> {
                &&& calls_told(step.recorder)
                &&& step.recorder.tools == recorder.tools
                &&& recorder.records.len() <= step.recorder.records.len()
                    <= recorder.records.len() + 1
            }
        }),
{
    let report = if valid_catalog(options) {
        Some(reported_values(normalized_catalog(options)))
    } else {
        None
    };
    let told = RecorderView { last_configuration: report, ..recorder };
    same_payloads_keep_calls(recorder, told);
    inserting_keeps_calls(
        told,
        store,
        PayloadView::Extension {
            namespace: "agent_bridge"@,
            name: "configuration_report"@,
            data: JsonView::Object(member("confirmed"@, values_json(report))),
        },
        recorder.actors.agent,
        None,
        None,
        RecordState::Complete,
    );
}

proof fn events_keep_calls(recorder: RecorderView, store: StoreView, event: AcpEventView)
    requires
        calls_told(recorder),
        recorder.records.len() + 2 < usize::MAX,
    ensures
        ({
            let step = recorder.observed(store, event);
            let after = step.recorder;
            step.error is None ==> {
                &&& calls_told(after)
                &&& recorder.records.len() <= after.records.len() <= recorder.records.len() + 2
                &&& match event {
                    AcpEventView::Tool(call) => after.tools.contains_key(call.id)
                        && after.tools[call.id].call == call && other_calls_kept(
                        recorder,
                        after,
                        call.id,
                    ),
                    AcpEventView::ToolUpdate(update) => after.tools.contains_key(update.id)
                        && after.tools[update.id].call == recorder.merged(update)
                        && other_calls_kept(recorder, after, update.id),
                    AcpEventView::Permission { request, .. } => after.tools.contains_key(
                        request.tool.id,
                    ) && after.tools[request.tool.id].call == recorder.merged(request.tool)
                        && other_calls_kept(recorder, after, request.tool.id),
                    _ => after.tools == recorder.tools,
                }
            }
        }),
{
    if !recorder.finished {
        setting_apart_keeps_calls(recorder);
        let apart = RecorderView { anonymous: None, ..recorder };
        match event {
            AcpEventView::AgentMessage(chunk) => texts_keep_calls(
                recorder,
                store,
                MessageKind::Agent,
                chunk,
            ),
            AcpEventView::AgentThought(chunk) => texts_keep_calls(
                recorder,
                store,
                MessageKind::Reasoning,
                chunk,
            ),
            AcpEventView::Tool(call) => calls_are_taken_up(apart, store, call),
            AcpEventView::ToolUpdate(update) => {
                merged_calls_keep_their_id(apart, update);
                calls_are_taken_up(apart, store, apart.merged(update));
            },
            AcpEventView::Configuration(options) => reports_keep_calls(apart, store, options),
            AcpEventView::OtherUpdate(data) => inserting_keeps_calls(
                apart,
                store,
                PayloadView::Extension { namespace: "acp"@, name: "session_update"@, data },
                apart.actors.agent,
                None,
                None,
                RecordState::Complete,
            ),
            AcpEventView::Permission { id, request } => requests_take_up_their_call(
                apart,
                store,
                id,
                request,
            ),
            AcpEventView::PermissionResolved { id, outcome, delivery } => decisions_keep_calls(
                apart,
                store,
                id,
                outcome,
                delivery,
            ),
            AcpEventView::Finished(reason) => stopping_keeps_calls(apart, store, reason),
        }
    }
}

proof fn calls_are_told_throughout(
    recorder: RecorderView,
    store: StoreView,
    events: Seq<AcpEventView>,
    id: Seq<char>,
)
    requires
        calls_told(recorder),
        recorder.tools == Map::<Seq<char>, ToolEntryView>::empty(),
        recorder.records.len() + 2 * events.len() + 2 < usize::MAX,
    ensures
        ({
            let step = recorded_through(recorder, store, events);
            step.error is None ==> {
                &&& calls_told(step.recorder)
                &&& step.recorder.records.len() <= recorder.records.len() + 2 * events.len()
                &&& match last_status(events, id) {
                    Some(status) => step.recorder.tools.contains_key(id)
                        && step.recorder.tools[id].call.status == status,
                    None => !step.recorder.tools.contains_key(id),
                }
            }
        }),
    decreases events.len(),
{
    if events.len() > 0 {
        calls_are_told_throughout(recorder, store, events.drop_last(), id);
        let before = recorded_through(recorder, store, events.drop_last());
        if before.error is None {
            events_keep_calls(before.recorder, before.store, events.last());
        }
    }
}

/// The status of a recorded call tells apart every status that the agent can report:
/// whatever else happened in the run, it is failed exactly when the agent last reported
/// the call as failed, completed exactly when it last reported it as completed, running
/// exactly when in progress, pending exactly when pending, and unknown otherwise. A call
/// that the agent never reported has no record.
pub proof fn recorded_statuses_are_the_last_reported(
    recorder: RecorderView,
    store: StoreView,
    events: Seq<AcpEventView>,
    id: Seq<char>,
)
    requires
        recorder.apart(),
        recorder.tools == Map::<Seq<char>, ToolEntryView>::empty(),
        recorder.records.len() + 2 * events.len() + 2 < usize::MAX,
        recorded_through(recorder, store, events).error is None,
    ensures
        ({
            let after = recorded_through(recorder, store, events).recorder;
            match last_status(events, id) {
                Some(status) => {
                    let index = after.tools[id].index as int;
                    &&& after.tools.contains_key(id)
                    &&& 0 <= index < after.records.len()
                    &&& after.records[index].payload is Tool
                    &&& tells(after.records[index].payload->Tool_0.status, status)
                },
                None => !after.tools.contains_key(id),
            }
        }),
{
    calls_are_told_throughout(recorder, store, events, id);
}

/// A call is recorded as the agent reports it: with its title, its status, its input and
/// its output.
pub proof fn calls_are_recorded_as_reported(
    recorder: RecorderView,
    store: StoreView,
    call: NativeToolView,
)
    requires
        recorder.indexed(),
        recorder.records.len() < usize::MAX,
    ensures
        ({
            let step = recorder.observed(store, AcpEventView::Tool(call));
            step.error is None ==> {
                let index = step.recorder.tools[call.id].index as int;
                &&& step.recorder.tools.contains_key(call.id)
                &&& 0 <= index < step.recorder.records.len()
                &&& step.recorder.records[index].payload matches PayloadView::Tool(activity)
                    && activity.title == call.title && activity.input == call.raw_input
                    && activity.output == call.raw_output && tells(activity.status, call.status)
            }
        }),
{
}

/// A report on a call changes what it mentions and keeps the rest. Of a call that was not
/// known, what is not mentioned is a title of its own, no input, no output, and that it is
/// pending.
pub proof fn reports_change_what_they_mention(
    recorder: RecorderView,
    store: StoreView,
    update: NativeToolUpdateView,
)
    requires
        recorder.indexed(),
        recorder.records.len() < usize::MAX,
        recorder.tools.contains_key(update.id) ==> recorder.tools[update.id].call.id == update.id,
    ensures
        ({
            let step = recorder.observed(store, AcpEventView::ToolUpdate(update));
            let known = recorder.tools.contains_key(update.id);
            let before = recorder.tools[update.id].call;
            step.error is None ==> {
                let index = step.recorder.tools[update.id].index as int;
                &&& step.recorder.tools.contains_key(update.id)
                &&& 0 <= index < step.recorder.records.len()
                &&& step.recorder.records[index].payload matches PayloadView::Tool(activity) && {
                    &&& update.status matches Some(status) ==> tells(activity.status, status)
                    &&& update.status is None && known ==> tells(activity.status, before.status)
                    &&& update.status is None && !known ==> activity.status == ToolStatus::Pending
                    &&& update.title matches Some(title) ==> activity.title == title
                    &&& update.title is None && known ==> activity.title == before.title
                    &&& update.title is None && !known ==> activity.title == "Tool activity"@
                    &&& update.raw_input is Some ==> activity.input == update.raw_input
                    &&& update.raw_input is None && known ==> activity.input == before.raw_input
                    &&& update.raw_input is None && !known ==> activity.input is None
                    &&& update.raw_output is Some ==> activity.output == update.raw_output
                    &&& update.raw_output is None && known ==> activity.output == before.raw_output
                    &&& update.raw_output is None && !known ==> activity.output is None
                }
                &&& known ==> index == recorder.tools[update.id].index
                &&& !known ==> index == recorder.records.len() && step.recorder.records.len()
                    == recorder.records.len() + 1
            }
        }),
{
}

/// What an agent adds to a call is recorded beside it: its name and its notes as they are,
/// its kind unless that is the common one, and its contents and places if there are any.
pub proof fn additions_are_recorded_beside_the_call(call: NativeToolView)
    ensures
        call.payload() matches PayloadView::Tool(activity) && (
        activity.extensions["acp"@] matches JsonView::Object(details) && {
            &&& call.name matches Some(name) ==> details.contains_key("name"@) && details["name"@]
                == JsonView::Text(name)
            &&& call.name is None ==> !details.contains_key("name"@)
            &&& call.kind != "other"@ ==> details.contains_key("kind"@) && details["kind"@]
                == JsonView::Text(call.kind)
            &&& call.kind == "other"@ ==> !details.contains_key("kind"@)
            &&& call.content.len() > 0 ==> details.contains_key("content"@) && details["content"@]
                == JsonView::Array(call.content)
            &&& call.content.len() == 0 ==> !details.contains_key("content"@)
            &&& call.locations.len() > 0 ==> details.contains_key("locations"@)
                && details["locations"@] == JsonView::Array(call.locations)
            &&& call.locations.len() == 0 ==> !details.contains_key("locations"@)
            &&& call.meta matches Some(meta) ==> details.contains_key("_meta"@) && details["_meta"@]
                == meta
            &&& call.meta is None ==> !details.contains_key("_meta"@)
        }),
{
    reveal_strlit("name");
    reveal_strlit("kind");
    reveal_strlit("content");
    reveal_strlit("locations");
    reveal_strlit("_meta");
    assert("name"@[0] != "kind"@[0]);
    assert("name"@.len() == 4 && "kind"@.len() == 4 && "content"@.len() == 7 && "locations"@.len()
        == 9 && "_meta"@.len() == 5);
}

/// Text of the agent is recorded by the agent, as its message or as its reasoning
/// according to how it came, and goes on where the text of the same message stopped.
pub proof fn texts_are_recorded_as_they_came(
    recorder: RecorderView,
    store: StoreView,
    chunk: MessageChunkView,
    text: Seq<char>,
)
    requires
        recorder.apart(),
        !recorder.finished,
        recorder.records.len() < usize::MAX,
        chunk.content == ChunkContentView::Text(text),
    ensures
        ({
            let step = recorder.observed(store, AcpEventView::AgentMessage(chunk));
            let open = recorder.open_message(MessageKind::Agent, chunk.message_id);
            step.error is None ==> says_more(
                recorder,
                step.recorder,
                MessageKind::Agent,
                open,
                text,
            )
        }),
        ({
            let step = recorder.observed(store, AcpEventView::AgentThought(chunk));
            let open = recorder.open_message(MessageKind::Reasoning, chunk.message_id);
            step.error is None ==> says_more(
                recorder,
                step.recorder,
                MessageKind::Reasoning,
                open,
                text,
            )
        }),
{
    messages_do_not_merge(recorder, store, MessageKind::Agent, chunk, text);
    messages_do_not_merge(recorder, store, MessageKind::Reasoning, chunk, text);
    texts_go_on(recorder, store, MessageKind::Agent, chunk, text);
    texts_go_on(recorder, store, MessageKind::Reasoning, chunk, text);
}

/// One record of the kind says more by the text than before, a new one if none was open,
/// and no other record changes.
pub open spec fn says_more(
    before: RecorderView,
    after: RecorderView,
    kind: MessageKind,
    open: Option<usize>,
    text: Seq<char>,
) -> bool {
    let index = match open {
        Some(index) => index as int,
        None => before.records.len() as int,
    };
    &&& after.records.len() == if open is Some {
        before.records.len()
    } else {
        before.records.len() + 1
    }
    &&& 0 <= index < after.records.len()
    &&& after.records[index].payload matches PayloadView::Message { kind: own, message } && own
        == kind && message.content.len() == 1 && (message.content[0] matches ContentView::Text(said)
        && match open {
        Some(_) => before.records[index].payload matches PayloadView::Message { message: old_message, .. }
            && old_message.content.len() == 1 && (old_message.content[0] matches ContentView::Text(
            had,
        ) && said == had + text),
        None => said == text,
    })
    &&& forall|i: int|
        0 <= i < before.records.len() && i != index ==> #[trigger] after.records[i]
            == before.records[i]
}

proof fn texts_go_on(
    recorder: RecorderView,
    store: StoreView,
    kind: MessageKind,
    chunk: MessageChunkView,
    text: Seq<char>,
)
    requires
        recorder.apart(),
        recorder.records.len() < usize::MAX,
        chunk.content == ChunkContentView::Text(text),
    ensures
        ({
            let step = recorder.chunk_observed(store, kind, chunk);
            step.error is None ==> says_more(
                recorder,
                step.recorder,
                kind,
                recorder.open_message(kind, chunk.message_id),
                text,
            )
        }),
{
    messages_do_not_merge(recorder, store, kind, chunk, text);
    let step = recorder.chunk_observed(store, kind, chunk);
    if step.error is None {
        let open = recorder.open_message(kind, chunk.message_id);
        match open {
            Some(index) => {
                let had = recorder.records[index as int].payload;
                assert(is_text_of(had, kind));
                assert(had->Message_message.content.drop_last() =~= Seq::<ContentView>::empty());
            },
            None => {
                let first = seq![ContentView::Text(Seq::<char>::empty())];
                assert(first.drop_last() =~= Seq::<ContentView>::empty());
                assert(Seq::<char>::empty() + text =~= text);
            },
        }
    }
}

/// A new message of the agent is stored open, by the agent, under its id at the agent if it
/// has one, as are a new call and a new request. What the agent says otherwise is stored
/// complete.
pub proof fn new_records_are_by_the_agent(
    recorder: RecorderView,
    store: StoreView,
    chunk: MessageChunkView,
    text: Seq<char>,
    call: NativeToolView,
    data: JsonView,
)
    requires
        !recorder.finished,
        chunk.content == ChunkContentView::Text(text),
    ensures
        ({
            let step = recorder.observed(store, AcpEventView::AgentMessage(chunk));
            let draft = DraftView {
                id: record_id(recorder.spec.id, recorder.records.len()),
                session_id: recorder.spec.session_id,
                run_id: Some(recorder.spec.id),
                actor: recorder.actors.agent,
                reply_to_id: None,
                source: match chunk.message_id {
                    Some(id) => Some(SourceRefView { namespace: "acp"@, id }),
                    None => None,
                },
                payload: PayloadView::Message {
                    kind: MessageKind::Agent,
                    message: MessageView { content: seq![ContentView::Text(Seq::empty())] },
                },
                state: RecordState::Open,
            };
            recorder.open_message(MessageKind::Agent, chunk.message_id) is None ==> {
                &&& store.inserted(draft) matches Ok((_, after)) ==> step.error is None
                    && step.store == after
                &&& store.inserted(draft) matches Err(e) ==> step.error == Some(
                    RecordingErrorView::Store(e),
                ) && step.store == store
            }
        }),
        ({
            let step = recorder.observed(store, AcpEventView::Tool(call));
            let draft = DraftView {
                id: record_id(recorder.spec.id, recorder.records.len()),
                session_id: recorder.spec.session_id,
                run_id: Some(recorder.spec.id),
                actor: recorder.actors.agent,
                reply_to_id: None,
                source: Some(SourceRefView { namespace: "acp"@, id: call.id }),
                payload: call.payload(),
                state: RecordState::Open,
            };
            !recorder.tools.contains_key(call.id) ==> {
                &&& store.inserted(draft) matches Ok((_, after)) ==> step.error is None
                    && step.store == after
                &&& store.inserted(draft) matches Err(e) ==> step.error == Some(
                    RecordingErrorView::Store(e),
                ) && step.store == store
            }
        }),
        ({
            let step = recorder.observed(store, AcpEventView::OtherUpdate(data));
            let draft = DraftView {
                id: record_id(recorder.spec.id, recorder.records.len()),
                session_id: recorder.spec.session_id,
                run_id: Some(recorder.spec.id),
                actor: recorder.actors.agent,
                reply_to_id: None,
                source: None,
                payload: PayloadView::Extension {
                    namespace: "acp"@,
                    name: "session_update"@,
                    data,
                },
                state: RecordState::Complete,
            };
            &&& store.inserted(draft) matches Ok((_, after)) ==> step.error is None && step.store
                == after
            &&& store.inserted(draft) matches Err(e) ==> step.error == Some(
                RecordingErrorView::Store(e),
            ) && step.store == store
        }),
{
}

/// Why an agent stopped is told apart: the ends that it can report are recorded as
/// completed, refused, out of tokens, out of steps and cancelled, each as itself, and any
/// other under its own name.
pub proof fn ends_are_told_apart(reason: StopReasonView)
    ensures
        reason.portable() == CompletionReasonView::Completed <==> reason == StopReasonView::EndTurn,
        reason.portable() == CompletionReasonView::Refused <==> reason == StopReasonView::Refusal,
        reason.portable() == CompletionReasonView::TokenLimit <==> reason
            == StopReasonView::MaxTokens,
        reason.portable() == CompletionReasonView::StepLimit <==> reason
            == StopReasonView::MaxTurnRequests,
        reason.portable() == CompletionReasonView::Cancelled <==> reason
            == StopReasonView::Cancelled,
        reason matches StopReasonView::Other(name) ==> reason.portable()
            == CompletionReasonView::Other(json_quoted(name)) && reason.wire() == name,
        reason == StopReasonView::EndTurn ==> reason.wire() == "end_turn"@,
        reason == StopReasonView::MaxTokens ==> reason.wire() == "max_tokens"@,
        reason == StopReasonView::MaxTurnRequests ==> reason.wire() == "max_turn_requests"@,
        reason == StopReasonView::Refusal ==> reason.wire() == "refusal"@,
        reason == StopReasonView::Cancelled ==> reason.wire() == "cancelled"@,
{
}

/// The end that was reported last is stored as the end of the run, by the agent and
/// complete, before everything is sealed.
pub proof fn ends_are_stored(recorder: RecorderView, store: StoreView, reason: StopReasonView)
    requires
        !recorder.finished,
        !recorder.input_receipt,
    ensures
        ({
            let step = recorder.observed(store, AcpEventView::Finished(reason));
            let draft = DraftView {
                id: record_id(recorder.spec.id, recorder.records.len()),
                session_id: recorder.spec.session_id,
                run_id: Some(recorder.spec.id),
                actor: recorder.actors.agent,
                reply_to_id: None,
                source: None,
                payload: PayloadView::RunFinished { reason: reason.portable() },
                state: RecordState::Complete,
            };
            &&& store.inserted(draft) matches Err(e) ==> step.error == Some(
                RecordingErrorView::Store(e),
            ) && step.store == store
            &&& step.error is None ==> store.inserted(draft) is Ok && step.recorder.finished
                && step.recorder.records.len() == recorder.records.len() + 1
                && step.recorder.records.last().payload == draft.payload
        }),
{
    let apart = RecorderView { anonymous: None, ..recorder };
    let finished = apart.inserted(
        store,
        PayloadView::RunFinished { reason: reason.portable() },
        apart.actors.agent,
        None,
        None,
        RecordState::Complete,
    );
    if finished.error is None {
        sealing_stores_what_is_known(
            finished.recorder,
            finished.store,
            0,
            reason is EndTurn || reason is Refusal,
        );
    }
}

/// The state in which a record of a run that is over is left: a call is complete if it
/// completed or failed, a request never is, and anything else is complete if the run came
/// to its own end.
pub open spec fn left_in(payload: PayloadView, ended: bool, state: RecordState) -> bool {
    match payload {
        PayloadView::Tool(activity) => if activity.status == ToolStatus::Completed
            || activity.status == ToolStatus::Failed {
            state == RecordState::Complete
        } else {
            state == RecordState::Interrupted
        },
        PayloadView::Permission { .. } => state == RecordState::Interrupted,
        _ => if ended {
            state == RecordState::Complete
        } else {
            state == RecordState::Interrupted
        },
    }
}

proof fn sealing_stores_what_is_known(
    recorder: RecorderView,
    store: StoreView,
    i: nat,
    ended: bool,
)
    ensures
        ({
            let step = recorder.sealed_from(store, i, ended);
            &&& step.recorder.records.len() == recorder.records.len()
            &&& forall|j: int|
                0 <= j < recorder.records.len() ==> (#[trigger] step.recorder.records[j]).payload
                    == recorder.records[j].payload
            &&& forall|j: int|
                0 <= j < i && j < recorder.records.len() ==> #[trigger] step.recorder.records[j]
                    == recorder.records[j]
            &&& step.error is None ==> step.recorder.finished && forall|j: int|
                i <= j < recorder.records.len() ==> {
                    let after = #[trigger] step.recorder.records[j];
                    if recorder.records[j].stored.state == RecordState::Open {
                        &&& after.stored.record.payload == recorder.records[j].payload
                        &&& left_in(recorder.records[j].payload, ended, after.stored.state)
                    } else {
                        after.stored == recorder.records[j].stored
                    }
                }
        }),
    decreases recorder.records.len() - i,
{
    if i < recorder.records.len() {
        let working = recorder.records[i as int];
        if working.stored.state.finished() {
            sealing_stores_what_is_known(recorder, store, i + 1, ended);
        } else {
            match store.checkpointed(
                working.stored.record.id,
                working.stored.revision,
                working.payload,
                crate::acp::recording::sealed_state(working.payload, ended),
            ) {
                Err(_) => {},
                Ok((stored, after)) => {
                    let next = RecorderView {
                        records: recorder.records.update(
                            i as int,
                            WorkingView { stored, dirty: false, ..working },
                        ),
                        ..recorder
                    };
                    sealing_stores_what_is_known(next, after, i + 1, ended);
                    assert(recorder.sealed_from(store, i, ended).recorder == next.sealed_from(
                        after,
                        i + 1,
                        ended,
                    ).recorder);
                },
            }
        }
    }
}

/// What was known of an open record when its run came to an end is what is stored of it: a
/// call is complete if it completed or failed and interrupted otherwise, a request is
/// interrupted, and a message is complete if the agent ended its turn or refused, and
/// interrupted if it ran out of tokens or steps, was cancelled or stopped otherwise. What
/// was final stays as it was.
pub proof fn ended_runs_are_stored_as_known(
    recorder: RecorderView,
    store: StoreView,
    reason: StopReasonView,
)
    requires
        !recorder.finished,
    ensures
        ({
            let step = recorder.observed(store, AcpEventView::Finished(reason));
            let ended = reason == StopReasonView::EndTurn || reason == StopReasonView::Refusal;
            step.error is None ==> forall|j: int|
                0 <= j < recorder.records.len() ==> {
                    let after = #[trigger] step.recorder.records[j];
                    if recorder.records[j].stored.state == RecordState::Open {
                        &&& after.stored.record.payload == recorder.records[j].payload
                        &&& left_in(recorder.records[j].payload, ended, after.stored.state)
                    } else {
                        after.stored == recorder.records[j].stored
                    }
                }
        }),
{
    let apart = RecorderView { anonymous: None, ..recorder };
    let noted = apart.evidenced(
        store,
        "input_receipt"@,
        JsonView::Object(
            apart.stage("response_received"@).insert("stop_reason"@, JsonView::Text(reason.wire())),
        ),
    );
    let received = if apart.input_receipt {
        RecorderView { input_response: true, ..noted.recorder }
    } else {
        apart
    };
    let held = if apart.input_receipt {
        noted.store
    } else {
        store
    };
    let finished = received.inserted(
        held,
        PayloadView::RunFinished { reason: reason.portable() },
        apart.actors.agent,
        None,
        None,
        RecordState::Complete,
    );
    sealing_stores_what_is_known(
        finished.recorder,
        finished.store,
        0,
        reason is EndTurn || reason is Refusal,
    );
    let step = recorder.observed(store, AcpEventView::Finished(reason));
    if step.error is None {
        assert(forall|j: int|
            0 <= j < recorder.records.len() ==> #[trigger] finished.recorder.records[j]
                == recorder.records[j]);
        assert(step.recorder == finished.recorder.sealed_from(
            finished.store,
            0,
            reason is EndTurn || reason is Refusal,
        ).recorder);
    }
}

/// A run that is broken off is stored with the failure, by the host, and as known until
/// then: nothing is complete but the calls that completed or failed.
pub proof fn broken_runs_are_stored_as_known(
    recorder: RecorderView,
    store: StoreView,
    message: Seq<char>,
)
    requires
        !recorder.finished,
    ensures
        ({
            let step = recorder.interrupted(store, message);
            step.error is None ==> {
                &&& step.recorder.finished
                &&& step.recorder.records.last().payload == (PayloadView::Failure { message })
                &&& step.recorder.records.len() > recorder.records.len()
                &&& forall|j: int|
                    0 <= j < recorder.records.len() ==> {
                        let after = #[trigger] step.recorder.records[j];
                        if recorder.records[j].stored.state == RecordState::Open {
                            &&& after.stored.record.payload == recorder.records[j].payload
                            &&& left_in(recorder.records[j].payload, false, after.stored.state)
                        } else {
                            after.stored == recorder.records[j].stored
                        }
                    }
            }
        }),
        recorder.input_receipt && !recorder.input_response ==> ({
            let step = recorder.interrupted(store, message);
            let draft = DraftView {
                id: record_id(recorder.spec.id, recorder.records.len()),
                session_id: recorder.spec.session_id,
                run_id: Some(recorder.spec.id),
                actor: recorder.actors.host,
                reply_to_id: None,
                source: None,
                payload: PayloadView::Extension {
                    namespace: "agent_bridge"@,
                    name: "input_receipt"@,
                    data: JsonView::Object(
                        map![
                            "version"@ => JsonView::Number(
                                JsonNumber::PosInt(recorder.input_version),
                            ),
                            "state"@ => JsonView::Text("unknown"@),
                        ],
                    ),
                },
                state: RecordState::Complete,
            };
            step.error is None ==> store.inserted(draft) is Ok
        }),
        !(recorder.input_receipt && !recorder.input_response) ==> ({
            let step = recorder.interrupted(store, message);
            let draft = DraftView {
                id: record_id(recorder.spec.id, recorder.records.len()),
                session_id: recorder.spec.session_id,
                run_id: Some(recorder.spec.id),
                actor: recorder.actors.host,
                reply_to_id: None,
                source: None,
                payload: PayloadView::Failure { message },
                state: RecordState::Complete,
            };
            &&& step.error is None ==> store.inserted(draft) is Ok
            &&& store.inserted(draft) matches Err(e) ==> step.error == Some(
                RecordingErrorView::Store(e),
            ) && step.store == store
        }),
{
    let unknown = if recorder.input_receipt && !recorder.input_response {
        recorder.evidenced(store, "input_receipt"@, JsonView::Object(recorder.stage("unknown"@)))
    } else {
        recorder.done(store)
    };
    let failure = unknown.recorder.inserted(
        unknown.store,
        PayloadView::Failure { message },
        recorder.actors.host,
        None,
        None,
        RecordState::Complete,
    );
    sealing_stores_what_is_known(failure.recorder, failure.store, 0, false);
    let step = recorder.interrupted(store, message);
    if step.error is None {
        assert(forall|j: int|
            0 <= j < recorder.records.len() ==> #[trigger] failure.recorder.records[j]
                == recorder.records[j]);
        assert(step.recorder == failure.recorder.sealed_from(
            failure.store,
            0,
            false,
        ).recorder);
    }
}

/// A request is stored open, by the agent and in reply to the record of its call, with the
/// options that it came with and under the title of the call, if the request gives one.
pub proof fn requests_are_stored_as_asked(
    recorder: RecorderView,
    store: StoreView,
    id: PermissionIdView,
    request: PermissionRequestView,
)
    requires
        calls_told(recorder),
        recorder.records.len() + 1 < usize::MAX,
    ensures
        ({
            let step = recorder.observed(store, AcpEventView::Permission { id, request });
            step.error is None ==> {
                let index = step.recorder.permissions[id] as int;
                let call = step.recorder.tools[request.tool.id].index as int;
                let asked = step.recorder.records[index];
                &&& step.recorder.permissions.contains_key(id)
                &&& index == step.recorder.records.len() - 1
                &&& 0 <= call < index
                &&& asked.payload matches PayloadView::Permission { title, options } && options
                    == request.options && match request.tool.title {
                    Some(given) => title == given,
                    None => title == "Tool permission"@,
                }
                &&& step.recorder.records[call].payload is Tool
                &&& step.recorder.tools.contains_key(request.tool.id)
                &&& exists|middle: StoreView|
                    #[trigger] middle.inserted(
                        DraftView {
                            id: record_id(recorder.spec.id, index as nat),
                            session_id: recorder.spec.session_id,
                            run_id: Some(recorder.spec.id),
                            actor: recorder.actors.agent,
                            reply_to_id: Some(step.recorder.records[call].stored.record.id),
                            source: None,
                            payload: asked.payload,
                            state: RecordState::Open,
                        },
                    ) == Ok::<(SnapshotView, StoreView), StoreErrorView>((asked.stored, step.store))
                &&& step.recorder.permissions == recorder.permissions.insert(id, index as usize)
            }
        }),
{
    if !recorder.finished {
        setting_apart_keeps_calls(recorder);
        let apart = RecorderView { anonymous: None, ..recorder };
        merged_calls_keep_their_id(apart, request.tool);
        calls_are_taken_up(apart, store, apart.merged(request.tool));
        requests_take_up_their_call(apart, store, id, request);
        let known = apart.tool_observed(store, apart.merged(request.tool));
        let step = recorder.observed(store, AcpEventView::Permission { id, request });
        if step.error is None {
            let index = known.recorder.records.len() as int;
            let call = known.recorder.tools[request.tool.id].index as int;
            let asked = step.recorder.records[index];
            assert(step.recorder.records[call] == known.recorder.records[call]);
            assert(known.recorder.spec == recorder.spec);
            assert(known.store.inserted(
                DraftView {
                    id: record_id(recorder.spec.id, index as nat),
                    session_id: recorder.spec.session_id,
                    run_id: Some(recorder.spec.id),
                    actor: recorder.actors.agent,
                    reply_to_id: Some(step.recorder.records[call].stored.record.id),
                    source: None,
                    payload: asked.payload,
                    state: RecordState::Open,
                },
            ) == Ok::<(SnapshotView, StoreView), StoreErrorView>((asked.stored, step.store)));
        }
    }
}

/// A decision is stored by the host in reply to its request, with what was chosen and how
/// it was delivered. One on a request that is not known is refused.
pub proof fn decisions_are_stored_as_made(
    recorder: RecorderView,
    store: StoreView,
    id: PermissionIdView,
    outcome: PermissionOutcomeView,
    delivery: DecisionDelivery,
)
    requires
        recorder.indexed(),
        !recorder.finished,
    ensures
        ({
            let step = recorder.observed(
                store,
                AcpEventView::PermissionResolved { id, outcome, delivery },
            );
            let request = recorder.records[recorder.permissions[id] as int].stored;
            let draft = DraftView {
                id: record_id(recorder.spec.id, recorder.records.len()),
                session_id: recorder.spec.session_id,
                run_id: Some(recorder.spec.id),
                actor: recorder.actors.host,
                reply_to_id: Some(request.record.id),
                source: None,
                payload: PayloadView::Decision { outcome, delivery },
                state: RecordState::Complete,
            };
            let resolved = store.resolved(request.record.id, request.revision, draft);
            &&& !recorder.permissions.contains_key(id) ==> step.error == Some(
                RecordingErrorView::MissingPermission,
            ) && step.store == store
            &&& recorder.permissions.contains_key(id) ==> {
                &&& resolved matches Err(e) ==> step.error == Some(RecordingErrorView::Store(e))
                    && step.store == store
                &&& resolved matches Ok((_, after)) ==> step.store == after
                &&& step.error is None ==> resolved is Ok && step.recorder.records.len()
                    == recorder.records.len() + 1 && step.recorder.records.last().payload
                    == draft.payload
            }
        }),
{
}

/// A recording begins with what the user asked, complete and by the user. A run that was
/// recorded before is refused.
pub proof fn recordings_begin_with_the_request(
    store: StoreView,
    spec: Assignment,
    input: Seq<char>,
    actors: RecordActorsView,
)
    ensures
        ({
            let step = recording_started(store, spec, input, actors);
            let open = store.session_created(spec.session_id);
            &&& step.error is None ==> {
                &&& step.recorder.records.len() == 1
                &&& step.recorder.records[0].payload == (PayloadView::Message {
                    kind: MessageKind::User,
                    message: MessageView { content: seq![ContentView::Text(input)] },
                })
                &&& !step.recorder.finished
                &&& step.recorder.spec == spec
                &&& step.recorder.actors == actors
                &&& step.recorder.apart()
                &&& step.recorder.tools == Map::<Seq<char>, ToolEntryView>::empty()
                &&& step.store.runs.contains_key(spec.id) && step.store.runs[spec.id] == spec
            }
            &&& open.runs.contains_key(spec.id) && open.runs[spec.id] == spec ==> step.error
                == Some(RecordingErrorView::RunAlreadyRecorded) && step.store == open
            &&& open.run_registered(spec) matches Err(e) ==> step.error == Some(
                RecordingErrorView::Store(e),
            ) && step.store == open
            &&& open.run_registered(spec) matches Ok((true, registered)) ==> {
                let draft = DraftView {
                    id: record_id(spec.id, 0),
                    session_id: spec.session_id,
                    run_id: Some(spec.id),
                    actor: actors.user,
                    reply_to_id: None,
                    source: None,
                    payload: PayloadView::Message {
                        kind: MessageKind::User,
                        message: MessageView { content: seq![ContentView::Text(input)] },
                    },
                    state: RecordState::Complete,
                };
                &&& registered.inserted(draft) matches Ok((_, after)) ==> step.error is None
                    && step.store == after
                &&& registered.inserted(draft) matches Err(e) ==> step.error == Some(
                    RecordingErrorView::Store(e),
                )
            }
        }),
{
}

/// What can be told of a configuration is told by kind: a choice by its name, a switch by
/// its setting. Nothing is told of a configuration that cannot be used.
pub proof fn settings_are_told_by_kind(values: Map<Seq<char>, ConfigValueView>, name: Seq<char>)
    ensures
        values_json(None) == JsonView::Null,
        values_json(Some(values)) matches JsonView::Object(told) && {
            &&& told.contains_key(name) <==> values.contains_key(name)
            &&& values.contains_key(name) ==> (values[name] matches ConfigValueView::Select(chosen)
                ==> told[name] == JsonView::Object(
                map![
                    "type"@ => JsonView::Text("select"@),
                    "value"@ => JsonView::Text(chosen),
                ],
            ))
            &&& values.contains_key(name) ==> (values[name] matches ConfigValueView::Boolean(set)
                ==> told[name] == JsonView::Object(
                map!["type"@ => JsonView::Text("boolean"@), "value"@ => JsonView::Bool(set)],
            ))
        },
{
}

/// A configuration that the agent reports is recorded by the agent unless it is the one
/// that was recorded last.
pub proof fn changed_configurations_are_recorded(
    recorder: RecorderView,
    store: StoreView,
    options: Seq<NativeOptionView>,
)
    requires
        !recorder.finished,
    ensures
        ({
            let step = recorder.observed(store, AcpEventView::Configuration(options));
            let report = if valid_catalog(options) {
                Some(reported_values(normalized_catalog(options)))
            } else {
                None
            };
            let draft = DraftView {
                id: record_id(recorder.spec.id, recorder.records.len()),
                session_id: recorder.spec.session_id,
                run_id: Some(recorder.spec.id),
                actor: recorder.actors.agent,
                reply_to_id: None,
                source: None,
                payload: PayloadView::Extension {
                    namespace: "agent_bridge"@,
                    name: "configuration_report"@,
                    data: JsonView::Object(map!["confirmed"@ => values_json(report)]),
                },
                state: RecordState::Complete,
            };
            &&& report == recorder.last_configuration ==> step.error is None && step.store == store
                && step.recorder.records == recorder.records
            &&& report != recorder.last_configuration ==> {
                &&& store.inserted(draft) matches Ok((_, after)) ==> step.error is None
                    && step.store == after && step.recorder.last_configuration == report
                &&& store.inserted(draft) matches Err(e) ==> step.error == Some(
                    RecordingErrorView::Store(e),
                )
            }
        }),
{
}

/// Text without a message id is open for text of its own kind without an id and for nothing
/// else. Text with an id is open under its kind and id, and closes what had none, as does
/// anything that is no text. A message with an id stays open.
pub proof fn texts_stay_open_for_their_own(
    recorder: RecorderView,
    store: StoreView,
    chunk: MessageChunkView,
    kind: MessageKind,
    id: Seq<char>,
)
    requires
        !recorder.finished,
        recorder.records.len() < usize::MAX,
    ensures
        ({
            let step = recorder.observed(store, AcpEventView::AgentMessage(chunk));
            step.error is None ==> left_open(
                recorder,
                step.recorder,
                chunk,
                MessageKind::Agent,
                kind,
                id,
            )
        }),
        ({
            let step = recorder.observed(store, AcpEventView::AgentThought(chunk));
            step.error is None ==> left_open(
                recorder,
                step.recorder,
                chunk,
                MessageKind::Reasoning,
                kind,
                id,
            )
        }),
{
    chunks_are_left_open(recorder, store, chunk, MessageKind::Agent, kind, id);
    chunks_are_left_open(recorder, store, chunk, MessageKind::Reasoning, kind, id);
}

/// What is open after a chunk of its own kind.
pub open spec fn left_open(
    before: RecorderView,
    after: RecorderView,
    chunk: MessageChunkView,
    own: MessageKind,
    kind: MessageKind,
    id: Seq<char>,
) -> bool {
    let plain = chunk.content is Text && chunk.message_id is None;
    &&& after.open_message(kind, None) is Some <==> (plain && kind == own)
    &&& chunk.content is Text ==> after.open_message(own, chunk.message_id) is Some
    &&& before.open_message(kind, Some(id)) is Some ==> after.open_message(kind, Some(id))
        == before.open_message(kind, Some(id))
    &&& after.open_message(kind, Some(id)) is Some && before.open_message(kind, Some(id)) is None
        ==> kind == own && chunk.message_id == Some(id)
}

proof fn chunks_are_left_open(
    recorder: RecorderView,
    store: StoreView,
    chunk: MessageChunkView,
    own: MessageKind,
    kind: MessageKind,
    id: Seq<char>,
)
    requires
        recorder.records.len() < usize::MAX,
    ensures
        ({
            let step = recorder.chunk_observed(store, own, chunk);
            step.error is None ==> left_open(recorder, step.recorder, chunk, own, kind, id)
        }),
{
}

/// After anything else that happens in a run, text without an id begins a new message, and
/// messages with an id stay open.
pub proof fn anything_else_closes_messages_without_an_id(
    recorder: RecorderView,
    store: StoreView,
    event: AcpEventView,
    kind: MessageKind,
)
    requires
        !recorder.finished,
        recorder.records.len() + 2 < usize::MAX,
        !(event is AgentMessage),
        !(event is AgentThought),
        !(event is Finished),
    ensures
        ({
            let step = recorder.observed(store, event);
            step.error is None ==> step.recorder.open_message(kind, None) is None
                && step.recorder.messages == recorder.messages
        }),
{
    let apart = RecorderView { anonymous: None, ..recorder };
    match event {
        AcpEventView::Tool(call) => calls_close_messages(apart, store, call),
        AcpEventView::ToolUpdate(update) => calls_close_messages(
            apart,
            store,
            apart.merged(update),
        ),
        AcpEventView::Permission { request, .. } => calls_close_messages(
            apart,
            store,
            apart.merged(request.tool),
        ),
        _ => {},
    }
}

proof fn calls_close_messages(recorder: RecorderView, store: StoreView, call: NativeToolView)
    ensures
        recorder.tool_observed(store, call).recorder.anonymous == recorder.anonymous,
        recorder.tool_observed(store, call).recorder.messages == recorder.messages,
{
}

/// A checkpoint stores what is known of every open record that changed since the last one,
/// and leaves it open.
pub proof fn checkpoints_store_what_is_known(recorder: RecorderView, store: StoreView, i: nat)
    ensures
        ({
            let step = recorder.saved_from(store, i);
            &&& step.recorder.records.len() == recorder.records.len()
            &&& step.recorder.finished == recorder.finished
            &&& step.recorder.tools == recorder.tools
            &&& step.recorder.messages == recorder.messages
            &&& forall|j: int|
                0 <= j < recorder.records.len() ==> (#[trigger] step.recorder.records[j]).payload
                    == recorder.records[j].payload
            &&& forall|j: int|
                0 <= j < i && j < recorder.records.len() ==> #[trigger] step.recorder.records[j]
                    == recorder.records[j]
            &&& step.error is None ==> forall|j: int|
                i <= j < recorder.records.len() ==> {
                    let after = #[trigger] step.recorder.records[j];
                    if recorder.records[j].dirty && recorder.records[j].stored.state
                        == RecordState::Open {
                        &&& after.stored.record.payload == recorder.records[j].payload
                        &&& after.stored.state == RecordState::Open
                        &&& !after.dirty
                    } else {
                        after == recorder.records[j]
                    }
                }
        }),
    decreases recorder.records.len() - i,
{
    if i < recorder.records.len() {
        let working = recorder.records[i as int];
        if !working.dirty || working.stored.state.finished() {
            checkpoints_store_what_is_known(recorder, store, i + 1);
        } else {
            match store.checkpointed(
                working.stored.record.id,
                working.stored.revision,
                working.payload,
                RecordState::Open,
            ) {
                Err(_) => {},
                Ok((stored, after)) => {
                    let next = RecorderView {
                        records: recorder.records.update(
                            i as int,
                            WorkingView { stored, dirty: false, ..working },
                        ),
                        ..recorder
                    };
                    checkpoints_store_what_is_known(next, after, i + 1);
                    assert(recorder.saved_from(store, i).recorder == next.saved_from(
                        after,
                        i + 1,
                    ).recorder);
                },
            }
        }
    }
}

/// The end of a run whose input is on record is recorded as the response to it first, by the
/// host and with the reason in the agent's own word, and then as the end of the run.
pub proof fn responses_are_recorded_before_the_end(
    recorder: RecorderView,
    store: StoreView,
    reason: StopReasonView,
)
    requires
        !recorder.finished,
        recorder.input_receipt,
    ensures
        ({
            let step = recorder.observed(store, AcpEventView::Finished(reason));
            let draft = DraftView {
                id: record_id(recorder.spec.id, recorder.records.len()),
                session_id: recorder.spec.session_id,
                run_id: Some(recorder.spec.id),
                actor: recorder.actors.host,
                reply_to_id: None,
                source: None,
                payload: PayloadView::Extension {
                    namespace: "agent_bridge"@,
                    name: "input_receipt"@,
                    data: JsonView::Object(
                        map![
                            "version"@ => JsonView::Number(
                                JsonNumber::PosInt(recorder.input_version),
                            ),
                            "state"@ => JsonView::Text("response_received"@),
                            "stop_reason"@ => JsonView::Text(reason.wire()),
                        ],
                    ),
                },
                state: RecordState::Complete,
            };
            &&& store.inserted(draft) matches Err(e) ==> step.error == Some(
                RecordingErrorView::Store(e),
            ) && step.store == store
            &&& step.error is None ==> {
                let n = recorder.records.len() as int;
                &&& store.inserted(draft) is Ok
                &&& step.recorder.finished
                &&& step.recorder.input_response
                &&& step.recorder.records.len() == n + 2
                &&& step.recorder.records[n].payload == draft.payload
                &&& step.recorder.records[n + 1].payload == (PayloadView::RunFinished {
                    reason: reason.portable(),
                })
            }
        }),
{
    let apart = RecorderView { anonymous: None, ..recorder };
    let noted = apart.evidenced(
        store,
        "input_receipt"@,
        JsonView::Object(
            apart.stage("response_received"@).insert("stop_reason"@, JsonView::Text(reason.wire())),
        ),
    );
    let received = RecorderView { input_response: true, ..noted.recorder };
    let finished = received.inserted(
        noted.store,
        PayloadView::RunFinished { reason: reason.portable() },
        apart.actors.agent,
        None,
        None,
        RecordState::Complete,
    );
    sealing_stores_what_is_known(
        finished.recorder,
        finished.store,
        0,
        reason is EndTurn || reason is Refusal,
    );
    sealing_keeps_the_rest(
        finished.recorder,
        finished.store,
        0,
        reason is EndTurn || reason is Refusal,
    );
}

proof fn sealing_keeps_the_rest(recorder: RecorderView, store: StoreView, i: nat, ended: bool)
    ensures
        recorder.sealed_from(store, i, ended).recorder.input_response == recorder.input_response,
    decreases recorder.records.len() - i,
{
    if i < recorder.records.len() {
        let working = recorder.records[i as int];
        if working.stored.state.finished() {
            sealing_keeps_the_rest(recorder, store, i + 1, ended);
        } else {
            match store.checkpointed(
                working.stored.record.id,
                working.stored.revision,
                working.payload,
                crate::acp::recording::sealed_state(working.payload, ended),
            ) {
                Err(_) => {},
                Ok((stored, after)) => {
                    let next = RecorderView {
                        records: recorder.records.update(
                            i as int,
                            WorkingView { stored, dirty: false, ..working },
                        ),
                        ..recorder
                    };
                    sealing_keeps_the_rest(next, after, i + 1, ended);
                },
            }
        }
    }
}

/// What changed of a record is marked, so that the next checkpoint stores it.
pub proof fn changes_are_marked(
    recorder: RecorderView,
    store: StoreView,
    call: NativeToolView,
    chunk: MessageChunkView,
)
    requires
        recorder.indexed(),
        !recorder.finished,
        chunk.content is Text,
    ensures
        recorder.tools.contains_key(call.id) ==> recorder.observed(
            store,
            AcpEventView::Tool(call),
        ).recorder.records[recorder.tools[call.id].index as int].dirty,
        recorder.open_message(MessageKind::Agent, chunk.message_id) matches Some(index)
            ==> recorder.observed(
            store,
            AcpEventView::AgentMessage(chunk),
        ).recorder.records[index as int].dirty,
        recorder.open_message(MessageKind::Reasoning, chunk.message_id) matches Some(index)
            ==> recorder.observed(
            store,
            AcpEventView::AgentThought(chunk),
        ).recorder.records[index as int].dirty,
{
    if chunk.message_id is Some {
        let id = chunk.message_id->0;
        let a = MessageKeyView { kind: MessageKind::Agent, id };
        let b = MessageKeyView { kind: MessageKind::Reasoning, id };
        assert(recorder.messages.contains_key(a) ==> recorder.messages[a] < recorder.records.len());
        assert(recorder.messages.contains_key(b) ==> recorder.messages[b] < recorder.records.len());
    }
}

} // verus!
