//! What holds of every prompt that carries a context.

use crate::acp::context::{
    content_text, context_objection, envelope, instruction_text, joined, prepared_receipt,
    record_text, records_objection, reference_text, resource_text, resources_objection, speaker,
    text_media,
};
use crate::context::{PreparedContextView, PreparedInstructionView, ResourceView};
use crate::json::{JsonNumber, JsonView};
use crate::model::{ContentView, ResourceRefView};
use crate::records::{MessageKind, PayloadView, RecordState, SnapshotView};
use crate::text::{decimal, first_index, json_quoted, white_space};
use vstd::prelude::*;
use vstd::utf8::{decode_utf8, encode_utf8, valid_utf8};

verus! {

/// The text names a resource by its id and revision.
pub open spec fn names_resource(text: Seq<char>, reference: ResourceRefView) -> bool {
    text == "{\"id\":"@ + json_quoted(reference.id) + ",\"revision\":"@ + json_quoted(
        reference.revision,
    ) + "}"@
}

/// The text gives a part of a message: what it says, or the resource that it names.
pub open spec fn gives_part(text: Seq<char>, part: ContentView) -> bool {
    match part {
        ContentView::Text(said) => text == "{\"text\":"@ + json_quoted(said) + "}"@,
        ContentView::Resource(reference) => exists|name: Seq<char>| #[trigger]
            names_resource(name, reference) && text == "{\"resource\":"@ + name + "}"@,
    }
}

/// The text gives a record as a message of a role, with its parts in order.
pub open spec fn gives_message(
    text: Seq<char>,
    snapshot: SnapshotView,
    content: Seq<ContentView>,
    role: Seq<char>,
    parts: Seq<Seq<char>>,
) -> bool {
    &&& parts.len() == content.len()
    &&& forall|j: int| 0 <= j < content.len() ==> gives_part(#[trigger] parts[j], content[j])
    &&& text == "{\"id\":"@ + json_quoted(snapshot.record.id) + ",\"revision\":"@ + decimal(
        snapshot.revision as nat,
    ) + ",\"actor\":"@ + json_quoted(snapshot.record.actor) + ",\"kind\":\""@ + role
        + "\",\"state\":\""@ + match snapshot.state {
        RecordState::Open => "open"@,
        RecordState::Complete => "complete"@,
        RecordState::Interrupted => "interrupted"@,
    } + "\",\"content\":"@ + ("["@ + joined(parts) + "]"@) + "}"@
}

/// The text gives a record as a message of a role.
pub open spec fn gives_role(text: Seq<char>, snapshot: SnapshotView, role: Seq<char>) -> bool {
    snapshot.record.payload matches PayloadView::Message { message, .. } && exists|
        parts: Seq<Seq<char>>,
    | #[trigger]
        gives_message(text, snapshot, message.content, role, parts)
}

/// A list is written with commas between its items and nowhere else.
pub proof fn lists_are_separated_by_commas(items: Seq<Seq<char>>, item: Seq<char>)
    ensures
        joined(Seq::empty()) == Seq::<char>::empty(),
        joined(seq![item]) == item,
        items.len() > 0 ==> joined(items.push(item)) == joined(items) + ","@ + item,
{
    if items.len() > 0 {
        assert(items.push(item).drop_last() =~= items);
    }
}

proof fn records_are_given_in_their_role(snapshot: SnapshotView)
    requires
        snapshot.record.payload is Message,
    ensures
        gives_role(record_text(snapshot), snapshot, speaker(snapshot.record.payload->kind)),
{
    let content = snapshot.record.payload->Message_message.content;
    let parts = content.map_values(|part: ContentView| content_text(part));
    assert forall|j: int| 0 <= j < content.len() implies gives_part(
        #[trigger] parts[j],
        content[j],
    ) by {
        if content[j] is Resource {
            let reference = content[j]->Resource_0;
            assert(names_resource(reference_text(reference), reference));
        }
    }
    assert(gives_message(
        record_text(snapshot),
        snapshot,
        content,
        speaker(snapshot.record.payload->kind),
        parts,
    ));
}

/// Each entry gives a message in the role that is written out for its kind: `user` for a
/// message of the user, `agent` for one of the agent, `reasoning` for reasoning.
pub open spec fn gives_history(entries: Seq<Seq<char>>, records: Seq<SnapshotView>) -> bool {
    &&& entries.len() == records.len()
    &&& forall|i: int|
        0 <= i < records.len() ==> {
            let record = #[trigger] records[i];
            record.record.payload matches PayloadView::Message { kind, .. } ==> {
                &&& kind == MessageKind::User ==> gives_role(entries[i], record, "user"@)
                &&& kind == MessageKind::Agent ==> gives_role(entries[i], record, "agent"@)
                &&& kind == MessageKind::Reasoning ==> gives_role(entries[i], record, "reasoning"@)
            }
        }
}

/// The text names an instruction as text that only supplements.
pub open spec fn gives_instruction(text: Seq<char>, instruction: PreparedInstructionView) -> bool {
    exists|name: Seq<char>| #[trigger]
        names_resource(name, instruction.reference.resource) && text == "{\"resource\":"@ + name
            + ",\"role\":\"supplemental_user_text\"}"@
}

/// The text gives a resource with its type and its contents as text.
pub open spec fn gives_resource(text: Seq<char>, resource: ResourceView) -> bool {
    exists|name: Seq<char>| #[trigger]
        names_resource(name, resource.reference) && text == "{\"reference\":"@ + name
            + ",\"media_type\":"@ + json_quoted(resource.media_type) + ",\"text\":"@ + json_quoted(
            decode_utf8(resource.bytes),
        ) + "}"@
}

/// The text gives, in this order: the history, the instructions, the resources and the
/// task.
pub open spec fn gives_context(
    text: Seq<char>,
    context: PreparedContextView,
    prompt: Seq<char>,
    history: Seq<Seq<char>>,
    instructions: Seq<Seq<char>>,
    resources: Seq<Seq<char>>,
) -> bool {
    &&& gives_history(history, context.records)
    &&& instructions.len() == context.instructions.len()
    &&& forall|i: int|
        0 <= i < context.instructions.len() ==> gives_instruction(
            #[trigger] instructions[i],
            context.instructions[i],
        )
    &&& resources.len() == context.resources.len()
    &&& forall|i: int|
        0 <= i < context.resources.len() ==> gives_resource(
            #[trigger] resources[i],
            context.resources[i],
        )
    &&& text
        == "{\"encoding\":\"agent_bridge.text_context.v1\",\"context_mode\":\"append_to_native\",\"history\":"@
        + ("["@ + joined(history) + "]"@) + ",\"supplemental_instructions\":"@ + ("["@ + joined(
        instructions,
    ) + "]"@) + ",\"resources\":"@ + ("["@ + joined(resources) + "]"@) + ",\"task\":"@ + json_quoted(
        prompt,
    ) + "}"@
}

proof fn histories_are_given(records: Seq<SnapshotView>)
    ensures
        gives_history(records.map_values(|record: SnapshotView| record_text(record)), records),
{
    let history = records.map_values(|record: SnapshotView| record_text(record));
    assert forall|i: int|
        0 <= i < records.len() && (
        #[trigger] records[i]).record.payload is Message implies gives_role(
        history[i],
        records[i],
        speaker(records[i].record.payload->kind),
    ) by {
        records_are_given_in_their_role(records[i]);
    }
}

proof fn instructions_are_given(instruction: PreparedInstructionView)
    ensures
        gives_instruction(instruction_text(instruction), instruction),
{
    let reference = instruction.reference.resource;
    assert(names_resource(reference_text(reference), reference));
}

proof fn resources_are_given(resource: ResourceView)
    ensures
        gives_resource(resource_text(resource), resource),
{
    assert(names_resource(reference_text(resource.reference), resource.reference));
}

/// The text that is sent gives, in this order: the records of the history, each as one
/// entry in which the role is written out, `user` for a message of the user, `agent` for a
/// message of the agent and `reasoning` for reasoning; the instructions, each as text that
/// only supplements; the resources with their types and texts; and the task.
pub proof fn roles_are_written_out(context: PreparedContextView, prompt: Seq<char>)
    ensures
        exists|
            history: Seq<Seq<char>>,
            instructions: Seq<Seq<char>>,
            resources: Seq<Seq<char>>,
        | #[trigger]
            gives_context(
                envelope(context, prompt),
                context,
                prompt,
                history,
                instructions,
                resources,
            ),
{
    let history = context.records.map_values(|record: SnapshotView| record_text(record));
    let instructions = context.instructions.map_values(
        |instruction: PreparedInstructionView| instruction_text(instruction),
    );
    let resources = context.resources.map_values(|resource: ResourceView| resource_text(resource));
    histories_are_given(context.records);
    assert forall|i: int| 0 <= i < context.instructions.len() implies gives_instruction(
        #[trigger] instructions[i],
        context.instructions[i],
    ) by {
        instructions_are_given(context.instructions[i]);
    }
    assert forall|i: int| 0 <= i < context.resources.len() implies gives_resource(
        #[trigger] resources[i],
        context.resources[i],
    ) by {
        resources_are_given(context.resources[i]);
    }
    assert(gives_context(
        envelope(context, prompt),
        context,
        prompt,
        history,
        instructions,
        resources,
    ));
}

/// A context can be delivered exactly when no instruction is to replace the agent's own,
/// every record is a message of the user or of the agent, every resource is plain text or
/// Markdown in UTF-8, and the text that would be sent has no more bytes than allowed.
pub proof fn deliverable_contexts_are_told_by_their_parts(
    context: PreparedContextView,
    prompt: Seq<char>,
    max_bytes: usize,
)
    ensures
        context_objection(context, prompt, max_bytes) is None <==> {
            &&& forall|i: int|
                0 <= i < context.instructions.len() ==> !((
                #[trigger] context.instructions[i]).reference.role is Base)
            &&& forall|i: int|
                0 <= i < context.records.len() ==> ((
                #[trigger] context.records[i]).record.payload matches PayloadView::Message {
                    kind,
                    ..
                } && (kind == MessageKind::User || kind == MessageKind::Agent))
            &&& forall|i: int|
                0 <= i < context.resources.len() ==> text_media(
                    (#[trigger] context.resources[i]).media_type,
                ) && valid_utf8(context.resources[i].bytes)
            &&& encode_utf8(envelope(context, prompt)).len() <= max_bytes
        },
{
    records_are_deliverable_one_by_one(context.records);
    resources_are_deliverable_one_by_one(context.resources);
}

proof fn records_are_deliverable_one_by_one(records: Seq<SnapshotView>)
    ensures
        records_objection(records) is None <==> forall|i: int|
            0 <= i < records.len() ==> ((
            #[trigger] records[i]).record.payload matches PayloadView::Message { kind, .. } && (kind
                == MessageKind::User || kind == MessageKind::Agent)),
    decreases records.len(),
{
    if records.len() > 0 {
        let rest = records.skip(1);
        records_are_deliverable_one_by_one(rest);
        assert forall|i: int| 1 <= i < records.len() implies #[trigger] records[i] == rest[i - 1] by {}
        assert forall|i: int| 0 <= i < rest.len() implies #[trigger] rest[i] == records[i + 1] by {}
    }
}

proof fn resources_are_deliverable_one_by_one(resources: Seq<ResourceView>)
    ensures
        resources_objection(resources) is None <==> forall|i: int|
            0 <= i < resources.len() ==> text_media((#[trigger] resources[i]).media_type)
                && valid_utf8(resources[i].bytes),
    decreases resources.len(),
{
    if resources.len() > 0 {
        let rest = resources.skip(1);
        resources_are_deliverable_one_by_one(rest);
        assert forall|i: int| 1 <= i < resources.len() implies #[trigger] resources[i] == rest[i
            - 1] by {}
        assert forall|i: int| 0 <= i < rest.len() implies #[trigger] rest[i] == resources[i
            + 1] by {}
    }
}

/// Plain text and Markdown are told by what stands before the first semicolon of the media
/// type, without the white space around it.
pub proof fn texts_are_told_by_their_media_type(before: Seq<char>, after: Seq<char>)
    requires
        forall|i: int| 0 <= i < before.len() ==> #[trigger] before[i] != ';',
        before.len() > 0 ==> !white_space(before[0]) && !white_space(before.last()),
    ensures
        text_media(before) <==> (before == "text/plain"@ || before == "text/markdown"@),
        text_media(before + seq![';'] + after) <==> (before == "text/plain"@ || before
            == "text/markdown"@),
{
    first_semicolons_are_found(before, Seq::empty());
    first_semicolons_are_found(before, seq![';'] + after);
    assert(before + Seq::<char>::empty() =~= before);
    assert(before + (seq![';'] + after) =~= before + seq![';'] + after);
    assert((before + seq![';'] + after).take(before.len() as int) =~= before);
    assert(before.take(before.len() as int) =~= before);
}

proof fn first_semicolons_are_found(before: Seq<char>, rest: Seq<char>)
    requires
        forall|i: int| 0 <= i < before.len() ==> #[trigger] before[i] != ';',
        rest.len() > 0 ==> rest[0] == ';',
    ensures
        first_index(before + rest, ';') == before.len(),
    decreases before.len(),
{
    if before.len() > 0 {
        first_semicolons_are_found(before.skip(1), rest);
        assert((before + rest).skip(1) =~= before.skip(1) + rest);
    } else {
        assert(before + rest =~= rest);
    }
}

/// What is on record of a context that was prepared: the text that is sent and how many
/// bytes it has, that nothing was left out, and how the text is to be read.
pub proof fn prepared_contexts_are_on_record(wire: Seq<char>)
    ensures
        prepared_receipt(wire) == JsonView::Object(
            map![
                "version"@ => JsonView::Number(JsonNumber::PosInt(1)),
                "state"@ => JsonView::Text("prepared"@),
                "encoding"@ => JsonView::Text("agent_bridge.text_context.v1"@),
                "context_mode"@ => JsonView::Text("append_to_native"@),
                "omissions"@ => JsonView::Array(Seq::empty()),
                "wire_text"@ => JsonView::Text(wire),
                "wire_bytes"@ => JsonView::Number(
                    JsonNumber::PosInt(encode_utf8(wire).len() as u64),
                ),
            ],
        ),
{
}

} // verus!
