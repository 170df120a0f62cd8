//! Selected context as text that goes with a prompt.

use crate::acp::error::{RecordingError, RecordingErrorView};
use crate::acp::recording::{member, number_json};
use crate::context::{
    ContextLimits, PreparedContext, PreparedContextView, PreparedInstruction,
    PreparedInstructionView, Resource, ResourceStore, ResourceView,
};
use crate::datum::outcome;
use crate::json::{json_views, Json, JsonNumber, JsonView};
use crate::model::{
    Content, ContentView, ContextManifest, InstructionRole, ResourceRef, ResourceRefView,
};
use crate::records::{MessageKind, Payload, PayloadView, RecordState, Snapshot, SnapshotView};
use crate::table::Table;
use crate::text::{
    byte_len, bytes_of, decimal, decimal_text, json_quoted, json_strings_can_be_read,
    quoted_for_json, same_text, text_up_to,
    trimmed, up_to, utf8_text,
};
use std::sync::Arc;
use vstd::prelude::*;
use vstd::string::*;
use vstd::utf8::{decode_utf8, valid_utf8};

verus! {

/// Explicitly chooses user-level text context in addition to retained native context.
/// This neither replaces native history nor establishes system-instruction authority.
#[derive(Debug, Clone, Copy)]
pub enum TextContextMode {
    AppendToNative,
}

/// A prompt and what is selected to go with it.
pub struct ContextTask<'a, R: ResourceStore> {
    pub prompt: &'a str,
    pub manifest: &'a ContextManifest,
    pub resources: &'a R,
    pub limits: ContextLimits,
    pub max_prompt_bytes: usize,
    pub mode: TextContextMode,
}

/// The items with commas between them.
pub open spec fn joined(items: Seq<Seq<char>>) -> Seq<char>
    decreases items.len(),
{
    if items.len() == 0 {
        Seq::empty()
    } else if items.len() == 1 {
        items[0]
    } else {
        joined(items.drop_last()) + ","@ + items.last()
    }
}

/// A list of JSON texts.
pub open spec fn list_text(items: Seq<Seq<char>>) -> Seq<char> {
    "["@ + joined(items) + "]"@
}

/// A resource reference in JSON.
pub open spec fn reference_text(reference: ResourceRefView) -> Seq<char> {
    "{\"id\":"@ + json_quoted(reference.id) + ",\"revision\":"@ + json_quoted(reference.revision)
        + "}"@
}

/// An instruction in JSON.
pub open spec fn instruction_text(instruction: PreparedInstructionView) -> Seq<char> {
    "{\"resource\":"@ + reference_text(instruction.reference.resource)
        + ",\"role\":\"supplemental_user_text\"}"@
}

/// A piece of a message in JSON.
pub open spec fn content_text(content: ContentView) -> Seq<char> {
    match content {
        ContentView::Text(text) => "{\"text\":"@ + json_quoted(text) + "}"@,
        ContentView::Resource(reference) => "{\"resource\":"@ + reference_text(reference) + "}"@,
    }
}

/// Who speaks.
pub open spec fn speaker(kind: MessageKind) -> Seq<char> {
    match kind {
        MessageKind::User => "user"@,
        MessageKind::Agent => "agent"@,
        MessageKind::Reasoning => "reasoning"@,
    }
}

/// The state's name.
pub open spec fn state_text(state: RecordState) -> Seq<char> {
    match state {
        RecordState::Open => "open"@,
        RecordState::Complete => "complete"@,
        RecordState::Interrupted => "interrupted"@,
    }
}

/// A message record in JSON.
pub open spec fn record_text(snapshot: SnapshotView) -> Seq<char> {
    match snapshot.record.payload {
        PayloadView::Message { kind, message } => "{\"id\":"@ + json_quoted(snapshot.record.id)
            + ",\"revision\":"@ + decimal(snapshot.revision as nat) + ",\"actor\":"@ + json_quoted(
            snapshot.record.actor,
        ) + ",\"kind\":\""@ + speaker(kind) + "\",\"state\":\""@ + state_text(snapshot.state)
            + "\",\"content\":"@ + list_text(
            message.content.map_values(|content: ContentView| content_text(content)),
        ) + "}"@,
        _ => Seq::empty(),
    }
}

/// A resource with its text in JSON.
pub open spec fn resource_text(resource: ResourceView) -> Seq<char> {
    "{\"reference\":"@ + reference_text(resource.reference) + ",\"media_type\":"@ + json_quoted(
        resource.media_type,
    ) + ",\"text\":"@ + json_quoted(decode_utf8(resource.bytes)) + "}"@
}

/// The whole text that is sent.
pub open spec fn envelope(context: PreparedContextView, prompt: Seq<char>) -> Seq<char> {
    "{\"encoding\":\"agent_bridge.text_context.v1\",\"context_mode\":\"append_to_native\",\"history\":"@
        + list_text(context.records.map_values(|record: SnapshotView| record_text(record)))
        + ",\"supplemental_instructions\":"@ + list_text(
        context.instructions.map_values(
            |instruction: PreparedInstructionView| instruction_text(instruction),
        ),
    ) + ",\"resources\":"@ + list_text(
        context.resources.map_values(|resource: ResourceView| resource_text(resource)),
    ) + ",\"task\":"@ + json_quoted(prompt) + "}"@
}

/// Why a record cannot be sent.
pub open spec fn record_objection(snapshot: SnapshotView) -> Option<Seq<char>> {
    match snapshot.record.payload {
        PayloadView::Message { kind, .. } => if kind is Reasoning {
            Some("reasoning records require an explicit future delivery policy"@)
        } else {
            None
        },
        _ => Some("selected record is not a conversation message"@),
    }
}

/// Plain or Markdown text, whatever the parameters of its media type.
pub open spec fn text_media(media_type: Seq<char>) -> bool {
    let essence = trimmed(up_to(media_type, ';'));
    essence == "text/plain"@ || essence == "text/markdown"@
}

/// Why a resource cannot be sent.
pub open spec fn resource_objection(resource: ResourceView) -> Option<Seq<char>> {
    if !text_media(resource.media_type) {
        Some("only plain-text and Markdown resources are supported"@)
    } else if !valid_utf8(resource.bytes) {
        Some("resource is not UTF-8"@)
    } else {
        None
    }
}

/// The first objection to a record.
pub open spec fn records_objection(records: Seq<SnapshotView>) -> Option<Seq<char>>
    decreases records.len(),
{
    if records.len() == 0 {
        None
    } else {
        match record_objection(records[0]) {
            Some(reason) => Some(reason),
            None => records_objection(records.skip(1)),
        }
    }
}

/// The first objection to a resource.
pub open spec fn resources_objection(resources: Seq<ResourceView>) -> Option<Seq<char>>
    decreases resources.len(),
{
    if resources.len() == 0 {
        None
    } else {
        match resource_objection(resources[0]) {
            Some(reason) => Some(reason),
            None => resources_objection(resources.skip(1)),
        }
    }
}

/// Some instruction is meant to replace the base instructions.
pub open spec fn replaces_base(instructions: Seq<PreparedInstructionView>) -> bool {
    exists|i: int|
        0 <= i < instructions.len() && (#[trigger] instructions[i]).reference.role is Base
}

/// Why the context cannot be sent as text.
pub open spec fn context_objection(
    context: PreparedContextView,
    prompt: Seq<char>,
    max_bytes: usize,
) -> Option<Seq<char>> {
    if replaces_base(context.instructions) {
        Some("ACP text delivery cannot replace base instructions"@)
    } else if records_objection(context.records) is Some {
        records_objection(context.records)
    } else if resources_objection(context.resources) is Some {
        resources_objection(context.resources)
    } else if bytes_of(envelope(context, prompt)) > max_bytes {
        Some("encoded prompt exceeds byte limit"@)
    } else {
        None
    }
}

/// The evidence of a prepared text.
pub open spec fn prepared_receipt(wire: Seq<char>) -> JsonView {
    JsonView::Object(
        member("version"@, number_json(1)).insert("state"@, JsonView::Text("prepared"@)).insert(
            "encoding"@,
            JsonView::Text("agent_bridge.text_context.v1"@),
        ).insert("context_mode"@, JsonView::Text("append_to_native"@)).insert(
            "omissions"@,
            JsonView::Array(Seq::empty()),
        ).insert("wire_text"@, JsonView::Text(wire)).insert(
            "wire_bytes"@,
            number_json(bytes_of(wire) as u64),
        ),
    )
}

/// Builds a list item by item.
struct ListWriter {
    text: String,
    first: bool,
}

impl ListWriter {
    spec fn holds(self, items: Seq<Seq<char>>) -> bool {
        self.text@ == "["@ + joined(items) && self.first == (items.len() == 0)
    }

    fn new() -> (r: ListWriter)
        ensures
            r.holds(Seq::empty()),
    {
        let r = ListWriter { text: "[".to_owned(), first: true };
        assert(r.text@ =~= "["@ + joined(Seq::empty()));
        r
    }

    fn item(&mut self, item: &str, Ghost(items): Ghost<Seq<Seq<char>>>)
        requires
            old(self).holds(items),
        ensures
            final(self).holds(items.push(item@)),
    {
        if self.first {
            self.text.append(item);
            self.first = false;
            assert(items.push(item@)[0] == item@);
            assert(self.text@ =~= "["@ + joined(items.push(item@)));
        } else {
            self.text.append(",");
            self.text.append(item);
            assert(items.push(item@).drop_last() =~= items);
            assert(self.text@ =~= "["@ + joined(items.push(item@)));
        }
    }

    fn close(self, Ghost(items): Ghost<Seq<Seq<char>>>) -> (r: String)
        requires
            self.holds(items),
        ensures
            r@ == list_text(items),
    {
        let mut text = self.text;
        text.append("]");
        text
    }
}

fn write_reference(reference: &ResourceRef) -> (r: String)
    ensures
        r@ == reference_text(reference.deep_view()),
{
    let mut r = "{\"id\":".to_owned();
    r.append(quoted_for_json(reference.id.as_str()).as_str());
    r.append(",\"revision\":");
    r.append(quoted_for_json(reference.revision.as_str()).as_str());
    r.append("}");
    r
}

fn write_instructions(instructions: &Vec<PreparedInstruction>) -> (r: String)
    ensures
        r@ == list_text(
            instructions.deep_view().map_values(
                |instruction: PreparedInstructionView| instruction_text(instruction),
            ),
        ),
{
    let ghost all = instructions.deep_view().map_values(
        |instruction: PreparedInstructionView| instruction_text(instruction),
    );
    let mut list = ListWriter::new();
    let mut i: usize = 0;
    assert(all.take(0) =~= Seq::empty());
    while i < instructions.len()
        invariant
            i <= instructions.len(),
            all == instructions.deep_view().map_values(
                |instruction: PreparedInstructionView| instruction_text(instruction),
            ),
            list.holds(all.take(i as int)),
        decreases instructions.len() - i,
    {
        let mut item = "{\"resource\":".to_owned();
        item.append(write_reference(&instructions[i].reference.resource).as_str());
        item.append(",\"role\":\"supplemental_user_text\"}");
        assert(all[i as int] == instruction_text(instructions@[i as int].deep_view()));
        assert(all.take(i as int).push(item@) =~= all.take(i + 1));
        list.item(item.as_str(), Ghost(all.take(i as int)));
        i = i + 1;
    }
    assert(all.take(instructions.len() as int) =~= all);
    list.close(Ghost(all))
}

fn write_contents(contents: &Vec<Content>) -> (r: String)
    ensures
        r@ == list_text(
            contents.deep_view().map_values(|content: ContentView| content_text(content)),
        ),
{
    let ghost all = contents.deep_view().map_values(|content: ContentView| content_text(content));
    let mut list = ListWriter::new();
    let mut i: usize = 0;
    assert(all.take(0) =~= Seq::empty());
    while i < contents.len()
        invariant
            i <= contents.len(),
            all == contents.deep_view().map_values(|content: ContentView| content_text(content)),
            list.holds(all.take(i as int)),
        decreases contents.len() - i,
    {
        let item = match &contents[i] {
            Content::Text(text) => {
                let mut item = "{\"text\":".to_owned();
                item.append(quoted_for_json(text.as_str()).as_str());
                item.append("}");
                item
            },
            Content::Resource(reference) => {
                let mut item = "{\"resource\":".to_owned();
                item.append(write_reference(reference).as_str());
                item.append("}");
                item
            },
        };
        assert(all[i as int] == content_text(contents@[i as int].deep_view()));
        assert(all.take(i as int).push(item@) =~= all.take(i + 1));
        list.item(item.as_str(), Ghost(all.take(i as int)));
        i = i + 1;
    }
    assert(all.take(contents.len() as int) =~= all);
    list.close(Ghost(all))
}

fn speaker_name(kind: MessageKind) -> (r: &'static str)
    ensures
        r@ == speaker(kind),
{
    match kind {
        MessageKind::User => "user",
        MessageKind::Agent => "agent",
        MessageKind::Reasoning => "reasoning",
    }
}

fn state_label(state: RecordState) -> (r: &'static str)
    ensures
        r@ == state_text(state),
{
    match state {
        RecordState::Open => "open",
        RecordState::Complete => "complete",
        RecordState::Interrupted => "interrupted",
    }
}

fn write_record(snapshot: &Snapshot) -> (r: String)
    ensures
        r@ == record_text(snapshot.deep_view()),
{
    match &snapshot.record.payload {
        Payload::Message { kind, message } => {
            let mut r = "{\"id\":".to_owned();
            r.append(quoted_for_json(snapshot.record.id.as_str()).as_str());
            r.append(",\"revision\":");
            r.append(decimal_text(snapshot.revision).as_str());
            r.append(",\"actor\":");
            r.append(quoted_for_json(snapshot.record.actor.as_str()).as_str());
            r.append(",\"kind\":\"");
            r.append(speaker_name(*kind));
            r.append("\",\"state\":\"");
            r.append(state_label(snapshot.state));
            r.append("\",\"content\":");
            r.append(write_contents(&message.content).as_str());
            r.append("}");
            r
        },
        _ => {
            proof {
                reveal_strlit("");
                assert(""@ =~= Seq::empty());
            }
            "".to_owned()
        },
    }
}

fn write_records(records: &Vec<Arc<Snapshot>>) -> (r: String)
    ensures
        r@ == list_text(
            records.deep_view().map_values(|record: SnapshotView| record_text(record)),
        ),
{
    let ghost all = records.deep_view().map_values(|record: SnapshotView| record_text(record));
    let mut list = ListWriter::new();
    let mut i: usize = 0;
    assert(all.take(0) =~= Seq::empty());
    while i < records.len()
        invariant
            i <= records.len(),
            all == records.deep_view().map_values(|record: SnapshotView| record_text(record)),
            list.holds(all.take(i as int)),
        decreases records.len() - i,
    {
        let item = write_record(&records[i]);
        assert(all[i as int] == record_text(records@[i as int].deep_view()));
        assert(all.take(i as int).push(item@) =~= all.take(i + 1));
        list.item(item.as_str(), Ghost(all.take(i as int)));
        i = i + 1;
    }
    assert(all.take(records.len() as int) =~= all);
    list.close(Ghost(all))
}

/// The text of a resource, or why there is none.
pub fn text(resource: &Resource) -> (r: Result<String, RecordingError>)
    ensures
        match resource_objection(resource.deep_view()) {
            Some(reason) => outcome(r) == Err::<Seq<char>, RecordingErrorView>(
                RecordingErrorView::UnsupportedContext(reason),
            ),
            None => outcome(r) == Ok::<Seq<char>, RecordingErrorView>(
                decode_utf8(resource.deep_view().bytes),
            ),
        },
{
    let essence = text_up_to(resource.media_type.as_str(), ';').trim();
    if !same_text(essence, "text/plain") && !same_text(essence, "text/markdown") {
        return Err(
            RecordingError::UnsupportedContext(
                "only plain-text and Markdown resources are supported".to_owned(),
            ),
        );
    }
    assert(resource.bytes.deep_view() =~= resource.bytes@);
    match utf8_text(&resource.bytes) {
        Some(text) => {
            proof {
                vstd::utf8::encode_utf8_decode_utf8(text@);
            }
            Ok(text)
        },
        None => Err(RecordingError::UnsupportedContext("resource is not UTF-8".to_owned())),
    }
}

fn write_resources(resources: &Vec<Arc<Resource>>) -> (r: Result<String, RecordingError>)
    ensures
        match resources_objection(resources.deep_view()) {
            Some(reason) => outcome(r) == Err::<Seq<char>, RecordingErrorView>(
                RecordingErrorView::UnsupportedContext(reason),
            ),
            None => outcome(r) == Ok::<Seq<char>, RecordingErrorView>(
                list_text(
                    resources.deep_view().map_values(
                        |resource: ResourceView| resource_text(resource),
                    ),
                ),
            ),
        },
{
    let ghost views = resources.deep_view();
    let ghost all = views.map_values(|resource: ResourceView| resource_text(resource));
    let mut list = ListWriter::new();
    let mut i: usize = 0;
    assert(all.take(0) =~= Seq::empty());
    assert(views.skip(0) =~= views);
    while i < resources.len()
        invariant
            i <= resources.len(),
            views == resources.deep_view(),
            all == views.map_values(|resource: ResourceView| resource_text(resource)),
            list.holds(all.take(i as int)),
            resources_objection(views) == resources_objection(views.skip(i as int)),
        decreases resources.len() - i,
    {
        assert(views.skip(i as int)[0] == resources@[i as int].deep_view());
        assert(views.skip(i as int).skip(1) =~= views.skip(i + 1));
        let content = match text(&resources[i]) {
            Err(e) => return Err(e),
            Ok(content) => content,
        };
        let mut item = "{\"reference\":".to_owned();
        item.append(write_reference(&resources[i].reference).as_str());
        item.append(",\"media_type\":");
        item.append(quoted_for_json(resources[i].media_type.as_str()).as_str());
        item.append(",\"text\":");
        item.append(quoted_for_json(content.as_str()).as_str());
        item.append("}");
        assert(all[i as int] == resource_text(resources@[i as int].deep_view()));
        assert(all.take(i as int).push(item@) =~= all.take(i + 1));
        list.item(item.as_str(), Ghost(all.take(i as int)));
        i = i + 1;
    }
    assert(all.take(resources.len() as int) =~= all);
    Ok(list.close(Ghost(all)))
}

fn check_instructions(instructions: &Vec<PreparedInstruction>) -> (r: bool)
    ensures
        r == !replaces_base(instructions.deep_view()),
{
    let ghost views = instructions.deep_view();
    let mut i: usize = 0;
    while i < instructions.len()
        invariant
            i <= instructions.len(),
            views == instructions.deep_view(),
            forall|j: int| 0 <= j < i ==> !((#[trigger] views[j]).reference.role is Base),
        decreases instructions.len() - i,
    {
        assert(views[i as int] == instructions@[i as int].deep_view());
        if instructions[i].reference.role == InstructionRole::Base {
            return false;
        }
        i = i + 1;
    }
    true
}

fn check_records(records: &Vec<Arc<Snapshot>>) -> (r: Option<&'static str>)
    ensures
        match r {
            Some(reason) => records_objection(records.deep_view()) == Some(reason@),
            None => records_objection(records.deep_view()) is None,
        },
{
    let ghost views = records.deep_view();
    let mut i: usize = 0;
    assert(views.skip(0) =~= views);
    while i < records.len()
        invariant
            i <= records.len(),
            views == records.deep_view(),
            records_objection(views) == records_objection(views.skip(i as int)),
        decreases records.len() - i,
    {
        assert(views.skip(i as int)[0] == records@[i as int].deep_view());
        assert(views.skip(i as int).skip(1) =~= views.skip(i + 1));
        match &records[i].record.payload {
            Payload::Message { kind, .. } => {
                if *kind == MessageKind::Reasoning {
                    return Some("reasoning records require an explicit future delivery policy");
                }
            },
            _ => return Some("selected record is not a conversation message"),
        }
        i = i + 1;
    }
    None
}

fn write_receipt(wire: &String) -> (r: Json)
    ensures
        r.deep_view() == prepared_receipt(wire@),
{
    broadcast use json_views;

    let mut members: Table<Json> = Table::new();
    assert(members.deep_view() =~= Map::<Seq<char>, JsonView>::empty());
    let none: Vec<Json> = Vec::new();
    assert(none.deep_view() =~= Seq::<JsonView>::empty());
    members.put("version".to_owned(), Json::Number(JsonNumber::PosInt(1)));
    members.put("state".to_owned(), Json::Text("prepared".to_owned()));
    members.put("encoding".to_owned(), Json::Text("agent_bridge.text_context.v1".to_owned()));
    members.put("context_mode".to_owned(), Json::Text("append_to_native".to_owned()));
    members.put("omissions".to_owned(), Json::Array(none));
    members.put("wire_text".to_owned(), Json::Text(wire.clone()));
    members.put(
        "wire_bytes".to_owned(),
        Json::Number(JsonNumber::PosInt(byte_len(wire.as_str()) as u64)),
    );
    Json::Object(members)
}

/// Text is mandatory in ACP. No optional image, embedding, or base-instruction
/// capability is inferred from unrelated provider declarations. The receipt holds the
/// exact wire text, independent of resource-store retention.
pub fn encode(context: &PreparedContext, prompt: &str, max_bytes: usize) -> (r: Result<
    (String, Json),
    RecordingError,
>)
    ensures
        match context_objection(context.deep_view(), prompt@, max_bytes) {
            Some(reason) => r matches Err(e) && e.deep_view()
                == RecordingErrorView::UnsupportedContext(reason),
            None => r matches Ok((wire, receipt)) && wire@ == envelope(
                context.deep_view(),
                prompt@,
            ) && receipt.deep_view() == prepared_receipt(wire@),
        },
{
    if !check_instructions(&context.instructions) {
        return Err(
            RecordingError::UnsupportedContext(
                "ACP text delivery cannot replace base instructions".to_owned(),
            ),
        );
    }
    match check_records(&context.records) {
        Some(reason) => return Err(RecordingError::UnsupportedContext(reason.to_owned())),
        None => {},
    }
    let resources = match write_resources(&context.resources) {
        Err(e) => return Err(e),
        Ok(resources) => resources,
    };
    let mut wire =
        "{\"encoding\":\"agent_bridge.text_context.v1\",\"context_mode\":\"append_to_native\",\"history\":".to_owned();
    wire.append(write_records(&context.records).as_str());
    wire.append(",\"supplemental_instructions\":");
    wire.append(write_instructions(&context.instructions).as_str());
    wire.append(",\"resources\":");
    wire.append(resources.as_str());
    wire.append(",\"task\":");
    wire.append(quoted_for_json(prompt).as_str());
    wire.append("}");
    if byte_len(wire.as_str()) > max_bytes {
        return Err(
            RecordingError::UnsupportedContext("encoded prompt exceeds byte limit".to_owned()),
        );
    }
    let receipt = write_receipt(&wire);
    Ok((wire, receipt))
}

/// What is sent is within the limit, says nothing of reasoning, and does not replace
/// base instructions.
pub proof fn encoded_context_keeps_the_rules(
    context: PreparedContextView,
    prompt: Seq<char>,
    max_bytes: usize,
)
    requires
        context_objection(context, prompt, max_bytes) is None,
    ensures
        bytes_of(envelope(context, prompt)) <= max_bytes,
        forall|i: int|
            0 <= i < context.instructions.len() ==> (
            #[trigger] context.instructions[i]).reference.role is Supplemental,
        forall|i: int|
            0 <= i < context.records.len() ==> ((
            #[trigger] context.records[i]).record.payload matches PayloadView::Message {
                kind,
                ..
            } && !(kind is Reasoning)),
{
    accepted_records(context.records);
}

/// The task can be told from what is sent, whatever the prompt says: no prompt can pose
/// as another one.
pub proof fn tasks_can_be_read(context: PreparedContextView, a: Seq<char>, b: Seq<char>)
    requires
        envelope(context, a) == envelope(context, b),
    ensures
        a == b,
{
    let before = envelope(context, a).take(
        envelope(context, a).len() - json_quoted(a).len() - "}"@.len(),
    );
    let same = envelope(context, b).take(
        envelope(context, b).len() - json_quoted(b).len() - "}"@.len(),
    );
    assert(envelope(context, a) =~= before + json_quoted(a) + "}"@);
    assert(envelope(context, b) =~= same + json_quoted(b) + "}"@);
    assert(before =~= same);
    assert(json_quoted(a) + "}"@ =~= envelope(context, a).skip(before.len() as int));
    assert(json_quoted(b) + "}"@ =~= envelope(context, b).skip(before.len() as int));
    json_strings_can_be_read(a, "}"@, b, "}"@);
}

proof fn accepted_records(records: Seq<SnapshotView>)
    requires
        records_objection(records) is None,
    ensures
        forall|i: int|
            0 <= i < records.len() ==> ((
            #[trigger] records[i]).record.payload matches PayloadView::Message { kind, .. } && !(
            kind is Reasoning)),
    decreases records.len(),
{
    if records.len() > 0 {
        accepted_records(records.skip(1));
        assert forall|i: int| 0 <= i < records.len() implies ((
        #[trigger] records[i]).record.payload matches PayloadView::Message { kind, .. } && !(
        kind is Reasoning)) by {
            if i > 0 {
                assert(records.skip(1)[i - 1] == records[i]);
            }
        }
    }
}

} // verus!
