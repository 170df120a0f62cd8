//! What holds of every question, context and result that passes through the host.

use crate::acp::context::envelope;
use crate::acp::error::RecordingErrorView;
use crate::acp::recording::{RecordActorsView, RecorderView};
use crate::acp::restoration::RestorationPolicy;
use crate::acp::start::{
    context_start, json_start, policy_context, text_start, whole_context, JsonOutputMode,
};
use crate::context::{
    resource_put, ContextLimits, ContextPolicyView, MemoryResourceStore, ResourceView, Resources,
};
use crate::execution::Assignment;
use crate::host::interactions::{
    host_limits, placed, HostedResult, ResultDefinition, SelectionView, TextResourceView,
    MAX_PROMPT_BYTES, MAX_RESULT_BYTES,
};
use crate::host::output::{Line, NextWrite, OutputError, Written};
use crate::host::questions::{
    ask_objection, call_ended, definition_objection, field_fits, lists_ids, living, of_call,
    question_draft, Entries, EntryView, Service,
};
use crate::host::receipts::{shown, written_out};
use crate::host::recovery::{
    hosted_start, restore_refused, store_message, store_unusable, Session,
};
use crate::host::session::{lists_tokens, Held};
use crate::host::storage::{serves, silence_error, Silence, WriterLane};
use crate::host::tool_hub::{transportable, TicketView};
use crate::id::SlotId;
use crate::json::{JsonNumber, JsonView};
use crate::model::{ContextManifestView, ResourceRefView};
use crate::providers::FilePathView;
use crate::records::question::{
    AnswerOutcomeView, QuestionFieldKindView, QuestionFieldView, QuestionView,
};
use crate::records::store::StoreView;
use crate::records::{PayloadView, RecordState, SourceRefView, StoreError, StoreErrorView};
use crate::structured::JsonContract;
use crate::text::{decimal, text_before, text_before_irreflexive};
use vstd::prelude::*;
use vstd::utf8::encode_utf8;

verus! {

/// A question of a call is stored open, by the host, in the session of the call and with
/// the call as its source.
pub proof fn questions_are_stored_with_their_call(
    owner: TicketView,
    id: Seq<char>,
    question: QuestionView,
)
    ensures
        ({
            let draft = question_draft(owner, id, question);
            &&& draft.id == id
            &&& draft.session_id == owner.scope.session
            &&& draft.run_id is None
            &&& draft.actor == "host"@
            &&& draft.reply_to_id is None
            &&& draft.source == Some(
                SourceRefView { namespace: "agent_bridge.tool_invocation"@, id: owner.call },
            )
            &&& draft.payload == PayloadView::Question(question)
            &&& draft.state == RecordState::Open
        }),
{
}

/// A question is told with its id and revision, the call that asks it, the binding, session
/// and slot of the call, and its definition.
pub proof fn questions_are_told_in_full(entry: EntryView)
    ensures
        entry.named(Map::empty()) == map![
            "question_id"@ => JsonView::Text(entry.question.request.record.id),
            "revision"@ => JsonView::Text(decimal(entry.question.request.revision as nat)),
            "call_id"@ => JsonView::Text(entry.owner.call),
            "binding_id"@ => JsonView::Text(entry.owner.binding),
            "session_id"@ => JsonView::Text(entry.owner.scope.session),
            "slot_id"@ => JsonView::Text(entry.owner.scope.slot),
            "definition"@ => entry.definition,
        ],
{
}

/// An answer belongs to a question exactly when it names the call, the binding, the
/// session, the slot and the revision of the question and the call is not over.
pub proof fn answers_name_their_question(entry: EntryView, params: Map<Seq<char>, JsonView>)
    ensures
        entry.matched_by(JsonView::Object(params)) <==> {
            &&& params.contains_key("call_id"@) && params["call_id"@] == JsonView::Text(
                entry.owner.call,
            )
            &&& params.contains_key("binding_id"@) && params["binding_id"@] == JsonView::Text(
                entry.owner.binding,
            )
            &&& params.contains_key("session_id"@) && params["session_id"@] == JsonView::Text(
                entry.owner.scope.session,
            )
            &&& params.contains_key("slot_id"@) && params["slot_id"@] == JsonView::Text(
                entry.owner.scope.slot,
            )
            &&& params.contains_key("revision"@) && params["revision"@] == JsonView::Text(
                decimal(entry.question.request.revision as nat),
            )
            &&& !entry.ended
        },
{
}

/// An answer is taken exactly when it names a question that is asked, belongs to it, can be
/// carried in at most 60000 bytes and could be read. It is then the answer that was read.
pub proof fn fitting_answers_are_taken(
    entries: Entries,
    params: Map<Seq<char>, JsonView>,
    bytes: usize,
    chosen: Result<AnswerOutcomeView, Seq<char>>,
)
    requires
        params.contains_key("outcome"@),
    ensures
        ({
            let reply = Service::answer_objection(
                entries,
                JsonView::Object(params),
                bytes,
                chosen,
            );
            let named = params.contains_key("question_id"@) && (
            params["question_id"@] matches JsonView::Text(id) && id.len() > 0);
            let id = params["question_id"@]->Text_0;
            &&& reply is Ok <==> (named && entries.contains_key(id) && entries[id].matched_by(
                JsonView::Object(params),
            ) && bytes <= 60000 && transportable(params["outcome"@], 0) && chosen is Ok)
            &&& reply matches Ok((question, outcome)) ==> question == id && chosen == Ok::<
                AnswerOutcomeView,
                Seq<char>,
            >(outcome)
            &&& named && !entries.contains_key(id) ==> reply == Err::<
                (Seq<char>, AnswerOutcomeView),
                Seq<char>,
            >("question is no longer live"@)
            &&& named && entries.contains_key(id) && !entries[id].matched_by(
                JsonView::Object(params),
            ) ==> reply == Err::<(Seq<char>, AnswerOutcomeView), Seq<char>>(
                "stale or foreign question response"@,
            )
        }),
{
}

/// A question waits until it is answered or its call is over, and is listed for its own
/// session or for everyone who names none.
pub proof fn questions_wait_for_their_session(entry: EntryView, params: Map<Seq<char>, JsonView>)
    ensures
        entry.awaits(JsonView::Object(params)) <==> (!entry.resolved && !entry.ended && (
        !params.contains_key("session_id"@) || params["session_id"@] == JsonView::Text(
            entry.owner.scope.session,
        ))),
{
}

/// A question can be passed on when its definition can be carried in at most 16384 bytes,
/// it could be read and can be asked, its texts have room for at most 16384 bytes and its
/// numbers are ones that a double holds exactly.
pub proof fn definitions_are_within_the_limits(
    definition: JsonView,
    bytes: usize,
    question: Result<QuestionView, Seq<char>>,
)
    ensures
        definition_objection(definition, bytes, question) is None <==> (bytes <= 16384
            && transportable(definition, 0) && (question matches Ok(asked) && asked.valid()
            && forall|i: int|
            0 <= i < asked.fields.len() ==> field_fits(#[trigger] asked.fields[i]))),
        bytes > 16384 || !transportable(definition, 0) ==> definition_objection(
            definition,
            bytes,
            question,
        ) == Some("question exceeds JSON limits"@),
        bytes <= 16384 && transportable(definition, 0) ==> (question matches Err(e)
            ==> definition_objection(definition, bytes, question) == Some(e)),
{
}

/// Texts of at most 16384 bytes and numbers below two to the power of fifty-three fit, as
/// does every other field.
pub proof fn fitting_fields_are_bounded(field: QuestionFieldView)
    ensures
        field.kind matches QuestionFieldKindView::Text { max_bytes } ==> (field_fits(field)
            <==> max_bytes <= 16384),
        field.kind matches QuestionFieldKindView::Integer { min, max } ==> (field_fits(field)
            <==> -9007199254740992 < min && max < 9007199254740992),
        field.kind is Boolean ==> field_fits(field),
        field.kind is Select ==> field_fits(field),
{
}

/// When a call is over its questions are over, and no others.
pub proof fn questions_are_over_with_their_call(
    entries: Entries,
    call: Seq<char>,
    id: Seq<char>,
)
    requires
        entries.contains_key(id),
    ensures
        call_ended(entries, call).contains_key(id),
        call_ended(entries, call)[id].ended <==> (entries[id].ended || entries[id].owner.call
            == call),
        call_ended(entries, call)[id].question == entries[id].question,
        call_ended(entries, call)[id].owner == entries[id].owner,
        call_ended(entries, call)[id].resolved == entries[id].resolved,
        call_ended(entries, call)[id].definition == entries[id].definition,
        living(entries).contains_key(id) <==> !entries[id].ended,
        living(entries).contains_key(id) ==> living(entries)[id] == entries[id],
        forall|other: Seq<char>|
            !entries.contains_key(other) ==> !(#[trigger] living(entries).contains_key(other)),
{
}

/// A call that is over asks nothing more, and one that waits for an answer neither. At most
/// a hundred and twenty-eight questions are kept, and at most eight of one call.
pub proof fn calls_ask_one_question_at_a_time(
    entries: Entries,
    call: Seq<char>,
    over: bool,
    id: Seq<char>,
)
    ensures
        over ==> ask_objection(entries, call, over) == Some("invocation ended"@),
        !over && entries.contains_key(id) && entries[id].owner.call == call && !entries[id].resolved
            && !entries[id].ended ==> ask_objection(entries, call, over) == Some(
            "question limit reached or invocation already has a pending question"@,
        ),
        !over && living(entries).dom().len() >= 128 ==> ask_objection(entries, call, over) is Some,
        !over && of_call(living(entries), call).len() >= 8 ==> ask_objection(
            entries,
            call,
            over,
        ) is Some,
        !over && living(entries).dom().len() < 128 && of_call(living(entries), call).len() < 8 && (
        forall|other: Seq<char>|
            entries.contains_key(other) && !entries[other].ended && entries[other].owner.call
                == call ==> #[trigger] entries[other].resolved) ==> ask_objection(
            entries,
            call,
            over,
        ) is None,
        of_call(entries, call).contains(id) <==> (entries.contains_key(id)
            && entries[id].owner.call == call),
{
    let alive = living(entries);
    if !over && entries.contains_key(id) && entries[id].owner.call == call && !entries[id].resolved
        && !entries[id].ended {
        assert(alive.contains_key(id));
    }
    assert forall|other: Seq<char>| #[trigger] alive.contains_key(other) implies alive[other]
        == entries[other] && !entries[other].ended by {}
}

/// The questions that wait are listed in the order of their ids, and no others.
pub proof fn waiting_questions_are_listed(
    entries: Entries,
    ids: Seq<Seq<char>>,
    params: JsonView,
    id: Seq<char>,
)
    ensures
        Service::listing(entries, Seq::empty(), params) == Seq::<JsonView>::empty(),
        entries[id].awaits(params) ==> Service::listing(entries, ids.push(id), params)
            == Service::listing(entries, ids, params).push(
            JsonView::Object(
                map![
                    "question_id"@ => JsonView::Text(entries[id].question.request.record.id),
                    "revision"@ => JsonView::Text(
                        decimal(entries[id].question.request.revision as nat),
                    ),
                    "call_id"@ => JsonView::Text(entries[id].owner.call),
                    "binding_id"@ => JsonView::Text(entries[id].owner.binding),
                    "session_id"@ => JsonView::Text(entries[id].owner.scope.session),
                    "slot_id"@ => JsonView::Text(entries[id].owner.scope.slot),
                    "definition"@ => entries[id].definition,
                ],
            ),
        ),
        !entries[id].awaits(params) ==> Service::listing(entries, ids.push(id), params)
            == Service::listing(entries, ids, params),
{
    assert(ids.push(id).drop_last() =~= ids);
}

/// A line is out when all of its bytes are. Until then what was written counts, a write
/// that was interrupted is tried again, one that would block is tried again after a pause
/// unless the host stops or it is too late, and one that wrote nothing or failed ends the
/// output.
pub proof fn lines_go_out_byte_by_byte(
    out: nat,
    length: nat,
    written: Written,
    stopped: bool,
    late: bool,
)
    requires
        out < length,
    ensures
        ({
            let (next, told) = Line::step(out, length, written, stopped, late);
            &&& written matches Written::Bytes(count) ==> {
                &&& count == 0 ==> next == out && told == Err::<NextWrite, OutputError>(
                    OutputError::WriteZero,
                )
                &&& 0 < count && out + count < length ==> next == out + count && told == Ok::<
                    NextWrite,
                    OutputError,
                >(NextWrite::Write)
                &&& out + count >= length ==> next == length && told == Ok::<
                    NextWrite,
                    OutputError,
                >(NextWrite::Done)
            }
            &&& written == Written::Interrupted ==> next == out && told == Ok::<
                NextWrite,
                OutputError,
            >(NextWrite::Write)
            &&& written == Written::WouldBlock && !stopped && !late ==> next == out && told
                == Ok::<NextWrite, OutputError>(NextWrite::Pause)
            &&& written == Written::WouldBlock && (stopped || late) ==> next == out && told
                == Err::<NextWrite, OutputError>(OutputError::TimedOut)
            &&& written == Written::Failed ==> next == out && told == Err::<
                NextWrite,
                OutputError,
            >(OutputError::Other)
        }),
        Line::step(length, length, written, stopped, late) == (
            length,
            Ok::<NextWrite, OutputError>(NextWrite::Done),
        ),
{
}

/// A receipt is shown without the text that was sent, and that of a tool call without its
/// input and its outcome too. Everything else in it is shown as it is.
pub proof fn receipts_are_shown_without_what_was_sent(
    members: Map<Seq<char>, JsonView>,
    data: Map<Seq<char>, JsonView>,
    name: Seq<char>,
)
    requires
        members.contains_key("data"@),
        members["data"@] == JsonView::Object(data),
    ensures
        shown(JsonView::Object(members)) matches JsonView::Object(told) && (
        told["data"@] matches JsonView::Object(rest) && {
            let call = members.contains_key("kind"@) && members["kind"@] == JsonView::Text(
                "tool_invocation"@,
            );
            &&& name != "data"@ ==> (told.contains_key(name) <==> members.contains_key(name))
                && told[name] == members[name]
            &&& !rest.contains_key("wire_text"@)
            &&& call ==> !rest.contains_key("input"@) && !rest.contains_key("outcome"@)
            &&& name != "wire_text"@ && (!call || (name != "input"@ && name != "outcome"@))
                && data.contains_key(name) ==> rest.contains_key(name) && rest[name] == data[name]
            &&& rest.contains_key(name) ==> data.contains_key(name)
        }),
{
}

/// A context that an application gives is taken when it is to be appended, names at most a
/// hundred and twenty-eight records and texts, and all of its texts are plain or Markdown.
/// The texts are then held as they were given, in order.
pub proof fn given_texts_are_held(
    references: Seq<ResourceRefView>,
    held: Resources,
    texts: Seq<TextResourceView>,
)
    requires
        texts.len() > 0,
    ensures
        ({
            let first = texts[0];
            let resource = ResourceView {
                reference: ResourceRefView { id: first.id, revision: first.revision },
                media_type: first.media_type,
                bytes: encode_utf8(first.text),
            };
            let reply = placed(references, held, texts);
            &&& first.media_type != "text/plain"@ && first.media_type != "text/markdown"@ ==> reply
                == Err::<(Seq<ResourceRefView>, Resources), Seq<char>>(
                "context resources must be plain text or Markdown"@,
            )
            &&& first.media_type == "text/plain"@ || first.media_type == "text/markdown"@ ==> match resource_put(
                held,
                resource,
            ) {
                Err(e) => reply == Err::<(Seq<ResourceRefView>, Resources), Seq<char>>(
                    "resource store: "@ + e.debug(),
                ),
                Ok((_, after)) => reply == placed(
                    references.push(resource.reference),
                    after,
                    texts.skip(1),
                ),
            }
        }),
        placed(references, held, Seq::empty()) == Ok::<
            (Seq<ResourceRefView>, Resources),
            Seq<char>,
        >((references, held)),
{
}

/// A selection is taken as it was made: the records that it names and its texts, and no
/// instructions.
pub proof fn selections_are_taken_as_made(selection: SelectionView)
    ensures
        ({
            let reply = selection.prepared();
            &&& selection.mode != "append_to_native"@ ==> reply == Err::<
                (ContextManifestView, Resources),
                Seq<char>,
            >("only append_to_native text context is supported"@)
            &&& selection.mode == "append_to_native"@ && selection.records.len()
                + selection.resources.len() > 128 ==> reply == Err::<
                (ContextManifestView, Resources),
                Seq<char>,
            >("context exceeds 128 items"@)
            &&& selection.mode == "append_to_native"@ && selection.records.len()
                + selection.resources.len() <= 128 ==> match placed(
                Seq::empty(),
                Map::empty(),
                selection.resources,
            ) {
                Err(e) => reply == Err::<(ContextManifestView, Resources), Seq<char>>(e),
                Ok((references, held)) => reply matches Ok((manifest, kept))
                    && manifest.records == selection.records && manifest.instructions.len() == 0
                    && manifest.resources == references && kept == held,
            }
        }),
{
}

/// A result is reported as valid with its value, as rejected with why, or as unavailable.
/// A run that was to return none reports nothing.
pub proof fn results_are_reported_by_kind(result: HostedResult)
    ensures
        result is Plain ==> result.json() == JsonView::Null,
        result matches HostedResult::Valid(value) ==> result.json() == JsonView::Object(
            map!["status"@ => JsonView::Text("valid"@), "value"@ => value.deep_view()],
        ),
        result matches HostedResult::Rejected(rejection) ==> result.json() == JsonView::Object(
            map![
                "status"@ => JsonView::Text("rejected"@),
                "rejection"@ => rejection.deep_view().json(),
            ],
        ),
        result is Unavailable ==> result.json() == JsonView::Object(
            map!["status"@ => JsonView::Text("unavailable"@)],
        ),
{
}

/// Whole numbers in a receipt are written out in decimal digits.
pub proof fn whole_numbers_are_written_out(
    n: JsonNumber,
    written: JsonView,
    fractions: Map<u64, Seq<char>>,
    depth: nat,
)
    requires
        depth > 0,
        written_out(JsonView::Number(n), written, fractions, depth),
    ensures
        n matches JsonNumber::PosInt(v) ==> written == JsonView::Text(decimal(v as nat)),
        n matches JsonNumber::NegInt(v) ==> v < 0 ==> written == JsonView::Text(
            "-"@ + decimal((-v) as nat),
        ),
{
}

/// A run that the host starts is the one that was asked for: plain, with a context, with a
/// result, or with both, each with what belongs to it. What is sent for a plain run is the
/// prompt. The first run of a restored session takes nothing but its prompt.
pub proof fn hosted_runs_are_what_was_asked_for(
    session: Session,
    closed: bool,
    store: StoreView,
    id: Seq<char>,
    prompt: Seq<char>,
    context: Option<(ContextManifestView, Resources)>,
    contract: Option<JsonContract>,
    actors: RecordActorsView,
)
    ensures
        ({
            let (start, wire) = hosted_start(
                session,
                closed,
                store,
                id,
                prompt,
                context,
                contract,
                actors,
            );
            &&& session matches Session::Restored(restored) ==> {
                &&& context is Some || contract is Some ==> start.reply is Err && start.store
                    == store
                &&& context is None && contract is None ==> (start, wire) == restored.first_start(
                    closed,
                    store,
                    id,
                    prompt,
                    actors,
                )
            }
            &&& session matches Session::Active(state) ==> {
                let own = state.deep_view();
                let limits = ContextLimits { max_items: 128, max_resource_bytes: 262144 };
                let mode = JsonOutputMode::ValidateReturnedText;
                match (context, contract) {
                    (None, None) => wire == prompt && start == text_start(
                        own,
                        closed,
                        store,
                        id,
                        prompt,
                        actors,
                        None,
                    ),
                    (None, Some(promised)) => (start, wire) == json_start(
                        own,
                        closed,
                        store,
                        id,
                        prompt,
                        promised,
                        mode,
                        None,
                        actors,
                    ),
                    (Some((manifest, resources)), None) => match own.objection(prompt, closed) {
                        Some(e) => start.store == store && start.reply == Err::<
                            (RecorderView, Assignment),
                            RecordingErrorView,
                        >(RecordingErrorView::Agent(e)),
                        None => match whole_context(own, store, resources, manifest, limits) {
                            Err(e) => start.store == store && start.reply == Err::<
                                (RecorderView, Assignment),
                                RecordingErrorView,
                            >(RecordingErrorView::Context(e)),
                            Ok(selected) => {
                                let expected = context_start(
                                    own,
                                    closed,
                                    store,
                                    id,
                                    prompt,
                                    selected,
                                    524288,
                                    actors,
                                    None,
                                );
                                wire == envelope(selected, prompt) && start.reply == expected.reply
                                    && start.store == expected.store
                            },
                        },
                    },
                    (Some((manifest, resources)), Some(promised)) => match policy_context(
                        own,
                        store,
                        resources,
                        manifest,
                        limits,
                        ContextPolicyView { omissions: Seq::empty(), instruction_authorization: None },
                    ) {
                        Err(e) => start.store == store && start.reply == Err::<
                            (RecorderView, Assignment),
                            RecordingErrorView,
                        >(RecordingErrorView::Context(e)),
                        Ok(selected) => {
                            let (expected, sent) = json_start(
                                own,
                                closed,
                                store,
                                id,
                                prompt,
                                promised,
                                mode,
                                Some((selected, 524288)),
                                actors,
                            );
                            wire == sent && start.reply == expected.reply && start.store
                                == expected.store
                        },
                    },
                }
            }
        }),
{
}

/// The host sends at most 524288 bytes for a run, resolves at most 128 items and at most
/// 262144 bytes of resources, and reads a result of at most 65536 bytes.
pub proof fn hosted_runs_are_bounded()
    ensures
        host_limits().max_items == 128,
        host_limits().max_resource_bytes == 262144,
        MAX_PROMPT_BYTES == 524288,
        MAX_RESULT_BYTES == 65536,
{
}

/// Only results that are validated here are taken, with a limit of at most 65536 bytes and a
/// schema that can be used.
pub proof fn results_are_taken_to_be_validated(
    definition: ResultDefinition,
    compiled: Result<(), String>,
)
    ensures
        definition.objection(compiled) is None <==> (definition.mode@ == "validate_returned_text"@
            && definition.max_validation_bytes <= 65536 && compiled is Ok),
        definition.mode@ != "validate_returned_text"@ ==> definition.objection(compiled) == Some(
            "native result enforcement is unsupported"@,
        ),
        definition.mode@ == "validate_returned_text"@ && definition.max_validation_bytes > 65536
            ==> definition.objection(compiled) == Some(
            "result validation limit exceeds 65536 bytes"@,
        ),
        definition.mode@ == "validate_returned_text"@ && definition.max_validation_bytes <= 65536
            ==> (compiled matches Err(e) ==> definition.objection(compiled) == Some(e@)),
{
}

/// Storage that does not answer in time has timed out, and storage that is gone is not
/// available. A writer serves the file that it was opened for as long as it lives.
pub proof fn silent_storage_is_told_apart(silence: Silence, lane: WriterLane, path: FilePathView)
    ensures
        silence == Silence::Timeout ==> silence_error(silence) == StoreError::StorageTimedOut,
        silence == Silence::Disconnected ==> silence_error(silence)
            == StoreError::StorageUnavailable,
        serves(lane, path) <==> (lane.live && lane.path.deep_view() == path),
{
}

/// Requests that wait are listed by their tokens, each once and all of them, and so are the
/// questions by their ids.
pub proof fn waiting_requests_are_listed_once(
    held: Held,
    tokens: Seq<Seq<char>>,
    entries: Entries,
    ids: Seq<Seq<char>>,
)
    ensures
        lists_tokens(held, tokens) ==> {
            &&& forall|i: int| 0 <= i < tokens.len() ==> held.contains_key(#[trigger] tokens[i])
            &&& forall|token: Seq<char>| #[trigger]
                held.contains_key(token) ==> tokens.contains(token)
            &&& tokens.no_duplicates()
            &&& forall|i: int, j: int|
                0 <= i < j < tokens.len() ==> text_before(#[trigger] tokens[i], #[trigger] tokens[j])
        },
        lists_ids(entries, ids) ==> {
            &&& forall|i: int| 0 <= i < ids.len() ==> entries.contains_key(#[trigger] ids[i])
            &&& forall|id: Seq<char>| #[trigger] entries.contains_key(id) ==> ids.contains(id)
            &&& ids.no_duplicates()
            &&& forall|i: int, j: int|
                0 <= i < j < ids.len() ==> text_before(#[trigger] ids[i], #[trigger] ids[j])
        },
{
    if lists_tokens(held, tokens) {
        ordered_texts_differ(tokens);
        assert forall|i: int| 0 <= i < tokens.len() implies held.contains_key(
            #[trigger] tokens[i],
        ) by {
            assert(tokens.contains(tokens[i]));
        }
    }
    if lists_ids(entries, ids) {
        ordered_texts_differ(ids);
        assert forall|i: int| 0 <= i < ids.len() implies entries.contains_key(#[trigger] ids[i]) by {
            assert(ids.contains(ids[i]));
        }
    }
}

proof fn ordered_texts_differ(texts: Seq<Seq<char>>)
    requires
        forall|i: int, j: int|
            0 <= i < j < texts.len() ==> text_before(#[trigger] texts[i], #[trigger] texts[j]),
    ensures
        texts.no_duplicates(),
{
    assert forall|i: int, j: int|
        0 <= i < texts.len() && 0 <= j < texts.len() && i != j implies texts[i] != texts[j] by {
        text_before_irreflexive(texts[i]);
        if i < j {
            assert(text_before(texts[i], texts[j]));
        } else {
            assert(text_before(texts[j], texts[i]));
        }
    }
}

/// In a receipt everything but the numbers is written as it is, under the same names and in
/// the same order, and so is the version of the receipt. A fraction is written by the text
/// that stands for it.
pub proof fn receipts_keep_their_shape(
    value: JsonView,
    written: JsonView,
    fractions: Map<u64, Seq<char>>,
    depth: nat,
    name: Seq<char>,
)
    requires
        written_out(value, written, fractions, depth),
        depth > 0,
    ensures
        value is Null || value is Bool || value is Text ==> written == value,
        value matches JsonView::Array(items) ==> (written matches JsonView::Array(others)
            && others.len() == items.len() && forall|i: int|
            0 <= i < items.len() ==> written_out(
                #[trigger] items[i],
                others[i],
                fractions,
                (depth - 1) as nat,
            )),
        value matches JsonView::Object(members) ==> (written matches JsonView::Object(others) && (
        members.contains_key(name) <==> others.contains_key(name)) && (members.contains_key(name)
            ==> if name == "version"@ {
            others[name] == members[name]
        } else {
            written_out(members[name], others[name], fractions, (depth - 1) as nat)
        })),
        value matches JsonView::Number(JsonNumber::Float(bits)) ==> bits != 0 && bits
            != 0x8000_0000_0000_0000 ==> fractions.contains_key(bits) && written == JsonView::Text(
            fractions[bits],
        ),
{
}

/// A restoration is refused with a reason, and one that the store refuses with the store's.
pub proof fn restorations_are_refused_with_a_reason(
    reply: Result<(RestorationPolicy, MemoryResourceStore, SlotId), String>,
    reason: Seq<char>,
    e: StoreErrorView,
)
    ensures
        restore_refused(reply, reason) <==> (reply matches Err(told) && told@ == reason),
        store_message(e) == "record store: "@ + e.debug(),
        store_unusable(reply) ==> reply is Err,
{
}

} // verus!
