//! What holds of every text that is read or written.

use crate::acp::error::{AcpErrorView, RecordingErrorView};
use crate::context::{ContextErrorView, ResourceErrorView};
use crate::providers::driver::ProviderErrorView;
use crate::questions::QuestionErrorView;
use crate::records::StoreErrorView;
use crate::text::{
    bytes_before, debug_quoted, decimal, digit, first_index, json_inner, json_quoted, signed_decimal,
    text_before, trimmed, trimmed_end, trimmed_start, up_to, white_space,
};
use crate::tools::ToolErrorView;
use vstd::prelude::*;
use vstd::utf8::encode_utf8;

verus! {

/// A JSON string stands between quotes. A quote and a backslash in it follow a backslash,
/// the common control characters are written by their letters and the other ones by their
/// codes, and every other character stands for itself.
pub proof fn strings_are_escaped_sign_by_sign(s: Seq<char>, c: char)
    ensures
        json_quoted(Seq::empty()) == seq!['"', '"'],
        ({
            let rest = json_quoted(s).skip(1);
            let all = json_quoted(seq![c] + s);
            let u = c as nat;
            &&& json_quoted(s)[0] == '"'
            &&& json_quoted(s).last() == '"'
            &&& c == '"' ==> all == seq!['"', '\\', '"'] + rest
            &&& c == '\\' ==> all == seq!['"', '\\', '\\'] + rest
            &&& u == 8 ==> all == seq!['"', '\\', 'b'] + rest
            &&& u == 9 ==> all == seq!['"', '\\', 't'] + rest
            &&& u == 10 ==> all == seq!['"', '\\', 'n'] + rest
            &&& u == 12 ==> all == seq!['"', '\\', 'f'] + rest
            &&& u == 13 ==> all == seq!['"', '\\', 'r'] + rest
            &&& u < 32 && u != 8 && u != 9 && u != 10 && u != 12 && u != 13 ==> {
                let high = if u < 16 {
                    '0'
                } else {
                    '1'
                };
                let low = if u % 16 < 10 {
                    (48 + u % 16) as char
                } else {
                    (87 + u % 16) as char
                };
                all == seq!['"', '\\', 'u', '0', '0', high, low] + rest
            }
            &&& u >= 32 && c != '"' && c != '\\' ==> all == seq!['"', c] + rest
        }),
{
    reveal(json_quoted);
    let joined = seq![c] + s;
    assert(joined.skip(1) =~= s);
    assert(joined[0] == c);
    assert(json_quoted(s).skip(1) =~= json_inner(s) + seq!['"']);
    let rest = json_quoted(s).skip(1);
    let written = crate::text::json_escaped(c);
    assert(json_quoted(joined) =~= seq!['"'] + written + rest);
    assert(seq!['"'] + json_inner(Seq::empty()) + seq!['"'] =~= seq!['"', '"']);
    let u = c as nat;
    if c == '"' {
        assert(seq!['"'] + written =~= seq!['"', '\\', '"']);
    } else if c == '\\' {
        assert(seq!['"'] + written =~= seq!['"', '\\', '\\']);
    } else if u == 8 {
        assert(seq!['"'] + written =~= seq!['"', '\\', 'b']);
    } else if u == 9 {
        assert(seq!['"'] + written =~= seq!['"', '\\', 't']);
    } else if u == 10 {
        assert(seq!['"'] + written =~= seq!['"', '\\', 'n']);
    } else if u == 12 {
        assert(seq!['"'] + written =~= seq!['"', '\\', 'f']);
    } else if u == 13 {
        assert(seq!['"'] + written =~= seq!['"', '\\', 'r']);
    } else if u < 32 {
        let high = if u < 16 {
            '0'
        } else {
            '1'
        };
        let low = if u % 16 < 10 {
            (48 + u % 16) as char
        } else {
            (87 + u % 16) as char
        };
        assert(u / 16 == 0 || u / 16 == 1);
        assert(seq!['"'] + written =~= seq!['"', '\\', 'u', '0', '0', high, low]);
    } else {
        assert(seq!['"'] + written =~= seq!['"', c]);
    }
}

/// A number is written in decimal digits, the highest first: another digit after it is ten
/// times the number and the digit. A negative number has a sign before it.
pub proof fn numbers_are_written_digit_by_digit(n: nat, d: nat)
    requires
        d < 10,
    ensures
        decimal(d) == seq![digit(d)],
        n > 0 ==> decimal(n * 10 + d) == decimal(n).push(digit(d)),
        digit(d) as nat == '0' as nat + d,
        signed_decimal(n as int) == decimal(n),
        n > 0 ==> signed_decimal(-(n as int)) == "-"@ + decimal(n),
{
    if n > 0 {
        let m = n * 10 + d;
        assert(m >= 10);
        assert(m / 10 == n && m % 10 == d);
    }
}

/// What is trimmed is the text without the white space at its ends, and nothing else.
pub proof fn trimming_takes_white_space_alone(
    before: Seq<char>,
    middle: Seq<char>,
    after: Seq<char>,
)
    requires
        forall|i: int| 0 <= i < before.len() ==> white_space(#[trigger] before[i]),
        forall|i: int| 0 <= i < after.len() ==> white_space(#[trigger] after[i]),
        middle.len() > 0,
        !white_space(middle[0]),
        !white_space(middle.last()),
    ensures
        trimmed(before + middle + after) == middle,
{
    starts_are_trimmed(before, middle + after);
    assert(before + middle + after =~= before + (middle + after));
    ends_are_trimmed(middle, after);
}

proof fn starts_are_trimmed(before: Seq<char>, rest: Seq<char>)
    requires
        forall|i: int| 0 <= i < before.len() ==> white_space(#[trigger] before[i]),
        rest.len() > 0,
        !white_space(rest[0]),
    ensures
        trimmed_start(before + rest) == rest,
    decreases before.len(),
{
    if before.len() > 0 {
        starts_are_trimmed(before.skip(1), rest);
        assert((before + rest).skip(1) =~= before.skip(1) + rest);
        assert((before + rest)[0] == before[0]);
    } else {
        assert(before + rest =~= rest);
    }
}

proof fn ends_are_trimmed(middle: Seq<char>, after: Seq<char>)
    requires
        forall|i: int| 0 <= i < after.len() ==> white_space(#[trigger] after[i]),
        middle.len() > 0,
        !white_space(middle.last()),
    ensures
        trimmed_end(middle + after) == middle,
    decreases after.len(),
{
    if after.len() > 0 {
        ends_are_trimmed(middle, after.drop_last());
        assert((middle + after).drop_last() =~= middle + after.drop_last());
        assert((middle + after).last() == after.last());
    } else {
        assert(middle + after =~= middle);
    }
}

/// What stands up to a sign is everything before its first occurrence, and the whole text if
/// there is none.
pub proof fn texts_end_at_the_first_sign(before: Seq<char>, c: char, after: Seq<char>)
    requires
        forall|i: int| 0 <= i < before.len() ==> #[trigger] before[i] != c,
    ensures
        up_to(before, c) == before,
        up_to(before + seq![c] + after, c) == before,
{
    first_signs_are_found(before, c, Seq::empty());
    first_signs_are_found(before, c, seq![c] + after);
    assert(before + Seq::<char>::empty() =~= before);
    assert(before + (seq![c] + after) =~= before + seq![c] + after);
    assert((before + seq![c] + after).take(before.len() as int) =~= before);
    assert(before.take(before.len() as int) =~= before);
}

proof fn first_signs_are_found(before: Seq<char>, c: char, rest: Seq<char>)
    requires
        forall|i: int| 0 <= i < before.len() ==> #[trigger] before[i] != c,
        rest.len() > 0 ==> rest[0] == c,
    ensures
        first_index(before + rest, c) == before.len(),
    decreases before.len(),
{
    if before.len() > 0 {
        first_signs_are_found(before.skip(1), c, rest);
        assert((before + rest).skip(1) =~= before.skip(1) + rest);
    } else {
        assert(before + rest =~= rest);
    }
}

/// Blanks, tabs and line breaks are white space. Printable signs are not.
pub proof fn printable_signs_are_no_white_space(c: char)
    ensures
        c == ' ' ==> white_space(c),
        9 <= c as u32 <= 13 ==> white_space(c),
        33 <= c as u32 <= 126 ==> !white_space(c),
        (c as u32) < 9 || 14 <= c as u32 <= 31 ==> !white_space(c),
        c as u32 == 133 || c as u32 == 160 || c as u32 == 5760 || 8192 <= c as u32 <= 8202 || c
            as u32 == 8232 || c as u32 == 8233 || c as u32 == 8239 || c as u32 == 8287 || c as u32
            == 12288 ==> white_space(c),
        c as u32 > 12288 ==> !white_space(c),
{
}

/// Texts are ordered by their bytes: what begins another comes before it, and otherwise the
/// first byte that differs decides.
pub proof fn texts_are_ordered_by_their_bytes(
    common: Seq<u8>,
    a: u8,
    b: u8,
    x: Seq<u8>,
    y: Seq<u8>,
)
    ensures
        a < b ==> bytes_before(common + seq![a] + x, common + seq![b] + y),
        bytes_before(common, common + seq![b] + y),
        !bytes_before(common + seq![b] + y, common),
        forall|s: Seq<char>, t: Seq<char>| #[trigger]
            text_before(s, t) <==> bytes_before(encode_utf8(s), encode_utf8(t)),
    decreases common.len(),
{
    let p = common + seq![a] + x;
    let q = common + seq![b] + y;
    if common.len() > 0 {
        texts_are_ordered_by_their_bytes(common.skip(1), a, b, x, y);
        assert(p.skip(1) =~= common.skip(1) + seq![a] + x);
        assert(q.skip(1) =~= common.skip(1) + seq![b] + y);
        assert(p[0] == common[0] && q[0] == common[0]);
    } else {
        assert(p[0] == a && q[0] == b);
    }
}

/// Every error of an agent says what went wrong in its own words.
pub proof fn agent_errors_are_worded(error: AcpErrorView)
    ensures
        error == AcpErrorView::InitializationTimedOut ==> error.message()
            == "ACP initialization timed out"@,
        error == AcpErrorView::ClosedBeforeInitialization ==> error.message()
            == "ACP closed before initialization"@,
        error == AcpErrorView::UnsupportedProtocolVersion ==> error.message()
            == "agent did not negotiate ACP v1"@,
        error == AcpErrorView::ShutdownTimedOut ==> error.message() == "ACP shutdown timed out"@,
        error == AcpErrorView::RequestTimedOut ==> error.message()
            == "ACP session setup timed out; no retry was attempted"@,
        error == AcpErrorView::Closed ==> error.message()
            == "ACP connection closed; execution outcome may be unknown"@,
        error == AcpErrorView::InvalidWorkingDirectory ==> error.message()
            == "ACP requires an absolute working directory"@,
        error == AcpErrorView::InvalidMcpCommand ==> error.message()
            == "ACP requires an absolute MCP executable path"@,
        error == AcpErrorView::UnsupportedMcpTransport ==> error.message()
            == "agent does not advertise the requested MCP transport"@,
        error == AcpErrorView::EmptyPrompt ==> error.message() == "prompt cannot be blank"@,
        error == AcpErrorView::SessionUnavailable ==> error.message()
            == "session is active, retired, or returned a duplicate provider ID"@,
        error == AcpErrorView::InvalidPermission ==> error.message()
            == "permission is resolved, unknown, or the option was not offered"@,
        error == AcpErrorView::EventBufferFull ==> error.message()
            == "ACP event buffer filled; this run cannot be consumed reliably"@,
        error == AcpErrorView::ResumeUnsupported ==> error.message()
            == "agent does not advertise native session resume"@,
        error == AcpErrorView::ContinuationScopeRequired ==> error.message()
            == "set a nonempty continuation scope for this provider connection"@,
        error == AcpErrorView::IncompatibleContinuation ==> error.message()
            == "continuation is incompatible with this scope, adapter, or agent version"@,
        error == AcpErrorView::UnsafeHandoff ==> error.message()
            == "session has unfinished or uncertain work and cannot be handed off"@,
        error == AcpErrorView::ConfigurationUnsupported ==> error.message()
            == "provider did not expose session configuration options"@,
        error == AcpErrorView::UnknownConfigurationOption ==> error.message()
            == "configuration option was not offered by the provider"@,
        error == AcpErrorView::InvalidConfigurationValue ==> error.message()
            == "value has the wrong type or was not offered for this option"@,
        error == AcpErrorView::InvalidConfiguration ==> error.message()
            == "provider returned an invalid configuration catalog"@,
        error == AcpErrorView::ConfigurationUncertain ==> error.message()
            == "configuration is pending or uncertain; wait for a report or reconnect"@,
        error == AcpErrorView::ConfigurationRejected ==> error.message()
            == "provider did not confirm the requested option value"@,
        error == AcpErrorView::ConfigurationChanged ==> error.message()
            == "configuration changed before dispatch; choose a new run ID and retry explicitly"@,
        error == AcpErrorView::ModelSelectorUnavailable ==> error.message()
            == "provider does not expose exactly one model selector; use an explicit option ID"@,
        error matches AcpErrorView::Store(inner) ==> error.message()
            == "record store: "@ + inner.debug(),
        error matches AcpErrorView::Protocol(text) ==> error.message()
            == "ACP connection failed: "@ + text,
        error matches AcpErrorView::Task(text) ==> error.message()
            == "ACP connection task failed: "@ + text,
{
}

/// Every error of a recording says what went wrong in its own words, and those of an agent
/// or a store in theirs.
pub proof fn recording_errors_are_worded(error: RecordingErrorView)
    ensures
        error == RecordingErrorView::NativeStructuredOutputUnsupported ==> error.message()
            == "this ACP driver cannot guarantee native structured-output enforcement"@,
        error matches RecordingErrorView::Context(inner) ==> error.message()
            == "context preparation: "@ + inner.debug(),
        error matches RecordingErrorView::UnsupportedContext(text) ==> error.message() == text,
        error matches RecordingErrorView::Store(inner) ==> error.message()
            == "record store: "@ + inner.debug(),
        error matches RecordingErrorView::Agent(inner) ==> error.message() == inner.message(),
        error == RecordingErrorView::RunAlreadyRecorded ==> error.message()
            == "run identity is already registered; choose a new ID"@,
        error == RecordingErrorView::Closed ==> error.message()
            == "recording stopped after an error"@,
        error == RecordingErrorView::MissingPermission ==> error.message()
            == "decision has no observed permission request"@,
        error matches RecordingErrorView::Serialization(text) ==> error.message() == text,
{
}

/// Every error of a tool says what went wrong, and that of a handler what the handler said.
pub proof fn tool_errors_are_worded(error: ToolErrorView)
    ensures
        error == ToolErrorView::NotGranted ==> error.message() == "tool is not granted"@,
        error matches ToolErrorView::InvalidArguments(text) ==> error.message()
            == "invalid tool arguments: "@ + text,
        error matches ToolErrorView::Handler(text) ==> error.message() == text,
        error == ToolErrorView::Cancelled ==> error.message() == "tool invocation was cancelled"@,
{
}

/// Every error of a provider says what went wrong in its own words, and those of an agent in
/// theirs.
pub proof fn provider_errors_are_worded(error: ProviderErrorView)
    ensures
        error matches ProviderErrorView::UnsupportedDriver(id) ==> error.message()
            == "no matching driver for "@ + id,
        error matches ProviderErrorView::UnsupportedRuntime { minimum_major, found_major } ==> error.message()
            == "Node "@
                + decimal(minimum_major as nat) + "+ is required; reported major version: "@
                + match found_major {
                Some(major) => "Some("@ + decimal(major as nat) + ")"@,
                None => "None"@,
            },
        error == ProviderErrorView::RuntimeProbeTimedOut ==> error.message()
            == "Node version probe timed out"@,
        error == ProviderErrorView::RuntimeProbeFailed ==> error.message()
            == "Node version probe failed"@,
        error == ProviderErrorView::IncompatibleProtocol ==> error.message()
            == "provider negotiated an unsupported ACP protocol version"@,
        error == ProviderErrorView::AuthenticationRequired ==> error.message()
            == "provider requires authentication; use its supported local setup flow"@,
        error matches ProviderErrorView::Agent(inner) ==> error.message() == inner.message(),
{
}

/// Every error of a store is printed by its name, with what it holds in brackets.
pub proof fn store_errors_are_printed_by_name(error: StoreErrorView)
    ensures
        error == StoreErrorView::MissingSession ==> error.debug() == "MissingSession"@,
        error == StoreErrorView::MissingRun ==> error.debug() == "MissingRun"@,
        error == StoreErrorView::MissingRecord ==> error.debug() == "MissingRecord"@,
        error == StoreErrorView::IdentityConflict ==> error.debug() == "IdentityConflict"@,
        error == StoreErrorView::WrongSession ==> error.debug() == "WrongSession"@,
        error == StoreErrorView::RevisionConflict ==> error.debug() == "RevisionConflict"@,
        error == StoreErrorView::Finalized ==> error.debug() == "Finalized"@,
        error == StoreErrorView::InvalidPayload ==> error.debug() == "InvalidPayload"@,
        error == StoreErrorView::InvalidDecision ==> error.debug() == "InvalidDecision"@,
        error == StoreErrorView::AlreadyResolved ==> error.debug() == "AlreadyResolved"@,
        error == StoreErrorView::OpenContextRecord ==> error.debug() == "OpenContextRecord"@,
        error == StoreErrorView::InvalidPageSize ==> error.debug() == "InvalidPageSize"@,
        error == StoreErrorView::SequenceExhausted ==> error.debug() == "SequenceExhausted"@,
        error == StoreErrorView::Poisoned ==> error.debug() == "Poisoned"@,
        error == StoreErrorView::Busy ==> error.debug() == "Busy"@,
        error == StoreErrorView::UnversionedSchema ==> error.debug() == "UnversionedSchema"@,
        error == StoreErrorView::MissingContinuation ==> error.debug() == "MissingContinuation"@,
        error == StoreErrorView::ContinuationClaimed ==> error.debug() == "ContinuationClaimed"@,
        error == StoreErrorView::ContinuationConflict ==> error.debug() == "ContinuationConflict"@,
        error == StoreErrorView::InvalidContinuation ==> error.debug() == "InvalidContinuation"@,
        error == StoreErrorView::ExecutionRelationConflict ==> error.debug()
            == "ExecutionRelationConflict"@,
        error == StoreErrorView::InvalidExecutionRelation ==> error.debug()
            == "InvalidExecutionRelation"@,
        error == StoreErrorView::ExecutionCycle ==> error.debug() == "ExecutionCycle"@,
        error == StoreErrorView::InvalidChangeCursor ==> error.debug() == "InvalidChangeCursor"@,
        error == StoreErrorView::StorageOverloaded ==> error.debug() == "StorageOverloaded"@,
        error == StoreErrorView::StorageUnavailable ==> error.debug() == "StorageUnavailable"@,
        error == StoreErrorView::StorageTimedOut ==> error.debug() == "StorageTimedOut"@,
        error matches StoreErrorView::Database(text) ==> error.debug()
            == "Database"@ + "("@ + debug_quoted(text) + ")"@,
        error matches StoreErrorView::CorruptData(text) ==> error.debug()
            == "CorruptData"@ + "("@ + debug_quoted(text) + ")"@,
        error matches StoreErrorView::UnsupportedSchemaVersion(version) ==> error.debug()
            == "UnsupportedSchemaVersion"@ + "("@ + signed_decimal(version as int) + ")"@,
        error matches StoreErrorView::UnsupportedDataVersion(version) ==> error.debug()
            == "UnsupportedDataVersion"@ + "("@ + decimal(version as nat) + ")"@,
{
}

/// Every error of a resource is printed by its name, with what it holds in brackets.
pub proof fn resource_errors_are_printed_by_name(error: ResourceErrorView)
    ensures
        error matches ResourceErrorView::Store(inner) ==> error.debug()
            == "Store"@ + "("@ + inner.debug() + ")"@,
        error == ResourceErrorView::Missing ==> error.debug() == "Missing"@,
        error == ResourceErrorView::Invalid ==> error.debug() == "Invalid"@,
        error == ResourceErrorView::RevisionConflict ==> error.debug() == "RevisionConflict"@,
        error == ResourceErrorView::Poisoned ==> error.debug() == "Poisoned"@,
{
}

/// Every error of a question is printed by its name, with what it holds in brackets.
pub proof fn question_errors_are_printed_by_name(error: QuestionErrorView)
    ensures
        error matches QuestionErrorView::Store(inner) ==> error.debug()
            == "Store"@ + "("@ + inner.debug() + ")"@,
        error == QuestionErrorView::NotQuestion ==> error.debug() == "NotQuestion"@,
        error == QuestionErrorView::AlreadyExists ==> error.debug() == "AlreadyExists"@,
        error == QuestionErrorView::ReceiverClosed ==> error.debug() == "ReceiverClosed"@,
{
}

/// Every error of a context is printed by its name, with what it holds in brackets.
pub proof fn context_errors_are_printed_by_name(error: ContextErrorView)
    ensures
        error == ContextErrorView::InstructionUnauthorized ==> error.debug()
            == "InstructionUnauthorized"@,
        error == ContextErrorView::InvalidOmission ==> error.debug() == "InvalidOmission"@,
        error == ContextErrorView::ItemLimit ==> error.debug() == "ItemLimit"@,
        error == ContextErrorView::ResourceByteLimit ==> error.debug() == "ResourceByteLimit"@,
        error matches ContextErrorView::Store(inner) ==> error.debug() == "Store"@ + "("@
            + inner.debug() + ")"@,
        error matches ContextErrorView::RecordOutsideScope(id) ==> error.debug()
            == "RecordOutsideScope"@ + "("@ + ("RecordId"@ + "("@ + debug_quoted(id) + ")"@) + ")"@,
        error matches ContextErrorView::OpenRecord(id) ==> error.debug() == "OpenRecord"@ + "("@ + (
        "RecordId"@ + "("@ + debug_quoted(id) + ")"@) + ")"@,
        error matches ContextErrorView::ReferencedOmission(reference) ==> error.debug()
            == "ReferencedOmission"@ + "("@ + ("ResourceRef { id: ResourceId("@ + debug_quoted(
            reference.id,
        ) + "), revision: "@ + debug_quoted(reference.revision) + " }"@) + ")"@,
        error matches ContextErrorView::InvalidInstruction(reference) ==> error.debug()
            == "InvalidInstruction"@ + "("@ + ("ResourceRef { id: ResourceId("@ + debug_quoted(
            reference.id,
        ) + "), revision: "@ + debug_quoted(reference.revision) + " }"@) + ")"@,
{
}

} // verus!
