//! What holds of all evidence that is read back.

use crate::json::{Json, JsonNumber};
use crate::model::InstructionRole;
use crate::records::receipts::{
    digest_text, extension_data, extension_name, image_valid, input_objection, known_name,
    objection, reading, refused, restoration_objection, skill_valid, stated_version, supported, Decoded, ImageEvidence,
    InputStage, PreparedInput, Reading, Receipt, ReceiptError, RestorationStrategy, SkillEvidence,
};
use crate::records::Payload;
use crate::text::blank;
use vstd::prelude::*;
use vstd::utf8::encode_utf8;

verus! {

/// Evidence is read under six names and in the versions that are understood: inputs in one
/// to four, restorations in one to three, contracts, validations and tool invocations in
/// the first. Reports on the configuration state none.
pub proof fn evidence_is_read_in_known_versions(name: Seq<char>, version: u32)
    requires
        version > 0,
    ensures
        known_name(name) <==> (name == "input_receipt"@ || name == "restoration"@ || name
            == "result_contract"@ || name == "result_validation"@ || name
            == "configuration_report"@ || name == "tool_invocation"@),
        name == "input_receipt"@ ==> (supported(name, version) <==> version <= 4),
        name == "restoration"@ ==> (supported(name, version) <==> version <= 3),
        name == "result_contract"@ ==> (supported(name, version) <==> version == 1),
        name == "result_validation"@ ==> (supported(name, version) <==> version == 1),
        name == "tool_invocation"@ ==> (supported(name, version) <==> version == 1),
        name == "configuration_report"@ ==> !supported(name, version),
{
    reveal_strlit("input_receipt");
    reveal_strlit("restoration");
    reveal_strlit("result_contract");
    reveal_strlit("result_validation");
    reveal_strlit("configuration_report");
    reveal_strlit("tool_invocation");
    assert("input_receipt"@.len() == 13 && "restoration"@.len() == 11 && "result_contract"@.len()
        == 15 && "result_validation"@.len() == 17 && "configuration_report"@.len() == 20
        && "tool_invocation"@.len() == 15);
    assert("result_contract"@[0] != "tool_invocation"@[0]);
}

/// A version is a whole number above zero that stands under its name.
pub proof fn versions_are_whole_numbers(data: Json)
    ensures
        stated_version(data) is Some <==> (data.field("version"@) matches Some(
            Json::Number(JsonNumber::PosInt(n)),
        ) && 1 <= n && n <= 4294967295),
        stated_version(data) matches Some(version) ==> data.field("version"@) == Some(
            Json::Number(JsonNumber::PosInt(version as u64)),
        ),
{
}

/// Only evidence of this project is read, and only from objects. Evidence without a version
/// is refused, but for reports on the configuration, which must then say what is confirmed.
/// A version that is not understood is told and nothing else.
pub proof fn evidence_is_told_by_name_and_version(payload: Payload)
    ensures
        !(payload is Extension) ==> reading(payload) == Reading::Ignored,
        payload matches Payload::Extension { namespace, name, data } ==> {
            let own = namespace@ == "agent_bridge"@ && known_name(name@);
            let unversioned = name@ == "configuration_report"@ && data.field("version"@) is None;
            &&& !own ==> reading(payload) == Reading::Ignored
            &&& own && !(data is Object) ==> reading(payload) == Reading::Refused(
                "expected an object"@,
            )
            &&& own && data is Object && unversioned ==> reading(payload) == if data.field(
                "confirmed"@,
            ) is Some {
                Reading::Decode(None)
            } else {
                Reading::Refused("missing confirmed report"@)
            }
            &&& own && data is Object && !unversioned ==> match stated_version(data) {
                None => reading(payload) == Reading::Refused("missing or invalid version"@),
                Some(version) => if supported(name@, version) {
                    reading(payload) == Reading::Decode(Some(version))
                } else {
                    reading(payload) == Reading::Unsupported(version)
                },
            }
        },
{
}

/// What is told of a skill is consistent when nothing is claimed of the agent and either it
/// was found here and is to be delivered, without a reason, or it was left out for a reason
/// and not looked for.
pub proof fn skills_are_told_consistently(skill: SkillEvidence)
    ensures
        skill_valid(skill) <==> {
            let planned = skill.planned_delivery@;
            let delivered = planned == "supplemental_text"@ || planned == "require_native"@;
            &&& skill.native_availability@ == "unknown"@
            &&& skill.native_activation@ == "not_observed"@
            &&& delivered || planned == "omitted"@
            &&& delivered ==> skill.local_availability@ == "resolved"@ && skill.reason is None
            &&& planned == "omitted"@ ==> skill.local_availability@ == "not_checked"@
                && skill.reason is Some && !blank(skill.reason->0@)
        },
{
    reveal_strlit("supplemental_text");
    reveal_strlit("require_native");
    reveal_strlit("omitted");
    assert("supplemental_text"@.len() == 17 && "require_native"@.len() == 14 && "omitted"@.len()
        == 7);
}

/// An image is told by the sixty-four hexadecimal digits of its digest and stands behind the
/// text of the prompt.
pub proof fn images_are_told_by_their_digest(image: ImageEvidence)
    ensures
        image_valid(image) <==> (digest_text(image.sha256@) && image.prompt_block >= 1),
        digest_text(image.sha256@) <==> {
            let bytes = encode_utf8(image.sha256@);
            &&& bytes.len() == 64
            &&& forall|i: int|
                0 <= i < bytes.len() ==> {
                    let b = #[trigger] bytes[i];
                    (48 <= b && b <= 57) || (65 <= b && b <= 70) || (97 <= b && b <= 102)
                }
        },
{
}

/// An input in text is consistent when it is appended, has no images and as many bytes as it
/// says. Before the third version nothing is told of a policy and before the fourth nothing
/// of skills; from then on it is.
pub proof fn inputs_in_text_are_told_consistently(
    input: PreparedInput,
    version: u32,
    data: Json,
)
    requires
        1 <= version <= 4,
        input.encoding@ == "agent_bridge.text_context.v1"@,
    ensures
        input_objection(input, version, data) is None <==> {
            let policy = input.omissions.len() > 0 || input.instruction_authority is Some;
            &&& input.context_mode@ == "append_to_native"@
            &&& input.images is None
            &&& input.wire_bytes == encode_utf8(input.wire_text@).len()
            &&& version < 3 ==> !policy && input.requested_context is None
            &&& version == 3 ==> data.field("instruction_authority"@) is Some
                && input.requested_context is Some
            &&& policy ==> input.requested_context is Some
            &&& version < 4 ==> input.skills is None
            &&& version == 4 ==> input.skills is Some
            &&& input.skills matches Some(skills) ==> forall|i: int|
                0 <= i < skills@.len() ==> skill_valid(#[trigger] skills@[i])
        },
        input.context_mode@ != "append_to_native"@ ==> input_objection(input, version, data)
            == Some("unsupported context mode"@),
{
    reveal_strlit("agent_bridge.text_context.v1");
    reveal_strlit("agent_bridge.media_context.v1");
    assert("agent_bridge.text_context.v1"@.len() != "agent_bridge.media_context.v1"@.len());
}

/// An input with images is consistent from the second version on, when it tells each image,
/// says where the resources are kept, and counts at least the bytes of its text. An input in
/// any other form is refused.
pub proof fn inputs_with_images_are_told_consistently(
    input: PreparedInput,
    version: u32,
    data: Json,
)
    requires
        1 <= version <= 4,
        input.encoding@ != "agent_bridge.text_context.v1"@,
    ensures
        input_objection(input, version, data) is None ==> {
            &&& input.encoding@ == "agent_bridge.media_context.v1"@
            &&& input.context_mode@ == "append_to_native"@
            &&& version >= 2
            &&& input.images is Some
            &&& input.images->0@.len() > 0
            &&& forall|i: int|
                0 <= i < input.images->0@.len() ==> image_valid(#[trigger] input.images->0@[i])
            &&& input.resource_retention is Some
            &&& input.resource_retention->0@ == "supplied_resource_store"@
            &&& input.wire_bytes >= encode_utf8(input.wire_text@).len()
        },
        input.context_mode@ == "append_to_native"@ && input.encoding@
            != "agent_bridge.media_context.v1"@ ==> input_objection(input, version, data) == Some(
            "unsupported input encoding"@,
        ),
        version == 2 && input.encoding@ == "agent_bridge.media_context.v1"@ && input.context_mode@
            == "append_to_native"@ && input.images is Some && input.images->0@.len() > 0 && (
        forall|i: int| 0 <= i < input.images->0@.len() ==> image_valid(#[trigger] input.images->0@[i]))
            && input.resource_retention is Some && input.resource_retention->0@
            == "supplied_resource_store"@ && input.wire_bytes >= encode_utf8(
            input.wire_text@,
        ).len() && input.omissions.len() == 0 && input.instruction_authority is None
            && input.requested_context is None && input.skills is None ==> input_objection(
            input,
            version,
            data,
        ) is None,
{
}

/// A resumed session is told in the first version alone, as one whose context was reused and
/// not sent again.
pub proof fn resumed_sessions_are_told_consistently(strategy: RestorationStrategy, version: u32)
    ensures
        strategy matches RestorationStrategy::NativeResume {
            native_context,
            portable_context_replayed,
            ..
        } ==> (restoration_objection(strategy, version) is None <==> (version == 1
            && native_context@ == "reused_uninspected"@ && !portable_context_replayed)),
        strategy matches RestorationStrategy::PortableSelection {
            native_context,
            delivery,
            selected_instructions,
            context_policy,
            ..
        } ==> (restoration_objection(strategy, version) is None ==> native_context@
            == "new_session"@ && delivery@ == "pending_first_run"@ && (version == 1
            ==> context_policy is None) && (version == 2 ==> context_policy is Some) && (
        context_policy is Some && version < 3 ==> context_policy->0.skills.len() == 0) && forall|
            i: int,
        |
            0 <= i < selected_instructions@.len() ==> (#[trigger] selected_instructions@[i]).role
                == InstructionRole::Supplemental && selected_instructions@[i].delivery@
                == "user_text"@),
        strategy matches RestorationStrategy::PortableSelection {
            native_context,
            delivery,
            selected_instructions,
            context_policy,
            ..
        } ==> (version == 1 && native_context@ == "new_session"@ && delivery@
            == "pending_first_run"@ && context_policy is None && selected_instructions@.len() == 0
            ==> restoration_objection(strategy, version) is None),
{
}

/// A contract, a validation and an invocation are consistent when they name what they are
/// about. A contract is one that is checked here and leaves room for a result, and a valid
/// result was not also rejected.
pub proof fn other_evidence_is_told_consistently(decoded: Decoded, version: u32, data: Json)
    ensures
        decoded matches Decoded::ToolInvocation(value) ==> (objection(decoded, version, data) is None
            <==> (!blank(value.invocation_id@) && !blank(value.binding_id@) && !blank(
            value.tool.name@,
        ) && !blank(value.tool.revision@))),
        decoded matches Decoded::ResultContract(value) ==> (objection(decoded, version, data) is None
            <==> (value.mode@ == "validate_returned_text"@ && !value.native_enforcement
            && value.validator@ == "serde_deserialize"@ && value.max_validation_bytes >= 1
            && !blank(value.name@) && !blank(value.revision@))),
        decoded matches Decoded::ResultValidation(value) ==> (objection(
            decoded,
            version,
            data,
        ) is None <==> (value.mode@ == "validate_returned_text"@ && !value.native_enforcement
            && !blank(value.contract.name@) && !blank(value.contract.revision@) && !(
        value.validation is Valid && data.field("validation"@) is Some && data.field(
            "validation"@,
        )->0.field("rejection"@) is Some))),
        decoded is ConfigurationReport ==> objection(decoded, version, data) is None,
        decoded matches Decoded::Restoration(value) ==> objection(decoded, version, data)
            == restoration_objection(value.strategy, version),
        decoded matches Decoded::Input(value) ==> (value.stage matches InputStage::Prepared(input)
            ==> objection(decoded, version, data) == input_objection(*input, version, data)),
        decoded matches Decoded::Input(value) ==> !(value.stage is Prepared) ==> objection(
            decoded,
            version,
            data,
        ) is None,
{
}

/// Evidence is handed out as what it was read as, under the name that it was stored under.
pub proof fn evidence_is_handed_out_as_read(decoded: Decoded)
    ensures
        decoded matches Decoded::Input(value) ==> decoded.receipt() == Receipt::Input(value)
            && decoded.name() == "input_receipt"@,
        decoded matches Decoded::Restoration(value) ==> decoded.receipt() == Receipt::Restoration(
            value,
        ) && decoded.name() == "restoration"@,
        decoded matches Decoded::ResultContract(value) ==> decoded.receipt()
            == Receipt::ResultContract(value) && decoded.name() == "result_contract"@,
        decoded matches Decoded::ResultValidation(value) ==> decoded.receipt()
            == Receipt::ResultValidation(value) && decoded.name() == "result_validation"@,
        decoded matches Decoded::ConfigurationReport(value) ==> decoded.receipt()
            == Receipt::ConfigurationReport(value) && decoded.name() == "configuration_report"@,
        decoded matches Decoded::ToolInvocation(value) ==> decoded.receipt()
            == Receipt::ToolInvocation(value) && decoded.name() == "tool_invocation"@,
{
}

/// Evidence is refused under the name that it was stored under.
pub proof fn evidence_is_named_as_stored(payload: Payload, reason: Seq<char>)
    ensures
        payload matches Payload::Extension { name, data, .. } ==> extension_name(payload) == name@
            && extension_data(payload) == data,
        forall|reply: Result<Option<Receipt>, ReceiptError>, name: Seq<char>| #[trigger]
            refused(reply, name, reason) <==> (reply matches Err(e) && e.name@ == name && e.reason@
                == reason),
{
}

} // verus!
