//! Version-aware readers for bridge-owned evidence. Parsing is not verification
//! of provider execution, resource retention, instruction authority, or activation.

use crate::authority::{ToolRef, ToolScope};
use crate::configuration::ConfigValues;
use crate::id::{ActorId, ContinuationId, RecordId, ResourceId, SessionId, SlotId};
use crate::json::{Json, JsonNumber};
use crate::model::{ContextManifest, InstructionRef, InstructionRole, ResourceRef};
use crate::records::Payload;
use crate::structured::JsonRejection;
use crate::text::{blank, byte_len, bytes_of, is_blank, same_text};
use vstd::prelude::*;
use vstd::string::*;
use vstd::utf8::encode_utf8;

verus! {

/// A record at one revision.
#[derive(Debug, PartialEq, Eq)]
pub struct RecordRevision {
    pub id: RecordId,
    pub revision: u64,
}

/// One explicit selection.
#[derive(Debug, PartialEq, Eq)]
pub enum ContextItem {
    Record { id: RecordId },
    Resource { resource: ResourceRef },
    Instruction { instruction: InstructionRef },
}

/// A selection that was left out on purpose.
#[derive(Debug, PartialEq, Eq)]
pub struct Omission {
    pub item: ContextItem,
    pub reason: String,
}

/// The grant on which instructions were supplied.
#[derive(Debug, PartialEq, Eq)]
pub struct InstructionAuthority {
    pub issuer: ActorId,
    pub requester: ActorId,
    pub subject: ActorId,
    pub granted_instructions: Vec<InstructionRef>,
}

/// What is known of the delivery of a skill.
#[derive(Debug, PartialEq, Eq)]
pub struct SkillEvidence {
    pub resource: ResourceRef,
    pub planned_delivery: String,
    pub local_availability: String,
    pub native_availability: String,
    pub native_activation: String,
    pub reason: Option<String>,
}

/// The policy under which a context was selected.
#[derive(Debug, PartialEq, Eq)]
pub struct ContextPolicyEvidence {
    pub omissions: Vec<Omission>,
    pub instruction_authority: Option<InstructionAuthority>,
    pub requested_context: ContextManifest,
    pub skills: Vec<SkillEvidence>,
}

/// An image that was part of the input.
#[derive(Debug, PartialEq, Eq)]
pub struct ImageEvidence {
    pub reference: ResourceRef,
    pub media_type: String,
    pub sha256: String,
    pub bytes: u64,
    pub prompt_block: u64,
}

/// What was prepared to be sent.
#[derive(Debug, PartialEq, Eq)]
pub struct PreparedInput {
    pub encoding: String,
    pub context_mode: String,
    pub wire_text: String,
    pub wire_bytes: u64,
    pub omissions: Vec<Omission>,
    pub images: Option<Vec<ImageEvidence>>,
    pub resource_retention: Option<String>,
    pub instruction_authority: Option<InstructionAuthority>,
    pub requested_context: Option<ContextManifest>,
    pub skills: Option<Vec<SkillEvidence>>,
}

/// How far an input got.
#[derive(Debug, PartialEq, Eq)]
pub enum InputStage {
    Prepared(Box<PreparedInput>),
    DispatchAttempted,
    ResponseReceived { stop_reason: String },
    Unknown,
}

/// Evidence of an input.
#[derive(Debug, PartialEq, Eq)]
pub struct InputReceipt {
    pub version: u32,
    pub stage: InputStage,
}

/// An instruction that was selected for a restored session.
#[derive(Debug, PartialEq, Eq)]
pub struct SelectedInstruction {
    pub id: ResourceId,
    pub revision: String,
    pub role: InstructionRole,
    pub delivery: String,
}

/// How a session was restored.
#[derive(Debug, PartialEq, Eq)]
pub enum RestorationStrategy {
    NativeResume {
        continuation: ContinuationId,
        native_context: String,
        portable_context_replayed: bool,
    },
    PortableSelection {
        native_context: String,
        session_id: SessionId,
        slot_id: SlotId,
        selected_records: Vec<RecordRevision>,
        selected_resources: Vec<ResourceRef>,
        selected_instructions: Vec<SelectedInstruction>,
        not_transferred: Vec<String>,
        delivery: String,
        context_policy: Option<Box<ContextPolicyEvidence>>,
    },
}

/// Evidence of a restoration.
#[derive(Debug, PartialEq, Eq)]
pub struct RestorationReceipt {
    pub version: u32,
    pub strategy: RestorationStrategy,
}

/// A named contract at a revision.
#[derive(Debug, PartialEq, Eq)]
pub struct ContractIdentity {
    pub name: String,
    pub revision: String,
}

/// What a result had to be.
#[derive(Debug, PartialEq, Eq)]
pub struct ResultContract {
    pub version: u32,
    pub name: String,
    pub revision: String,
    pub mode: String,
    pub native_enforcement: bool,
    pub max_validation_bytes: u64,
    pub validator: String,
    pub application_validation: bool,
    pub wire_text: String,
}

/// Whether a result was accepted.
#[derive(Debug, PartialEq, Eq)]
pub enum ValidationOutcome {
    Valid,
    Rejected { rejection: JsonRejection },
}

/// Evidence of the validation of a result.
#[derive(Debug, PartialEq, Eq)]
pub struct ResultValidation {
    pub version: u32,
    pub contract: ContractIdentity,
    pub mode: String,
    pub native_enforcement: bool,
    pub sources: Vec<RecordRevision>,
    pub validation: ValidationOutcome,
}

/// What a provider reported of its configuration.
#[derive(Debug, PartialEq, Eq)]
pub struct ConfigurationReport {
    pub confirmed: Option<ConfigValues>,
}

/// What came of a tool call.
#[derive(Debug, PartialEq, Eq)]
pub enum ToolOutcome {
    Success { value: Json },
    Error { message: String },
}

/// How far a tool call got.
#[derive(Debug, PartialEq, Eq)]
pub enum ToolInvocationStage {
    DispatchAttempted { input: Json },
    Returned { outcome: ToolOutcome },
    Unknown { reason: String },
}

/// Evidence of a tool call.
#[derive(Debug, PartialEq, Eq)]
pub struct ToolInvocationReceipt {
    pub version: u32,
    pub invocation_id: String,
    pub binding_id: String,
    pub scope: ToolScope,
    pub tool: ToolRef,
    pub issuer: ActorId,
    pub subject: ActorId,
    pub stage: ToolInvocationStage,
}

/// Evidence as it was read.
#[derive(Debug, PartialEq, Eq)]
pub enum Receipt {
    Input(InputReceipt),
    Restoration(Box<RestorationReceipt>),
    ResultContract(ResultContract),
    ResultValidation(ResultValidation),
    ConfigurationReport(ConfigurationReport),
    ToolInvocation(Box<ToolInvocationReceipt>),
    Unsupported { name: String, version: u32 },
}

/// The data of an extension record, taken as the receipt that its name calls for and
/// not looked at any further.
#[derive(Debug, PartialEq, Eq)]
pub enum Decoded {
    Input(InputReceipt),
    Restoration(Box<RestorationReceipt>),
    ResultContract(ResultContract),
    ResultValidation(ResultValidation),
    ConfigurationReport(ConfigurationReport),
    ToolInvocation(Box<ToolInvocationReceipt>),
}

/// Why evidence could not be read.
#[derive(Debug, PartialEq, Eq)]
pub struct ReceiptError {
    pub name: String,
    pub reason: String,
}

impl ReceiptError {
    /// What the error says.
    pub fn to_string(&self) -> (r: String)
        ensures
            r@ == "invalid "@ + self.name@ + " receipt: "@ + self.reason@,
    {
        let mut r = "invalid ".to_owned();
        r.append(self.name.as_str());
        r.append(" receipt: ");
        r.append(self.reason.as_str());
        r
    }
}

impl Decoded {
    /// The name of such receipts.
    pub open spec fn name(self) -> Seq<char> {
        match self {
            Decoded::Input(_) => "input_receipt"@,
            Decoded::Restoration(_) => "restoration"@,
            Decoded::ResultContract(_) => "result_contract"@,
            Decoded::ResultValidation(_) => "result_validation"@,
            Decoded::ConfigurationReport(_) => "configuration_report"@,
            Decoded::ToolInvocation(_) => "tool_invocation"@,
        }
    }

    /// The receipt.
    pub open spec fn receipt(self) -> Receipt {
        match self {
            Decoded::Input(value) => Receipt::Input(value),
            Decoded::Restoration(value) => Receipt::Restoration(value),
            Decoded::ResultContract(value) => Receipt::ResultContract(value),
            Decoded::ResultValidation(value) => Receipt::ResultValidation(value),
            Decoded::ConfigurationReport(value) => Receipt::ConfigurationReport(value),
            Decoded::ToolInvocation(value) => Receipt::ToolInvocation(value),
        }
    }

    fn into_receipt(self) -> (r: Receipt)
        ensures
            r == self.receipt(),
    {
        match self {
            Decoded::Input(value) => Receipt::Input(value),
            Decoded::Restoration(value) => Receipt::Restoration(value),
            Decoded::ResultContract(value) => Receipt::ResultContract(value),
            Decoded::ResultValidation(value) => Receipt::ResultValidation(value),
            Decoded::ConfigurationReport(value) => Receipt::ConfigurationReport(value),
            Decoded::ToolInvocation(value) => Receipt::ToolInvocation(value),
        }
    }
}

/// The names of evidence that is understood.
pub open spec fn known_name(name: Seq<char>) -> bool {
    ||| name == "input_receipt"@
    ||| name == "restoration"@
    ||| name == "result_contract"@
    ||| name == "result_validation"@
    ||| name == "configuration_report"@
    ||| name == "tool_invocation"@
}

fn is_known_name(name: &str) -> (r: bool)
    ensures
        r == known_name(name@),
{
    same_text(name, "input_receipt") || same_text(name, "restoration") || same_text(
        name,
        "result_contract",
    ) || same_text(name, "result_validation") || same_text(name, "configuration_report")
        || same_text(name, "tool_invocation")
}

/// The version that the data states, a positive number of 32 bits.
pub open spec fn stated_version(data: Json) -> Option<u32> {
    match data.field("version"@) {
        Some(Json::Number(JsonNumber::PosInt(n))) => if 0 < n <= u32::MAX {
            Some(n as u32)
        } else {
            None
        },
        _ => None,
    }
}

fn read_version(data: &Json) -> (r: Option<u32>)
    ensures
        r == stated_version(*data),
{
    match data.get("version") {
        Some(Json::Number(JsonNumber::PosInt(n))) => if 0 < *n && *n <= u32::MAX as u64 {
            Some(*n as u32)
        } else {
            None
        },
        _ => None,
    }
}

/// The versions of each kind of evidence that are understood.
pub open spec fn supported(name: Seq<char>, version: u32) -> bool {
    if name == "input_receipt"@ {
        version <= 4
    } else if name == "restoration"@ {
        version <= 3
    } else if name == "result_contract"@ || name == "result_validation"@ || name
        == "tool_invocation"@ {
        version == 1
    } else {
        false
    }
}

fn is_supported(name: &str, version: u32) -> (r: bool)
    ensures
        r == supported(name@, version),
{
    if same_text(name, "input_receipt") {
        version <= 4
    } else if same_text(name, "restoration") {
        version <= 3
    } else if same_text(name, "result_contract") || same_text(name, "result_validation")
        || same_text(name, "tool_invocation") {
        version == 1
    } else {
        false
    }
}

/// What the undecoded data leads to.
pub enum Reading {
    /// It is no evidence of this kind.
    Ignored,
    Refused(Seq<char>),
    Unsupported(u32),
    /// It has to be decoded. Only configuration reports have no version.
    Decode(Option<u32>),
}

/// What the data of evidence of a name leads to.
pub open spec fn data_reading(name: Seq<char>, data: Json) -> Reading {
    if !(data is Object) {
        Reading::Refused("expected an object"@)
    } else if name == "configuration_report"@ && data.field("version"@) is None {
        if data.field("confirmed"@) is None {
            Reading::Refused("missing confirmed report"@)
        } else {
            Reading::Decode(None)
        }
    } else {
        match stated_version(data) {
            None => Reading::Refused("missing or invalid version"@),
            Some(version) => if supported(name, version) {
                Reading::Decode(Some(version))
            } else {
                Reading::Unsupported(version)
            },
        }
    }
}

/// What a payload leads to.
pub open spec fn reading(payload: Payload) -> Reading {
    match payload {
        Payload::Extension { namespace, name, data } => if namespace@ == "agent_bridge"@
            && known_name(name@) {
            data_reading(name@, data)
        } else {
            Reading::Ignored
        },
        _ => Reading::Ignored,
    }
}

/// The name and the data of an extension.
pub open spec fn extension_name(payload: Payload) -> Seq<char> {
    match payload {
        Payload::Extension { name, .. } => name@,
        _ => Seq::empty(),
    }
}

/// The data of an extension.
pub open spec fn extension_data(payload: Payload) -> Json {
    match payload {
        Payload::Extension { data, .. } => data,
        _ => Json::Null,
    }
}

/// The evidence of a skill fits together.
pub open spec fn skill_valid(skill: SkillEvidence) -> bool {
    &&& skill.native_availability@ == "unknown"@
    &&& skill.native_activation@ == "not_observed"@
    &&& if skill.planned_delivery@ == "supplemental_text"@ || skill.planned_delivery@
        == "require_native"@ {
        skill.local_availability@ == "resolved"@ && skill.reason is None
    } else if skill.planned_delivery@ == "omitted"@ {
        skill.local_availability@ == "not_checked"@ && (skill.reason matches Some(reason) && !blank(
            reason@,
        ))
    } else {
        false
    }
}

/// The evidence of every skill fits together.
pub open spec fn all_skills_valid(skills: Seq<SkillEvidence>) -> bool {
    forall|i: int| 0 <= i < skills.len() ==> skill_valid(#[trigger] skills[i])
}

fn is_skill_valid(skill: &SkillEvidence) -> (r: bool)
    ensures
        r == skill_valid(*skill),
{
    let fits = if same_text(skill.planned_delivery.as_str(), "supplemental_text") || same_text(
        skill.planned_delivery.as_str(),
        "require_native",
    ) {
        same_text(skill.local_availability.as_str(), "resolved") && skill.reason.is_none()
    } else if same_text(skill.planned_delivery.as_str(), "omitted") {
        same_text(skill.local_availability.as_str(), "not_checked") && match &skill.reason {
            Some(reason) => !is_blank(reason.as_str()),
            None => false,
        }
    } else {
        false
    };
    fits && same_text(skill.native_availability.as_str(), "unknown") && same_text(
        skill.native_activation.as_str(),
        "not_observed",
    )
}

/// Whether the evidence of every skill fits together.
pub fn skills_valid(skills: &Vec<SkillEvidence>) -> (r: bool)
    ensures
        r == all_skills_valid(skills@),
{
    let mut i: usize = 0;
    while i < skills.len()
        invariant
            i <= skills.len(),
            forall|j: int| 0 <= j < i ==> skill_valid(#[trigger] skills@[j]),
        decreases skills.len() - i,
    {
        if !is_skill_valid(&skills[i]) {
            return false;
        }
        i = i + 1;
    }
    true
}

/// A hexadecimal digit.
pub open spec fn hex_digit(b: u8) -> bool {
    (0x30 <= b <= 0x39) || (0x41 <= b <= 0x46) || (0x61 <= b <= 0x66)
}

/// Sixty-four hexadecimal digits.
pub open spec fn digest_text(s: Seq<char>) -> bool {
    let bytes = encode_utf8(s);
    bytes.len() == 64 && forall|i: int| 0 <= i < bytes.len() ==> hex_digit(#[trigger] bytes[i])
}

/// The image is described by a digest and stands behind the text.
pub open spec fn image_valid(image: ImageEvidence) -> bool {
    digest_text(image.sha256@) && image.prompt_block > 0
}

/// Every image is.
pub open spec fn all_images_valid(images: Seq<ImageEvidence>) -> bool {
    forall|i: int| 0 <= i < images.len() ==> image_valid(#[trigger] images[i])
}

fn is_digest(s: &str) -> (r: bool)
    ensures
        r == digest_text(s@),
{
    let bytes = s.as_bytes();
    if bytes.len() != 64 {
        return false;
    }
    let mut i: usize = 0;
    while i < bytes.len()
        invariant
            i <= bytes.len(),
            bytes@ == encode_utf8(s@),
            forall|j: int| 0 <= j < i ==> hex_digit(#[trigger] bytes@[j]),
        decreases bytes.len() - i,
    {
        let b = bytes[i];
        if !((0x30 <= b && b <= 0x39) || (0x41 <= b && b <= 0x46) || (0x61 <= b && b <= 0x66)) {
            assert(!hex_digit(bytes@[i as int]));
            return false;
        }
        i = i + 1;
    }
    true
}

fn images_valid(images: &Vec<ImageEvidence>) -> (r: bool)
    ensures
        r == all_images_valid(images@),
{
    let mut i: usize = 0;
    while i < images.len()
        invariant
            i <= images.len(),
            forall|j: int| 0 <= j < i ==> image_valid(#[trigger] images@[j]),
        decreases images.len() - i,
    {
        if !(is_digest(images[i].sha256.as_str()) && images[i].prompt_block > 0) {
            assert(!image_valid(images@[i as int]));
            return false;
        }
        i = i + 1;
    }
    true
}

/// What is wrong with a prepared input of a version: the first of the rules that it
/// breaks.
pub open spec fn input_objection(input: PreparedInput, version: u32, data: Json) -> Option<
    Seq<char>,
> {
    let text_form = input.encoding@ == "agent_bridge.text_context.v1"@;
    let media_form = input.encoding@ == "agent_bridge.media_context.v1"@;
    let no_policy = input.omissions.len() == 0 && input.instruction_authority is None;
    if input.context_mode@ != "append_to_native"@ {
        Some("unsupported context mode"@)
    } else if text_form && !(input.images is None && input.wire_bytes == bytes_of(
        input.wire_text@,
    )) {
        Some("inconsistent text encoding or byte count"@)
    } else if media_form && !(version >= 2 && (input.images matches Some(images) && images.len()
        > 0) && (input.resource_retention matches Some(kept) && kept@
        == "supplied_resource_store"@) && input.wire_bytes >= bytes_of(input.wire_text@)) {
        Some("incomplete image evidence"@)
    } else if !text_form && !media_form {
        Some("unsupported input encoding"@)
    } else if input.images matches Some(images) && !all_images_valid(images@) {
        Some("invalid image descriptor"@)
    } else if version == 3 && !(data.field("instruction_authority"@) is Some
        && input.requested_context is Some) {
        Some("missing policy evidence"@)
    } else if version < 3 && !(no_policy && input.requested_context is None) {
        Some("policy evidence requires version 3 or later"@)
    } else if !no_policy && input.requested_context is None {
        Some("policy evidence is missing requested context"@)
    } else if version == 4 && input.skills is None {
        Some("missing skill evidence"@)
    } else if version < 4 && input.skills is Some {
        Some("skills require receipt version 4"@)
    } else if input.skills matches Some(skills) && !all_skills_valid(skills@) {
        Some("inconsistent skill evidence"@)
    } else {
        None
    }
}

fn check_text_form(input: &PreparedInput) -> (r: bool)
    ensures
        r == (input.images is None && input.wire_bytes == bytes_of(input.wire_text@)),
{
    input.images.is_none() && input.wire_bytes == byte_len(input.wire_text.as_str()) as u64
}

fn check_media_form(input: &PreparedInput, version: u32) -> (r: bool)
    ensures
        r == (version >= 2 && (input.images matches Some(images) && images.len() > 0) && (
        input.resource_retention matches Some(kept) && kept@ == "supplied_resource_store"@)
            && input.wire_bytes >= bytes_of(input.wire_text@)),
{
    let pictured = match &input.images {
        Some(images) => images.len() > 0,
        None => false,
    };
    let retained = match &input.resource_retention {
        Some(kept) => same_text(kept.as_str(), "supplied_resource_store"),
        None => false,
    };
    version >= 2 && pictured && retained && input.wire_bytes >= byte_len(
        input.wire_text.as_str(),
    ) as u64
}

fn object_to_input(input: &PreparedInput, version: u32, data: &Json) -> (r: Option<&'static str>)
    ensures
        match r {
            Some(reason) => input_objection(*input, version, *data) == Some(reason@),
            None => input_objection(*input, version, *data) is None,
        },
{
    let text_form = same_text(input.encoding.as_str(), "agent_bridge.text_context.v1");
    let media_form = same_text(input.encoding.as_str(), "agent_bridge.media_context.v1");
    let no_policy = input.omissions.len() == 0 && input.instruction_authority.is_none();
    if !same_text(input.context_mode.as_str(), "append_to_native") {
        return Some("unsupported context mode");
    }
    if text_form && !check_text_form(input) {
        return Some("inconsistent text encoding or byte count");
    }
    if media_form && !check_media_form(input, version) {
        return Some("incomplete image evidence");
    }
    if !text_form && !media_form {
        return Some("unsupported input encoding");
    }
    match &input.images {
        Some(images) => {
            if !images_valid(images) {
                return Some("invalid image descriptor");
            }
        },
        None => {},
    }
    if version == 3 && !(data.get("instruction_authority").is_some()
        && input.requested_context.is_some()) {
        return Some("missing policy evidence");
    }
    if version < 3 && !(no_policy && input.requested_context.is_none()) {
        return Some("policy evidence requires version 3 or later");
    }
    if !no_policy && input.requested_context.is_none() {
        return Some("policy evidence is missing requested context");
    }
    if version == 4 && input.skills.is_none() {
        return Some("missing skill evidence");
    }
    if version < 4 && input.skills.is_some() {
        return Some("skills require receipt version 4");
    }
    match &input.skills {
        Some(skills) => {
            if !skills_valid(skills) {
                return Some("inconsistent skill evidence");
            }
        },
        None => {},
    }
    None
}

/// The instruction was delivered as user text.
pub open spec fn delivered_as_text(instruction: SelectedInstruction) -> bool {
    instruction.role is Supplemental && instruction.delivery@ == "user_text"@
}

/// Every instruction was.
pub open spec fn all_delivered_as_text(instructions: Seq<SelectedInstruction>) -> bool {
    forall|i: int| 0 <= i < instructions.len() ==> delivered_as_text(#[trigger] instructions[i])
}

fn are_delivered_as_text(instructions: &Vec<SelectedInstruction>) -> (r: bool)
    ensures
        r == all_delivered_as_text(instructions@),
{
    let mut i: usize = 0;
    while i < instructions.len()
        invariant
            i <= instructions.len(),
            forall|j: int| 0 <= j < i ==> delivered_as_text(#[trigger] instructions@[j]),
        decreases instructions.len() - i,
    {
        if !(instructions[i].role == InstructionRole::Supplemental && same_text(
            instructions[i].delivery.as_str(),
            "user_text",
        )) {
            assert(!delivered_as_text(instructions@[i as int]));
            return false;
        }
        i = i + 1;
    }
    true
}

/// What is wrong with the evidence of a restoration of a version.
pub open spec fn restoration_objection(strategy: RestorationStrategy, version: u32) -> Option<
    Seq<char>,
> {
    match strategy {
        RestorationStrategy::NativeResume { native_context, portable_context_replayed, .. } => {
            if version == 1 && native_context@ == "reused_uninspected"@
                && !portable_context_replayed {
                None
            } else {
                Some("inconsistent native restoration"@)
            }
        },
        RestorationStrategy::PortableSelection {
            native_context,
            delivery,
            selected_instructions,
            context_policy,
            ..
        } => if !(native_context@ == "new_session"@ && delivery@ == "pending_first_run"@
            && all_delivered_as_text(selected_instructions@)) {
            Some("inconsistent portable restoration"@)
        } else if version == 2 && context_policy is None {
            Some("missing policy evidence"@)
        } else if version == 1 && context_policy is Some {
            Some("policy evidence requires restoration version 2 or later"@)
        } else if version < 3 && (context_policy matches Some(policy) && policy.skills.len() > 0) {
            Some("skills require restoration version 3"@)
        } else if context_policy matches Some(policy) && !all_skills_valid(policy.skills@) {
            Some("inconsistent skill evidence"@)
        } else {
            None
        },
    }
}

fn object_to_restoration(strategy: &RestorationStrategy, version: u32) -> (r: Option<&'static str>)
    ensures
        match r {
            Some(reason) => restoration_objection(*strategy, version) == Some(reason@),
            None => restoration_objection(*strategy, version) is None,
        },
{
    match strategy {
        RestorationStrategy::NativeResume { native_context, portable_context_replayed, .. } => {
            if version == 1 && same_text(native_context.as_str(), "reused_uninspected")
                && !*portable_context_replayed {
                None
            } else {
                Some("inconsistent native restoration")
            }
        },
        RestorationStrategy::PortableSelection {
            native_context,
            delivery,
            selected_instructions,
            context_policy,
            ..
        } => {
            if !(same_text(native_context.as_str(), "new_session") && same_text(
                delivery.as_str(),
                "pending_first_run",
            ) && are_delivered_as_text(selected_instructions)) {
                return Some("inconsistent portable restoration");
            }
            match context_policy {
                None => {
                    if version == 2 {
                        return Some("missing policy evidence");
                    }
                },
                Some(policy) => {
                    if version == 1 {
                        return Some("policy evidence requires restoration version 2 or later");
                    }
                    if version < 3 && policy.skills.len() > 0 {
                        return Some("skills require restoration version 3");
                    }
                    if !skills_valid(&policy.skills) {
                        return Some("inconsistent skill evidence");
                    }
                },
            }
            None
        },
    }
}

/// What is wrong with decoded evidence of a version.
pub open spec fn objection(decoded: Decoded, version: u32, data: Json) -> Option<Seq<char>> {
    match decoded {
        Decoded::ToolInvocation(value) => if blank(value.invocation_id@) || blank(
            value.binding_id@,
        ) || blank(value.tool.name@) || blank(value.tool.revision@) {
            Some("invalid invocation identity"@)
        } else {
            None
        },
        Decoded::Input(value) => match value.stage {
            InputStage::Prepared(input) => input_objection(*input, version, data),
            _ => None,
        },
        Decoded::Restoration(value) => restoration_objection(value.strategy, version),
        Decoded::ResultContract(value) => if value.mode@ == "validate_returned_text"@
            && !value.native_enforcement && value.validator@ == "serde_deserialize"@
            && value.max_validation_bytes > 0 && !blank(value.name@) && !blank(value.revision@) {
            None
        } else {
            Some("inconsistent result contract"@)
        },
        Decoded::ResultValidation(value) => if !(value.mode@ == "validate_returned_text"@
            && !value.native_enforcement && !blank(value.contract.name@) && !blank(
            value.contract.revision@,
        )) {
            Some("inconsistent result validation"@)
        } else if value.validation is Valid && (data.field("validation"@) matches Some(validation)
            && validation.field("rejection"@) is Some) {
            Some("valid outcome contains rejection"@)
        } else {
            None
        },
        Decoded::ConfigurationReport(_) => None,
    }
}

fn object_to(decoded: &Decoded, version: u32, data: &Json) -> (r: Option<&'static str>)
    ensures
        match r {
            Some(reason) => objection(*decoded, version, *data) == Some(reason@),
            None => objection(*decoded, version, *data) is None,
        },
{
    match decoded {
        Decoded::ToolInvocation(value) => if is_blank(value.invocation_id.as_str()) || is_blank(
            value.binding_id.as_str(),
        ) || is_blank(value.tool.name.as_str()) || is_blank(value.tool.revision.as_str()) {
            Some("invalid invocation identity")
        } else {
            None
        },
        Decoded::Input(value) => match &value.stage {
            InputStage::Prepared(input) => object_to_input(&**input, version, data),
            _ => None,
        },
        Decoded::Restoration(value) => object_to_restoration(&value.strategy, version),
        Decoded::ResultContract(value) => if same_text(
            value.mode.as_str(),
            "validate_returned_text",
        ) && !value.native_enforcement && same_text(value.validator.as_str(), "serde_deserialize")
            && value.max_validation_bytes > 0 && !is_blank(value.name.as_str()) && !is_blank(
            value.revision.as_str(),
        ) {
            None
        } else {
            Some("inconsistent result contract")
        },
        Decoded::ResultValidation(value) => {
            if !(same_text(value.mode.as_str(), "validate_returned_text")
                && !value.native_enforcement && !is_blank(value.contract.name.as_str())
                && !is_blank(value.contract.revision.as_str())) {
                return Some("inconsistent result validation");
            }
            let rejected = match data.get("validation") {
                Some(validation) => validation.get("rejection").is_some(),
                None => false,
            };
            if matches!(value.validation, ValidationOutcome::Valid) && rejected {
                return Some("valid outcome contains rejection");
            }
            None
        },
        Decoded::ConfigurationReport(_) => None,
    }
}

/// The error names the evidence and the reason.
pub open spec fn refused(
    r: Result<Option<Receipt>, ReceiptError>,
    name: Seq<char>,
    reason: Seq<char>,
) -> bool {
    r matches Err(e) && e.name@ == name && e.reason@ == reason
}

fn require(name: &str, condition: bool, reason: &str) -> (r: Result<(), ReceiptError>)
    ensures
        r is Ok <==> condition,
        r matches Err(e) ==> e.name@ == name@ && e.reason@ == reason@,
{
    if condition {
        Ok(())
    } else {
        Err(ReceiptError { name: name.to_owned(), reason: reason.to_owned() })
    }
}

/// Unknown namespaces/names return None. Future versions return Unsupported.
/// Known malformed evidence is an error, never a synthesized success or omission.
/// Additive unknown fields remain available in the original payload.
///
/// `decoded` is what the data of the payload decodes to as the receipt that its name
/// calls for, or why it does not. It is not looked at unless the data states a version
/// that is understood.
pub fn read(payload: &Payload, decoded: Result<Decoded, String>) -> (r: Result<
    Option<Receipt>,
    ReceiptError,
>)
    requires
        reading(*payload) is Decode ==> (decoded matches Ok(value) ==> value.name()
            == extension_name(*payload)),
    ensures
        match reading(*payload) {
            Reading::Ignored => r == Ok::<Option<Receipt>, ReceiptError>(None),
            Reading::Refused(reason) => refused(r, extension_name(*payload), reason),
            Reading::Unsupported(version) => r matches Ok(
                Some(Receipt::Unsupported { name, version: stated }),
            ) && name@ == extension_name(*payload) && stated == version,
            Reading::Decode(version) => match decoded {
                Err(reason) => refused(r, extension_name(*payload), reason@),
                Ok(value) => match objection(
                    value,
                    if version is Some {
                        version->0
                    } else {
                        1
                    },
                    extension_data(*payload),
                ) {
                    Some(reason) => refused(r, extension_name(*payload), reason),
                    None => r == Ok::<Option<Receipt>, ReceiptError>(Some(value.receipt())),
                },
            },
        },
{
    let (namespace, name, data) = match payload {
        Payload::Extension { namespace, name, data } => (namespace, name, data),
        _ => return Ok(None),
    };
    if !same_text(namespace.as_str(), "agent_bridge") || !is_known_name(name.as_str()) {
        return Ok(None);
    }
    let is_object = matches!(data, Json::Object(_));
    match require(name.as_str(), is_object, "expected an object") {
        Err(e) => return Err(e),
        Ok(_) => {},
    }
    let unversioned = same_text(name.as_str(), "configuration_report") && data.get(
        "version",
    ).is_none();
    let version: u32 = if unversioned {
        match require(
            name.as_str(),
            data.get("confirmed").is_some(),
            "missing confirmed report",
        ) {
            Err(e) => return Err(e),
            Ok(_) => {},
        }
        1
    } else {
        let version = match read_version(data) {
            Some(version) => version,
            None => {
                return Err(
                    ReceiptError {
                        name: name.clone(),
                        reason: "missing or invalid version".to_owned(),
                    },
                );
            },
        };
        if !is_supported(name.as_str(), version) {
            return Ok(Some(Receipt::Unsupported { name: name.clone(), version }));
        }
        version
    };
    let value = match decoded {
        Err(reason) => return Err(ReceiptError { name: name.clone(), reason }),
        Ok(value) => value,
    };
    match object_to(&value, version, data) {
        Some(reason) => Err(ReceiptError { name: name.clone(), reason: reason.to_owned() }),
        None => Ok(Some(value.into_receipt())),
    }
}

/// Evidence of a version that is not understood is never taken for evidence that is,
/// and is never an error.
pub proof fn future_versions_are_unsupported(name: Seq<char>, data: Json, version: u32)
    requires
        known_name(name),
        data is Object,
        stated_version(data) == Some(version),
        version > 4,
    ensures
        data_reading(name, data) == Reading::Unsupported(version),
{
}

} // verus!
