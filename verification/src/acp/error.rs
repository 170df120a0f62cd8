//! Why operations on agents fail, in words.

use crate::context::{ContextError, ContextErrorView, ResourceError, ResourceErrorView};
use crate::datum::Datum;
use crate::model::{ResourceRef, ResourceRefView};
use crate::records::{StoreError, StoreErrorView};
use crate::text::{
    debug_quoted, decimal, decimal_text, quoted_for_debug, signed_decimal, signed_decimal_text,
};
use vstd::prelude::*;
use vstd::string::*;

verus! {

/// Why an operation on an agent connection failed.
#[derive(Debug, PartialEq, Eq)]
pub enum AcpError {
    InitializationTimedOut,
    ClosedBeforeInitialization,
    UnsupportedProtocolVersion,
    ShutdownTimedOut,
    RequestTimedOut,
    Closed,
    InvalidWorkingDirectory,
    InvalidMcpCommand,
    UnsupportedMcpTransport,
    EmptyPrompt,
    SessionUnavailable,
    InvalidPermission,
    EventBufferFull,
    ResumeUnsupported,
    ContinuationScopeRequired,
    IncompatibleContinuation,
    UnsafeHandoff,
    ConfigurationUnsupported,
    UnknownConfigurationOption,
    InvalidConfigurationValue,
    InvalidConfiguration,
    ConfigurationUncertain,
    ConfigurationRejected,
    ConfigurationChanged,
    ModelSelectorUnavailable,
    Store(StoreError),
    /// What the protocol library says. May include bounded child diagnostics; do not
    /// log blindly.
    Protocol(String),
    /// What is known of a connection task that did not end normally.
    Task(String),
}

/// What a `AcpError` holds.
pub enum AcpErrorView {
    InitializationTimedOut,
    ClosedBeforeInitialization,
    UnsupportedProtocolVersion,
    ShutdownTimedOut,
    RequestTimedOut,
    Closed,
    InvalidWorkingDirectory,
    InvalidMcpCommand,
    UnsupportedMcpTransport,
    EmptyPrompt,
    SessionUnavailable,
    InvalidPermission,
    EventBufferFull,
    ResumeUnsupported,
    ContinuationScopeRequired,
    IncompatibleContinuation,
    UnsafeHandoff,
    ConfigurationUnsupported,
    UnknownConfigurationOption,
    InvalidConfigurationValue,
    InvalidConfiguration,
    ConfigurationUncertain,
    ConfigurationRejected,
    ConfigurationChanged,
    ModelSelectorUnavailable,
    Store(StoreErrorView),
    Protocol(Seq<char>),
    Task(Seq<char>),
}

impl DeepView for AcpError {
    type V = AcpErrorView;

    open spec fn deep_view(&self) -> AcpErrorView {
        match self {
            AcpError::InitializationTimedOut => AcpErrorView::InitializationTimedOut,
            AcpError::ClosedBeforeInitialization => AcpErrorView::ClosedBeforeInitialization,
            AcpError::UnsupportedProtocolVersion => AcpErrorView::UnsupportedProtocolVersion,
            AcpError::ShutdownTimedOut => AcpErrorView::ShutdownTimedOut,
            AcpError::RequestTimedOut => AcpErrorView::RequestTimedOut,
            AcpError::Closed => AcpErrorView::Closed,
            AcpError::InvalidWorkingDirectory => AcpErrorView::InvalidWorkingDirectory,
            AcpError::InvalidMcpCommand => AcpErrorView::InvalidMcpCommand,
            AcpError::UnsupportedMcpTransport => AcpErrorView::UnsupportedMcpTransport,
            AcpError::EmptyPrompt => AcpErrorView::EmptyPrompt,
            AcpError::SessionUnavailable => AcpErrorView::SessionUnavailable,
            AcpError::InvalidPermission => AcpErrorView::InvalidPermission,
            AcpError::EventBufferFull => AcpErrorView::EventBufferFull,
            AcpError::ResumeUnsupported => AcpErrorView::ResumeUnsupported,
            AcpError::ContinuationScopeRequired => AcpErrorView::ContinuationScopeRequired,
            AcpError::IncompatibleContinuation => AcpErrorView::IncompatibleContinuation,
            AcpError::UnsafeHandoff => AcpErrorView::UnsafeHandoff,
            AcpError::ConfigurationUnsupported => AcpErrorView::ConfigurationUnsupported,
            AcpError::UnknownConfigurationOption => AcpErrorView::UnknownConfigurationOption,
            AcpError::InvalidConfigurationValue => AcpErrorView::InvalidConfigurationValue,
            AcpError::InvalidConfiguration => AcpErrorView::InvalidConfiguration,
            AcpError::ConfigurationUncertain => AcpErrorView::ConfigurationUncertain,
            AcpError::ConfigurationRejected => AcpErrorView::ConfigurationRejected,
            AcpError::ConfigurationChanged => AcpErrorView::ConfigurationChanged,
            AcpError::ModelSelectorUnavailable => AcpErrorView::ModelSelectorUnavailable,
            AcpError::Store(value) => AcpErrorView::Store(value.deep_view()),
            AcpError::Protocol(value) => AcpErrorView::Protocol(value.deep_view()),
            AcpError::Task(value) => AcpErrorView::Task(value.deep_view()),
        }
    }
}

impl Datum for AcpError {
    fn duplicate(&self) -> (r: AcpError) {
        match self {
            AcpError::InitializationTimedOut => AcpError::InitializationTimedOut,
            AcpError::ClosedBeforeInitialization => AcpError::ClosedBeforeInitialization,
            AcpError::UnsupportedProtocolVersion => AcpError::UnsupportedProtocolVersion,
            AcpError::ShutdownTimedOut => AcpError::ShutdownTimedOut,
            AcpError::RequestTimedOut => AcpError::RequestTimedOut,
            AcpError::Closed => AcpError::Closed,
            AcpError::InvalidWorkingDirectory => AcpError::InvalidWorkingDirectory,
            AcpError::InvalidMcpCommand => AcpError::InvalidMcpCommand,
            AcpError::UnsupportedMcpTransport => AcpError::UnsupportedMcpTransport,
            AcpError::EmptyPrompt => AcpError::EmptyPrompt,
            AcpError::SessionUnavailable => AcpError::SessionUnavailable,
            AcpError::InvalidPermission => AcpError::InvalidPermission,
            AcpError::EventBufferFull => AcpError::EventBufferFull,
            AcpError::ResumeUnsupported => AcpError::ResumeUnsupported,
            AcpError::ContinuationScopeRequired => AcpError::ContinuationScopeRequired,
            AcpError::IncompatibleContinuation => AcpError::IncompatibleContinuation,
            AcpError::UnsafeHandoff => AcpError::UnsafeHandoff,
            AcpError::ConfigurationUnsupported => AcpError::ConfigurationUnsupported,
            AcpError::UnknownConfigurationOption => AcpError::UnknownConfigurationOption,
            AcpError::InvalidConfigurationValue => AcpError::InvalidConfigurationValue,
            AcpError::InvalidConfiguration => AcpError::InvalidConfiguration,
            AcpError::ConfigurationUncertain => AcpError::ConfigurationUncertain,
            AcpError::ConfigurationRejected => AcpError::ConfigurationRejected,
            AcpError::ConfigurationChanged => AcpError::ConfigurationChanged,
            AcpError::ModelSelectorUnavailable => AcpError::ModelSelectorUnavailable,
            AcpError::Store(value) => AcpError::Store(value.duplicate()),
            AcpError::Protocol(value) => AcpError::Protocol(value.duplicate()),
            AcpError::Task(value) => AcpError::Task(value.duplicate()),
        }
    }

    fn same_as(&self, other: &AcpError) -> (r: bool) {
        match (self, other) {
            (AcpError::InitializationTimedOut, AcpError::InitializationTimedOut) => true,
            (AcpError::ClosedBeforeInitialization, AcpError::ClosedBeforeInitialization) => true,
            (AcpError::UnsupportedProtocolVersion, AcpError::UnsupportedProtocolVersion) => true,
            (AcpError::ShutdownTimedOut, AcpError::ShutdownTimedOut) => true,
            (AcpError::RequestTimedOut, AcpError::RequestTimedOut) => true,
            (AcpError::Closed, AcpError::Closed) => true,
            (AcpError::InvalidWorkingDirectory, AcpError::InvalidWorkingDirectory) => true,
            (AcpError::InvalidMcpCommand, AcpError::InvalidMcpCommand) => true,
            (AcpError::UnsupportedMcpTransport, AcpError::UnsupportedMcpTransport) => true,
            (AcpError::EmptyPrompt, AcpError::EmptyPrompt) => true,
            (AcpError::SessionUnavailable, AcpError::SessionUnavailable) => true,
            (AcpError::InvalidPermission, AcpError::InvalidPermission) => true,
            (AcpError::EventBufferFull, AcpError::EventBufferFull) => true,
            (AcpError::ResumeUnsupported, AcpError::ResumeUnsupported) => true,
            (AcpError::ContinuationScopeRequired, AcpError::ContinuationScopeRequired) => true,
            (AcpError::IncompatibleContinuation, AcpError::IncompatibleContinuation) => true,
            (AcpError::UnsafeHandoff, AcpError::UnsafeHandoff) => true,
            (AcpError::ConfigurationUnsupported, AcpError::ConfigurationUnsupported) => true,
            (AcpError::UnknownConfigurationOption, AcpError::UnknownConfigurationOption) => true,
            (AcpError::InvalidConfigurationValue, AcpError::InvalidConfigurationValue) => true,
            (AcpError::InvalidConfiguration, AcpError::InvalidConfiguration) => true,
            (AcpError::ConfigurationUncertain, AcpError::ConfigurationUncertain) => true,
            (AcpError::ConfigurationRejected, AcpError::ConfigurationRejected) => true,
            (AcpError::ConfigurationChanged, AcpError::ConfigurationChanged) => true,
            (AcpError::ModelSelectorUnavailable, AcpError::ModelSelectorUnavailable) => true,
            (AcpError::Store(a), AcpError::Store(b)) => a.same_as(b),
            (AcpError::Protocol(a), AcpError::Protocol(b)) => a.same_as(b),
            (AcpError::Task(a), AcpError::Task(b)) => a.same_as(b),
            _ => false,
        }
    }
}

/// Why a recorded run failed.
#[derive(Debug, PartialEq, Eq)]
pub enum RecordingError {
    NativeStructuredOutputUnsupported,
    Context(ContextError),
    UnsupportedContext(String),
    Store(StoreError),
    Agent(AcpError),
    RunAlreadyRecorded,
    Closed,
    MissingPermission,
    Serialization(String),
}

/// What a `RecordingError` holds.
pub enum RecordingErrorView {
    NativeStructuredOutputUnsupported,
    Context(ContextErrorView),
    UnsupportedContext(Seq<char>),
    Store(StoreErrorView),
    Agent(AcpErrorView),
    RunAlreadyRecorded,
    Closed,
    MissingPermission,
    Serialization(Seq<char>),
}

impl DeepView for RecordingError {
    type V = RecordingErrorView;

    open spec fn deep_view(&self) -> RecordingErrorView {
        match self {
            RecordingError::NativeStructuredOutputUnsupported => RecordingErrorView::NativeStructuredOutputUnsupported,
            RecordingError::Context(value) => RecordingErrorView::Context(value.deep_view()),
            RecordingError::UnsupportedContext(value) => RecordingErrorView::UnsupportedContext(value.deep_view()),
            RecordingError::Store(value) => RecordingErrorView::Store(value.deep_view()),
            RecordingError::Agent(value) => RecordingErrorView::Agent(value.deep_view()),
            RecordingError::RunAlreadyRecorded => RecordingErrorView::RunAlreadyRecorded,
            RecordingError::Closed => RecordingErrorView::Closed,
            RecordingError::MissingPermission => RecordingErrorView::MissingPermission,
            RecordingError::Serialization(value) => RecordingErrorView::Serialization(value.deep_view()),
        }
    }
}

impl Datum for RecordingError {
    fn duplicate(&self) -> (r: RecordingError) {
        match self {
            RecordingError::NativeStructuredOutputUnsupported => RecordingError::NativeStructuredOutputUnsupported,
            RecordingError::Context(value) => RecordingError::Context(value.duplicate()),
            RecordingError::UnsupportedContext(value) => RecordingError::UnsupportedContext(value.duplicate()),
            RecordingError::Store(value) => RecordingError::Store(value.duplicate()),
            RecordingError::Agent(value) => RecordingError::Agent(value.duplicate()),
            RecordingError::RunAlreadyRecorded => RecordingError::RunAlreadyRecorded,
            RecordingError::Closed => RecordingError::Closed,
            RecordingError::MissingPermission => RecordingError::MissingPermission,
            RecordingError::Serialization(value) => RecordingError::Serialization(value.duplicate()),
        }
    }

    fn same_as(&self, other: &RecordingError) -> (r: bool) {
        match (self, other) {
            (RecordingError::NativeStructuredOutputUnsupported, RecordingError::NativeStructuredOutputUnsupported) => true,
            (RecordingError::Context(a), RecordingError::Context(b)) => a.same_as(b),
            (RecordingError::UnsupportedContext(a), RecordingError::UnsupportedContext(b)) => a.same_as(b),
            (RecordingError::Store(a), RecordingError::Store(b)) => a.same_as(b),
            (RecordingError::Agent(a), RecordingError::Agent(b)) => a.same_as(b),
            (RecordingError::RunAlreadyRecorded, RecordingError::RunAlreadyRecorded) => true,
            (RecordingError::Closed, RecordingError::Closed) => true,
            (RecordingError::MissingPermission, RecordingError::MissingPermission) => true,
            (RecordingError::Serialization(a), RecordingError::Serialization(b)) => a.same_as(b),
            _ => false,
        }
    }
}

/// The text in parentheses, behind a name.
pub open spec fn wrapped(name: Seq<char>, inner: Seq<char>) -> Seq<char> {
    name + "("@ + inner + ")"@
}

fn wrapped_text(name: &str, inner: &str) -> (r: String)
    ensures
        r@ == wrapped(name@, inner@),
{
    let mut r = name.to_owned();
    r.append("(");
    r.append(inner);
    r.append(")");
    r
}

impl StoreErrorView {
    /// The error as it is written for diagnosis.
    pub open spec fn debug(self) -> Seq<char> {
        match self {
            StoreErrorView::MissingSession => "MissingSession"@,
            StoreErrorView::MissingRun => "MissingRun"@,
            StoreErrorView::MissingRecord => "MissingRecord"@,
            StoreErrorView::IdentityConflict => "IdentityConflict"@,
            StoreErrorView::WrongSession => "WrongSession"@,
            StoreErrorView::RevisionConflict => "RevisionConflict"@,
            StoreErrorView::Finalized => "Finalized"@,
            StoreErrorView::InvalidPayload => "InvalidPayload"@,
            StoreErrorView::InvalidDecision => "InvalidDecision"@,
            StoreErrorView::AlreadyResolved => "AlreadyResolved"@,
            StoreErrorView::OpenContextRecord => "OpenContextRecord"@,
            StoreErrorView::InvalidPageSize => "InvalidPageSize"@,
            StoreErrorView::SequenceExhausted => "SequenceExhausted"@,
            StoreErrorView::Poisoned => "Poisoned"@,
            StoreErrorView::Busy => "Busy"@,
            StoreErrorView::UnversionedSchema => "UnversionedSchema"@,
            StoreErrorView::MissingContinuation => "MissingContinuation"@,
            StoreErrorView::ContinuationClaimed => "ContinuationClaimed"@,
            StoreErrorView::ContinuationConflict => "ContinuationConflict"@,
            StoreErrorView::InvalidContinuation => "InvalidContinuation"@,
            StoreErrorView::ExecutionRelationConflict => "ExecutionRelationConflict"@,
            StoreErrorView::InvalidExecutionRelation => "InvalidExecutionRelation"@,
            StoreErrorView::ExecutionCycle => "ExecutionCycle"@,
            StoreErrorView::InvalidChangeCursor => "InvalidChangeCursor"@,
            StoreErrorView::StorageOverloaded => "StorageOverloaded"@,
            StoreErrorView::StorageUnavailable => "StorageUnavailable"@,
            StoreErrorView::StorageTimedOut => "StorageTimedOut"@,
            StoreErrorView::Database(text) => wrapped("Database"@, debug_quoted(text)),
            StoreErrorView::CorruptData(text) => wrapped("CorruptData"@, debug_quoted(text)),
            StoreErrorView::UnsupportedSchemaVersion(version) => wrapped(
                "UnsupportedSchemaVersion"@,
                signed_decimal(version as int),
            ),
            StoreErrorView::UnsupportedDataVersion(version) => wrapped(
                "UnsupportedDataVersion"@,
                decimal(version as nat),
            ),
        }
    }
}

impl StoreError {
    /// The error as it is written for diagnosis.
    pub fn debug_text(&self) -> (r: String)
        ensures
            r@ == self.deep_view().debug(),
    {
        match self {
            StoreError::MissingSession => "MissingSession".to_owned(),
            StoreError::MissingRun => "MissingRun".to_owned(),
            StoreError::MissingRecord => "MissingRecord".to_owned(),
            StoreError::IdentityConflict => "IdentityConflict".to_owned(),
            StoreError::WrongSession => "WrongSession".to_owned(),
            StoreError::RevisionConflict => "RevisionConflict".to_owned(),
            StoreError::Finalized => "Finalized".to_owned(),
            StoreError::InvalidPayload => "InvalidPayload".to_owned(),
            StoreError::InvalidDecision => "InvalidDecision".to_owned(),
            StoreError::AlreadyResolved => "AlreadyResolved".to_owned(),
            StoreError::OpenContextRecord => "OpenContextRecord".to_owned(),
            StoreError::InvalidPageSize => "InvalidPageSize".to_owned(),
            StoreError::SequenceExhausted => "SequenceExhausted".to_owned(),
            StoreError::Poisoned => "Poisoned".to_owned(),
            StoreError::Busy => "Busy".to_owned(),
            StoreError::UnversionedSchema => "UnversionedSchema".to_owned(),
            StoreError::MissingContinuation => "MissingContinuation".to_owned(),
            StoreError::ContinuationClaimed => "ContinuationClaimed".to_owned(),
            StoreError::ContinuationConflict => "ContinuationConflict".to_owned(),
            StoreError::InvalidContinuation => "InvalidContinuation".to_owned(),
            StoreError::ExecutionRelationConflict => "ExecutionRelationConflict".to_owned(),
            StoreError::InvalidExecutionRelation => "InvalidExecutionRelation".to_owned(),
            StoreError::ExecutionCycle => "ExecutionCycle".to_owned(),
            StoreError::InvalidChangeCursor => "InvalidChangeCursor".to_owned(),
            StoreError::StorageOverloaded => "StorageOverloaded".to_owned(),
            StoreError::StorageUnavailable => "StorageUnavailable".to_owned(),
            StoreError::StorageTimedOut => "StorageTimedOut".to_owned(),
            StoreError::Database(text) => wrapped_text(
                "Database",
                quoted_for_debug(text.as_str()).as_str(),
            ),
            StoreError::CorruptData(text) => wrapped_text(
                "CorruptData",
                quoted_for_debug(text.as_str()).as_str(),
            ),
            StoreError::UnsupportedSchemaVersion(version) => wrapped_text(
                "UnsupportedSchemaVersion",
                signed_decimal_text(*version).as_str(),
            ),
            StoreError::UnsupportedDataVersion(version) => wrapped_text(
                "UnsupportedDataVersion",
                decimal_text(*version as u64).as_str(),
            ),
        }
    }

    /// What the error says.
    pub fn to_string(&self) -> (r: String)
        ensures
            r@ == "record store: "@ + self.deep_view().debug(),
    {
        let mut r = "record store: ".to_owned();
        r.append(self.debug_text().as_str());
        r
    }
}

/// A resource reference as it is written for diagnosis.
pub open spec fn reference_debug(reference: ResourceRefView) -> Seq<char> {
    "ResourceRef { id: ResourceId("@ + debug_quoted(reference.id) + "), revision: "@ + debug_quoted(
        reference.revision,
    ) + " }"@
}

fn reference_debug_text(reference: &ResourceRef) -> (r: String)
    ensures
        r@ == reference_debug(reference.deep_view()),
{
    let mut r = "ResourceRef { id: ResourceId(".to_owned();
    r.append(quoted_for_debug(reference.id.as_str()).as_str());
    r.append("), revision: ");
    r.append(quoted_for_debug(reference.revision.as_str()).as_str());
    r.append(" }");
    r
}

impl ResourceErrorView {
    /// The error as it is written for diagnosis.
    pub open spec fn debug(self) -> Seq<char> {
        match self {
            ResourceErrorView::Store(error) => wrapped("Store"@, error.debug()),
            ResourceErrorView::Missing => "Missing"@,
            ResourceErrorView::Invalid => "Invalid"@,
            ResourceErrorView::RevisionConflict => "RevisionConflict"@,
            ResourceErrorView::Poisoned => "Poisoned"@,
        }
    }
}

impl ResourceError {
    /// The error as it is written for diagnosis.
    pub fn debug_text(&self) -> (r: String)
        ensures
            r@ == self.deep_view().debug(),
    {
        match self {
            ResourceError::Store(error) => wrapped_text("Store", error.debug_text().as_str()),
            ResourceError::Missing => "Missing".to_owned(),
            ResourceError::Invalid => "Invalid".to_owned(),
            ResourceError::RevisionConflict => "RevisionConflict".to_owned(),
            ResourceError::Poisoned => "Poisoned".to_owned(),
        }
    }

    /// What the error says.
    pub fn to_string(&self) -> (r: String)
        ensures
            r@ == "resource store: "@ + self.deep_view().debug(),
    {
        let mut r = "resource store: ".to_owned();
        r.append(self.debug_text().as_str());
        r
    }
}

impl ContextErrorView {
    /// The error as it is written for diagnosis.
    pub open spec fn debug(self) -> Seq<char> {
        match self {
            ContextErrorView::InstructionUnauthorized => "InstructionUnauthorized"@,
            ContextErrorView::InvalidOmission => "InvalidOmission"@,
            ContextErrorView::ReferencedOmission(reference) => wrapped(
                "ReferencedOmission"@,
                reference_debug(reference),
            ),
            ContextErrorView::Store(error) => wrapped("Store"@, error.debug()),
            ContextErrorView::Resource { reference, error } => "Resource { reference: "@
                + reference_debug(reference) + ", error: "@ + error.debug() + " }"@,
            ContextErrorView::RecordOutsideScope(id) => wrapped(
                "RecordOutsideScope"@,
                wrapped("RecordId"@, debug_quoted(id)),
            ),
            ContextErrorView::OpenRecord(id) => wrapped(
                "OpenRecord"@,
                wrapped("RecordId"@, debug_quoted(id)),
            ),
            ContextErrorView::InvalidInstruction(reference) => wrapped(
                "InvalidInstruction"@,
                reference_debug(reference),
            ),
            ContextErrorView::ItemLimit => "ItemLimit"@,
            ContextErrorView::ResourceByteLimit => "ResourceByteLimit"@,
        }
    }
}

impl ContextError {
    /// What the error says.
    pub fn to_string(&self) -> (r: String)
        ensures
            r@ == "context preparation: "@ + self.deep_view().debug(),
    {
        let inner = match self {
            ContextError::InstructionUnauthorized => "InstructionUnauthorized".to_owned(),
            ContextError::InvalidOmission => "InvalidOmission".to_owned(),
            ContextError::ReferencedOmission(reference) => wrapped_text(
                "ReferencedOmission",
                reference_debug_text(reference).as_str(),
            ),
            ContextError::Store(error) => wrapped_text("Store", error.debug_text().as_str()),
            ContextError::Resource { reference, error } => {
                let mut r = "Resource { reference: ".to_owned();
                r.append(reference_debug_text(reference).as_str());
                r.append(", error: ");
                r.append(error.debug_text().as_str());
                r.append(" }");
                r
            },
            ContextError::RecordOutsideScope(id) => wrapped_text(
                "RecordOutsideScope",
                wrapped_text("RecordId", quoted_for_debug(id.as_str()).as_str()).as_str(),
            ),
            ContextError::OpenRecord(id) => wrapped_text(
                "OpenRecord",
                wrapped_text("RecordId", quoted_for_debug(id.as_str()).as_str()).as_str(),
            ),
            ContextError::InvalidInstruction(reference) => wrapped_text(
                "InvalidInstruction",
                reference_debug_text(reference).as_str(),
            ),
            ContextError::ItemLimit => "ItemLimit".to_owned(),
            ContextError::ResourceByteLimit => "ResourceByteLimit".to_owned(),
        };
        let mut r = "context preparation: ".to_owned();
        r.append(inner.as_str());
        r
    }
}

impl AcpErrorView {
    /// What the error says.
    pub open spec fn message(self) -> Seq<char> {
        match self {
            AcpErrorView::InitializationTimedOut => "ACP initialization timed out"@,
            AcpErrorView::ClosedBeforeInitialization => "ACP closed before initialization"@,
            AcpErrorView::UnsupportedProtocolVersion => "agent did not negotiate ACP v1"@,
            AcpErrorView::ShutdownTimedOut => "ACP shutdown timed out"@,
            AcpErrorView::RequestTimedOut => "ACP session setup timed out; no retry was attempted"@,
            AcpErrorView::Closed => "ACP connection closed; execution outcome may be unknown"@,
            AcpErrorView::InvalidWorkingDirectory => "ACP requires an absolute working directory"@,
            AcpErrorView::InvalidMcpCommand => "ACP requires an absolute MCP executable path"@,
            AcpErrorView::UnsupportedMcpTransport => "agent does not advertise the requested MCP transport"@,
            AcpErrorView::EmptyPrompt => "prompt cannot be blank"@,
            AcpErrorView::SessionUnavailable => "session is active, retired, or returned a duplicate provider ID"@,
            AcpErrorView::InvalidPermission => "permission is resolved, unknown, or the option was not offered"@,
            AcpErrorView::EventBufferFull => "ACP event buffer filled; this run cannot be consumed reliably"@,
            AcpErrorView::ResumeUnsupported => "agent does not advertise native session resume"@,
            AcpErrorView::ContinuationScopeRequired => "set a nonempty continuation scope for this provider connection"@,
            AcpErrorView::IncompatibleContinuation => "continuation is incompatible with this scope, adapter, or agent version"@,
            AcpErrorView::UnsafeHandoff => "session has unfinished or uncertain work and cannot be handed off"@,
            AcpErrorView::ConfigurationUnsupported => "provider did not expose session configuration options"@,
            AcpErrorView::UnknownConfigurationOption => "configuration option was not offered by the provider"@,
            AcpErrorView::InvalidConfigurationValue => "value has the wrong type or was not offered for this option"@,
            AcpErrorView::InvalidConfiguration => "provider returned an invalid configuration catalog"@,
            AcpErrorView::ConfigurationUncertain => "configuration is pending or uncertain; wait for a report or reconnect"@,
            AcpErrorView::ConfigurationRejected => "provider did not confirm the requested option value"@,
            AcpErrorView::ConfigurationChanged => "configuration changed before dispatch; choose a new run ID and retry explicitly"@,
            AcpErrorView::ModelSelectorUnavailable => "provider does not expose exactly one model selector; use an explicit option ID"@,
            AcpErrorView::Store(error) => "record store: "@ + error.debug(),
            AcpErrorView::Protocol(text) => "ACP connection failed: "@ + text,
            AcpErrorView::Task(text) => "ACP connection task failed: "@ + text,
        }
    }
}

impl AcpError {
    /// What the error says.
    pub fn to_string(&self) -> (r: String)
        ensures
            r@ == self.deep_view().message(),
    {
        match self {
            AcpError::InitializationTimedOut => "ACP initialization timed out".to_owned(),
            AcpError::ClosedBeforeInitialization => "ACP closed before initialization".to_owned(),
            AcpError::UnsupportedProtocolVersion => "agent did not negotiate ACP v1".to_owned(),
            AcpError::ShutdownTimedOut => "ACP shutdown timed out".to_owned(),
            AcpError::RequestTimedOut => "ACP session setup timed out; no retry was attempted".to_owned(),
            AcpError::Closed => "ACP connection closed; execution outcome may be unknown".to_owned(),
            AcpError::InvalidWorkingDirectory => "ACP requires an absolute working directory".to_owned(),
            AcpError::InvalidMcpCommand => "ACP requires an absolute MCP executable path".to_owned(),
            AcpError::UnsupportedMcpTransport => "agent does not advertise the requested MCP transport".to_owned(),
            AcpError::EmptyPrompt => "prompt cannot be blank".to_owned(),
            AcpError::SessionUnavailable => "session is active, retired, or returned a duplicate provider ID".to_owned(),
            AcpError::InvalidPermission => "permission is resolved, unknown, or the option was not offered".to_owned(),
            AcpError::EventBufferFull => "ACP event buffer filled; this run cannot be consumed reliably".to_owned(),
            AcpError::ResumeUnsupported => "agent does not advertise native session resume".to_owned(),
            AcpError::ContinuationScopeRequired => "set a nonempty continuation scope for this provider connection".to_owned(),
            AcpError::IncompatibleContinuation => "continuation is incompatible with this scope, adapter, or agent version".to_owned(),
            AcpError::UnsafeHandoff => "session has unfinished or uncertain work and cannot be handed off".to_owned(),
            AcpError::ConfigurationUnsupported => "provider did not expose session configuration options".to_owned(),
            AcpError::UnknownConfigurationOption => "configuration option was not offered by the provider".to_owned(),
            AcpError::InvalidConfigurationValue => "value has the wrong type or was not offered for this option".to_owned(),
            AcpError::InvalidConfiguration => "provider returned an invalid configuration catalog".to_owned(),
            AcpError::ConfigurationUncertain => "configuration is pending or uncertain; wait for a report or reconnect".to_owned(),
            AcpError::ConfigurationRejected => "provider did not confirm the requested option value".to_owned(),
            AcpError::ConfigurationChanged => "configuration changed before dispatch; choose a new run ID and retry explicitly".to_owned(),
            AcpError::ModelSelectorUnavailable => "provider does not expose exactly one model selector; use an explicit option ID".to_owned(),
            AcpError::Store(error) => error.to_string(),
            AcpError::Protocol(text) => {
                let mut r = "ACP connection failed: ".to_owned();
                r.append(text.as_str());
                r
            },
            AcpError::Task(text) => {
                let mut r = "ACP connection task failed: ".to_owned();
                r.append(text.as_str());
                r
            },
        }
    }
}

impl RecordingErrorView {
    /// What the error says.
    pub open spec fn message(self) -> Seq<char> {
        match self {
            RecordingErrorView::NativeStructuredOutputUnsupported => {
                "this ACP driver cannot guarantee native structured-output enforcement"@
            },
            RecordingErrorView::Context(error) => "context preparation: "@ + error.debug(),
            RecordingErrorView::UnsupportedContext(text) => text,
            RecordingErrorView::Store(error) => "record store: "@ + error.debug(),
            RecordingErrorView::Agent(error) => error.message(),
            RecordingErrorView::RunAlreadyRecorded => {
                "run identity is already registered; choose a new ID"@
            },
            RecordingErrorView::Closed => "recording stopped after an error"@,
            RecordingErrorView::MissingPermission => {
                "decision has no observed permission request"@
            },
            RecordingErrorView::Serialization(text) => text,
        }
    }
}

impl RecordingError {
    /// What the error says.
    pub fn to_string(&self) -> (r: String)
        ensures
            r@ == self.deep_view().message(),
    {
        match self {
            RecordingError::NativeStructuredOutputUnsupported => {
                "this ACP driver cannot guarantee native structured-output enforcement".to_owned()
            },
            RecordingError::Context(error) => error.to_string(),
            RecordingError::UnsupportedContext(text) => text.clone(),
            RecordingError::Store(error) => error.to_string(),
            RecordingError::Agent(error) => error.to_string(),
            RecordingError::RunAlreadyRecorded => {
                "run identity is already registered; choose a new ID".to_owned()
            },
            RecordingError::Closed => "recording stopped after an error".to_owned(),
            RecordingError::MissingPermission => {
                "decision has no observed permission request".to_owned()
            },
            RecordingError::Serialization(text) => text.clone(),
        }
    }
}

} // verus!
