//! Connects to resolved providers.

use crate::acp::error::{AcpError, AcpErrorView};
use crate::datum::{outcome, Datum};
use crate::providers::discovery::{ResolvedProvider, ResolvedProviderView};
use crate::providers::{FilePath, SetupAction, SetupActionView, ACP_STDIO_DRIVER};
use crate::text::{decimal, decimal_text, digit_value, same_text, text_up_to, trimmed, up_to, utf8_text};
use vstd::prelude::*;
use vstd::string::*;
use vstd::utf8::{decode_utf8, valid_utf8};

verus! {

/// What is known of the provider's login.
#[derive(Debug, Clone, Copy, PartialEq, Eq, Structural)]
pub enum AuthenticationState {
    Unknown,
    Required,
}

impl DeepView for AuthenticationState {
    type V = AuthenticationState;

    open spec fn deep_view(&self) -> AuthenticationState {
        *self
    }
}

impl Datum for AuthenticationState {
    fn duplicate(&self) -> (r: AuthenticationState) {
        *self
    }

    fn same_as(&self, other: &AuthenticationState) -> (r: bool) {
        *self == *other
    }
}

/// What an agent declares.
#[derive(Debug, PartialEq, Eq)]
pub struct AdvertisedCapabilities {
    pub image_input: bool,
    pub embedded_context: bool,
    pub load_session: bool,
    pub resume_session: bool,
    pub mcp_http: bool,
    pub mcp_sse: bool,
}

/// What a `AdvertisedCapabilities` holds.
#[verifier::ext_equal]
pub struct AdvertisedCapabilitiesView {
    pub image_input: bool,
    pub embedded_context: bool,
    pub load_session: bool,
    pub resume_session: bool,
    pub mcp_http: bool,
    pub mcp_sse: bool,
}

impl DeepView for AdvertisedCapabilities {
    type V = AdvertisedCapabilitiesView;

    open spec fn deep_view(&self) -> AdvertisedCapabilitiesView {
        AdvertisedCapabilitiesView {
            image_input: self.image_input.deep_view(),
            embedded_context: self.embedded_context.deep_view(),
            load_session: self.load_session.deep_view(),
            resume_session: self.resume_session.deep_view(),
            mcp_http: self.mcp_http.deep_view(),
            mcp_sse: self.mcp_sse.deep_view(),
        }
    }
}

impl Datum for AdvertisedCapabilities {
    fn duplicate(&self) -> (r: AdvertisedCapabilities) {
        AdvertisedCapabilities {
            image_input: self.image_input.duplicate(),
            embedded_context: self.embedded_context.duplicate(),
            load_session: self.load_session.duplicate(),
            resume_session: self.resume_session.duplicate(),
            mcp_http: self.mcp_http.duplicate(),
            mcp_sse: self.mcp_sse.duplicate(),
        }
    }

    fn same_as(&self, other: &AdvertisedCapabilities) -> (r: bool) {
        self.image_input.same_as(&other.image_input)
            && self.embedded_context.same_as(&other.embedded_context)
            && self.load_session.same_as(&other.load_session)
            && self.resume_session.same_as(&other.resume_session)
            && self.mcp_http.same_as(&other.mcp_http)
            && self.mcp_sse.same_as(&other.mcp_sse)
    }
}

/// A way to log in.
#[derive(Debug, PartialEq, Eq)]
pub struct AuthMethod {
    pub id: String,
    pub name: String,
}

/// What a `AuthMethod` holds.
#[verifier::ext_equal]
pub struct AuthMethodView {
    pub id: Seq<char>,
    pub name: Seq<char>,
}

impl DeepView for AuthMethod {
    type V = AuthMethodView;

    open spec fn deep_view(&self) -> AuthMethodView {
        AuthMethodView {
            id: self.id.deep_view(),
            name: self.name.deep_view(),
        }
    }
}

impl Datum for AuthMethod {
    fn duplicate(&self) -> (r: AuthMethod) {
        AuthMethod {
            id: self.id.duplicate(),
            name: self.name.duplicate(),
        }
    }

    fn same_as(&self, other: &AuthMethod) -> (r: bool) {
        self.id.same_as(&other.id)
            && self.name.same_as(&other.name)
    }
}

/// What is known of a connected provider.
#[derive(Debug, PartialEq, Eq)]
pub struct ProviderReport {
    pub provider: String,
    pub driver: String,
    pub reported_name: Option<String>,
    pub reported_version: Option<String>,
    pub authentication: AuthenticationState,
    pub auth_methods: Vec<AuthMethod>,
    /// Protocol declarations, not results of workflow compatibility tests.
    pub advertised: AdvertisedCapabilities,
}

/// What a `ProviderReport` holds.
#[verifier::ext_equal]
pub struct ProviderReportView {
    pub provider: Seq<char>,
    pub driver: Seq<char>,
    pub reported_name: Option<Seq<char>>,
    pub reported_version: Option<Seq<char>>,
    pub authentication: AuthenticationState,
    pub auth_methods: Seq<AuthMethodView>,
    pub advertised: AdvertisedCapabilitiesView,
}

impl DeepView for ProviderReport {
    type V = ProviderReportView;

    open spec fn deep_view(&self) -> ProviderReportView {
        ProviderReportView {
            provider: self.provider.deep_view(),
            driver: self.driver.deep_view(),
            reported_name: self.reported_name.deep_view(),
            reported_version: self.reported_version.deep_view(),
            authentication: self.authentication.deep_view(),
            auth_methods: self.auth_methods.deep_view(),
            advertised: self.advertised.deep_view(),
        }
    }
}

impl Datum for ProviderReport {
    fn duplicate(&self) -> (r: ProviderReport) {
        ProviderReport {
            provider: self.provider.duplicate(),
            driver: self.driver.duplicate(),
            reported_name: self.reported_name.duplicate(),
            reported_version: self.reported_version.duplicate(),
            authentication: self.authentication.duplicate(),
            auth_methods: self.auth_methods.duplicate(),
            advertised: self.advertised.duplicate(),
        }
    }

    fn same_as(&self, other: &ProviderReport) -> (r: bool) {
        self.provider.same_as(&other.provider)
            && self.driver.same_as(&other.driver)
            && self.reported_name.same_as(&other.reported_name)
            && self.reported_version.same_as(&other.reported_version)
            && self.authentication.same_as(&other.authentication)
            && self.auth_methods.same_as(&other.auth_methods)
            && self.advertised.same_as(&other.advertised)
    }
}


/// Why a provider cannot be used.
#[derive(Debug, PartialEq, Eq)]
pub enum ProviderError {
    UnsupportedDriver(String),
    UnsupportedRuntime { minimum_major: u32, found_major: Option<u32> },
    RuntimeProbeTimedOut,
    RuntimeProbeFailed,
    IncompatibleProtocol,
    AuthenticationRequired,
    Agent(AcpError),
}

/// What a `ProviderError` holds.
pub enum ProviderErrorView {
    UnsupportedDriver(Seq<char>),
    UnsupportedRuntime { minimum_major: u32, found_major: Option<u32> },
    RuntimeProbeTimedOut,
    RuntimeProbeFailed,
    IncompatibleProtocol,
    AuthenticationRequired,
    Agent(AcpErrorView),
}

impl DeepView for ProviderError {
    type V = ProviderErrorView;

    open spec fn deep_view(&self) -> ProviderErrorView {
        match self {
            ProviderError::UnsupportedDriver(id) => ProviderErrorView::UnsupportedDriver(id@),
            ProviderError::UnsupportedRuntime { minimum_major, found_major } => {
                ProviderErrorView::UnsupportedRuntime {
                    minimum_major: *minimum_major,
                    found_major: *found_major,
                }
            },
            ProviderError::RuntimeProbeTimedOut => ProviderErrorView::RuntimeProbeTimedOut,
            ProviderError::RuntimeProbeFailed => ProviderErrorView::RuntimeProbeFailed,
            ProviderError::IncompatibleProtocol => ProviderErrorView::IncompatibleProtocol,
            ProviderError::AuthenticationRequired => ProviderErrorView::AuthenticationRequired,
            ProviderError::Agent(error) => ProviderErrorView::Agent(error.deep_view()),
        }
    }
}

impl ProviderErrorView {
    /// The error in words.
    pub open spec fn message(self) -> Seq<char> {
        match self {
            ProviderErrorView::UnsupportedDriver(id) => "no matching driver for "@ + id,
            ProviderErrorView::UnsupportedRuntime { minimum_major, found_major } => "Node "@
                + decimal(minimum_major as nat) + "+ is required; reported major version: "@
                + match found_major {
                Some(major) => "Some("@ + decimal(major as nat) + ")"@,
                None => "None"@,
            },
            ProviderErrorView::RuntimeProbeTimedOut => "Node version probe timed out"@,
            ProviderErrorView::RuntimeProbeFailed => "Node version probe failed"@,
            ProviderErrorView::IncompatibleProtocol => {
                "provider negotiated an unsupported ACP protocol version"@
            },
            ProviderErrorView::AuthenticationRequired => {
                "provider requires authentication; use its supported local setup flow"@
            },
            ProviderErrorView::Agent(error) => error.message(),
        }
    }
}

impl ProviderError {
    /// The error in words.
    pub fn to_string(&self) -> (r: String)
        ensures
            r@ == self.deep_view().message(),
    {
        match self {
            ProviderError::UnsupportedDriver(id) => {
                let mut text = "no matching driver for ".to_owned();
                text.append(id.as_str());
                text
            },
            ProviderError::UnsupportedRuntime { minimum_major, found_major } => {
                let mut text = "Node ".to_owned();
                text.append(decimal_text(*minimum_major as u64).as_str());
                text.append("+ is required; reported major version: ");
                match found_major {
                    Some(major) => {
                        let mut shown = "Some(".to_owned();
                        shown.append(decimal_text(*major as u64).as_str());
                        shown.append(")");
                        text.append(shown.as_str());
                    },
                    None => text.append("None"),
                }
                text
            },
            ProviderError::RuntimeProbeTimedOut => "Node version probe timed out".to_owned(),
            ProviderError::RuntimeProbeFailed => "Node version probe failed".to_owned(),
            ProviderError::IncompatibleProtocol => {
                "provider negotiated an unsupported ACP protocol version".to_owned()
            },
            ProviderError::AuthenticationRequired => {
                "provider requires authentication; use its supported local setup flow".to_owned()
            },
            ProviderError::Agent(error) => error.to_string(),
        }
    }
}

/// What a protocol error means for the provider. Only the protocol's own code says that
/// a login is required.
pub open spec fn error_meaning(error: AcpErrorView, auth_code: bool) -> ProviderErrorView {
    match error {
        AcpErrorView::UnsupportedProtocolVersion => ProviderErrorView::IncompatibleProtocol,
        AcpErrorView::Protocol(_) if auth_code => ProviderErrorView::AuthenticationRequired,
        _ => ProviderErrorView::Agent(error),
    }
}

/// What a protocol error means for the provider. `auth_code` tells whether the error has
/// the protocol's code for a required login.
pub fn provider_error(error: AcpError, auth_code: bool) -> (r: ProviderError)
    ensures
        r.deep_view() == error_meaning(error.deep_view(), auth_code),
{
    match error {
        AcpError::UnsupportedProtocolVersion => ProviderError::IncompatibleProtocol,
        AcpError::Protocol(_) if auth_code => ProviderError::AuthenticationRequired,
        other => ProviderError::Agent(other),
    }
}

/// The text is a number as programs report it: digits, perhaps after a plus sign.
pub open spec fn number_of(s: Seq<char>) -> Option<u32> {
    let digits = if s.len() > 0 && s[0] == '+' {
        s.skip(1)
    } else {
        s
    };
    if digits.len() > 0 && all_digits(digits) && value_of(digits) <= u32::MAX {
        Some(value_of(digits) as u32)
    } else {
        None
    }
}

/// The text consists of decimal digits.
pub open spec fn all_digits(s: Seq<char>) -> bool {
    forall|i: int| 0 <= i < s.len() ==> '0' <= #[trigger] s[i] && s[i] <= '9'
}

/// The number that the digits write.
pub open spec fn value_of(s: Seq<char>) -> nat
    decreases s.len(),
{
    if s.len() == 0 {
        0
    } else {
        value_of(s.drop_last()) * 10 + (s.last() as nat - 48) as nat
    }
}

proof fn values_grow(s: Seq<char>, i: int)
    requires
        0 <= i <= s.len(),
    ensures
        value_of(s.take(i)) <= value_of(s),
    decreases s.len() - i,
{
    if i < s.len() {
        values_grow(s, i + 1);
        assert(s.take(i + 1).drop_last() =~= s.take(i));
    } else {
        assert(s.take(i) =~= s);
    }
}

/// Reads a number.
pub fn read_number(s: &str) -> (r: Option<u32>)
    ensures
        r == number_of(s@),
{
    let n: usize = s.unicode_len();
    let start: usize = if n > 0 && s.get_char(0) == '+' {
        1
    } else {
        0
    };
    if start == n {
        return None;
    }
    let ghost digits = s@.skip(start as int);
    assert(s@.skip(0) =~= s@);
    let mut value: u64 = 0;
    let mut i: usize = start;
    while i < n
        invariant
            start <= i <= n,
            start <= 1,
            n == s@.len(),
            digits == s@.skip(start as int),
            digits == if s@.len() > 0 && s@[0] == '+' {
                s@.skip(1)
            } else {
                s@
            },
            value == value_of(digits.take(i - start)),
            value <= u32::MAX,
            forall|j: int|
                0 <= j < i - start ==> '0' <= #[trigger] digits[j] && digits[j] <= '9',
        decreases n - i,
    {
        let c = s.get_char(i);
        assert(c == digits[i - start]);
        match digit_value(c) {
            None => {
                return None;
            },
            Some(d) => {
                assert(digits.take(i + 1 - start).drop_last() =~= digits.take(i - start));
                assert(digits.take(i + 1 - start).last() == c);
                value = value * 10 + d;
                if value > u32::MAX as u64 {
                    proof {
                        values_grow(digits, i + 1 - start);
                    }
                    return None;
                }
            },
        }
        i = i + 1;
    }
    assert(digits.take(n - start) =~= digits);
    Some(value as u32)
}

/// The major version that a version line reports, such as `v22.1.0`.
pub open spec fn major_version(bytes: Seq<u8>) -> Option<u32> {
    if !valid_utf8(bytes) {
        None
    } else {
        let text = trimmed(decode_utf8(bytes));
        if text.len() > 0 && text[0] == 'v' {
            number_of(up_to(text.skip(1), '.'))
        } else {
            None
        }
    }
}

/// The major version that a version line reports.
pub fn read_major_version(bytes: &Vec<u8>) -> (r: Option<u32>)
    ensures
        r == major_version(bytes@),
{
    let text = match utf8_text(bytes) {
        None => return None,
        Some(text) => text,
    };
    proof {
        vstd::utf8::encode_utf8_decode_utf8(text@);
    }
    let line = text.as_str().trim();
    let n: usize = line.unicode_len();
    if n > 0 && line.get_char(0) == 'v' {
        let rest = line.substring_char(1, n);
        assert(rest@ =~= line@.skip(1));
        read_number(text_up_to(rest, '.'))
    } else {
        None
    }
}

/// How asking Node for its version ended.
pub enum RuntimeProbe {
    /// It could not be started or read, or ended with an error.
    Failed,
    TimedOut,
    /// What it printed.
    Printed(Vec<u8>),
}

/// Whether Node is new enough.
pub fn check_node(probe: &RuntimeProbe, minimum: u32) -> (r: Result<(), ProviderError>)
    ensures
        outcome(r) == match probe {
            RuntimeProbe::Failed => Err::<(), ProviderErrorView>(
                ProviderErrorView::RuntimeProbeFailed,
            ),
            RuntimeProbe::TimedOut => Err(ProviderErrorView::RuntimeProbeTimedOut),
            RuntimeProbe::Printed(bytes) => {
                let found = major_version(bytes@);
                if found is Some && found->0 >= minimum {
                    Ok(())
                } else {
                    Err(
                        ProviderErrorView::UnsupportedRuntime {
                            minimum_major: minimum,
                            found_major: found,
                        },
                    )
                }
            },
        },
{
    match probe {
        RuntimeProbe::Failed => Err(ProviderError::RuntimeProbeFailed),
        RuntimeProbe::TimedOut => Err(ProviderError::RuntimeProbeTimedOut),
        RuntimeProbe::Printed(bytes) => {
            let found = read_major_version(bytes);
            let enough = match found {
                Some(major) => major >= minimum,
                None => false,
            };
            if enough {
                Ok(())
            } else {
                Err(
                    ProviderError::UnsupportedRuntime { minimum_major: minimum, found_major: found },
                )
            }
        },
    }
}

/// The driver of agents that speak the protocol over their standard streams.
#[derive(Debug, Clone, Copy, PartialEq, Eq, Structural)]
pub struct AcpDriver;

/// What has to be probed before a provider is launched: Node, and the lowest version of
/// it that will do.
pub open spec fn node_check(provider: ResolvedProviderView) -> Option<(
    crate::providers::FilePathView,
    u32,
)> {
    match (provider.node_runtime, provider.definition.minimum_node_major) {
        (Some(node), Some(minimum)) => Some((node, minimum)),
        _ => None,
    }
}

impl AcpDriver {
    /// The driver's identifier.
    pub fn id(&self) -> (r: &'static str)
        ensures
            r@ == ACP_STDIO_DRIVER@,
    {
        ACP_STDIO_DRIVER
    }

    /// What has to be probed before a provider is launched. Providers of other drivers
    /// are refused.
    pub fn admission(&self, provider: &ResolvedProvider) -> (r: Result<
        Option<(FilePath, u32)>,
        ProviderError,
    >)
        ensures
            match r {
                Ok(check) => provider.deep_view().definition.driver == ACP_STDIO_DRIVER@
                    && match check {
                    Some((node, minimum)) => node_check(provider.deep_view()) == Some(
                        (node.deep_view(), minimum),
                    ),
                    None => node_check(provider.deep_view()) is None,
                },
                Err(e) => provider.deep_view().definition.driver != ACP_STDIO_DRIVER@
                    && e.deep_view() == ProviderErrorView::UnsupportedDriver(
                    provider.deep_view().definition.driver,
                ),
            },
    {
        if !same_text(provider.definition.driver.as_str(), self.id()) {
            return Err(ProviderError::UnsupportedDriver(provider.definition.driver.clone()));
        }
        match (&provider.node_runtime, provider.definition.minimum_node_major) {
            (Some(node), Some(minimum)) => Ok(Some((node.duplicate(), minimum))),
            _ => Ok(None),
        }
    }
}

/// What an agent said of itself.
#[derive(Debug, PartialEq, Eq)]
pub struct AgentFacts {
    pub name: Option<String>,
    pub version: Option<String>,
    pub auth_methods: Vec<AuthMethod>,
    pub advertised: AdvertisedCapabilities,
}

/// A connected provider. Authentication and model access may still be unknown.
pub struct ConnectedProvider {
    provider: String,
    setup: Vec<SetupAction>,
    facts: AgentFacts,
    authentication: AuthenticationState,
}

impl ConnectedProvider {
    /// The report of what is known.
    pub closed spec fn known(&self) -> ProviderReportView {
        ProviderReportView {
            provider: self.provider@,
            driver: ACP_STDIO_DRIVER@,
            reported_name: self.facts.name.deep_view(),
            reported_version: self.facts.version.deep_view(),
            authentication: self.authentication,
            auth_methods: self.facts.auth_methods.deep_view(),
            advertised: self.facts.advertised.deep_view(),
        }
    }

    /// What has to be done before the provider can be used.
    pub closed spec fn preparations(&self) -> Seq<SetupActionView> {
        self.setup.deep_view()
    }

    /// A provider whose agent has answered.
    pub fn new(provider: ResolvedProvider, facts: AgentFacts) -> (r: ConnectedProvider)
        ensures
            r.known() == (ProviderReportView {
                provider: provider.deep_view().definition.id,
                driver: ACP_STDIO_DRIVER@,
                reported_name: facts.name.deep_view(),
                reported_version: facts.version.deep_view(),
                authentication: AuthenticationState::Unknown,
                auth_methods: facts.auth_methods.deep_view(),
                advertised: facts.advertised.deep_view(),
            }),
            r.preparations() == provider.deep_view().definition.setup,
    {
        ConnectedProvider {
            provider: provider.definition.id,
            setup: provider.definition.setup,
            facts,
            authentication: AuthenticationState::Unknown,
        }
    }

    /// What is known of the provider.
    pub fn report(&self) -> (r: ProviderReport)
        ensures
            r.deep_view() == self.known(),
    {
        ProviderReport {
            provider: self.provider.clone(),
            driver: ACP_STDIO_DRIVER.to_owned(),
            reported_name: self.facts.name.duplicate(),
            reported_version: self.facts.version.duplicate(),
            authentication: self.authentication,
            auth_methods: self.facts.auth_methods.duplicate(),
            advertised: self.facts.advertised.duplicate(),
        }
    }

    /// What has to be done before the provider can be used.
    pub fn setup(&self) -> (r: &Vec<SetupAction>)
        ensures
            r.deep_view() == self.preparations(),
    {
        &self.setup
    }

    /// Classify an error from a session/run using structured protocol codes only. A
    /// required login is remembered.
    pub fn classify_error(&mut self, error: AcpError, auth_code: bool) -> (r: ProviderError)
        ensures
            r.deep_view() == error_meaning(error.deep_view(), auth_code),
            final(self).preparations() == old(self).preparations(),
            final(self).known() == if r is AuthenticationRequired {
                ProviderReportView {
                    authentication: AuthenticationState::Required,
                    ..old(self).known()
                }
            } else {
                old(self).known()
            },
    {
        let error = provider_error(error, auth_code);
        if matches!(error, ProviderError::AuthenticationRequired) {
            self.authentication = AuthenticationState::Required;
        }
        error
    }
}

} // verus!
