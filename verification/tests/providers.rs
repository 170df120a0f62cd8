use agent_bridge::acp::error::AcpError;
use agent_bridge::providers::discovery::{
    entrypoint, executable_suffixes, ExecutableSearch, FileFacts, Findings, SearchDirectory,
    SetupIssue,
};
use agent_bridge::providers::driver::{
    check_node, provider_error, read_major_version, read_number, AcpDriver, AdvertisedCapabilities,
    AgentFacts, AuthenticationState, ConnectedProvider, ProviderError, RuntimeProbe,
};
use agent_bridge::providers::{FilePath, ProviderDefinition, ACP_STDIO_DRIVER};

fn path(text: &str) -> FilePath {
    FilePath { bytes: text.as_bytes().to_vec() }
}

fn program() -> FileFacts {
    FileFacts {
        absolute: true,
        file: true,
        executable: true,
        extension: None,
        prefix: Some(b"\x7fELF".to_vec()),
    }
}

fn findings(command: Option<&str>, entry: FileFacts) -> Findings {
    Findings {
        standalone_cli: Some(path("/bin/opencode")),
        command: command.map(path),
        node: Some(path("/bin/node")),
        entry,
    }
}

#[test]
fn built_in_definitions_use_the_shared_transport() {
    let opencode = ProviderDefinition::opencode();
    assert_eq!(opencode.driver, ACP_STDIO_DRIVER);
    assert_eq!(opencode.args, vec!["acp".to_owned()]);
    assert!(!opencode.adapter_required);
    let codex = ProviderDefinition::codex();
    assert_eq!(codex.command, "codex-acp");
    assert!(codex.adapter_required);
    let custom = ProviderDefinition::custom("mine".to_owned(), "my-agent".to_owned());
    assert_eq!(custom.id, "mine");
    assert_eq!(custom.command, "my-agent");
}

#[test]
fn an_installed_provider_can_be_launched() {
    let profile = ProviderDefinition::opencode()
        .profile("account".to_owned())
        .env("KEY".to_owned(), "value".to_owned());
    let inspection = profile.inspect(&findings(Some("/bin/opencode"), program()));
    assert!(inspection.is_launchable());
    assert_eq!(inspection.report().issues.len(), 0);
    let resolved = inspection.into_resolved().unwrap();
    assert_eq!(resolved.launch().executable, path("/bin/opencode"));
    assert_eq!(resolved.launch().env.get("KEY"), Some(&"value".to_owned()));
}

#[test]
fn what_is_missing_is_reported() {
    let profile = ProviderDefinition::codex().profile("account".to_owned());
    let mut nothing = findings(None, program());
    nothing.standalone_cli = None;
    let inspection = profile.inspect(&nothing);
    assert!(!inspection.is_launchable());
    let report = match inspection.into_resolved() {
        Ok(_) => panic!("nothing is installed"),
        Err(report) => report,
    };
    assert!(report.issues.iter().any(|issue| matches!(issue, SetupIssue::MissingAdapter(_))));
    let relative = FileFacts { absolute: false, ..program() };
    let chosen = ProviderDefinition::opencode()
        .profile("account".to_owned())
        .executable(path("bin/opencode"));
    let inspection = chosen.inspect(&findings(None, relative));
    assert!(inspection
        .report()
        .issues
        .iter()
        .any(|issue| matches!(issue, SetupIssue::InvalidPath(_))));
    let blank = ProviderDefinition::opencode().profile(" ".to_owned());
    let inspection = blank.inspect(&findings(Some("/bin/opencode"), program()));
    assert!(inspection
        .report()
        .issues
        .iter()
        .any(|issue| matches!(issue, SetupIssue::InvalidProfile)));
}

#[test]
fn a_chosen_executable_is_the_entry_point() {
    let profile = ProviderDefinition::opencode()
        .profile("account".to_owned())
        .executable(path("/opt/opencode"));
    assert_eq!(entrypoint(&profile, &Some(path("/bin/x"))), Some(path("/opt/opencode")));
    let found = ProviderDefinition::opencode().profile("account".to_owned());
    assert_eq!(entrypoint(&found, &Some(path("/bin/x"))), Some(path("/bin/x")));
    assert_eq!(entrypoint(&found, &None), None);
}

fn directory(text: &str, absolute: bool, canonical: &str) -> SearchDirectory {
    SearchDirectory { path: path(text), absolute, canonical: path(canonical) }
}

#[test]
fn directories_are_searched_once_and_only_if_absolute() {
    let search = ExecutableSearch::from_directories(&vec![
        directory("/a", true, "/real"),
        directory("relative", false, "relative"),
        directory("/b", true, "/real"),
        directory("/c", true, "/c"),
    ]);
    let attempts = search.attempts("tool", true, false);
    let names: Vec<(FilePath, String)> =
        attempts.into_iter().map(|a| (a.directory, a.file_name)).collect();
    assert_eq!(names.len(), 2);
    assert_eq!(names[0].1, "tool");
    assert_eq!(names[1].0, path("/c"));
    assert_eq!(search.attempts("dir/tool", false, false).len(), 0);
    assert!(executable_suffixes(true).contains(&".exe".to_owned()));
    assert_eq!(executable_suffixes(false), vec!["".to_owned()]);
}

#[test]
fn node_versions_are_read_from_what_the_runtime_prints() {
    assert_eq!(read_major_version(&b"v22.4.1\n".to_vec()), Some(22));
    assert_eq!(read_major_version(&b"22.4.1".to_vec()), None);
    assert_eq!(read_major_version(&vec![0xff]), None);
    assert_eq!(read_number("4294967295"), Some(4294967295));
    assert_eq!(read_number("4294967296"), None);
    assert_eq!(read_number(""), None);
    assert_eq!(check_node(&RuntimeProbe::Printed(b"v22.0.0".to_vec()), 22), Ok(()));
    assert_eq!(
        check_node(&RuntimeProbe::Printed(b"v20.0.0".to_vec()), 22),
        Err(ProviderError::UnsupportedRuntime { minimum_major: 22, found_major: Some(20) })
    );
    assert_eq!(
        check_node(&RuntimeProbe::TimedOut, 22),
        Err(ProviderError::RuntimeProbeTimedOut)
    );
    assert_eq!(check_node(&RuntimeProbe::Failed, 22), Err(ProviderError::RuntimeProbeFailed));
}

#[test]
fn errors_tell_that_authentication_is_required() {
    assert_eq!(
        provider_error(AcpError::UnsupportedProtocolVersion, false),
        ProviderError::IncompatibleProtocol
    );
    assert_eq!(
        provider_error(AcpError::Protocol("login".to_owned()), true),
        ProviderError::AuthenticationRequired
    );
    assert_eq!(
        provider_error(AcpError::Closed, false),
        ProviderError::Agent(AcpError::Closed)
    );
}

#[test]
fn a_connected_provider_reports_what_the_agent_said() {
    let resolved = ProviderDefinition::opencode()
        .profile("account".to_owned())
        .inspect(&findings(Some("/bin/opencode"), program()))
        .into_resolved()
        .unwrap();
    assert_eq!(AcpDriver.id(), ACP_STDIO_DRIVER);
    assert_eq!(AcpDriver.admission(&resolved), Ok(None));
    let facts = AgentFacts {
        name: Some("OpenCode".to_owned()),
        version: Some("1".to_owned()),
        auth_methods: Vec::new(),
        advertised: AdvertisedCapabilities {
            image_input: true,
            embedded_context: false,
            load_session: false,
            resume_session: true,
            mcp_http: false,
            mcp_sse: false,
        },
    };
    let mut connected = ConnectedProvider::new(resolved, facts);
    let report = connected.report();
    assert_eq!(report.provider, "opencode");
    assert_eq!(report.authentication, AuthenticationState::Unknown);
    assert!(report.advertised.resume_session);
    connected.classify_error(AcpError::Protocol("login".to_owned()), true);
    assert_eq!(connected.report().authentication, AuthenticationState::Required);
}

#[test]
fn other_drivers_are_not_served() {
    let mut definition = ProviderDefinition::opencode();
    definition.driver = "other".to_owned();
    let resolved = definition
        .profile("account".to_owned())
        .inspect(&findings(Some("/bin/opencode"), program()))
        .into_resolved()
        .unwrap();
    assert_eq!(
        AcpDriver.admission(&resolved),
        Err(ProviderError::UnsupportedDriver("other".to_owned()))
    );
}
