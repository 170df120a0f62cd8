//! Installed-provider definitions, read-only discovery, and explicit driver probes.

pub mod discovery;
pub mod driver;
pub mod laws;

use crate::datum::Datum;
use crate::table::Table;
use vstd::prelude::*;

verus! {

/// The shared built-in transport. Custom drivers may use their own identifiers.
pub const ACP_STDIO_DRIVER: &'static str = "acp-stdio";

/// A path, as the bytes in which the machine writes it.
#[derive(Debug, PartialEq, Eq)]
pub struct FilePath {
    pub bytes: Vec<u8>,
}

/// What a `FilePath` holds.
#[verifier::ext_equal]
pub struct FilePathView {
    pub bytes: Seq<u8>,
}

impl DeepView for FilePath {
    type V = FilePathView;

    open spec fn deep_view(&self) -> FilePathView {
        FilePathView {
            bytes: self.bytes.deep_view(),
        }
    }
}

impl Datum for FilePath {
    fn duplicate(&self) -> (r: FilePath) {
        FilePath {
            bytes: self.bytes.duplicate(),
        }
    }

    fn same_as(&self, other: &FilePath) -> (r: bool) {
        self.bytes.same_as(&other.bytes)
    }
}

/// Something to do before a provider can be used.
#[derive(Debug, PartialEq, Eq)]
pub struct SetupAction {
    pub description: String,
    /// Guidance only. Discovery and connection never execute these commands.
    pub command: Option<String>,
    pub documentation: String,
}

/// What a `SetupAction` holds.
#[verifier::ext_equal]
pub struct SetupActionView {
    pub description: Seq<char>,
    pub command: Option<Seq<char>>,
    pub documentation: Seq<char>,
}

impl DeepView for SetupAction {
    type V = SetupActionView;

    open spec fn deep_view(&self) -> SetupActionView {
        SetupActionView {
            description: self.description.deep_view(),
            command: self.command.deep_view(),
            documentation: self.documentation.deep_view(),
        }
    }
}

impl Datum for SetupAction {
    fn duplicate(&self) -> (r: SetupAction) {
        SetupAction {
            description: self.description.duplicate(),
            command: self.command.duplicate(),
            documentation: self.documentation.duplicate(),
        }
    }

    fn same_as(&self, other: &SetupAction) -> (r: bool) {
        self.description.same_as(&other.description)
            && self.command.same_as(&other.command)
            && self.documentation.same_as(&other.documentation)
    }
}

/// A provider that may be installed.
#[derive(Debug, PartialEq, Eq)]
pub struct ProviderDefinition {
    pub id: String,
    pub name: String,
    pub driver: String,
    pub command: String,
    pub args: Vec<String>,
    pub standalone_cli: Option<String>,
    pub adapter_required: bool,
    pub minimum_node_major: Option<u32>,
    pub setup: Vec<SetupAction>,
}

/// What a `ProviderDefinition` holds.
#[verifier::ext_equal]
pub struct ProviderDefinitionView {
    pub id: Seq<char>,
    pub name: Seq<char>,
    pub driver: Seq<char>,
    pub command: Seq<char>,
    pub args: Seq<Seq<char>>,
    pub standalone_cli: Option<Seq<char>>,
    pub adapter_required: bool,
    pub minimum_node_major: Option<u32>,
    pub setup: Seq<SetupActionView>,
}

impl DeepView for ProviderDefinition {
    type V = ProviderDefinitionView;

    open spec fn deep_view(&self) -> ProviderDefinitionView {
        ProviderDefinitionView {
            id: self.id.deep_view(),
            name: self.name.deep_view(),
            driver: self.driver.deep_view(),
            command: self.command.deep_view(),
            args: self.args.deep_view(),
            standalone_cli: self.standalone_cli.deep_view(),
            adapter_required: self.adapter_required.deep_view(),
            minimum_node_major: self.minimum_node_major.deep_view(),
            setup: self.setup.deep_view(),
        }
    }
}

impl Datum for ProviderDefinition {
    fn duplicate(&self) -> (r: ProviderDefinition) {
        ProviderDefinition {
            id: self.id.duplicate(),
            name: self.name.duplicate(),
            driver: self.driver.duplicate(),
            command: self.command.duplicate(),
            args: self.args.duplicate(),
            standalone_cli: self.standalone_cli.duplicate(),
            adapter_required: self.adapter_required.duplicate(),
            minimum_node_major: self.minimum_node_major.duplicate(),
            setup: self.setup.duplicate(),
        }
    }

    fn same_as(&self, other: &ProviderDefinition) -> (r: bool) {
        self.id.same_as(&other.id)
            && self.name.same_as(&other.name)
            && self.driver.same_as(&other.driver)
            && self.command.same_as(&other.command)
            && self.args.same_as(&other.args)
            && self.standalone_cli.same_as(&other.standalone_cli)
            && self.adapter_required.same_as(&other.adapter_required)
            && self.minimum_node_major.same_as(&other.minimum_node_major)
            && self.setup.same_as(&other.setup)
    }
}

/// What is launched.
#[derive(Debug, PartialEq, Eq)]
pub enum LaunchTarget {
    Discover,
    Executable(FilePath),
    NodeScript(FilePath),
}

/// What a `LaunchTarget` holds.
pub enum LaunchTargetView {
    Discover,
    Executable(FilePathView),
    NodeScript(FilePathView),
}

impl DeepView for LaunchTarget {
    type V = LaunchTargetView;

    open spec fn deep_view(&self) -> LaunchTargetView {
        match self {
            LaunchTarget::Discover => LaunchTargetView::Discover,
            LaunchTarget::Executable(value) => LaunchTargetView::Executable(value.deep_view()),
            LaunchTarget::NodeScript(value) => LaunchTargetView::NodeScript(value.deep_view()),
        }
    }
}

impl Datum for LaunchTarget {
    fn duplicate(&self) -> (r: LaunchTarget) {
        match self {
            LaunchTarget::Discover => LaunchTarget::Discover,
            LaunchTarget::Executable(value) => LaunchTarget::Executable(value.duplicate()),
            LaunchTarget::NodeScript(value) => LaunchTarget::NodeScript(value.duplicate()),
        }
    }

    fn same_as(&self, other: &LaunchTarget) -> (r: bool) {
        match (self, other) {
            (LaunchTarget::Discover, LaunchTarget::Discover) => true,
            (LaunchTarget::Executable(a), LaunchTarget::Executable(b)) => a.same_as(b),
            (LaunchTarget::NodeScript(a), LaunchTarget::NodeScript(b)) => a.same_as(b),
            _ => false,
        }
    }
}

/// A profile holds private launch overrides. It intentionally cannot be shown for
/// debugging, which could expose environment values or arguments.
#[derive(PartialEq, Eq)]
pub struct ProviderProfile {
    pub definition: ProviderDefinition,
    pub scope: String,
    pub target: LaunchTarget,
    pub env: Table<String>,
}

/// What a `ProviderProfile` holds.
#[verifier::ext_equal]
pub struct ProviderProfileView {
    pub definition: ProviderDefinitionView,
    pub scope: Seq<char>,
    pub target: LaunchTargetView,
    pub env: Map<Seq<char>, Seq<char>>,
}

impl DeepView for ProviderProfile {
    type V = ProviderProfileView;

    open spec fn deep_view(&self) -> ProviderProfileView {
        ProviderProfileView {
            definition: self.definition.deep_view(),
            scope: self.scope.deep_view(),
            target: self.target.deep_view(),
            env: self.env.deep_view(),
        }
    }
}

impl Datum for ProviderProfile {
    fn duplicate(&self) -> (r: ProviderProfile) {
        ProviderProfile {
            definition: self.definition.duplicate(),
            scope: self.scope.duplicate(),
            target: self.target.duplicate(),
            env: self.env.duplicate(),
        }
    }

    fn same_as(&self, other: &ProviderProfile) -> (r: bool) {
        self.definition.same_as(&other.definition)
            && self.scope.same_as(&other.scope)
            && self.target.same_as(&other.target)
            && self.env.same_as(&other.env)
    }
}

/// Structured launch data for driver implementations. Never shell-parse arguments.
#[derive(PartialEq, Eq)]
pub struct ProviderLaunch {
    pub executable: FilePath,
    pub args: Vec<String>,
    pub env: Table<String>,
    pub scope: String,
}

/// What a `ProviderLaunch` holds.
#[verifier::ext_equal]
pub struct ProviderLaunchView {
    pub executable: FilePathView,
    pub args: Seq<Seq<char>>,
    pub env: Map<Seq<char>, Seq<char>>,
    pub scope: Seq<char>,
}

impl DeepView for ProviderLaunch {
    type V = ProviderLaunchView;

    open spec fn deep_view(&self) -> ProviderLaunchView {
        ProviderLaunchView {
            executable: self.executable.deep_view(),
            args: self.args.deep_view(),
            env: self.env.deep_view(),
            scope: self.scope.deep_view(),
        }
    }
}

impl Datum for ProviderLaunch {
    fn duplicate(&self) -> (r: ProviderLaunch) {
        ProviderLaunch {
            executable: self.executable.duplicate(),
            args: self.args.duplicate(),
            env: self.env.duplicate(),
            scope: self.scope.duplicate(),
        }
    }

    fn same_as(&self, other: &ProviderLaunch) -> (r: bool) {
        self.executable.same_as(&other.executable)
            && self.args.same_as(&other.args)
            && self.env.same_as(&other.env)
            && self.scope.same_as(&other.scope)
    }
}


/// Something to do, with the command that does it.
pub open spec fn action_of(
    description: Seq<char>,
    command: Seq<char>,
    documentation: Seq<char>,
) -> SetupActionView {
    SetupActionView { description, command: Some(command), documentation }
}

fn make_action(description: &str, command: &str, documentation: &str) -> (r: SetupAction)
    ensures
        r.deep_view() == action_of(description@, command@, documentation@),
{
    SetupAction {
        description: description.to_owned(),
        command: Some(command.to_owned()),
        documentation: documentation.to_owned(),
    }
}

impl ProviderDefinition {
    /// A provider of one's own over the built-in transport.
    pub fn custom(id: String, command: String) -> (r: ProviderDefinition)
        ensures
            r.deep_view() == (ProviderDefinitionView {
                id: id@,
                name: id@,
                driver: ACP_STDIO_DRIVER@,
                command: command@,
                args: Seq::empty(),
                standalone_cli: None,
                adapter_required: false,
                minimum_node_major: None,
                setup: Seq::empty(),
            }),
    {
        let r = ProviderDefinition {
            name: id.clone(),
            id,
            driver: ACP_STDIO_DRIVER.to_owned(),
            command,
            args: Vec::new(),
            standalone_cli: None,
            adapter_required: false,
            minimum_node_major: None,
            setup: Vec::new(),
        };
        assert(r.deep_view().args =~= Seq::empty());
        assert(r.deep_view().setup =~= Seq::empty());
        r
    }

    /// The OpenCode agent.
    pub fn opencode() -> (r: ProviderDefinition)
        ensures
            r.deep_view() == (ProviderDefinitionView {
                id: "opencode"@,
                name: "OpenCode"@,
                driver: ACP_STDIO_DRIVER@,
                command: "opencode"@,
                args: seq!["acp"@],
                standalone_cli: Some("opencode"@),
                adapter_required: false,
                minimum_node_major: None,
                setup: seq![
                    action_of(
                        "Install OpenCode and authenticate a model provider."@,
                        "opencode auth login"@,
                        "https://opencode.ai/docs/"@,
                    ),
                ],
            }),
    {
        let r = ProviderDefinition {
            id: "opencode".to_owned(),
            name: "OpenCode".to_owned(),
            driver: ACP_STDIO_DRIVER.to_owned(),
            command: "opencode".to_owned(),
            args: vec!["acp".to_owned()],
            standalone_cli: Some("opencode".to_owned()),
            adapter_required: false,
            minimum_node_major: None,
            setup: vec![
                make_action(
                    "Install OpenCode and authenticate a model provider.",
                    "opencode auth login",
                    "https://opencode.ai/docs/",
                ),
            ],
        };
        assert(r.deep_view().args =~= seq!["acp"@]);
        assert(r.deep_view().setup =~= seq![
                    action_of(
                        "Install OpenCode and authenticate a model provider."@,
                        "opencode auth login"@,
                        "https://opencode.ai/docs/"@,
                    ),
        ]);
        r
    }

    /// The Codex agent behind its adapter.
    pub fn codex() -> (r: ProviderDefinition)
        ensures
            r.deep_view() == (ProviderDefinitionView {
                id: "codex"@,
                name: "Codex"@,
                driver: ACP_STDIO_DRIVER@,
                command: "codex-acp"@,
                args: Seq::empty(),
                standalone_cli: Some("codex"@),
                adapter_required: true,
                minimum_node_major: None,
                setup: seq![
                    action_of(
                        "Install the Codex ACP adapter. Its npm package includes a compatible Codex runtime."@,
                        "npm install -g @agentclientprotocol/codex-acp"@,
                        "https://github.com/agentclientprotocol/codex-acp"@,
                    ),
                    action_of(
                        "Sign in using Codex CLI or a supported adapter authentication method."@,
                        "codex login"@,
                        "https://developers.openai.com/codex/auth"@,
                    ),
                ],
            }),
    {
        let r = ProviderDefinition {
            id: "codex".to_owned(),
            name: "Codex".to_owned(),
            driver: ACP_STDIO_DRIVER.to_owned(),
            command: "codex-acp".to_owned(),
            args: Vec::new(),
            standalone_cli: Some("codex".to_owned()),
            adapter_required: true,
            minimum_node_major: None,
            setup: vec![
                make_action(
                    "Install the Codex ACP adapter. Its npm package includes a compatible Codex runtime.",
                    "npm install -g @agentclientprotocol/codex-acp",
                    "https://github.com/agentclientprotocol/codex-acp",
                ),
                make_action(
                    "Sign in using Codex CLI or a supported adapter authentication method.",
                    "codex login",
                    "https://developers.openai.com/codex/auth",
                ),
            ],
        };
        assert(r.deep_view().args =~= Seq::empty());
        assert(r.deep_view().setup =~= seq![
                    action_of(
                        "Install the Codex ACP adapter. Its npm package includes a compatible Codex runtime."@,
                        "npm install -g @agentclientprotocol/codex-acp"@,
                        "https://github.com/agentclientprotocol/codex-acp"@,
                    ),
                    action_of(
                        "Sign in using Codex CLI or a supported adapter authentication method."@,
                        "codex login"@,
                        "https://developers.openai.com/codex/auth"@,
                    ),
        ]);
        r
    }

    /// A profile of this provider without overrides.
    pub fn profile(self, scope: String) -> (r: ProviderProfile)
        ensures
            r.deep_view() == (ProviderProfileView {
                definition: self.deep_view(),
                scope: scope@,
                target: LaunchTargetView::Discover,
                env: Map::empty(),
            }),
    {
        let env: Table<String> = Table::new();
        assert(env.deep_view() =~= Map::<Seq<char>, Seq<char>>::empty());
        ProviderProfile { definition: self, scope, target: LaunchTarget::Discover, env }
    }
}

impl ProviderProfile {
    /// Override the default executable using an absolute path. No fallback occurs.
    pub fn executable(self, path: FilePath) -> (r: ProviderProfile)
        ensures
            r.deep_view() == (ProviderProfileView {
                target: LaunchTargetView::Executable(path.deep_view()),
                ..self.deep_view()
            }),
    {
        ProviderProfile {
            definition: self.definition,
            scope: self.scope,
            target: LaunchTarget::Executable(path),
            env: self.env,
        }
    }

    /// Launch an adapter's JavaScript entry point with a discovered Node executable.
    pub fn node_script(self, path: FilePath) -> (r: ProviderProfile)
        ensures
            r.deep_view() == (ProviderProfileView {
                target: LaunchTargetView::NodeScript(path.deep_view()),
                ..self.deep_view()
            }),
    {
        ProviderProfile {
            definition: self.definition,
            scope: self.scope,
            target: LaunchTarget::NodeScript(path),
            env: self.env,
        }
    }

    /// Sets a variable of the environment.
    pub fn env(self, key: String, value: String) -> (r: ProviderProfile)
        ensures
            r.deep_view() == (ProviderProfileView {
                env: self.deep_view().env.insert(key@, value@),
                ..self.deep_view()
            }),
    {
        let mut env = self.env;
        env.put(key, value);
        ProviderProfile {
            definition: self.definition,
            scope: self.scope,
            target: self.target,
            env,
        }
    }

    /// Adds an argument.
    pub fn arg(self, argument: String) -> (r: ProviderProfile)
        ensures
            r.deep_view() == (ProviderProfileView {
                definition: ProviderDefinitionView {
                    args: self.deep_view().definition.args.push(argument@),
                    ..self.deep_view().definition
                },
                ..self.deep_view()
            }),
    {
        let mut definition = self.definition;
        let ghost before = definition.args.deep_view();
        definition.args.push(argument);
        assert(definition.args.deep_view() =~= before.push(argument@));
        ProviderProfile { definition, scope: self.scope, target: self.target, env: self.env }
    }

    /// The provider.
    pub fn definition(&self) -> (r: &ProviderDefinition)
        ensures
            r.deep_view() == self.deep_view().definition,
    {
        &self.definition
    }
}

} // verus!
