//! Configuration intent and provider reports, independent of any transport.

use crate::datum::Datum;
use crate::table::Table;
use vstd::prelude::*;

verus! {

/// A value of a configuration option.
#[derive(Debug, PartialEq, Eq)]
pub enum ConfigValue {
    Select(String),
    Boolean(bool),
}

/// What a `ConfigValue` holds.
pub enum ConfigValueView {
    Select(Seq<char>),
    Boolean(bool),
}

impl DeepView for ConfigValue {
    type V = ConfigValueView;

    open spec fn deep_view(&self) -> ConfigValueView {
        match self {
            ConfigValue::Select(value) => ConfigValueView::Select(value.deep_view()),
            ConfigValue::Boolean(value) => ConfigValueView::Boolean(value.deep_view()),
        }
    }
}

impl Datum for ConfigValue {
    fn duplicate(&self) -> (r: ConfigValue) {
        match self {
            ConfigValue::Select(value) => ConfigValue::Select(value.duplicate()),
            ConfigValue::Boolean(value) => ConfigValue::Boolean(value.duplicate()),
        }
    }

    fn same_as(&self, other: &ConfigValue) -> (r: bool) {
        match (self, other) {
            (ConfigValue::Select(a), ConfigValue::Select(b)) => a.same_as(b),
            (ConfigValue::Boolean(a), ConfigValue::Boolean(b)) => a.same_as(b),
            _ => false,
        }
    }
}

/// Frozen at dispatch. Reports concern provider configuration, not an attestation
/// of which remote model actually served every generation or delegated task.
#[derive(Debug, PartialEq, Eq)]
pub struct RunConfiguration {
    /// Explicit selections successfully acknowledged on this session handle.
    pub requested: Table<ConfigValue>,
    /// None means no reliable report. Only present keys have reported values.
    pub confirmed: Option<Table<ConfigValue>>,
}

/// What a `RunConfiguration` holds.
#[verifier::ext_equal]
pub struct RunConfigurationView {
    pub requested: Map<Seq<char>, ConfigValueView>,
    pub confirmed: Option<Map<Seq<char>, ConfigValueView>>,
}

impl DeepView for RunConfiguration {
    type V = RunConfigurationView;

    open spec fn deep_view(&self) -> RunConfigurationView {
        RunConfigurationView {
            requested: self.requested.deep_view(),
            confirmed: self.confirmed.deep_view(),
        }
    }
}

impl Datum for RunConfiguration {
    fn duplicate(&self) -> (r: RunConfiguration) {
        RunConfiguration {
            requested: self.requested.duplicate(),
            confirmed: self.confirmed.duplicate(),
        }
    }

    fn same_as(&self, other: &RunConfiguration) -> (r: bool) {
        self.requested.same_as(&other.requested)
            && self.confirmed.same_as(&other.confirmed)
    }
}

/// One choice of a select option.
#[derive(Debug, PartialEq, Eq)]
pub struct ConfigChoice {
    pub value: String,
    pub label: String,
    pub description: Option<String>,
    pub group: Option<String>,
}

/// What a `ConfigChoice` holds.
#[verifier::ext_equal]
pub struct ConfigChoiceView {
    pub value: Seq<char>,
    pub label: Seq<char>,
    pub description: Option<Seq<char>>,
    pub group: Option<Seq<char>>,
}

impl DeepView for ConfigChoice {
    type V = ConfigChoiceView;

    open spec fn deep_view(&self) -> ConfigChoiceView {
        ConfigChoiceView {
            value: self.value.deep_view(),
            label: self.label.deep_view(),
            description: self.description.deep_view(),
            group: self.group.deep_view(),
        }
    }
}

impl Datum for ConfigChoice {
    fn duplicate(&self) -> (r: ConfigChoice) {
        ConfigChoice {
            value: self.value.duplicate(),
            label: self.label.duplicate(),
            description: self.description.duplicate(),
            group: self.group.duplicate(),
        }
    }

    fn same_as(&self, other: &ConfigChoice) -> (r: bool) {
        self.value.same_as(&other.value)
            && self.label.same_as(&other.label)
            && self.description.same_as(&other.description)
            && self.group.same_as(&other.group)
    }
}

/// One option that a provider exposes.
#[derive(Debug, PartialEq, Eq)]
pub struct ConfigOption {
    pub id: String,
    pub label: String,
    pub description: Option<String>,
    /// A UI hint, not permission or execution authority.
    pub category: Option<String>,
    pub current: ConfigValue,
    /// Choices for Select; empty for Boolean. Provider ordering is retained.
    pub choices: Vec<ConfigChoice>,
}

/// What a `ConfigOption` holds.
#[verifier::ext_equal]
pub struct ConfigOptionView {
    pub id: Seq<char>,
    pub label: Seq<char>,
    pub description: Option<Seq<char>>,
    pub category: Option<Seq<char>>,
    pub current: ConfigValueView,
    pub choices: Seq<ConfigChoiceView>,
}

impl DeepView for ConfigOption {
    type V = ConfigOptionView;

    open spec fn deep_view(&self) -> ConfigOptionView {
        ConfigOptionView {
            id: self.id.deep_view(),
            label: self.label.deep_view(),
            description: self.description.deep_view(),
            category: self.category.deep_view(),
            current: self.current.deep_view(),
            choices: self.choices.deep_view(),
        }
    }
}

impl Datum for ConfigOption {
    fn duplicate(&self) -> (r: ConfigOption) {
        ConfigOption {
            id: self.id.duplicate(),
            label: self.label.duplicate(),
            description: self.description.duplicate(),
            category: self.category.duplicate(),
            current: self.current.duplicate(),
            choices: self.choices.duplicate(),
        }
    }

    fn same_as(&self, other: &ConfigOption) -> (r: bool) {
        self.id.same_as(&other.id)
            && self.label.same_as(&other.label)
            && self.description.same_as(&other.description)
            && self.category.same_as(&other.category)
            && self.current.same_as(&other.current)
            && self.choices.same_as(&other.choices)
    }
}

/// What is known of a session's configuration.
#[derive(Debug, PartialEq, Eq)]
pub struct SessionConfiguration {
    /// None means the provider did not expose configuration options.
    pub options: Option<Vec<ConfigOption>>,
    pub values: RunConfiguration,
    pub pending: bool,
    /// A change or report has an uncertain outcome; dispatch is blocked.
    pub uncertain: bool,
}

/// What a `SessionConfiguration` holds.
#[verifier::ext_equal]
pub struct SessionConfigurationView {
    pub options: Option<Seq<ConfigOptionView>>,
    pub values: RunConfigurationView,
    pub pending: bool,
    pub uncertain: bool,
}

impl DeepView for SessionConfiguration {
    type V = SessionConfigurationView;

    open spec fn deep_view(&self) -> SessionConfigurationView {
        SessionConfigurationView {
            options: self.options.deep_view(),
            values: self.values.deep_view(),
            pending: self.pending.deep_view(),
            uncertain: self.uncertain.deep_view(),
        }
    }
}

impl Datum for SessionConfiguration {
    fn duplicate(&self) -> (r: SessionConfiguration) {
        SessionConfiguration {
            options: self.options.duplicate(),
            values: self.values.duplicate(),
            pending: self.pending.duplicate(),
            uncertain: self.uncertain.duplicate(),
        }
    }

    fn same_as(&self, other: &SessionConfiguration) -> (r: bool) {
        self.options.same_as(&other.options)
            && self.values.same_as(&other.values)
            && self.pending.same_as(&other.pending)
            && self.uncertain.same_as(&other.uncertain)
    }
}

/// Configuration values by option.
pub type ConfigValues = Table<ConfigValue>;

impl RunConfigurationView {
    /// Nothing was requested and nothing was reported.
    pub open spec fn unset() -> RunConfigurationView {
        RunConfigurationView { requested: Map::empty(), confirmed: None }
    }
}

impl Default for RunConfiguration {
    fn default() -> (r: RunConfiguration)
        ensures
            r.deep_view() == RunConfigurationView::unset(),
    {
        let r = RunConfiguration { requested: Table::new(), confirmed: None };
        assert(r.deep_view() =~= RunConfigurationView::unset());
        r
    }
}

} // verus!
