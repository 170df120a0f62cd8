//! What is known of a session's configuration, and how it may be changed.

use crate::acp::error::{AcpError, AcpErrorView};
use crate::configuration::{
    ConfigChoice, ConfigChoiceView, ConfigOption, ConfigOptionView, ConfigValue, ConfigValueView,
    RunConfiguration, RunConfigurationView, SessionConfiguration, SessionConfigurationView,
};
use crate::datum::{append, outcome, Datum};
use crate::table::Table;
use crate::text::{blank, is_blank, same_text};
use vstd::prelude::*;

verus! {

/// One choice that an agent offers.
#[derive(Debug, PartialEq, Eq)]
pub struct NativeChoice {
    pub value: String,
    pub name: String,
    pub description: Option<String>,
}

/// What a `NativeChoice` holds.
#[verifier::ext_equal]
pub struct NativeChoiceView {
    pub value: Seq<char>,
    pub name: Seq<char>,
    pub description: Option<Seq<char>>,
}

impl DeepView for NativeChoice {
    type V = NativeChoiceView;

    open spec fn deep_view(&self) -> NativeChoiceView {
        NativeChoiceView {
            value: self.value.deep_view(),
            name: self.name.deep_view(),
            description: self.description.deep_view(),
        }
    }
}

impl Datum for NativeChoice {
    fn duplicate(&self) -> (r: NativeChoice) {
        NativeChoice {
            value: self.value.duplicate(),
            name: self.name.duplicate(),
            description: self.description.duplicate(),
        }
    }

    fn same_as(&self, other: &NativeChoice) -> (r: bool) {
        self.value.same_as(&other.value)
            && self.name.same_as(&other.name)
            && self.description.same_as(&other.description)
    }
}

/// Choices under a common heading.
#[derive(Debug, PartialEq, Eq)]
pub struct NativeGroup {
    pub name: String,
    pub options: Vec<NativeChoice>,
}

/// What a `NativeGroup` holds.
#[verifier::ext_equal]
pub struct NativeGroupView {
    pub name: Seq<char>,
    pub options: Seq<NativeChoiceView>,
}

impl DeepView for NativeGroup {
    type V = NativeGroupView;

    open spec fn deep_view(&self) -> NativeGroupView {
        NativeGroupView {
            name: self.name.deep_view(),
            options: self.options.deep_view(),
        }
    }
}

impl Datum for NativeGroup {
    fn duplicate(&self) -> (r: NativeGroup) {
        NativeGroup {
            name: self.name.duplicate(),
            options: self.options.duplicate(),
        }
    }

    fn same_as(&self, other: &NativeGroup) -> (r: bool) {
        self.name.same_as(&other.name)
            && self.options.same_as(&other.options)
    }
}

/// How an agent lists its choices.
#[derive(Debug, PartialEq, Eq)]
pub enum NativeChoices {
    Ungrouped(Vec<NativeChoice>),
    Grouped(Vec<NativeGroup>),
    /// A listing that is not understood.
    Other,
}

/// What a `NativeChoices` holds.
pub enum NativeChoicesView {
    Ungrouped(Seq<NativeChoiceView>),
    Grouped(Seq<NativeGroupView>),
    Other,
}

impl DeepView for NativeChoices {
    type V = NativeChoicesView;

    open spec fn deep_view(&self) -> NativeChoicesView {
        match self {
            NativeChoices::Ungrouped(value) => NativeChoicesView::Ungrouped(value.deep_view()),
            NativeChoices::Grouped(value) => NativeChoicesView::Grouped(value.deep_view()),
            NativeChoices::Other => NativeChoicesView::Other,
        }
    }
}

impl Datum for NativeChoices {
    fn duplicate(&self) -> (r: NativeChoices) {
        match self {
            NativeChoices::Ungrouped(value) => NativeChoices::Ungrouped(value.duplicate()),
            NativeChoices::Grouped(value) => NativeChoices::Grouped(value.duplicate()),
            NativeChoices::Other => NativeChoices::Other,
        }
    }

    fn same_as(&self, other: &NativeChoices) -> (r: bool) {
        match (self, other) {
            (NativeChoices::Ungrouped(a), NativeChoices::Ungrouped(b)) => a.same_as(b),
            (NativeChoices::Grouped(a), NativeChoices::Grouped(b)) => a.same_as(b),
            (NativeChoices::Other, NativeChoices::Other) => true,
            _ => false,
        }
    }
}

/// What an agent lets be set.
#[derive(Debug, PartialEq, Eq)]
pub enum NativeKind {
    Boolean(bool),
    Select { current: String, choices: NativeChoices },
    /// A kind that is not understood.
    Other,
}

/// What a `NativeKind` holds.
pub enum NativeKindView {
    Boolean(bool),
    Select { current: Seq<char>, choices: NativeChoicesView },
    Other,
}

impl DeepView for NativeKind {
    type V = NativeKindView;

    open spec fn deep_view(&self) -> NativeKindView {
        match self {
            NativeKind::Boolean(value) => NativeKindView::Boolean(value.deep_view()),
            NativeKind::Select { current, choices } => NativeKindView::Select {
                current: current.deep_view(),
                choices: choices.deep_view(),
            },
            NativeKind::Other => NativeKindView::Other,
        }
    }
}

impl Datum for NativeKind {
    fn duplicate(&self) -> (r: NativeKind) {
        match self {
            NativeKind::Boolean(value) => NativeKind::Boolean(value.duplicate()),
            NativeKind::Select { current, choices } => NativeKind::Select {
                current: current.duplicate(),
                choices: choices.duplicate(),
            },
            NativeKind::Other => NativeKind::Other,
        }
    }

    fn same_as(&self, other: &NativeKind) -> (r: bool) {
        match (self, other) {
            (NativeKind::Boolean(a), NativeKind::Boolean(b)) => a.same_as(b),
            (NativeKind::Select { current: current_a, choices: choices_a }, NativeKind::Select { current: current_b, choices: choices_b }) => {
                current_a.same_as(current_b)
                    && choices_a.same_as(choices_b)
            },
            (NativeKind::Other, NativeKind::Other) => true,
            _ => false,
        }
    }
}

/// One configuration option as an agent reports it.
#[derive(Debug, PartialEq, Eq)]
pub struct NativeOption {
    pub id: String,
    pub name: String,
    pub description: Option<String>,
    /// The category's name on the wire, where it has one.
    pub category: Option<String>,
    pub kind: NativeKind,
}

/// What a `NativeOption` holds.
#[verifier::ext_equal]
pub struct NativeOptionView {
    pub id: Seq<char>,
    pub name: Seq<char>,
    pub description: Option<Seq<char>>,
    pub category: Option<Seq<char>>,
    pub kind: NativeKindView,
}

impl DeepView for NativeOption {
    type V = NativeOptionView;

    open spec fn deep_view(&self) -> NativeOptionView {
        NativeOptionView {
            id: self.id.deep_view(),
            name: self.name.deep_view(),
            description: self.description.deep_view(),
            category: self.category.deep_view(),
            kind: self.kind.deep_view(),
        }
    }
}

impl Datum for NativeOption {
    fn duplicate(&self) -> (r: NativeOption) {
        NativeOption {
            id: self.id.duplicate(),
            name: self.name.duplicate(),
            description: self.description.duplicate(),
            category: self.category.duplicate(),
            kind: self.kind.duplicate(),
        }
    }

    fn same_as(&self, other: &NativeOption) -> (r: bool) {
        self.id.same_as(&other.id)
            && self.name.same_as(&other.name)
            && self.description.same_as(&other.description)
            && self.category.same_as(&other.category)
            && self.kind.same_as(&other.kind)
    }
}

/// A choice under an optional heading.
pub open spec fn choice_in(choice: NativeChoiceView, group: Option<Seq<char>>) -> ConfigChoiceView {
    ConfigChoiceView {
        value: choice.value,
        label: choice.name,
        description: choice.description,
        group,
    }
}

/// Choices under an optional heading, in their order.
pub open spec fn choices_in(choices: Seq<NativeChoiceView>, group: Option<Seq<char>>) -> Seq<
    ConfigChoiceView,
> {
    choices.map_values(|choice: NativeChoiceView| choice_in(choice, group))
}

/// The choices of all groups, in their order.
pub open spec fn grouped_choices(groups: Seq<NativeGroupView>) -> Seq<ConfigChoiceView>
    decreases groups.len(),
{
    if groups.len() == 0 {
        Seq::empty()
    } else {
        grouped_choices(groups.drop_last()) + choices_in(
            groups.last().options,
            Some(groups.last().name),
        )
    }
}

impl NativeChoicesView {
    /// The choices, where their listing is understood.
    pub open spec fn listed(self) -> Option<Seq<ConfigChoiceView>> {
        match self {
            NativeChoicesView::Ungrouped(choices) => Some(choices_in(choices, None)),
            NativeChoicesView::Grouped(groups) => Some(grouped_choices(groups)),
            NativeChoicesView::Other => None,
        }
    }
}

/// The choices can be told apart.
pub open spec fn distinct_choices(choices: Seq<ConfigChoiceView>) -> bool {
    &&& forall|i: int| 0 <= i < choices.len() ==> !blank((#[trigger] choices[i]).value)
    &&& forall|i: int, j: int|
        0 <= i < j < choices.len() ==> (#[trigger] choices[i]).value != (
        #[trigger] choices[j]).value
}

impl NativeOptionView {
    /// The option in portable form, where it is understood and its id and its choices
    /// can be told apart.
    pub open spec fn normalized(self) -> Option<ConfigOptionView> {
        let portable = match self.kind {
            NativeKindView::Boolean(value) => Some(
                (ConfigValueView::Boolean(value), Seq::<ConfigChoiceView>::empty()),
            ),
            NativeKindView::Select { current, choices } => match choices.listed() {
                Some(listed) => if distinct_choices(listed) {
                    Some((ConfigValueView::Select(current), listed))
                } else {
                    None
                },
                None => None,
            },
            NativeKindView::Other => None,
        };
        if blank(self.id) {
            None
        } else {
            match portable {
                Some((current, choices)) => Some(
                    ConfigOptionView {
                        id: self.id,
                        label: self.name,
                        description: self.description,
                        category: self.category,
                        current,
                        choices,
                    },
                ),
                None => None,
            }
        }
    }
}

/// Every option can be understood, and no id occurs twice.
pub open spec fn valid_catalog(options: Seq<NativeOptionView>) -> bool {
    &&& forall|i: int| 0 <= i < options.len() ==> (#[trigger] options[i]).normalized() is Some
    &&& forall|i: int, j: int|
        0 <= i < j < options.len() ==> (#[trigger] options[i]).id != (#[trigger] options[j]).id
}

/// The catalog in portable form.
pub open spec fn normalized_catalog(options: Seq<NativeOptionView>) -> Seq<ConfigOptionView> {
    options.map_values(|option: NativeOptionView| option.normalized()->0)
}

fn add_choices(
    choices: &mut Vec<ConfigChoice>,
    added: &Vec<NativeChoice>,
    group: &Option<String>,
)
    ensures
        final(choices).deep_view() == old(choices).deep_view() + choices_in(
            added.deep_view(),
            group.deep_view(),
        ),
{
    let ghost before = choices.deep_view();
    let ghost more = choices_in(added.deep_view(), group.deep_view());
    let mut i: usize = 0;
    assert(before + more.take(0) =~= before);
    while i < added.len()
        invariant
            i <= added.len(),
            more == choices_in(added.deep_view(), group.deep_view()),
            choices.deep_view() == before + more.take(i as int),
        decreases added.len() - i,
    {
        let choice = ConfigChoice {
            value: added[i].value.clone(),
            label: added[i].name.clone(),
            description: added[i].description.duplicate(),
            group: group.duplicate(),
        };
        assert(choice.deep_view() == more[i as int]) by {
            assert(added.deep_view()[i as int] == added@[i as int].deep_view());
        }
        append(choices, choice);
        assert(before + more.take(i + 1) =~= (before + more.take(i as int)).push(more[i as int]));
        i = i + 1;
    }
    assert(more.take(added.len() as int) =~= more);
}

fn list_choices(choices: &NativeChoices) -> (r: Option<Vec<ConfigChoice>>)
    ensures
        r.deep_view() == choices.deep_view().listed(),
{
    let mut listed: Vec<ConfigChoice> = Vec::new();
    match choices {
        NativeChoices::Ungrouped(options) => {
            add_choices(&mut listed, options, &None);
            assert(listed.deep_view() =~= choices_in(options.deep_view(), None));
            Some(listed)
        },
        NativeChoices::Grouped(groups) => {
            let ghost all = groups.deep_view();
            let mut i: usize = 0;
            assert(listed.deep_view() =~= grouped_choices(all.take(0)));
            while i < groups.len()
                invariant
                    i <= groups.len(),
                    all == groups.deep_view(),
                    listed.deep_view() == grouped_choices(all.take(i as int)),
                decreases groups.len() - i,
            {
                assert(all.take(i + 1).drop_last() =~= all.take(i as int));
                assert(all.take(i + 1).last() == groups@[i as int].deep_view());
                let name = Some(groups[i].name.clone());
                add_choices(&mut listed, &groups[i].options, &name);
                i = i + 1;
            }
            assert(all.take(groups.len() as int) =~= all);
            Some(listed)
        },
        NativeChoices::Other => None,
    }
}

fn choices_are_distinct(choices: &Vec<ConfigChoice>) -> (r: bool)
    ensures
        r == distinct_choices(choices.deep_view()),
{
    let ghost views = choices.deep_view();
    let mut i: usize = 0;
    while i < choices.len()
        invariant
            i <= choices.len(),
            views == choices.deep_view(),
            forall|a: int| 0 <= a < i ==> !blank((#[trigger] views[a]).value),
            forall|a: int, b: int|
                0 <= a < b < i ==> (#[trigger] views[a]).value != (#[trigger] views[b]).value,
        decreases choices.len() - i,
    {
        let choice = &choices[i];
        assert(views[i as int] == choice.deep_view());
        if is_blank(choice.value.as_str()) {
            return false;
        }
        let mut j: usize = 0;
        while j < i
            invariant
                j <= i < choices.len(),
                views == choices.deep_view(),
                choice == choices@[i as int],
                forall|a: int| 0 <= a < j ==> (#[trigger] views[a]).value != choice.value@,
            decreases i - j,
        {
            assert(views[j as int] == choices@[j as int].deep_view());
            if choices[j].value.same_as(&choice.value) {
                assert(views[j as int].value == views[i as int].value);
                return false;
            }
            j = j + 1;
        }
        i = i + 1;
    }
    true
}

fn normalize_option(option: &NativeOption) -> (r: Option<ConfigOption>)
    ensures
        r.deep_view() == option.deep_view().normalized(),
{
    if is_blank(option.id.as_str()) {
        return None;
    }
    let (current, choices) = match &option.kind {
        NativeKind::Boolean(value) => {
            let none: Vec<ConfigChoice> = Vec::new();
            assert(none.deep_view() =~= Seq::<ConfigChoiceView>::empty());
            (ConfigValue::Boolean(*value), none)
        },
        NativeKind::Select { current, choices } => {
            match list_choices(choices) {
                None => return None,
                Some(listed) => {
                    if !choices_are_distinct(&listed) {
                        return None;
                    }
                    (ConfigValue::Select(current.clone()), listed)
                },
            }
        },
        NativeKind::Other => return None,
    };
    Some(
        ConfigOption {
            id: option.id.clone(),
            label: option.name.clone(),
            description: option.description.duplicate(),
            category: option.category.duplicate(),
            current,
            choices,
        },
    )
}

/// The catalog in portable form, unless something in it cannot be understood.
pub fn normalize(options: &Vec<NativeOption>) -> (r: Result<Vec<ConfigOption>, AcpError>)
    ensures
        r is Ok <==> valid_catalog(options.deep_view()),
        r matches Ok(catalog) ==> catalog.deep_view() == normalized_catalog(options.deep_view()),
        r matches Err(e) ==> e == AcpError::InvalidConfiguration,
{
    let ghost views = options.deep_view();
    let mut catalog: Vec<ConfigOption> = Vec::new();
    let mut i: usize = 0;
    while i < options.len()
        invariant
            i <= options.len(),
            views == options.deep_view(),
            catalog.len() == i,
            forall|a: int| 0 <= a < i ==> (#[trigger] views[a]).normalized() is Some,
            forall|a: int|
                0 <= a < i ==> (#[trigger] catalog@[a]).deep_view() == views[a].normalized()->0,
            forall|a: int, b: int|
                0 <= a < b < i ==> (#[trigger] views[a]).id != (#[trigger] views[b]).id,
        decreases options.len() - i,
    {
        let option = &options[i];
        assert(views[i as int] == option.deep_view());
        let mut j: usize = 0;
        while j < i
            invariant
                j <= i < options.len(),
                views == options.deep_view(),
                option == options@[i as int],
                forall|a: int| 0 <= a < j ==> (#[trigger] views[a]).id != option.id@,
            decreases i - j,
        {
            assert(views[j as int] == options@[j as int].deep_view());
            if options[j].id.same_as(&option.id) {
                assert(views[j as int].id == views[i as int].id);
                return Err(AcpError::InvalidConfiguration);
            }
            j = j + 1;
        }
        match normalize_option(option) {
            None => return Err(AcpError::InvalidConfiguration),
            Some(normal) => catalog.push(normal),
        }
        i = i + 1;
    }
    assert(catalog.deep_view() =~= normalized_catalog(views));
    Ok(catalog)
}

/// The values that the catalog reports, by option.
pub open spec fn reported_values(catalog: Seq<ConfigOptionView>) -> Map<
    Seq<char>,
    ConfigValueView,
>
    decreases catalog.len(),
{
    if catalog.len() == 0 {
        Map::empty()
    } else {
        reported_values(catalog.drop_last()).insert(catalog.last().id, catalog.last().current)
    }
}

/// The values that the catalog reports, by option.
pub fn values_of(catalog: &Vec<ConfigOption>) -> (r: Table<ConfigValue>)
    ensures
        r.deep_view() == reported_values(catalog.deep_view()),
{
    let ghost all = catalog.deep_view();
    let mut values: Table<ConfigValue> = Table::new();
    let mut i: usize = 0;
    assert(values.deep_view() =~= reported_values(all.take(0)));
    while i < catalog.len()
        invariant
            i <= catalog.len(),
            all == catalog.deep_view(),
            values.deep_view() == reported_values(all.take(i as int)),
        decreases catalog.len() - i,
    {
        assert(all.take(i + 1).drop_last() =~= all.take(i as int));
        assert(all.take(i + 1).last() == catalog@[i as int].deep_view());
        values.put(catalog[i].id.clone(), catalog[i].current.duplicate());
        i = i + 1;
    }
    assert(all.take(catalog.len() as int) =~= all);
    values
}

/// What is known of a session's configuration.
pub struct ConfigurationState {
    options: Option<Vec<ConfigOption>>,
    requested: Table<ConfigValue>,
    pending: bool,
    uncertain: bool,
}

/// What a `ConfigurationState` holds.
#[verifier::ext_equal]
pub struct ConfigurationStateView {
    pub options: Option<Seq<ConfigOptionView>>,
    /// The selections that the provider acknowledged.
    pub requested: Map<Seq<char>, ConfigValueView>,
    /// A change was requested and not answered.
    pub pending: bool,
    /// A change or a report has an uncertain outcome.
    pub uncertain: bool,
}

impl DeepView for ConfigurationState {
    type V = ConfigurationStateView;

    closed spec fn deep_view(&self) -> ConfigurationStateView {
        ConfigurationStateView {
            options: self.options.deep_view(),
            requested: self.requested.deep_view(),
            pending: self.pending,
            uncertain: self.uncertain,
        }
    }
}

impl ConfigurationStateView {
    /// Nothing was requested yet.
    pub open spec fn initial(options: Option<Seq<ConfigOptionView>>) -> ConfigurationStateView {
        ConfigurationStateView { options, requested: Map::empty(), pending: false, uncertain: false }
    }

    /// The report can be relied on.
    pub open spec fn settled(self) -> bool {
        !self.pending && !self.uncertain
    }

    /// The values of the last report.
    pub open spec fn reported(self) -> Option<Map<Seq<char>, ConfigValueView>> {
        match self.options {
            Some(catalog) => Some(reported_values(catalog)),
            None => None,
        }
    }

    /// What callers are shown.
    pub open spec fn shown(self) -> SessionConfigurationView {
        SessionConfigurationView {
            options: self.options,
            pending: self.pending,
            uncertain: self.uncertain,
            values: RunConfigurationView {
                requested: self.requested,
                confirmed: if self.settled() {
                    self.reported()
                } else {
                    None
                },
            },
        }
    }

    /// What a run freezes, as long as the report can be relied on.
    pub open spec fn frozen(self) -> Result<RunConfigurationView, AcpErrorView> {
        if self.settled() {
            Ok(RunConfigurationView { requested: self.requested, confirmed: self.reported() })
        } else {
            Err(AcpErrorView::ConfigurationUncertain)
        }
    }

    /// After a report. One that cannot be understood leaves the configuration uncertain.
    pub open spec fn observed(self, options: Seq<NativeOptionView>) -> ConfigurationStateView {
        if valid_catalog(options) {
            ConfigurationStateView {
                options: Some(normalized_catalog(options)),
                uncertain: false,
                ..self
            }
        } else {
            ConfigurationStateView { uncertain: true, ..self }
        }
    }

    /// The option was offered.
    pub open spec fn offers(self, id: Seq<char>) -> bool {
        self.options matches Some(catalog) && exists|i: int|
            0 <= i < catalog.len() && (#[trigger] catalog[i]).id == id
    }

    /// Why the value cannot be requested.
    pub open spec fn refusal(self, id: Seq<char>, value: ConfigValueView) -> Option<AcpErrorView> {
        if self.pending {
            Some(AcpErrorView::ConfigurationUncertain)
        } else {
            match self.options {
                None => Some(AcpErrorView::ConfigurationUnsupported),
                Some(catalog) => match first_option(catalog, id) {
                    None => Some(AcpErrorView::UnknownConfigurationOption),
                    Some(option) => if admits(option, value) {
                        None
                    } else {
                        Some(AcpErrorView::InvalidConfigurationValue)
                    },
                },
            }
        }
    }

    /// After the provider answered a request for a value.
    pub open spec fn answered(
        self,
        id: Seq<char>,
        value: ConfigValueView,
        report: Result<Seq<NativeOptionView>, Seq<char>>,
    ) -> (Result<SessionConfigurationView, AcpErrorView>, ConfigurationStateView) {
        match report {
            Err(message) => (
                Err(AcpErrorView::Protocol(message)),
                ConfigurationStateView { pending: false, uncertain: true, ..self },
            ),
            Ok(options) => if !valid_catalog(options) {
                (
                    Err(AcpErrorView::InvalidConfiguration),
                    ConfigurationStateView { pending: false, uncertain: true, ..self },
                )
            } else {
                let catalog = normalized_catalog(options);
                let known = ConfigurationStateView {
                    options: Some(catalog),
                    pending: false,
                    uncertain: false,
                    ..self
                };
                if reports(catalog, id, value) {
                    let next = ConfigurationStateView {
                        requested: self.requested.insert(id, value),
                        ..known
                    };
                    (Ok(next.shown()), next)
                } else {
                    (Err(AcpErrorView::ConfigurationRejected), known)
                }
            },
        }
    }
}

/// The first option of the id.
pub open spec fn first_option(catalog: Seq<ConfigOptionView>, id: Seq<char>) -> Option<
    ConfigOptionView,
>
    decreases catalog.len(),
{
    if catalog.len() == 0 {
        None
    } else if catalog[0].id == id {
        Some(catalog[0])
    } else {
        first_option(catalog.skip(1), id)
    }
}

/// The value is of the option's kind and, for a select option, among its choices.
pub open spec fn admits(option: ConfigOptionView, value: ConfigValueView) -> bool {
    match (option.current, value) {
        (ConfigValueView::Boolean(_), ConfigValueView::Boolean(_)) => true,
        (ConfigValueView::Select(_), ConfigValueView::Select(chosen)) => exists|i: int|
            0 <= i < option.choices.len() && (#[trigger] option.choices[i]).value == chosen,
        _ => false,
    }
}

/// The catalog reports the value for the option.
pub open spec fn reports(
    catalog: Seq<ConfigOptionView>,
    id: Seq<char>,
    value: ConfigValueView,
) -> bool {
    exists|i: int|
        0 <= i < catalog.len() && (#[trigger] catalog[i]).id == id && catalog[i].current == value
}

/// The one option of the model category.
pub open spec fn is_model_selector(option: ConfigOptionView) -> bool {
    option.category == Some("model"@)
}

fn is_admitted(option: &ConfigOption, value: &ConfigValue) -> (r: bool)
    ensures
        r == admits(option.deep_view(), value.deep_view()),
{
    match (&option.current, value) {
        (ConfigValue::Boolean(_), ConfigValue::Boolean(_)) => true,
        (ConfigValue::Select(_), ConfigValue::Select(chosen)) => has_choice(
            &option.choices,
            chosen,
        ),
        _ => false,
    }
}

fn has_choice(choices: &Vec<ConfigChoice>, chosen: &String) -> (r: bool)
    ensures
        r == exists|i: int|
            0 <= i < choices.deep_view().len() && (#[trigger] choices.deep_view()[i]).value
                == chosen@,
{
    let ghost views = choices.deep_view();
    let mut i: usize = 0;
    while i < choices.len()
        invariant
            i <= choices.len(),
            views == choices.deep_view(),
            forall|a: int| 0 <= a < i ==> (#[trigger] views[a]).value != chosen@,
        decreases choices.len() - i,
    {
        assert(views[i as int] == choices@[i as int].deep_view());
        if choices[i].value.same_as(chosen) {
            return true;
        }
        i = i + 1;
    }
    false
}

fn is_reported(catalog: &Vec<ConfigOption>, id: &String, value: &ConfigValue) -> (r: bool)
    ensures
        r == reports(catalog.deep_view(), id@, value.deep_view()),
{
    let ghost views = catalog.deep_view();
    let mut i: usize = 0;
    while i < catalog.len()
        invariant
            i <= catalog.len(),
            views == catalog.deep_view(),
            forall|a: int|
                0 <= a < i ==> !((#[trigger] views[a]).id == id@ && views[a].current
                    == value.deep_view()),
        decreases catalog.len() - i,
    {
        assert(views[i as int] == catalog@[i as int].deep_view());
        if catalog[i].id.same_as(id) && catalog[i].current.same_as(value) {
            return true;
        }
        i = i + 1;
    }
    false
}

fn find_option<'a>(catalog: &'a Vec<ConfigOption>, id: &str) -> (r: Option<&'a ConfigOption>)
    ensures
        match r {
            Some(option) => first_option(catalog.deep_view(), id@) == Some(option.deep_view()),
            None => first_option(catalog.deep_view(), id@) is None,
        },
{
    let ghost all = catalog.deep_view();
    let mut i: usize = 0;
    assert(all.skip(0) =~= all);
    while i < catalog.len()
        invariant
            i <= catalog.len(),
            all == catalog.deep_view(),
            first_option(all, id@) == first_option(all.skip(i as int), id@),
        decreases catalog.len() - i,
    {
        assert(all.skip(i as int)[0] == catalog@[i as int].deep_view());
        assert(all.skip(i as int).skip(1) =~= all.skip(i + 1));
        if same_text(catalog[i].id.as_str(), id) {
            return Some(&catalog[i]);
        }
        i = i + 1;
    }
    None
}

/// The one option of the model category, or why there is none.
pub open spec fn model_selector(options: Option<Seq<ConfigOptionView>>) -> Result<
    Seq<char>,
    AcpErrorView,
> {
    match options {
        None => Err(AcpErrorView::ConfigurationUnsupported),
        Some(catalog) => {
            let models = catalog.filter(|option: ConfigOptionView| is_model_selector(option));
            if models.len() == 1 {
                Ok(models[0].id)
            } else {
                Err(AcpErrorView::ModelSelectorUnavailable)
            }
        },
    }
}

impl ConfigurationState {
    /// Nothing was requested yet. A catalog that cannot be understood is refused.
    pub fn new(options: Option<&Vec<NativeOption>>) -> (r: Result<ConfigurationState, AcpError>)
        ensures
            match options {
                None => outcome(r) == Ok::<ConfigurationStateView, AcpErrorView>(
                    ConfigurationStateView::initial(None),
                ),
                Some(native) => if valid_catalog(native.deep_view()) {
                    outcome(r) == Ok::<ConfigurationStateView, AcpErrorView>(
                        ConfigurationStateView::initial(
                            Some(normalized_catalog(native.deep_view())),
                        ),
                    )
                } else {
                    outcome(r) == Err::<ConfigurationStateView, AcpErrorView>(
                        AcpErrorView::InvalidConfiguration,
                    )
                },
            },
    {
        let options = match options {
            None => None,
            Some(native) => match normalize(native) {
                Err(e) => return Err(e),
                Ok(catalog) => Some(catalog),
            },
        };
        let r = ConfigurationState {
            options,
            requested: Table::new(),
            pending: false,
            uncertain: false,
        };
        assert(r.deep_view().requested =~= Map::empty());
        Ok(r)
    }

    /// Takes in a report.
    pub fn observe(&mut self, options: &Vec<NativeOption>)
        ensures
            final(self).deep_view() == old(self).deep_view().observed(options.deep_view()),
    {
        match normalize(options) {
            Ok(catalog) => {
                self.options = Some(catalog);
                self.uncertain = false;
            },
            Err(_) => {
                self.uncertain = true;
            },
        }
    }

    fn reported(&self) -> (r: Option<Table<ConfigValue>>)
        ensures
            r.deep_view() == self.deep_view().reported(),
    {
        match &self.options {
            Some(catalog) => Some(values_of(catalog)),
            None => None,
        }
    }

    /// What callers are shown.
    pub fn snapshot(&self) -> (r: SessionConfiguration)
        ensures
            r.deep_view() == self.deep_view().shown(),
    {
        SessionConfiguration {
            options: self.options.duplicate(),
            pending: self.pending,
            uncertain: self.uncertain,
            values: RunConfiguration {
                requested: self.requested.duplicate(),
                confirmed: if self.pending || self.uncertain {
                    None
                } else {
                    self.reported()
                },
            },
        }
    }

    /// What a run freezes.
    pub fn for_run(&self) -> (r: Result<RunConfiguration, AcpError>)
        ensures
            outcome(r) == self.deep_view().frozen(),
    {
        if self.pending || self.uncertain {
            return Err(AcpError::ConfigurationUncertain);
        }
        Ok(
            RunConfiguration {
                requested: self.requested.duplicate(),
                confirmed: self.reported(),
            },
        )
    }

    /// Marks a change as requested, where the value was offered.
    pub fn propose(&mut self, id: &str, value: &ConfigValue) -> (r: Result<(), AcpError>)
        ensures
            match old(self).deep_view().refusal(id@, value.deep_view()) {
                Some(e) => outcome(r) == Err::<(), AcpErrorView>(e) && final(self).deep_view()
                    == old(self).deep_view(),
                None => r is Ok && final(self).deep_view() == (ConfigurationStateView {
                    pending: true,
                    ..old(self).deep_view()
                }),
            },
    {
        if self.pending {
            return Err(AcpError::ConfigurationUncertain);
        }
        match &self.options {
            None => return Err(AcpError::ConfigurationUnsupported),
            Some(catalog) => match find_option(catalog, id) {
                None => return Err(AcpError::UnknownConfigurationOption),
                Some(option) => {
                    if !is_admitted(option, value) {
                        return Err(AcpError::InvalidConfigurationValue);
                    }
                },
            },
        }
        self.pending = true;
        Ok(())
    }

    /// Takes in the answer to a requested change: the provider's report, or what went
    /// wrong.
    pub fn settle(
        &mut self,
        id: String,
        value: ConfigValue,
        report: Result<Vec<NativeOption>, String>,
    ) -> (r: Result<SessionConfiguration, AcpError>)
        ensures
            (outcome(r), final(self).deep_view()) == old(self).deep_view().answered(
                id@,
                value.deep_view(),
                outcome(report),
            ),
    {
        self.pending = false;
        self.uncertain = true;
        let options = match report {
            Err(message) => return Err(AcpError::Protocol(message)),
            Ok(options) => options,
        };
        let catalog = match normalize(&options) {
            Err(e) => return Err(e),
            Ok(catalog) => catalog,
        };
        let accepted = is_reported(&catalog, &id, &value);
        self.options = Some(catalog);
        self.uncertain = false;
        if !accepted {
            return Err(AcpError::ConfigurationRejected);
        }
        self.requested.put(id, value);
        Ok(self.snapshot())
    }

    /// A requested change could not be sent: whether it took effect is not known.
    pub fn send_failed(&mut self)
        ensures
            final(self).deep_view() == (ConfigurationStateView {
                pending: false,
                uncertain: true,
                ..old(self).deep_view()
            }),
    {
        self.pending = false;
        self.uncertain = true;
    }

    /// No answer to a requested change came: whether it took effect is not known, and
    /// the answer may still come.
    pub fn unanswered(&mut self)
        ensures
            final(self).deep_view() == (ConfigurationStateView {
                uncertain: true,
                ..old(self).deep_view()
            }),
    {
        self.uncertain = true;
    }

    /// The option by which the model is set.
    pub fn model_option(&self) -> (r: Result<String, AcpError>)
        ensures
            outcome(r) == model_selector(self.deep_view().options),
    {
        let catalog = match &self.options {
            None => return Err(AcpError::ConfigurationUnsupported),
            Some(catalog) => catalog,
        };
        let ghost all = catalog.deep_view();
        let ghost selects = |option: ConfigOptionView| is_model_selector(option);
        let mut found: usize = 0;
        let mut id: String = "".to_owned();
        let mut i: usize = 0;
        assert(all.take(0).filter(selects) =~= Seq::empty()) by {
            reveal(Seq::filter);
        }
        while i < catalog.len()
            invariant
                i <= catalog.len(),
                found <= i,
                all == catalog.deep_view(),
                selects == (|option: ConfigOptionView| is_model_selector(option)),
                all.take(i as int).filter(selects).len() == found,
                found > 0 ==> all.take(i as int).filter(selects)[0].id == id@,
            decreases catalog.len() - i,
        {
            let option = &catalog[i];
            let selected = match &option.category {
                Some(category) => same_text(category.as_str(), "model"),
                None => false,
            };
            proof {
                reveal(Seq::filter);
                assert(all.take(i + 1).drop_last() =~= all.take(i as int));
                assert(all.take(i + 1).last() == option.deep_view());
                assert(selected == selects(option.deep_view()));
            }
            if selected {
                if found == 0 {
                    id = option.id.clone();
                }
                found = found + 1;
            }
            i = i + 1;
        }
        assert(all.take(catalog.len() as int) =~= all);
        if found != 1 {
            return Err(AcpError::ModelSelectorUnavailable);
        }
        Ok(id)
    }
}

/// A report that cannot be understood leaves no earlier confirmation usable, and
/// blocks dispatch until a report can be understood again.
pub proof fn invalid_reports_block_dispatch(
    state: ConfigurationStateView,
    invalid: Seq<NativeOptionView>,
    valid: Seq<NativeOptionView>,
)
    requires
        !valid_catalog(invalid),
        valid_catalog(valid),
        !state.pending,
    ensures
        ({
            let blocked = state.observed(invalid);
            let restored = blocked.observed(valid);
            &&& blocked.frozen() == Err::<RunConfigurationView, AcpErrorView>(
                AcpErrorView::ConfigurationUncertain,
            )
            &&& blocked.shown().values.confirmed is None
            &&& blocked.shown().uncertain
            &&& restored.frozen() == Ok::<RunConfigurationView, AcpErrorView>(
                RunConfigurationView {
                    requested: state.requested,
                    confirmed: Some(reported_values(normalized_catalog(valid))),
                },
            )
        }),
{
}

/// A selection counts as requested only once the provider has reported it.
pub proof fn selections_need_confirmation(
    state: ConfigurationStateView,
    id: Seq<char>,
    value: ConfigValueView,
    report: Result<Seq<NativeOptionView>, Seq<char>>,
)
    ensures
        ({
            let (reply, next) = state.answered(id, value, report);
            &&& reply is Err ==> next.requested == state.requested
            &&& reply is Ok ==> next.requested == state.requested.insert(id, value)
            &&& reply is Ok ==> next.settled() && (next.options matches Some(catalog) && reports(
                catalog,
                id,
                value,
            ))
            &&& !next.pending
        }),
{
}

/// While a change is pending no run can be dispatched and no other change requested.
pub proof fn pending_changes_block(
    state: ConfigurationStateView,
    id: Seq<char>,
    value: ConfigValueView,
)
    requires
        state.pending,
    ensures
        state.frozen() is Err,
        state.refusal(id, value) == Some(AcpErrorView::ConfigurationUncertain),
        state.shown().values.confirmed is None,
{
}

} // verus!
