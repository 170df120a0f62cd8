use agent_bridge::acp::configuration::{
    normalize, ConfigurationState, NativeChoice, NativeChoices, NativeGroup, NativeKind,
    NativeOption,
};
use agent_bridge::acp::error::AcpError;
use agent_bridge::configuration::ConfigValue;

fn choice(value: &str, name: &str) -> NativeChoice {
    NativeChoice { value: value.to_owned(), name: name.to_owned(), description: None }
}

fn option(id: &str) -> NativeOption {
    NativeOption {
        id: id.to_owned(),
        name: "Model".to_owned(),
        description: None,
        category: Some("model".to_owned()),
        kind: NativeKind::Select {
            current: "a".to_owned(),
            choices: NativeChoices::Ungrouped(vec![choice("a", "A"), choice("b", "B")]),
        },
    }
}

fn current(id: &str, value: &str) -> NativeOption {
    let mut option = option(id);
    option.kind = NativeKind::Select {
        current: value.to_owned(),
        choices: NativeChoices::Ungrouped(vec![choice("a", "A"), choice("b", "B")]),
    };
    option
}

#[test]
fn invalid_provider_reports_do_not_leave_stale_confirmation_usable() {
    let mut state = ConfigurationState::new(Some(&vec![option("model")])).unwrap();
    assert!(state.for_run().unwrap().confirmed.is_some());
    state.observe(&vec![option("model"), option("model")]);
    assert!(state.snapshot().uncertain);
    assert!(state.snapshot().values.confirmed.is_none());
    assert!(matches!(state.for_run(), Err(AcpError::ConfigurationUncertain)));
    state.observe(&vec![option("model")]);
    assert!(state.for_run().unwrap().confirmed.is_some());
}

#[test]
fn duplicate_choices_and_blank_option_ids_are_rejected() {
    assert!(matches!(normalize(&vec![option(" ")]), Err(AcpError::InvalidConfiguration)));
    let duplicated = NativeOption {
        id: "model".to_owned(),
        name: "Model".to_owned(),
        description: None,
        category: None,
        kind: NativeKind::Select {
            current: "a".to_owned(),
            choices: NativeChoices::Ungrouped(vec![choice("a", "A"), choice("a", "Duplicate")]),
        },
    };
    assert!(matches!(normalize(&vec![duplicated]), Err(AcpError::InvalidConfiguration)));
}

#[test]
fn a_catalog_keeps_its_groups_labels_and_values() {
    let grouped = NativeOption {
        id: "effort".to_owned(),
        name: "Effort".to_owned(),
        description: Some("how hard".to_owned()),
        category: None,
        kind: NativeKind::Select {
            current: "low".to_owned(),
            choices: NativeChoices::Grouped(vec![NativeGroup {
                name: "Fast".to_owned(),
                options: vec![choice("low", "Low")],
            }]),
        },
    };
    let catalog = normalize(&vec![grouped]).unwrap();
    assert_eq!(catalog.len(), 1);
    assert_eq!(catalog[0].label, "Effort");
    assert_eq!(catalog[0].current, ConfigValue::Select("low".to_owned()));
    assert_eq!(catalog[0].choices[0].group, Some("Fast".to_owned()));
    assert_eq!(catalog[0].choices[0].label, "Low");
}

#[test]
fn a_current_value_that_is_not_offered_is_reported_as_it_is() {
    let catalog = normalize(&vec![current("model", "c")]).unwrap();
    assert_eq!(catalog[0].current, ConfigValue::Select("c".to_owned()));
}

#[test]
fn listings_that_are_not_understood_are_rejected() {
    let mut unknown = option("model");
    unknown.kind = NativeKind::Other;
    assert_eq!(normalize(&vec![unknown]).unwrap_err(), AcpError::InvalidConfiguration);
    let mut listed = option("model");
    listed.kind =
        NativeKind::Select { current: "a".to_owned(), choices: NativeChoices::Other };
    assert_eq!(normalize(&vec![listed]).unwrap_err(), AcpError::InvalidConfiguration);
}

#[test]
fn a_confirmed_change_is_reported_as_requested_and_confirmed() {
    let mut state = ConfigurationState::new(Some(&vec![option("model")])).unwrap();
    let value = ConfigValue::Select("b".to_owned());
    state.propose("model", &value).unwrap();
    assert!(state.snapshot().pending);
    assert_eq!(state.for_run().unwrap_err(), AcpError::ConfigurationUncertain);
    let after = state
        .settle(
            "model".to_owned(),
            ConfigValue::Select("b".to_owned()),
            Ok(vec![current("model", "b")]),
        )
        .unwrap();
    assert!(!after.pending && !after.uncertain);
    assert_eq!(after.values.requested.get("model"), Some(&ConfigValue::Select("b".to_owned())));
    let confirmed = state.for_run().unwrap().confirmed.unwrap();
    assert_eq!(confirmed.get("model"), Some(&ConfigValue::Select("b".to_owned())));
}

#[test]
fn a_change_that_the_provider_does_not_confirm_is_rejected() {
    let mut state = ConfigurationState::new(Some(&vec![option("model")])).unwrap();
    state.propose("model", &ConfigValue::Select("b".to_owned())).unwrap();
    let reply = state.settle(
        "model".to_owned(),
        ConfigValue::Select("b".to_owned()),
        Ok(vec![option("model")]),
    );
    assert_eq!(reply.unwrap_err(), AcpError::ConfigurationRejected);
}

#[test]
fn changes_that_cannot_be_requested_are_refused() {
    let mut none = ConfigurationState::new(None).unwrap();
    assert_eq!(
        none.propose("model", &ConfigValue::Boolean(true)).unwrap_err(),
        AcpError::ConfigurationUnsupported
    );
    assert_eq!(none.model_option().unwrap_err(), AcpError::ConfigurationUnsupported);
    let mut state = ConfigurationState::new(Some(&vec![option("model")])).unwrap();
    assert_eq!(
        state.propose("other", &ConfigValue::Boolean(true)).unwrap_err(),
        AcpError::UnknownConfigurationOption
    );
    assert_eq!(
        state.propose("model", &ConfigValue::Boolean(true)).unwrap_err(),
        AcpError::InvalidConfigurationValue
    );
    assert_eq!(
        state.propose("model", &ConfigValue::Select("c".to_owned())).unwrap_err(),
        AcpError::InvalidConfigurationValue
    );
    assert_eq!(state.model_option().unwrap(), "model");
}

#[test]
fn a_change_without_an_answer_makes_the_configuration_uncertain() {
    let mut state = ConfigurationState::new(Some(&vec![option("model")])).unwrap();
    state.propose("model", &ConfigValue::Select("b".to_owned())).unwrap();
    state.unanswered();
    assert!(state.snapshot().uncertain && state.snapshot().pending);
    state.send_failed();
    assert!(state.snapshot().uncertain && !state.snapshot().pending);
}

#[test]
fn two_model_selectors_cannot_be_told_apart() {
    let state = ConfigurationState::new(Some(&vec![option("one"), option("two")])).unwrap();
    assert_eq!(state.model_option().unwrap_err(), AcpError::ModelSelectorUnavailable);
}
