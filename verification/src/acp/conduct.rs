//! What holds of every session with an agent.

use crate::acp::configuration::{
    admits, first_option, grouped_choices, is_model_selector, model_selector, normalized_catalog, reported_values, valid_catalog,
    ConfigurationStateView, NativeChoicesView, NativeGroupView, NativeKindView, NativeOptionView,
};
use crate::acp::connection::ConnectionFacts;
use crate::acp::continuation::{
    claim_objection, data_of, handed_off, resumable, ResumePlanView,
};
use crate::acp::error::AcpErrorView;
use crate::acp::event::{AcpEventView, PermissionIdView};
use crate::acp::session::{
    resolution, session_objection, RouteView, ServerCapabilities, SessionStateView, ToolServer,
};
use crate::configuration::{
    ConfigChoiceView, ConfigOptionView, ConfigValueView, RunConfigurationView, SessionConfigurationView,
};
use crate::json::{JsonNumber, JsonView};
use crate::records::continuation::{ContinuationRecordView, ContinuationView};
use crate::records::{DecisionDelivery, PermissionOutcomeView, StoreErrorView};
use crate::text::{blank, white_space};
use vstd::prelude::*;

verus! {

/// A decision is told as it was made, and as queued exactly when it was sent.
pub proof fn decisions_are_told_as_made(
    id: PermissionIdView,
    chosen: PermissionOutcomeView,
    sent: bool,
)
    ensures
        resolution(id, chosen, sent) matches AcpEventView::PermissionResolved {
            id: own,
            outcome,
            delivery,
        } && own == id && outcome == chosen && (delivery == DecisionDelivery::Queued <==> sent) && (
        delivery == DecisionDelivery::Unknown <==> !sent),
{
}

/// A run starts with no requests, takes what comes, and nobody has asked to cancel it. Its
/// requests are numbered from zero under its own id. When part of what comes is lost,
/// nothing more is taken.
pub proof fn requests_are_numbered_by_run(run_id: Seq<char>, route: RouteView)
    ensures
        ({
            let fresh = RouteView::fresh(run_id);
            &&& fresh.run_id == run_id
            &&& fresh.accepting
            &&& !fresh.cancelling
            &&& !fresh.overflow
            &&& fresh.pending == Map::<PermissionIdView, Seq<Seq<char>>>::empty()
            &&& fresh.next_id().sequence == 0
            &&& fresh.next_id().run_id == run_id
        }),
        route.next_id().run_id == route.run_id,
        route.next_id().sequence == route.next_permission,
        route.overflowed().overflow,
        !route.overflowed().accepting,
        route.overflowed().pending == route.pending,
        route.overflowed().next_permission == route.next_permission,
        route.overflowed().cancelling == route.cancelling,
        route.overflowed().run_id == route.run_id,
{
}

/// A program serves tools if its path is absolute, and a service if the agent says that it
/// speaks its transport.
pub proof fn usable_servers_are_told_by_transport(
    capabilities: ServerCapabilities,
    server: ToolServer,
)
    ensures
        server matches ToolServer::Stdio { absolute } ==> capabilities.objection(server)
            == if absolute {
            None
        } else {
            Some(AcpErrorView::InvalidMcpCommand)
        },
        server == ToolServer::Http ==> (capabilities.objection(server) is None
            <==> capabilities.http),
        server == ToolServer::Sse ==> (capabilities.objection(server) is None
            <==> capabilities.sse),
        server == ToolServer::Other ==> capabilities.objection(server) is Some,
        !(server is Stdio) ==> (capabilities.objection(server) matches Some(e) ==> e
            == AcpErrorView::UnsupportedMcpTransport),
{
}

/// Servers can be used together exactly when each of them can, and otherwise the first that
/// cannot is the reason.
pub proof fn servers_are_usable_one_by_one(
    capabilities: ServerCapabilities,
    servers: Seq<ToolServer>,
)
    ensures
        capabilities.first_objection(servers) is None <==> forall|i: int|
            0 <= i < servers.len() ==> capabilities.objection(#[trigger] servers[i]) is None,
        capabilities.first_objection(servers) matches Some(e) ==> exists|i: int|
            0 <= i < servers.len() && capabilities.objection(#[trigger] servers[i]) == Some(e)
                && forall|j: int|
                0 <= j < i ==> capabilities.objection(#[trigger] servers[j]) is None,
    decreases servers.len(),
{
    if servers.len() > 0 {
        let rest = servers.skip(1);
        servers_are_usable_one_by_one(capabilities, rest);
        assert forall|i: int| 1 <= i < servers.len() implies #[trigger] servers[i] == rest[i - 1] by {}
        assert forall|i: int| 0 <= i < rest.len() implies #[trigger] rest[i] == servers[i + 1] by {}
        if capabilities.objection(servers[0]) is None {
            if let Some(e) = capabilities.first_objection(servers) {
                let k = choose|i: int|
                    0 <= i < rest.len() && capabilities.objection(#[trigger] rest[i]) == Some(e)
                        && forall|j: int|
                        0 <= j < i ==> capabilities.objection(#[trigger] rest[j]) is None;
                assert(capabilities.objection(servers[k + 1]) == Some(e));
                assert forall|j: int| 0 <= j < k + 1 implies capabilities.objection(
                    #[trigger] servers[j],
                ) is None by {
                    if j > 0 {
                        assert(servers[j] == rest[j - 1]);
                    }
                }
            }
        } else {
            assert(capabilities.objection(servers[0]) == capabilities.first_objection(servers));
        }
    }
}

/// A session can be set up exactly when its directory is absolute, the connection is open
/// and its servers can be used.
pub proof fn sessions_need_a_directory_and_a_connection(
    absolute: bool,
    closed: bool,
    capabilities: ServerCapabilities,
    servers: Seq<ToolServer>,
)
    ensures
        session_objection(absolute, closed, capabilities, servers) is None <==> (absolute && !closed
            && capabilities.first_objection(servers) is None),
        !absolute ==> session_objection(absolute, closed, capabilities, servers) == Some(
            AcpErrorView::InvalidWorkingDirectory,
        ),
        absolute && closed ==> session_objection(absolute, closed, capabilities, servers) == Some(
            AcpErrorView::Closed,
        ),
        absolute && !closed ==> session_objection(absolute, closed, capabilities, servers)
            == capabilities.first_objection(servers),
{
}

/// A prompt can be sent exactly when it says something, the session is neither retired nor
/// busy, and the connection is open.
pub proof fn prompts_need_a_quiet_session(
    session: SessionStateView,
    text: Seq<char>,
    closed: bool,
)
    ensures
        ({
            let objection = session.objection(text, closed);
            let says = exists|k: int| 0 <= k < text.len() && !white_space(#[trigger] text[k]);
            &&& objection is None <==> (says && !session.retired && session.quiescent && !closed)
            &&& !says ==> objection == Some(AcpErrorView::EmptyPrompt)
            &&& says && (session.retired || !session.quiescent) ==> objection == Some(
                AcpErrorView::SessionUnavailable,
            )
            &&& says && !session.retired && session.quiescent && closed ==> objection == Some(
                AcpErrorView::Closed,
            )
        }),
        session.available() <==> (!session.retired && session.quiescent),
{
}

/// A run is assigned to the session and slot at hand, continues what they continue, and
/// keeps the configuration that is known for certain. Without one it is not assigned.
pub proof fn runs_are_assigned_to_their_session(session: SessionStateView, id: Seq<char>)
    ensures
        ({
            let known = !session.configuration.pending && !session.configuration.uncertain;
            &&& session.assignment(id) is Ok <==> known
            &&& session.assignment(id) matches Ok(run) ==> {
                &&& run.id == id
                &&& run.session_id == session.session_id
                &&& run.slot_id == session.slot_id
                &&& run.continuation == session.predecessor
                &&& run.context.records.len() == 0
                &&& run.context.instructions.len() == 0
                &&& run.context.resources.len() == 0
                &&& run.config.requested == session.configuration.requested
                &&& run.config.confirmed == session.configuration.reported()
            }
            &&& session.assignment(id) matches Err(e) ==> e == AcpErrorView::ConfigurationUncertain
        }),
{
}

/// A run is dispatched only under the configuration that it was assigned with.
pub proof fn dispatch_needs_the_same_configuration(
    session: SessionStateView,
    config: RunConfigurationView,
    text: Seq<char>,
    closed: bool,
)
    ensures
        ({
            let objection = session.dispatch_objection(config, text, closed);
            let known = !session.configuration.pending && !session.configuration.uncertain;
            let same = config.requested == session.configuration.requested && config.confirmed
                == session.configuration.reported();
            &&& objection is None <==> (session.objection(text, closed) is None && known && same)
            &&& session.objection(text, closed) is None && known && !same ==> objection == Some(
                AcpErrorView::ConfigurationChanged,
            )
            &&& session.objection(text, closed) is None && !known ==> objection == Some(
                AcpErrorView::ConfigurationUncertain,
            )
            &&& session.objection(text, closed) is Some ==> objection == session.objection(
                text,
                closed,
            )
        }),
{
}

/// An option can be set to a value of its own kind, a choice to one of its choices. It must
/// be offered, the session must be quiet and open, and no other change may be under way.
pub proof fn options_take_values_in_kind(
    session: SessionStateView,
    closed: bool,
    id: Seq<char>,
    value: ConfigValueView,
)
    ensures
        ({
            let objection = session.option_objection(closed, id, value);
            let state = session.configuration;
            let option = first_option(state.options->0, id);
            let quiet = !session.retired && session.quiescent;
            &&& objection is None <==> (quiet && !closed && !state.pending && state.options is Some
                && option is Some && admits(option->0, value))
            &&& !quiet ==> objection == Some(AcpErrorView::SessionUnavailable)
            &&& quiet && closed ==> objection == Some(AcpErrorView::Closed)
            &&& quiet && !closed && state.pending ==> objection == Some(
                AcpErrorView::ConfigurationUncertain,
            )
            &&& quiet && !closed && !state.pending && state.options is None ==> objection == Some(
                AcpErrorView::ConfigurationUnsupported,
            )
            &&& quiet && !closed && !state.pending && state.options is Some && option is None
                ==> objection == Some(AcpErrorView::UnknownConfigurationOption)
            &&& quiet && !closed && !state.pending && state.options is Some && option is Some
                && !admits(option->0, value) ==> objection == Some(
                AcpErrorView::InvalidConfigurationValue,
            )
        }),
{
}

/// A switch takes true and false and nothing else, a choice each of its choices and nothing
/// else.
pub proof fn switches_take_both_settings(option: ConfigOptionView, value: ConfigValueView)
    ensures
        option.current is Boolean ==> (admits(option, value) <==> value is Boolean),
        option.current is Select ==> (admits(option, value) <==> (
        value matches ConfigValueView::Select(chosen) && exists|i: int|
            0 <= i < option.choices.len() && (#[trigger] option.choices[i]).value == chosen)),
{
}

/// An option is found by its id, the first that has it.
pub proof fn options_are_found_by_id(catalog: Seq<ConfigOptionView>, id: Seq<char>)
    ensures
        first_option(catalog, id) is None <==> forall|i: int|
            0 <= i < catalog.len() ==> (#[trigger] catalog[i]).id != id,
        first_option(catalog, id) matches Some(option) ==> option.id == id && catalog.contains(
            option,
        ),
    decreases catalog.len(),
{
    if catalog.len() > 0 {
        let rest = catalog.skip(1);
        options_are_found_by_id(rest, id);
        assert forall|i: int| 1 <= i < catalog.len() implies #[trigger] catalog[i] == rest[i - 1] by {}
        assert forall|i: int| 0 <= i < rest.len() implies #[trigger] rest[i] == catalog[i + 1] by {}
        if catalog[0].id == id {
            assert(catalog.contains(catalog[0]));
        } else if let Some(option) = first_option(rest, id) {
            let i = rest.index_of(option);
            assert(catalog[i + 1] == option);
        }
    }
}

/// What a catalog reports is the current value of each of its options.
pub proof fn reports_are_current_values(catalog: Seq<ConfigOptionView>, i: int)
    requires
        0 <= i < catalog.len(),
        forall|a: int, b: int|
            0 <= a < b < catalog.len() ==> (#[trigger] catalog[a]).id != (#[trigger] catalog[b]).id,
    ensures
        reported_values(catalog).contains_key(catalog[i].id),
        reported_values(catalog)[catalog[i].id] == catalog[i].current,
        forall|id: Seq<char>| #[trigger]
            reported_values(catalog).contains_key(id) ==> exists|j: int|
                0 <= j < catalog.len() && (#[trigger] catalog[j]).id == id,
    decreases catalog.len(),
{
    let rest = catalog.drop_last();
    reported_ids_are_offered(catalog);
    if i < rest.len() {
        assert(forall|a: int| 0 <= a < rest.len() ==> rest[a] == catalog[a]);
        reports_are_current_values(rest, i);
        assert(catalog[i].id != catalog.last().id);
    }
}

proof fn reported_ids_are_offered(catalog: Seq<ConfigOptionView>)
    ensures
        forall|id: Seq<char>| #[trigger]
            reported_values(catalog).contains_key(id) ==> exists|j: int|
                0 <= j < catalog.len() && (#[trigger] catalog[j]).id == id,
    decreases catalog.len(),
{
    if catalog.len() > 0 {
        let rest = catalog.drop_last();
        reported_ids_are_offered(rest);
        assert forall|id: Seq<char>| #[trigger]
            reported_values(catalog).contains_key(id) implies exists|j: int|
            0 <= j < catalog.len() && (#[trigger] catalog[j]).id == id by {
            if catalog.last().id == id {
                assert(catalog[catalog.len() - 1].id == id);
            } else {
                assert(reported_values(rest).contains_key(id));
                let j = choose|j: int| 0 <= j < rest.len() && (#[trigger] rest[j]).id == id;
                assert(catalog[j].id == id);
            }
        }
    }
}

/// An option that the agent reports is taken as it is: a switch with its setting, a choice
/// with what is chosen and with its choices in order, each under its group if it has one.
/// An option without an id, of a kind that is not understood or with choices that cannot be
/// told apart is not taken.
pub proof fn options_are_taken_as_reported(option: NativeOptionView)
    ensures
        option.normalized() matches Some(taken) ==> {
            &&& taken.id == option.id
            &&& taken.label == option.name
            &&& taken.description == option.description
            &&& taken.category == option.category
            &&& exists|k: int| 0 <= k < option.id.len() && !white_space(#[trigger] option.id[k])
            &&& option.kind matches NativeKindView::Boolean(set) ==> taken.current
                == ConfigValueView::Boolean(set) && taken.choices.len() == 0
            &&& option.kind matches NativeKindView::Select { current, choices } ==> {
                &&& taken.current == ConfigValueView::Select(current)
                &&& choices matches NativeChoicesView::Ungrouped(plain) ==> {
                    &&& taken.choices.len() == plain.len()
                    &&& forall|i: int|
                        0 <= i < plain.len() ==> {
                            let choice = #[trigger] taken.choices[i];
                            &&& choice.value == plain[i].value
                            &&& choice.label == plain[i].name
                            &&& choice.description == plain[i].description
                            &&& choice.group is None
                        }
                }
                &&& forall|i: int|
                    0 <= i < taken.choices.len() ==> !blank((#[trigger] taken.choices[i]).value)
                &&& forall|i: int, j: int|
                    0 <= i < j < taken.choices.len() ==> (#[trigger] taken.choices[i]).value != (
                    #[trigger] taken.choices[j]).value
            }
        },
        option.kind is Other ==> option.normalized() is None,
        (option.kind matches NativeKindView::Select { choices, .. } && choices is Other)
            ==> option.normalized() is None,
        option.kind is Boolean ==> (option.normalized() is Some <==> exists|k: int|
            0 <= k < option.id.len() && !white_space(#[trigger] option.id[k])),
{
}

/// A report is used when each of its options can be taken and no two share an id, and then
/// settles what is known. Any other report makes it uncertain and is not used.
pub proof fn reports_settle_what_is_known(
    state: ConfigurationStateView,
    options: Seq<NativeOptionView>,
)
    ensures
        ({
            let after = state.observed(options);
            let usable = (forall|i: int|
                0 <= i < options.len() ==> (#[trigger] options[i]).normalized() is Some) && forall|
                i: int,
                j: int,
            |
                0 <= i < j < options.len() ==> (#[trigger] options[i]).id != (
                #[trigger] options[j]).id;
            &&& after.uncertain <==> !usable
            &&& after.pending == state.pending
            &&& after.requested == state.requested
            &&& usable ==> (after.options matches Some(catalog) && catalog.len() == options.len()
                && forall|i: int|
                0 <= i < options.len() ==> Some(#[trigger] catalog[i]) == options[i].normalized())
            &&& !usable ==> after.options == state.options
        }),
{
}

/// The configuration is told as certain only when nothing is under way and nothing is
/// uncertain.
pub proof fn certain_values_alone_are_confirmed(state: ConfigurationStateView)
    ensures
        ({
            let known = !state.pending && !state.uncertain;
            &&& state.shown().options == state.options
            &&& state.shown().pending == state.pending
            &&& state.shown().uncertain == state.uncertain
            &&& state.shown().values.requested == state.requested
            &&& known ==> state.shown().values.confirmed == state.reported()
            &&& !known ==> state.shown().values.confirmed is None
            &&& state.frozen() is Ok <==> known
            &&& state.frozen() matches Ok(values) ==> values.requested == state.requested
                && values.confirmed == state.reported()
            &&& state.options is None ==> state.reported() is None
            &&& state.options matches Some(catalog) ==> state.reported() == Some(
                reported_values(catalog),
            )
        }),
{
}

/// A change counts as made only when the agent's report shows the value that was asked for.
/// A report without it takes the change back but is itself believed, and no report at all,
/// or one that cannot be used, leaves what is known uncertain.
pub proof fn changes_need_a_report(
    state: ConfigurationStateView,
    id: Seq<char>,
    value: ConfigValueView,
    options: Seq<NativeOptionView>,
    message: Seq<char>,
)
    ensures
        ({
            let (reply, after) = state.answered(id, value, Ok(options));
            let shown = exists|i: int|
                0 <= i < options.len() && ((#[trigger] options[i]).normalized() matches Some(option)
                    && option.id == id && option.current == value);
            &&& !after.pending
            &&& valid_catalog(options) ==> {
                &&& !after.uncertain
                &&& after.options == Some(normalized_catalog(options))
                &&& reply is Ok <==> shown
                &&& reply is Ok ==> after.requested == state.requested.insert(id, value)
                    && reply->Ok_0 == after.shown()
                &&& reply is Err ==> after.requested == state.requested && reply->Err_0
                    == AcpErrorView::ConfigurationRejected
            }
            &&& !valid_catalog(options) ==> {
                &&& after.uncertain
                &&& after.options == state.options
                &&& after.requested == state.requested
                &&& reply == Err::<SessionConfigurationView, AcpErrorView>(
                    AcpErrorView::InvalidConfiguration,
                )
            }
        }),
        ({
            let (reply, after) = state.answered(id, value, Err(message));
            &&& reply == Err::<SessionConfigurationView, AcpErrorView>(
                AcpErrorView::Protocol(message),
            )
            &&& after.uncertain
            &&& !after.pending
            &&& after.options == state.options
            &&& after.requested == state.requested
        }),
{
    let catalog = normalized_catalog(options);
    if valid_catalog(options) {
        assert forall|i: int| 0 <= i < options.len() implies Some(#[trigger] catalog[i])
            == options[i].normalized() by {}
        if crate::acp::configuration::reports(catalog, id, value) {
            let i = choose|i: int|
                0 <= i < catalog.len() && (#[trigger] catalog[i]).id == id && catalog[i].current
                    == value;
            assert(options[i].normalized() == Some(catalog[i]));
        }
        if exists|i: int|
            0 <= i < options.len() && ((#[trigger] options[i]).normalized() matches Some(option)
                && option.id == id && option.current == value) {
            let i = choose|i: int|
                0 <= i < options.len() && ((#[trigger] options[i]).normalized() matches Some(option)
                    && option.id == id && option.current == value);
            assert(catalog[i].id == id && catalog[i].current == value);
        }
    }
}

/// Choices that come in groups are listed group by group, each under the name of its group.
pub proof fn grouped_choices_keep_their_group(groups: Seq<NativeGroupView>, group: NativeGroupView)
    ensures
        grouped_choices(Seq::empty()) == Seq::<ConfigChoiceView>::empty(),
        ({
            let before = grouped_choices(groups);
            let after = grouped_choices(groups.push(group));
            &&& after.len() == before.len() + group.options.len()
            &&& forall|i: int| 0 <= i < before.len() ==> #[trigger] after[i] == before[i]
            &&& forall|i: int|
                0 <= i < group.options.len() ==> {
                    let choice = #[trigger] after[before.len() + i];
                    &&& choice.value == group.options[i].value
                    &&& choice.label == group.options[i].name
                    &&& choice.description == group.options[i].description
                    &&& choice.group == Some(group.name)
                }
        }),
{
    assert(groups.push(group).drop_last() =~= groups);
}

/// The model is chosen by the one option of the category `model`. With none or several
/// there is no telling.
pub proof fn models_have_one_selector(catalog: Seq<ConfigOptionView>, i: int)
    requires
        0 <= i < catalog.len(),
    ensures
        model_selector(None) == Err::<Seq<char>, AcpErrorView>(
            AcpErrorView::ConfigurationUnsupported,
        ),
        catalog[i].category == Some("model"@) && (forall|j: int|
            0 <= j < catalog.len() && j != i ==> (#[trigger] catalog[j]).category != Some(
                "model"@,
            )) ==> model_selector(Some(catalog)) == Ok::<Seq<char>, AcpErrorView>(catalog[i].id),
        (forall|j: int|
            0 <= j < catalog.len() ==> (#[trigger] catalog[j]).category != Some("model"@))
            ==> model_selector(Some(catalog)) == Err::<Seq<char>, AcpErrorView>(
            AcpErrorView::ModelSelectorUnavailable,
        ),
        forall|j: int|
            i < j < catalog.len() && catalog[i].category == Some("model"@) && (
            #[trigger] catalog[j]).category == Some("model"@) ==> model_selector(Some(catalog))
                == Err::<Seq<char>, AcpErrorView>(AcpErrorView::ModelSelectorUnavailable),
{
    let selects = |option: ConfigOptionView| is_model_selector(option);
    if forall|j: int|
        0 <= j < catalog.len() && j != i ==> (#[trigger] catalog[j]).category != Some("model"@) {
        if catalog[i].category == Some("model"@) {
            filtering_leaves_one(catalog, selects, i);
        }
    }
    if forall|j: int|
        0 <= j < catalog.len() ==> (#[trigger] catalog[j]).category != Some("model"@) {
        filtering_none(catalog, selects);
    }
    assert forall|j: int|
        i < j < catalog.len() && catalog[i].category == Some("model"@) && (
        #[trigger] catalog[j]).category == Some("model"@) implies catalog.filter(selects).len()
        >= 2 by {
        filtering_leaves_two(catalog, selects, i, j);
    }
}

proof fn filtering_leaves_one<T>(values: Seq<T>, keeps: spec_fn(T) -> bool, i: int)
    requires
        0 <= i < values.len(),
        keeps(values[i]),
        forall|j: int| 0 <= j < values.len() && j != i ==> !keeps(#[trigger] values[j]),
    ensures
        values.filter(keeps) == seq![values[i]],
    decreases values.len(),
{
    reveal(Seq::filter);
    let rest = values.drop_last();
    assert(forall|k: int| 0 <= k < rest.len() ==> rest[k] == values[k]);
    if i < rest.len() {
        filtering_leaves_one(rest, keeps, i);
        assert(!keeps(values[values.len() - 1]));
    } else {
        assert forall|k: int| 0 <= k < rest.len() implies !keeps(#[trigger] rest[k]) by {
            assert(!keeps(values[k]));
        }
        filtering_none(rest, keeps);
        assert(Seq::<T>::empty().push(values[i]) =~= seq![values[i]]);
    }
}

proof fn filtering_leaves_two<T>(values: Seq<T>, keeps: spec_fn(T) -> bool, i: int, j: int)
    requires
        0 <= i < j < values.len(),
        keeps(values[i]),
        keeps(values[j]),
    ensures
        values.filter(keeps).len() >= 2,
    decreases values.len(),
{
    reveal(Seq::filter);
    let rest = values.drop_last();
    if j < rest.len() {
        filtering_leaves_two(rest, keeps, i, j);
    } else {
        filtering_leaves_some(rest, keeps, i);
    }
}

proof fn filtering_leaves_some<T>(values: Seq<T>, keeps: spec_fn(T) -> bool, i: int)
    requires
        0 <= i < values.len(),
        keeps(values[i]),
    ensures
        values.filter(keeps).len() >= 1,
    decreases values.len(),
{
    reveal(Seq::filter);
    if i < values.len() - 1 {
        filtering_leaves_some(values.drop_last(), keeps, i);
    }
}

proof fn filtering_none<T>(values: Seq<T>, keeps: spec_fn(T) -> bool)
    requires
        forall|k: int| 0 <= k < values.len() ==> !keeps(#[trigger] values[k]),
    ensures
        values.filter(keeps) == Seq::<T>::empty(),
    decreases values.len(),
{
    reveal(Seq::filter);
    if values.len() > 0 {
        let rest = values.drop_last();
        assert(forall|k: int| 0 <= k < rest.len() ==> rest[k] == values[k]);
        filtering_none(rest, keeps);
    }
}

/// A session is handed off with everything that is needed to resume it: where it is held
/// and under which key, the directory, and the name and version of the agent. That needs a
/// quiet session with a known configuration, an open connection, an agent that can resume,
/// a scope and an agent that said who it is.
pub proof fn handoffs_carry_what_resuming_needs(
    session: SessionStateView,
    connection: ConnectionFacts,
    cwd: Seq<char>,
    key: Seq<char>,
    id: Seq<char>,
)
    ensures
        ({
            let reply = handed_off(session, connection, cwd, key, id);
            let quiet = !session.retired && session.quiescent;
            let known = !session.configuration.pending && !session.configuration.uncertain;
            let scoped = connection.scope is Some && !blank(connection.scope->0@);
            &&& reply is Ok <==> (quiet && known && !connection.closed && connection.resumes
                && scoped && connection.agent is Some)
            &&& reply matches Ok(saved) ==> {
                &&& saved.id == id
                &&& saved.session_id == session.session_id
                &&& saved.slot_id == session.slot_id
                &&& saved.adapter == "acp-v1"@
                &&& saved.scope == connection.scope->0@
                &&& saved.native_key == key
                &&& saved.predecessor == session.predecessor
                &&& saved.data == JsonView::Object(
                    map![
                        "version"@ => JsonView::Number(JsonNumber::PosInt(1)),
                        "cwd"@ => JsonView::Text(cwd),
                        "agent_name"@ => JsonView::Text(connection.agent->0.name@),
                        "agent_version"@ => JsonView::Text(connection.agent->0.version@),
                    ],
                )
            }
            &&& !quiet ==> reply == Err::<ContinuationView, AcpErrorView>(
                AcpErrorView::UnsafeHandoff,
            )
            &&& quiet && !known ==> reply == Err::<ContinuationView, AcpErrorView>(
                AcpErrorView::ConfigurationUncertain,
            )
            &&& quiet && known && connection.closed ==> reply == Err::<
                ContinuationView,
                AcpErrorView,
            >(AcpErrorView::Closed)
            &&& quiet && known && !connection.closed && !connection.resumes ==> reply == Err::<
                ContinuationView,
                AcpErrorView,
            >(AcpErrorView::ResumeUnsupported)
            &&& quiet && known && !connection.closed && connection.resumes && !scoped ==> reply
                == Err::<ContinuationView, AcpErrorView>(AcpErrorView::ContinuationScopeRequired)
        }),
{
}

/// What was saved of a session is read as four members and no more: a version, a directory
/// and the name and version of the agent.
pub proof fn saved_data_has_four_members(members: Map<Seq<char>, JsonView>)
    ensures
        data_of(JsonView::Object(members)) matches Some(data) ==> {
            &&& members["version"@] == JsonView::Number(JsonNumber::PosInt(data.version as u64))
            &&& members["cwd"@] == JsonView::Text(data.cwd)
            &&& members["agent_name"@] == JsonView::Text(data.agent_name)
            &&& members["agent_version"@] == JsonView::Text(data.agent_version)
            &&& forall|name: Seq<char>| #[trigger]
                members.contains_key(name) ==> name == "version"@ || name == "cwd"@ || name
                    == "agent_name"@ || name == "agent_version"@
        },
        (members.contains_key("version"@) && members.contains_key("cwd"@) && members.contains_key(
            "agent_name"@,
        ) && members.contains_key("agent_version"@) && (forall|name: Seq<char>| #[trigger]
            members.contains_key(name) ==> name == "version"@ || name == "cwd"@ || name
                == "agent_name"@ || name == "agent_version"@) && (
        members["version"@] matches JsonView::Number(JsonNumber::PosInt(n)) && n <= 4294967295)
            && members["cwd"@] is Text && members["agent_name"@] is Text
            && members["agent_version"@] is Text) ==> data_of(JsonView::Object(members)) is Some,
        !members.contains_key("version"@) ==> data_of(JsonView::Object(members)) is None,
        !members.contains_key("cwd"@) ==> data_of(JsonView::Object(members)) is None,
        !members.contains_key("agent_name"@) ==> data_of(JsonView::Object(members)) is None,
        !members.contains_key("agent_version"@) ==> data_of(JsonView::Object(members)) is None,
{
    let value = JsonView::Object(members);
    assert(value->Object_0 == members);
    if data_of(value) is Some {
        assert forall|name: Seq<char>| #[trigger] members.contains_key(name) implies name
            == "version"@ || name == "cwd"@ || name == "agent_name"@ || name
            == "agent_version"@ by {
            assert(value->Object_0.contains_key(name));
        }
    }
}

/// A session is resumed only over an open connection to an agent that can, under the scope
/// that it was saved under, in the version that is understood, and with an agent of the
/// same name and version.
pub proof fn sessions_are_resumed_where_they_were_saved(
    connection: ConnectionFacts,
    saved: Result<ContinuationRecordView, StoreErrorView>,
)
    ensures
        ({
            let reply = resumable(connection, saved);
            &&& connection.closed ==> reply == Err::<ResumePlanView, AcpErrorView>(
                AcpErrorView::Closed,
            )
            &&& !connection.closed && !connection.resumes ==> reply == Err::<
                ResumePlanView,
                AcpErrorView,
            >(AcpErrorView::ResumeUnsupported)
            &&& !connection.closed && connection.resumes ==> (saved matches Err(e) ==> reply
                == Err::<ResumePlanView, AcpErrorView>(AcpErrorView::Store(e)))
            &&& reply is Ok <==> {
                let own = saved->Ok_0.continuation;
                let data = data_of(own.data)->0;
                &&& !connection.closed
                &&& connection.resumes
                &&& saved is Ok
                &&& data_of(own.data) is Some
                &&& connection.agent is Some
                &&& own.adapter == "acp-v1"@
                &&& connection.scope is Some
                &&& !blank(connection.scope->0@)
                &&& own.scope == connection.scope->0@
                &&& data.version == 1
                &&& connection.agent->0.name@ == data.agent_name
                &&& connection.agent->0.version@ == data.agent_version
            }
            &&& reply matches Ok(plan) ==> plan.continuation == saved->Ok_0.continuation && Some(
                plan.data,
            ) == data_of(plan.continuation.data)
        }),
{
}

/// A session that was saved can be claimed for an absolute directory, with servers that can
/// be used, and while it is not in use here.
pub proof fn claims_need_a_free_session(
    absolute: bool,
    connection: ConnectionFacts,
    servers: Seq<ToolServer>,
    in_use: bool,
)
    ensures
        ({
            let objection = claim_objection(absolute, connection, servers, in_use);
            &&& objection is None <==> (absolute && connection.servers.first_objection(
                servers,
            ) is None && !in_use)
            &&& !absolute ==> objection == Some(AcpErrorView::InvalidWorkingDirectory)
            &&& absolute && connection.servers.first_objection(servers) is Some ==> objection
                == connection.servers.first_objection(servers)
            &&& absolute && connection.servers.first_objection(servers) is None && in_use
                ==> objection == Some(AcpErrorView::SessionUnavailable)
        }),
{
}

/// At most thirty-two requests wait for an answer, and at most two hundred and fifty-six
/// events to be read.
pub proof fn runs_are_bounded()
    ensures
        crate::acp::session::PERMISSION_CAPACITY == 32,
        crate::acp::session::EVENT_CAPACITY == 256,
{
}

} // verus!
