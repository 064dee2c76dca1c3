//! What a session offers to choose from.
use crate::client::{notification, plain};
use crate::collections::{add_item, empty, one};
use crate::models::{
    EffortPresetView, ModelPreset, ModelPresetView, assign_providers, current_effort,
    current_index, effort_for, encode_provider_value, encoded_value, find_current, keep_shown,
    lemma_model_index, lemma_served_index, providers_of, shown_models, title_case_of,
    to_title_case,
};
use crate::protocol::{
    AvailableCommand, AvailableCommandView, ConfigCategory, ConfigOption, ConfigOptionView,
    Notification, NotificationView, ReasoningEffort, SelectOption, SelectOptionView,
    SessionUpdate, SessionUpdateView,
};
use crate::session_config::{
    ApprovalPreset, ApprovalPresetView, Config, ConfigView, KodexModelProviderEntry,
    KodexModelProviderEntryView, SessionMode, SessionModeState, SessionModeStateView,
    SessionModeView, current_mode, current_session_mode_id,
};
use crate::text::{copy_option, is_some_text, same};
use vstd::prelude::*;

verus! {

pub open spec fn command(
    name: Seq<char>,
    description: Seq<char>,
    hint: Option<Seq<char>>,
) -> AvailableCommandView {
    AvailableCommandView { name, description, input_hint: hint }
}

fn new_command(name: &str, description: &str, hint: Option<&str>) -> (made: AvailableCommand)
    ensures
        made.deep_view() == command(name@, description@, hint.deep_view()),
{
    AvailableCommand {
        name: name.to_owned(),
        description: description.to_owned(),
        input_hint: match hint {
            Some(hint) => Some(hint.to_owned()),
            None => None,
        },
    }
}

/// The slash commands that every session offers.
pub open spec fn offered_commands() -> Seq<AvailableCommandView> {
    seq![
        command(
            "review"@,
            "Review my current changes and find issues"@,
            Some("optional custom review instructions"@),
        ),
        command(
            "review-branch"@,
            "Review the code changes against a specific branch"@,
            Some("branch name"@),
        ),
        command(
            "review-commit"@,
            "Review the code changes introduced by a commit"@,
            Some("commit sha"@),
        ),
        command("init"@, "create an AGENTS.md file with instructions for Codex"@, None),
        command(
            "compact"@,
            "summarize conversation to prevent hitting the context limit"@,
            None,
        ),
        command("logout"@, "logout of Codex"@, None),
    ]
}

pub fn builtin_commands() -> (commands: Vec<AvailableCommand>)
    ensures
        commands.deep_view() == offered_commands(),
{
    let commands = vec![
        new_command(
            "review",
            "Review my current changes and find issues",
            Some("optional custom review instructions"),
        ),
        new_command(
            "review-branch",
            "Review the code changes against a specific branch",
            Some("branch name"),
        ),
        new_command(
            "review-commit",
            "Review the code changes introduced by a commit",
            Some("commit sha"),
        ),
        new_command("init", "create an AGENTS.md file with instructions for Codex", None),
        new_command(
            "compact",
            "summarize conversation to prevent hitting the context limit",
            None,
        ),
        new_command("logout", "logout of Codex", None),
    ];
    assert(commands.deep_view() =~= offered_commands());
    commands
}

pub open spec fn shown_mode(preset: ApprovalPresetView) -> SessionModeView {
    SessionModeView { id: preset.id, name: preset.label, description: preset.description }
}

pub open spec fn shown_modes(presets: Seq<ApprovalPresetView>) -> Seq<SessionModeView> {
    presets.map_values(|preset: ApprovalPresetView| shown_mode(preset))
}

/// The session modes, where the configuration is in one of them.
pub open spec fn session_modes(config: ConfigView, presets: Seq<ApprovalPresetView>) -> Option<
    SessionModeStateView,
> {
    match current_mode(presets, config) {
        Some(mode_id) => Some(
            SessionModeStateView {
                current_mode_id: mode_id,
                available_modes: shown_modes(presets),
            },
        ),
        None => None,
    }
}

pub fn modes(config: &Config, presets: &Vec<ApprovalPreset>) -> (state: Option<SessionModeState>)
    ensures
        state.deep_view() == session_modes(config.deep_view(), presets.deep_view()),
{
    let current_mode_id = match current_session_mode_id(config, presets) {
        Some(mode_id) => mode_id,
        None => return None,
    };
    let mut available_modes: Vec<SessionMode> = empty();
    let ghost all = presets.deep_view();
    for i in 0..presets.len()
        invariant
            all == presets.deep_view(),
            available_modes.deep_view() == shown_modes(all.take(i as int)),
    {
        assert(shown_modes(all.take(i + 1)) =~= shown_modes(all.take(i as int)).push(
            shown_mode(all[i as int]),
        ));
        add_item(
            &mut available_modes,
            SessionMode {
                id: presets[i].id.clone(),
                name: presets[i].label.clone(),
                description: presets[i].description.clone(),
            },
        );
    }
    assert(all.take(all.len() as int) =~= all);
    Some(SessionModeState { current_mode_id, available_modes })
}

pub open spec fn mode_choice(mode: SessionModeView) -> SelectOptionView {
    SelectOptionView {
        value: mode.id,
        name: mode.name,
        description: Some(mode.description),
        provider: None,
    }
}

pub open spec fn mode_choices(modes: Seq<SessionModeView>) -> Seq<SelectOptionView> {
    modes.map_values(|mode: SessionModeView| mode_choice(mode))
}

pub open spec fn mode_option(state: SessionModeStateView) -> ConfigOptionView {
    ConfigOptionView {
        id: "mode"@,
        name: "Approval Preset"@,
        description: "Choose an approval and sandboxing preset for your session"@,
        category: ConfigCategory::Mode,
        current_value: state.current_mode_id,
        options: mode_choices(state.available_modes),
    }
}

fn new_mode_option(state: SessionModeState) -> (option: ConfigOption)
    ensures
        option.deep_view() == mode_option(state.deep_view()),
{
    let mut options: Vec<SelectOption> = empty();
    let ghost all = state.available_modes.deep_view();
    for i in 0..state.available_modes.len()
        invariant
            all == state.available_modes.deep_view(),
            options.deep_view() == mode_choices(all.take(i as int)),
    {
        assert(mode_choices(all.take(i + 1)) =~= mode_choices(all.take(i as int)).push(
            mode_choice(all[i as int]),
        ));
        let mode = &state.available_modes[i];
        add_item(
            &mut options,
            SelectOption {
                value: mode.id.clone(),
                name: mode.name.clone(),
                description: Some(mode.description.clone()),
                provider: None,
            },
        );
    }
    assert(all.take(all.len() as int) =~= all);
    ConfigOption {
        id: "mode".to_owned(),
        name: "Approval Preset".to_owned(),
        description: "Choose an approval and sandboxing preset for your session".to_owned(),
        category: ConfigCategory::Mode,
        current_value: state.current_mode_id,
        options,
    }
}

pub open spec fn model_choice(preset: ModelPresetView, provider: Seq<char>) -> SelectOptionView {
    SelectOptionView {
        value: encoded_value(preset.id, provider),
        name: preset.display_name,
        description: Some(preset.description),
        provider: Some(provider),
    }
}

pub open spec fn model_choices(shown: Seq<ModelPresetView>, providers: Seq<Seq<char>>) -> Seq<
    SelectOptionView,
> {
    Seq::new(shown.len(), |i: int| model_choice(shown[i], providers[i]))
}

/// The choice of the model. A current model that is not among those shown is listed first, as it
/// is.
pub open spec fn model_option(
    shown: Seq<ModelPresetView>,
    providers: Seq<Seq<char>>,
    current_model: Seq<char>,
    active: Seq<char>,
) -> ConfigOptionView {
    let current = current_index(shown, providers, current_model, active);
    let listed = model_choices(shown, providers);
    let value = if current < shown.len() {
        encoded_value(shown[current].id, providers[current])
    } else {
        encoded_value(current_model, active)
    };
    ConfigOptionView {
        id: "model"@,
        name: "Model"@,
        description: "Choose which model Codex should use"@,
        category: ConfigCategory::Model,
        current_value: value,
        options: if current < shown.len() {
            listed
        } else {
            seq![
                SelectOptionView {
                    value,
                    name: current_model,
                    description: None,
                    provider: Some(active),
                },
            ] + listed
        },
    }
}

fn new_model_option(
    shown: &Vec<ModelPreset>,
    providers: &Vec<String>,
    current: usize,
    current_model: &str,
    active: &str,
) -> (option: ConfigOption)
    requires
        shown@.len() == providers@.len(),
        current == current_index(
            shown.deep_view(),
            providers.deep_view(),
            current_model@,
            active@,
        ),
        current <= shown@.len(),
    ensures
        option.deep_view() == model_option(
            shown.deep_view(),
            providers.deep_view(),
            current_model@,
            active@,
        ),
{
    let ghost all = shown.deep_view();
    let ghost served = providers.deep_view();
    let mut options: Vec<SelectOption> = empty();
    let value = if current < shown.len() {
        encode_provider_value(shown[current].id.as_str(), providers[current].as_str())
    } else {
        encode_provider_value(current_model, active)
    };
    if current == shown.len() {
        add_item(
            &mut options,
            SelectOption {
                value: value.clone(),
                name: current_model.to_owned(),
                description: None,
                provider: Some(active.to_owned()),
            },
        );
    }
    let ghost start = options.deep_view();
    assert(start + model_choices(all.take(0), served) =~= start);
    for i in 0..shown.len()
        invariant
            all == shown.deep_view(),
            served == providers.deep_view(),
            shown@.len() == providers@.len(),
            options.deep_view() == start + model_choices(all.take(i as int), served),
    {
        assert(start + model_choices(all.take(i + 1), served) =~= (start + model_choices(
            all.take(i as int),
            served,
        )).push(model_choice(all[i as int], served[i as int])));
        add_item(
            &mut options,
            SelectOption {
                value: encode_provider_value(shown[i].id.as_str(), providers[i].as_str()),
                name: shown[i].display_name.clone(),
                description: Some(shown[i].description.clone()),
                provider: Some(providers[i].clone()),
            },
        );
    }
    assert(all.take(all.len() as int) =~= all);
    assert(start.len() == 0 ==> start + model_choices(all, served) =~= model_choices(all, served));
    ConfigOption {
        id: "model".to_owned(),
        name: "Model".to_owned(),
        description: "Choose which model Codex should use".to_owned(),
        category: ConfigCategory::Model,
        current_value: value,
        options,
    }
}

pub open spec fn effort_choice(effort: EffortPresetView) -> SelectOptionView {
    SelectOptionView {
        value: effort.effort.text(),
        name: title_case_of(effort.effort.text()),
        description: Some(effort.description),
        provider: None,
    }
}

pub open spec fn effort_choices(efforts: Seq<EffortPresetView>) -> Seq<SelectOptionView> {
    efforts.map_values(|effort: EffortPresetView| effort_choice(effort))
}

pub open spec fn effort_option(
    configured: Option<ReasoningEffort>,
    preset: ModelPresetView,
) -> ConfigOptionView {
    ConfigOptionView {
        id: "reasoning_effort"@,
        name: "Reasoning Effort"@,
        description: "Choose how much reasoning effort the model should use"@,
        category: ConfigCategory::ThoughtLevel,
        current_value: effort_for(configured, preset).text(),
        options: effort_choices(preset.supported_reasoning_efforts),
    }
}

fn new_effort_option(configured: Option<ReasoningEffort>, preset: &ModelPreset) -> (option:
    ConfigOption)
    ensures
        option.deep_view() == effort_option(configured, preset.deep_view()),
{
    let mut options: Vec<SelectOption> = empty();
    let ghost all = preset.supported_reasoning_efforts.deep_view();
    for i in 0..preset.supported_reasoning_efforts.len()
        invariant
            all == preset.supported_reasoning_efforts.deep_view(),
            options.deep_view() == effort_choices(all.take(i as int)),
    {
        assert(effort_choices(all.take(i + 1)) =~= effort_choices(all.take(i as int)).push(
            effort_choice(all[i as int]),
        ));
        let effort = &preset.supported_reasoning_efforts[i];
        let name = effort.effort.name();
        add_item(
            &mut options,
            SelectOption {
                value: name.to_owned(),
                name: to_title_case(name),
                description: Some(effort.description.clone()),
                provider: None,
            },
        );
    }
    assert(all.take(all.len() as int) =~= all);
    ConfigOption {
        id: "reasoning_effort".to_owned(),
        name: "Reasoning Effort".to_owned(),
        description: "Choose how much reasoning effort the model should use".to_owned(),
        category: ConfigCategory::ThoughtLevel,
        current_value: current_effort(configured, preset).name().to_owned(),
        options,
    }
}

/// The configuration options of a session: the mode where there is one, the model, and the
/// effort where the current preset leaves a choice.
pub open spec fn session_options(
    config: ConfigView,
    approvals: Seq<ApprovalPresetView>,
    presets: Seq<ModelPresetView>,
    entries: Seq<KodexModelProviderEntryView>,
    current_model: Seq<char>,
) -> Seq<ConfigOptionView> {
    let active = config.model_provider_id;
    let shown = shown_models(presets, current_model);
    let providers = providers_of(shown, entries, active);
    let current = current_index(shown, providers, current_model, active);
    let mode = match session_modes(config, approvals) {
        Some(state) => seq![mode_option(state)],
        None => seq![],
    };
    let with_model = mode.push(model_option(shown, providers, current_model, active));
    if current < shown.len() && shown[current].supported_reasoning_efforts.len() > 1 {
        with_model.push(effort_option(config.model_reasoning_effort, shown[current]))
    } else {
        with_model
    }
}

pub fn config_options(
    config: &Config,
    approvals: &Vec<ApprovalPreset>,
    presets: Vec<ModelPreset>,
    entries: &Vec<KodexModelProviderEntry>,
    current_model: &str,
) -> (options: Vec<ConfigOption>)
    ensures
        options.deep_view() == session_options(
            config.deep_view(),
            approvals.deep_view(),
            presets.deep_view(),
            entries.deep_view(),
            current_model@,
        ),
{
    let mut options: Vec<ConfigOption> = match modes(config, approvals) {
        Some(state) => one(new_mode_option(state)),
        None => empty(),
    };
    let active = config.model_provider_id.as_str();
    let shown = keep_shown(presets, current_model);
    let providers = assign_providers(&shown, entries, active);
    let current: usize = find_current(&shown, &providers, current_model, active);
    add_item(
        &mut options,
        new_model_option(&shown, &providers, current, current_model, active),
    );
    if current < shown.len() && shown[current].supported_reasoning_efforts.len() > 1 {
        add_item(
            &mut options,
            new_effort_option(config.model_reasoning_effort, &shown[current]),
        );
    }
    options
}

fn same_option(left: &Option<String>, right: &Option<String>) -> (equal: bool)
    ensures
        equal == (left.deep_view() == right.deep_view()),
{
    match left {
        Some(left) => is_some_text(right, left.as_str()),
        None => right.is_none(),
    }
}

fn same_choice(left: &SelectOption, right: &SelectOption) -> (equal: bool)
    ensures
        equal == (left.deep_view() == right.deep_view()),
{
    same(left.value.as_str(), right.value.as_str()) && same(
        left.name.as_str(),
        right.name.as_str(),
    ) && same_option(&left.description, &right.description) && same_option(
        &left.provider,
        &right.provider,
    )
}

fn same_choices(left: &Vec<SelectOption>, right: &Vec<SelectOption>) -> (equal: bool)
    ensures
        equal == (left.deep_view() == right.deep_view()),
{
    if left.len() != right.len() {
        assert(left.deep_view().len() != right.deep_view().len());
        return false;
    }
    for i in 0..left.len()
        invariant
            left@.len() == right@.len(),
            forall|k: int| 0 <= k < i ==> left@[k].deep_view() == right@[k].deep_view(),
    {
        if !same_choice(&left[i], &right[i]) {
            assert(left.deep_view()[i as int] != right.deep_view()[i as int]);
            return false;
        }
    }
    assert(left.deep_view() =~= right.deep_view());
    true
}

fn same_config_option(left: &ConfigOption, right: &ConfigOption) -> (equal: bool)
    ensures
        equal == (left.deep_view() == right.deep_view()),
{
    same(left.id.as_str(), right.id.as_str()) && same(left.name.as_str(), right.name.as_str())
        && same(left.description.as_str(), right.description.as_str()) && left.category
        == right.category && same(left.current_value.as_str(), right.current_value.as_str())
        && same_choices(&left.options, &right.options)
}

pub fn same_config_options(left: &Vec<ConfigOption>, right: &Vec<ConfigOption>) -> (equal: bool)
    ensures
        equal == (left.deep_view() == right.deep_view()),
{
    if left.len() != right.len() {
        assert(left.deep_view().len() != right.deep_view().len());
        return false;
    }
    for i in 0..left.len()
        invariant
            left@.len() == right@.len(),
            forall|k: int| 0 <= k < i ==> left@[k].deep_view() == right@[k].deep_view(),
    {
        if !same_config_option(&left[i], &right[i]) {
            assert(left.deep_view()[i as int] != right.deep_view()[i as int]);
            return false;
        }
    }
    assert(left.deep_view() =~= right.deep_view());
    true
}

fn copy_choices(options: &Vec<SelectOption>) -> (copy: Vec<SelectOption>)
    ensures
        copy.deep_view() == options.deep_view(),
{
    let mut copy: Vec<SelectOption> = empty();
    let ghost all = options.deep_view();
    for i in 0..options.len()
        invariant
            all == options.deep_view(),
            copy.deep_view() == all.take(i as int),
    {
        assert(all.take(i + 1) =~= all.take(i as int).push(all[i as int]));
        add_item(
            &mut copy,
            SelectOption {
                value: options[i].value.clone(),
                name: options[i].name.clone(),
                description: copy_option(&options[i].description),
                provider: copy_option(&options[i].provider),
            },
        );
    }
    assert(all.take(all.len() as int) =~= all);
    copy
}

pub fn copy_config_options(options: &Vec<ConfigOption>) -> (copy: Vec<ConfigOption>)
    ensures
        copy.deep_view() == options.deep_view(),
{
    let mut copy: Vec<ConfigOption> = empty();
    let ghost all = options.deep_view();
    for i in 0..options.len()
        invariant
            all == options.deep_view(),
            copy.deep_view() == all.take(i as int),
    {
        assert(all.take(i + 1) =~= all.take(i as int).push(all[i as int]));
        add_item(
            &mut copy,
            ConfigOption {
                id: options[i].id.clone(),
                name: options[i].name.clone(),
                description: options[i].description.clone(),
                category: options[i].category,
                current_value: options[i].current_value.clone(),
                options: copy_choices(&options[i].options),
            },
        );
    }
    assert(all.take(all.len() as int) =~= all);
    copy
}

/// The options are sent when they differ from those sent last.
pub open spec fn options_update(
    last_sent: Option<Seq<ConfigOptionView>>,
    options: Seq<ConfigOptionView>,
) -> (Option<Seq<ConfigOptionView>>, Option<NotificationView>) {
    if last_sent == Some(options) {
        (last_sent, None)
    } else {
        (Some(options), Some(plain(SessionUpdateView::ConfigOptions(options))))
    }
}

pub fn maybe_emit_config_options_update(
    last_sent: &mut Option<Vec<ConfigOption>>,
    options: Vec<ConfigOption>,
) -> (message: Option<Notification>)
    ensures
        (final(last_sent).deep_view(), message.deep_view()) == options_update(
            old(last_sent).deep_view(),
            options.deep_view(),
        ),
{
    let unchanged = match &*last_sent {
        Some(sent) => same_config_options(sent, &options),
        None => false,
    };
    if unchanged {
        return None;
    }
    *last_sent = Some(copy_config_options(&options));
    Some(notification(SessionUpdate::ConfigOptions(options)))
}

/// The model that is current is among those that can be chosen.
pub proof fn current_model_can_be_chosen(
    shown: Seq<ModelPresetView>,
    providers: Seq<Seq<char>>,
    current_model: Seq<char>,
    active: Seq<char>,
) -> (position: int)
    requires
        shown.len() == providers.len(),
    ensures
        ({
            let option = model_option(shown, providers, current_model, active);
            0 <= position < option.options.len() && option.options[position].value
                == option.current_value
        }),
{
    lemma_model_index(shown, current_model);
    lemma_served_index(shown, providers, current_model, active);
    let current = current_index(shown, providers, current_model, active);
    if current < shown.len() {
        current
    } else {
        0
    }
}

/// The options of a session are at most the mode, the model and the effort, in this order; the
/// model is always among them.
pub proof fn session_options_are_known(
    config: ConfigView,
    approvals: Seq<ApprovalPresetView>,
    presets: Seq<ModelPresetView>,
    entries: Seq<KodexModelProviderEntryView>,
    current_model: Seq<char>,
)
    ensures
        ({
            let options = session_options(config, approvals, presets, entries, current_model);
            let first: int = if current_mode(approvals, config) is Some {
                1
            } else {
                0
            };
            &&& first + 1 <= options.len() <= first + 2
            &&& first == 1 ==> options[0].id == "mode"@ && options[0].options.len()
                == approvals.len()
            &&& options[first].id == "model"@
            &&& options.len() == first + 2 ==> options[first + 1].id == "reasoning_effort"@
                && options[first + 1].options.len() > 1
        }),
{
}

/// The options are told exactly when they changed: telling the same options again says nothing.
pub proof fn options_are_told_once(
    last_sent: Option<Seq<ConfigOptionView>>,
    options: Seq<ConfigOptionView>,
)
    ensures
        options_update(last_sent, options).0 == Some(options),
        options_update(last_sent, options).1 is None <==> last_sent == Some(options),
        options_update(options_update(last_sent, options).0, options) == (
            Some(options),
            None::<NotificationView>,
        ),
{
}

} // verus!
