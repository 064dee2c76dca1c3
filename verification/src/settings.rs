//! How the settings of a session are changed.
use crate::collections::result_view;
use crate::json::{Json, JsonView};
use crate::models::{
    KODEX_BYOK_PROXY_PROVIDER_ID, KODEX_PROVIDER_VALUE_PREFIX, ModelPreset, ModelPresetView,
    ProviderActivation, ProviderActivationView, activation, current_effort, decode_provider_value,
    decoded_value, effort_for, effort_named, effort_names_are_read_back, encoded_value,
    encoded_value_is_read_back, find_model, invalid_params, invalid_params_error, model_index,
    parse_effort, parse_model_id, parsed_model_id, provider_activation_for_request, supports,
    supports_effort,
};
use crate::protocol::{
    CollaborationMode, CollaborationModeView, Error, ErrorKind, ErrorKindView, ErrorView, ModeKind,
    Op, OpView, ReasoningEffort, ThreadSettings, ThreadSettingsView,
};
use crate::session_config::{
    ApprovalPreset, ApprovalPresetView, Config, ConfigView, active_profile_id_for_session_mode,
    current_mode, exact_preset_is_current, find_preset, lemma_preset_index, mode_trusts_project,
    preset_index, profile_for_mode, trusts_project,
};
use crate::text::{same, starts_with, trimmed};
use vstd::prelude::*;

verus! {

/// A model and an effort to switch to.
#[derive(Debug)]
pub struct ModelChange {
    pub model: String,
    pub effort: Option<ReasoningEffort>,
}

#[verifier::ext_equal]
pub struct ModelChangeView {
    pub model: Seq<char>,
    pub effort: Option<ReasoningEffort>,
}

impl DeepView for ModelChange {
    type V = ModelChangeView;

    open spec fn deep_view(&self) -> ModelChangeView {
        ModelChangeView {
            model: self.model.deep_view(),
            effort: self.effort.deep_view(),
        }
    }
}

/// The value that a configuration option is set to.
#[derive(Debug, PartialEq)]
pub enum ConfigValue {
    ValueId(String),
    Other,
}

#[verifier::ext_equal]
pub enum ConfigValueView {
    ValueId(Seq<char>),
    Other,
}

impl DeepView for ConfigValue {
    type V = ConfigValueView;

    open spec fn deep_view(&self) -> ConfigValueView {
        match self {
            ConfigValue::ValueId(value) => ConfigValueView::ValueId(value.deep_view()),
            ConfigValue::Other => ConfigValueView::Other,
        }
    }
}

/// What the configuration says to a mode. It is given the policy of the mode, and its profile once
/// it has taken the policy; a part that it refuses stays as it was.
#[derive(Debug)]
pub enum ConfigAnswer {
    Accepted,
    PolicyRefused(String),
    ProfileRefused(String),
}

#[verifier::ext_equal]
pub enum ConfigAnswerView {
    Accepted,
    PolicyRefused(Seq<char>),
    ProfileRefused(Seq<char>),
}

impl DeepView for ConfigAnswer {
    type V = ConfigAnswerView;

    open spec fn deep_view(&self) -> ConfigAnswerView {
        match self {
            ConfigAnswer::Accepted => ConfigAnswerView::Accepted,
            ConfigAnswer::PolicyRefused(value) => ConfigAnswerView::PolicyRefused(
                value.deep_view(),
            ),
            ConfigAnswer::ProfileRefused(value) => ConfigAnswerView::ProfileRefused(
                value.deep_view(),
            ),
        }
    }
}

/// What setting a configuration option asks for.
#[derive(Debug)]
pub enum SettingsChange {
    Mode(String),
    Model(ModelChange),
    Effort(ReasoningEffort),
}

#[verifier::ext_equal]
pub enum SettingsChangeView {
    Mode(Seq<char>),
    Model(ModelChangeView),
    Effort(ReasoningEffort),
}

impl DeepView for SettingsChange {
    type V = SettingsChangeView;

    open spec fn deep_view(&self) -> SettingsChangeView {
        match self {
            SettingsChange::Mode(value) => SettingsChangeView::Mode(value.deep_view()),
            SettingsChange::Model(value) => SettingsChangeView::Model(value.deep_view()),
            SettingsChange::Effort(value) => SettingsChangeView::Effort(value.deep_view()),
        }
    }
}

pub open spec fn no_settings() -> ThreadSettingsView {
    ThreadSettingsView {
        approval_policy: None,
        permission_profile: None,
        active_permission_profile: None,
        collaboration_mode: None,
        model: None,
        effort: None,
    }
}

fn unchanged_settings() -> (settings: ThreadSettings)
    ensures
        settings.deep_view() == no_settings(),
{
    ThreadSettings {
        approval_policy: None,
        permission_profile: None,
        active_permission_profile: None,
        collaboration_mode: None,
        model: None,
        effort: None,
    }
}

pub open spec fn bare_invalid_params() -> ErrorView {
    ErrorView { kind: ErrorKindView::InvalidParams, data: None }
}

/// How the agent collaborates in a mode: in read-only mode it plans.
pub open spec fn collaboration(
    mode_id: Seq<char>,
    model: Seq<char>,
    effort: Option<ReasoningEffort>,
) -> CollaborationModeView {
    CollaborationModeView {
        mode: if mode_id == "read-only"@ {
            ModeKind::Plan
        } else {
            ModeKind::Default
        },
        model,
        reasoning_effort: effort,
    }
}

pub fn collaboration_mode_for_session_mode(
    mode_id: &str,
    current_model: &str,
    effort: Option<ReasoningEffort>,
) -> (mode: CollaborationMode)
    ensures
        mode.deep_view() == collaboration(mode_id@, current_model@, effort),
{
    CollaborationMode {
        mode: if same(mode_id, "read-only") {
            ModeKind::Plan
        } else {
            ModeKind::Default
        },
        model: current_model.to_owned(),
        reasoning_effort: effort,
    }
}

/// What is submitted for a mode: its preset, the profile it stands for and how the agent
/// collaborates in it. A mode without a preset is refused.
pub open spec fn mode_settings(
    config: ConfigView,
    presets: Seq<ApprovalPresetView>,
    mode_id: Seq<char>,
    current_model: Seq<char>,
) -> Result<OpView, ErrorView> {
    let i = preset_index(presets, mode_id);
    if i < presets.len() {
        Ok(
            OpView::ThreadSettings(
                ThreadSettingsView {
                    approval_policy: Some(presets[i].approval),
                    permission_profile: Some(presets[i].permission_profile),
                    active_permission_profile: profile_for_mode(presets[i].id),
                    collaboration_mode: Some(
                        collaboration(
                            presets[i].id,
                            current_model,
                            config.model_reasoning_effort,
                        ),
                    ),
                    ..no_settings()
                },
            ),
        )
    } else {
        Err(bare_invalid_params())
    }
}

pub fn handle_set_mode(
    config: &Config,
    presets: &Vec<ApprovalPreset>,
    mode_id: &str,
    current_model: &str,
) -> (op: Result<Op, Error>)
    ensures
        result_view(op) == mode_settings(
            config.deep_view(),
            presets.deep_view(),
            mode_id@,
            current_model@,
        ),
{
    match find_preset(presets, mode_id) {
        Some(preset) => {
            let mut settings = unchanged_settings();
            settings.approval_policy = Some(preset.approval);
            settings.permission_profile = Some(preset.permission_profile.duplicate());
            settings.active_permission_profile =
            match active_profile_id_for_session_mode(preset.id.as_str()) {
                Some(profile_id) => Some(profile_id.to_owned()),
                None => None,
            };
            settings.collaboration_mode = Some(
                collaboration_mode_for_session_mode(
                    preset.id.as_str(),
                    current_model,
                    config.model_reasoning_effort,
                ),
            );
            Ok(Op::ThreadSettings(settings))
        },
        None => Err(Error { kind: ErrorKind::InvalidParams, data: None }),
    }
}

/// The configuration once it was given a mode: it has the preset's policy and profile, and no
/// named profile. Where the policy is refused nothing changes, and where the profile is refused
/// the policy alone does.
pub open spec fn mode_applied(
    config: ConfigView,
    presets: Seq<ApprovalPresetView>,
    mode_id: Seq<char>,
    answer: ConfigAnswerView,
) -> ConfigView {
    let i = preset_index(presets, mode_id);
    if i < presets.len() {
        match answer {
            ConfigAnswerView::PolicyRefused(_) => config,
            ConfigAnswerView::ProfileRefused(_) => ConfigView {
                approval_policy: presets[i].approval,
                ..config
            },
            ConfigAnswerView::Accepted => ConfigView {
                approval_policy: presets[i].approval,
                permission_profile: presets[i].permission_profile,
                active_permission_profile: None,
                ..config
            },
        }
    } else {
        config
    }
}

pub open spec fn internal_error(message: Seq<char>) -> ErrorView {
    ErrorView { kind: ErrorKindView::InternalError, data: Some(JsonView::Text(message)) }
}

pub fn internal(message: String) -> (error: Error)
    ensures
        error.deep_view() == internal_error(message@),
{
    Error { kind: ErrorKind::InternalError, data: Some(Json::Text(message)) }
}

/// What setting a mode is answered: whether the project is trusted from now on, or why a part of
/// the mode was refused.
pub open spec fn mode_reply(
    presets: Seq<ApprovalPresetView>,
    mode_id: Seq<char>,
    answer: ConfigAnswerView,
) -> Result<bool, ErrorView> {
    if preset_index(presets, mode_id) < presets.len() {
        match answer {
            ConfigAnswerView::Accepted => Ok(trusts_project(mode_id)),
            ConfigAnswerView::PolicyRefused(message) => Err(internal_error(message)),
            ConfigAnswerView::ProfileRefused(message) => Err(internal_error(message)),
        }
    } else {
        Err(bare_invalid_params())
    }
}

/// Takes over what the configuration took of a mode; tells whether the project is to be trusted
/// from now on.
pub fn apply_mode(
    config: &mut Config,
    presets: &Vec<ApprovalPreset>,
    mode_id: &str,
    answer: ConfigAnswer,
) -> (reply: Result<bool, Error>)
    ensures
        final(config).deep_view() == mode_applied(
            old(config).deep_view(),
            presets.deep_view(),
            mode_id@,
            answer.deep_view(),
        ),
        result_view(reply) == mode_reply(presets.deep_view(), mode_id@, answer.deep_view()),
{
    proof {
        lemma_preset_index(presets.deep_view(), mode_id@);
    }
    let preset = match find_preset(presets, mode_id) {
        Some(preset) => preset,
        None => {
            return Err(Error { kind: ErrorKind::InvalidParams, data: None });
        },
    };
    match answer {
        ConfigAnswer::Accepted => {
            config.approval_policy = preset.approval;
            config.permission_profile = preset.permission_profile.duplicate();
            config.active_permission_profile = None;
            Ok(mode_trusts_project(preset.id.as_str()))
        },
        ConfigAnswer::PolicyRefused(message) => Err(internal(message)),
        ConfigAnswer::ProfileRefused(message) => {
            config.approval_policy = preset.approval;
            Err(internal(message))
        },
    }
}

/// The configuration after a switch to a model of `provider`.
pub open spec fn provider_switched(config: ConfigView, provider: Seq<char>) -> Result<
    ConfigView,
    ErrorView,
> {
    match activation(
        provider,
        config.model_provider_id,
        config.model_providers.contains(provider),
        config.model_providers.contains(KODEX_BYOK_PROXY_PROVIDER_ID@),
    ) {
        Ok(ProviderActivationView::KeepCurrent) => Ok(config),
        Ok(ProviderActivationView::Activate(target)) => Ok(
            ConfigView { model_provider_id: target, ..config },
        ),
        Err(error) => Err(error),
    }
}

/// Activates the provider that a model switch asks for. A refusal changes nothing.
pub fn set_active_model_provider(config: &mut Config, provider: &str) -> (result: Result<(), Error>)
    ensures
        match provider_switched(old(config).deep_view(), provider@) {
            Ok(switched) => result is Ok && final(config).deep_view() == switched,
            Err(error) => result_view(result) == Err::<(), ErrorView>(error)
                && final(config).deep_view() == old(config).deep_view(),
        },
{
    let activation = {
        let providers = &config.model_providers;
        let is_configured = |candidate: &str| -> (configured: bool)
            ensures
                configured == providers.deep_view().contains(candidate@),
            { providers.contains(candidate) };
        provider_activation_for_request(
            provider,
            config.model_provider_id.as_str(),
            is_configured,
        )
    };
    match activation {
        Ok(ProviderActivation::KeepCurrent) => Ok(()),
        Ok(ProviderActivation::Activate(target)) => {
            config.model_provider_id = target;
            Ok(())
        },
        Err(error) => Err(error),
    }
}

/// The configuration once the provider that a value names is active, if it names one.
pub open spec fn provider_named(config: ConfigView, value: Seq<char>) -> Result<
    ConfigView,
    ErrorView,
> {
    match decoded_value(value).0 {
        Some(provider) => provider_switched(config, provider),
        None => Ok(config),
    }
}

fn activate_named_provider(config: &mut Config, value: &str) -> (result: Result<String, Error>)
    ensures
        match provider_named(old(config).deep_view(), value@) {
            Ok(switched) => result_view(result) == Ok::<Seq<char>, ErrorView>(
                decoded_value(value@).1,
            ) && final(config).deep_view() == switched,
            Err(error) => result_view(result) == Err::<Seq<char>, ErrorView>(error)
                && final(config).deep_view() == old(config).deep_view(),
        },
{
    let (provider, model) = decode_provider_value(value);
    if let Some(provider) = provider {
        match set_active_model_provider(config, provider.as_str()) {
            Ok(()) => {},
            Err(error) => {
                return Err(error);
            },
        }
    }
    Ok(model)
}

/// The model and the effort that a model identifier asks for: what is no preset form is taken as
/// the model's name, and an empty name as the current model.
pub open spec fn requested_model(
    config: ConfigView,
    model_id: Seq<char>,
    current_model: Seq<char>,
) -> Result<ModelChangeView, ErrorView> {
    let change = match parsed_model_id(model_id) {
        Some((model, effort)) => ModelChangeView { model, effort: Some(effort) },
        None => ModelChangeView {
            model: if model_id.len() > 0 {
                model_id
            } else {
                current_model
            },
            effort: config.model_reasoning_effort,
        },
    };
    if change.model.len() == 0 {
        Err(invalid_params(Some(JsonView::Text("No model parsed or configured"@))))
    } else {
        Ok(change)
    }
}

/// Prepares a switch of the model by its identifier. The provider that the identifier names is
/// active from then on, even where the model is refused.
pub fn handle_set_model(config: &mut Config, model: &str, current_model: &str) -> (change: Result<
    ModelChange,
    Error,
>)
    ensures
        match provider_named(old(config).deep_view(), model@) {
            Ok(switched) => {
                &&& final(config).deep_view() == switched
                &&& result_view(change) == requested_model(
                    switched,
                    decoded_value(model@).1,
                    current_model@,
                )
            },
            Err(error) => {
                &&& final(config).deep_view() == old(config).deep_view()
                &&& result_view(change) == Err::<ModelChangeView, ErrorView>(error)
            },
        },
{
    let model_id = match activate_named_provider(config, model) {
        Ok(model_id) => model_id,
        Err(error) => {
            return Err(error);
        },
    };
    let change = match parse_model_id(model_id.as_str()) {
        Some((model, effort)) => ModelChange { model, effort: Some(effort) },
        None => ModelChange {
            model: if !model_id.as_str().is_empty() {
                model_id
            } else {
                current_model.to_owned()
            },
            effort: config.model_reasoning_effort,
        },
    };
    if change.model.as_str().is_empty() {
        return Err(invalid_params_error("No model parsed or configured"));
    }
    Ok(change)
}

/// The position of the preset with the given identifier, or the number of presets.
pub open spec fn preset_id_index(presets: Seq<ModelPresetView>, id: Seq<char>) -> int
    decreases presets.len(),
{
    if presets.len() == 0 {
        0
    } else if presets[0].id == id {
        0
    } else {
        1 + preset_id_index(presets.drop_first(), id)
    }
}

/// The model and the effort that the choice of a model asks for. The effort stays where the model
/// supports it; a model that is no preset keeps whatever is configured.
pub open spec fn chosen_model(
    config: ConfigView,
    presets: Seq<ModelPresetView>,
    model_id: Seq<char>,
) -> Result<ModelChangeView, ErrorView> {
    let i = preset_id_index(presets, model_id);
    let change = if i < presets.len() {
        ModelChangeView {
            model: presets[i].model,
            effort: Some(effort_for(config.model_reasoning_effort, presets[i])),
        }
    } else {
        ModelChangeView { model: model_id, effort: config.model_reasoning_effort }
    };
    if change.model.len() == 0 {
        Err(invalid_params(Some(JsonView::Text("No model selected"@))))
    } else {
        Ok(change)
    }
}

fn find_preset_by_id(presets: &Vec<ModelPreset>, id: &str) -> (found: usize)
    ensures
        found == preset_id_index(presets.deep_view(), id@),
        found <= presets@.len(),
{
    let ghost all = presets.deep_view();
    assert(all.skip(0) =~= all);
    for i in 0..presets.len()
        invariant
            all == presets.deep_view(),
            preset_id_index(all, id@) == i + preset_id_index(all.skip(i as int), id@),
    {
        assert(all.skip(i as int)[0] == presets@[i as int].deep_view());
        assert(all.skip(i as int).drop_first() =~= all.skip(i + 1));
        if same(presets[i].id.as_str(), id) {
            return i;
        }
    }
    presets.len()
}

/// Prepares a switch of the model by a choice. The provider that the choice names is active from
/// then on, even where the model is refused.
pub fn handle_set_config_model(config: &mut Config, presets: &Vec<ModelPreset>, value: &str) -> (
change: Result<ModelChange, Error>)
    ensures
        match provider_named(old(config).deep_view(), value@) {
            Ok(switched) => {
                &&& final(config).deep_view() == switched
                &&& result_view(change) == chosen_model(
                    switched,
                    presets.deep_view(),
                    decoded_value(value@).1,
                )
            },
            Err(error) => {
                &&& final(config).deep_view() == old(config).deep_view()
                &&& result_view(change) == Err::<ModelChangeView, ErrorView>(error)
            },
        },
{
    let model_id = match activate_named_provider(config, value) {
        Ok(model_id) => model_id,
        Err(error) => {
            return Err(error);
        },
    };
    let i: usize = find_preset_by_id(presets, model_id.as_str());
    let change = if i < presets.len() {
        ModelChange {
            model: presets[i].model.clone(),
            effort: Some(current_effort(config.model_reasoning_effort, &presets[i])),
        }
    } else {
        ModelChange { model: model_id, effort: config.model_reasoning_effort }
    };
    if change.model.as_str().is_empty() {
        return Err(invalid_params_error("No model selected"));
    }
    Ok(change)
}

/// What is submitted for a switch of the model.
pub open spec fn model_settings(change: ModelChangeView) -> OpView {
    OpView::ThreadSettings(
        ThreadSettingsView {
            model: Some(change.model),
            effort: Some(change.effort),
            ..no_settings()
        },
    )
}

pub fn model_change_op(change: &ModelChange) -> (op: Op)
    ensures
        op.deep_view() == model_settings(change.deep_view()),
{
    let mut settings = unchanged_settings();
    settings.model = Some(change.model.clone());
    settings.effort = Some(change.effort);
    Op::ThreadSettings(settings)
}

/// Takes over a switch of the model that was accepted.
pub fn apply_model(config: &mut Config, change: ModelChange)
    ensures
        final(config).deep_view() == (ConfigView {
            model: Some(change.model@),
            model_reasoning_effort: change.effort,
            ..old(config).deep_view()
        }),
{
    config.model = Some(change.model);
    config.model_reasoning_effort = change.effort;
}

/// The effort that a choice asks for, where the current model supports it.
pub open spec fn chosen_effort(
    presets: Seq<ModelPresetView>,
    current_model: Seq<char>,
    value: Seq<char>,
) -> Result<ReasoningEffort, ErrorView> {
    match effort_named(value) {
        None => Err(bare_invalid_params()),
        Some(effort) => {
            let i = model_index(presets, current_model);
            if i >= presets.len() {
                Err(
                    invalid_params(
                        Some(
                            JsonView::Text(
                                "Reasoning effort can only be set for known model presets"@,
                            ),
                        ),
                    ),
                )
            } else if !supports(presets[i].supported_reasoning_efforts, effort) {
                Err(
                    invalid_params(
                        Some(
                            JsonView::Text("Unsupported reasoning effort for selected model"@),
                        ),
                    ),
                )
            } else {
                Ok(effort)
            }
        },
    }
}

pub fn handle_set_config_reasoning_effort(
    presets: &Vec<ModelPreset>,
    current_model: &str,
    value: &str,
) -> (effort: Result<ReasoningEffort, Error>)
    ensures
        result_view(effort) == chosen_effort(presets.deep_view(), current_model@, value@),
{
    let effort = match parse_effort(value) {
        Some(effort) => effort,
        None => {
            return Err(Error { kind: ErrorKind::InvalidParams, data: None });
        },
    };
    let i: usize = find_model(presets, current_model);
    if i >= presets.len() {
        return Err(
            invalid_params_error("Reasoning effort can only be set for known model presets"),
        );
    }
    if !supports_effort(&presets[i].supported_reasoning_efforts, effort) {
        return Err(invalid_params_error("Unsupported reasoning effort for selected model"));
    }
    Ok(effort)
}

/// What is submitted for a switch of the effort.
pub open spec fn effort_settings(effort: ReasoningEffort) -> OpView {
    OpView::ThreadSettings(ThreadSettingsView { effort: Some(Some(effort)), ..no_settings() })
}

pub fn effort_change_op(effort: ReasoningEffort) -> (op: Op)
    ensures
        op.deep_view() == effort_settings(effort),
{
    let mut settings = unchanged_settings();
    settings.effort = Some(Some(effort));
    Op::ThreadSettings(settings)
}

/// Takes over a switch of the effort that was accepted.
pub fn apply_effort(config: &mut Config, effort: ReasoningEffort)
    ensures
        final(config).deep_view() == (ConfigView {
            model_reasoning_effort: Some(effort),
            ..old(config).deep_view()
        }),
{
    config.model_reasoning_effort = Some(effort);
}

/// The configuration and the change that setting an option leads to.
pub open spec fn option_set(
    config: ConfigView,
    presets: Seq<ModelPresetView>,
    current_model: Seq<char>,
    config_id: Seq<char>,
    value: ConfigValueView,
) -> (ConfigView, Result<SettingsChangeView, ErrorView>) {
    match value {
        ConfigValueView::Other => (
            config,
            Err(invalid_params(Some(JsonView::Text("Unsupported config option value"@)))),
        ),
        ConfigValueView::ValueId(value) => if config_id == "mode"@ {
            (config, Ok(SettingsChangeView::Mode(value)))
        } else if config_id == "model"@ {
            match provider_named(config, value) {
                Ok(switched) => (
                    switched,
                    match chosen_model(switched, presets, decoded_value(value).1) {
                        Ok(change) => Ok(SettingsChangeView::Model(change)),
                        Err(error) => Err(error),
                    },
                ),
                Err(error) => (config, Err(error)),
            }
        } else if config_id == "reasoning_effort"@ {
            (
                config,
                match chosen_effort(presets, current_model, value) {
                    Ok(effort) => Ok(SettingsChangeView::Effort(effort)),
                    Err(error) => Err(error),
                },
            )
        } else {
            (config, Err(invalid_params(Some(JsonView::Text("Unsupported config option"@)))))
        },
    }
}

pub fn handle_set_config_option(
    config: &mut Config,
    presets: &Vec<ModelPreset>,
    current_model: &str,
    config_id: &str,
    value: ConfigValue,
) -> (change: Result<SettingsChange, Error>)
    ensures
        (final(config).deep_view(), result_view(change)) == option_set(
            old(config).deep_view(),
            presets.deep_view(),
            current_model@,
            config_id@,
            value.deep_view(),
        ),
{
    let value = match value {
        ConfigValue::ValueId(value) => value,
        ConfigValue::Other => {
            return Err(invalid_params_error("Unsupported config option value"));
        },
    };
    if same(config_id, "mode") {
        Ok(SettingsChange::Mode(value))
    } else if same(config_id, "model") {
        match handle_set_config_model(config, presets, value.as_str()) {
            Ok(change) => Ok(SettingsChange::Model(change)),
            Err(error) => Err(error),
        }
    } else if same(config_id, "reasoning_effort") {
        match handle_set_config_reasoning_effort(presets, current_model, value.as_str()) {
            Ok(effort) => Ok(SettingsChange::Effort(effort)),
            Err(error) => Err(error),
        }
    } else {
        Err(invalid_params_error("Unsupported config option"))
    }
}

/// A mode that was chosen and accepted is the current mode, where its preset is the only one with
/// its policy and its profile.
pub proof fn chosen_mode_is_current(
    config: ConfigView,
    presets: Seq<ApprovalPresetView>,
    mode_id: Seq<char>,
)
    requires
        preset_index(presets, mode_id) < presets.len(),
        forall|i: int, j: int|
            0 <= i < presets.len() && 0 <= j < presets.len() && (#[trigger] presets[i]).approval
                == (#[trigger] presets[j]).approval && presets[i].permission_profile.identity
                == presets[j].permission_profile.identity ==> i == j,
    ensures
        current_mode(
            presets,
            mode_applied(config, presets, mode_id, ConfigAnswerView::Accepted),
        ) == Some(mode_id),
{
    lemma_preset_index(presets, mode_id);
    let current = preset_index(presets, mode_id);
    let after = mode_applied(config, presets, mode_id, ConfigAnswerView::Accepted);
    exact_preset_is_current(presets, after, current);
}

/// A mode that the configuration refuses is answered with an error and grants no trust. The
/// profile stays as it was, and so does the policy unless only the profile was refused.
pub proof fn refused_mode_is_not_set(
    config: ConfigView,
    presets: Seq<ApprovalPresetView>,
    mode_id: Seq<char>,
    answer: ConfigAnswerView,
)
    requires
        answer != ConfigAnswerView::Accepted,
    ensures
        mode_reply(presets, mode_id, answer) is Err,
        mode_applied(config, presets, mode_id, answer) == (ConfigView {
            approval_policy: mode_applied(config, presets, mode_id, answer).approval_policy,
            ..config
        }),
        answer is PolicyRefused ==> mode_applied(config, presets, mode_id, answer) == config,
        answer is ProfileRefused && preset_index(presets, mode_id) < presets.len() ==> mode_applied(
            config,
            presets,
            mode_id,
            answer,
        ).approval_policy == presets[preset_index(presets, mode_id)].approval,
{
}

/// A mode is refused exactly where no preset has its identifier. Read-only mode plans, the other
/// modes do not.
pub proof fn mode_is_refused_without_preset(
    config: ConfigView,
    presets: Seq<ApprovalPresetView>,
    mode_id: Seq<char>,
    current_model: Seq<char>,
)
    ensures
        mode_settings(config, presets, mode_id, current_model) is Err <==> forall|i: int|
            0 <= i < presets.len() ==> (#[trigger] presets[i]).id != mode_id,
        mode_settings(config, presets, mode_id, current_model) matches Ok(
            OpView::ThreadSettings(settings),
        ) ==> (settings.collaboration_mode->Some_0.mode == ModeKind::Plan <==> mode_id
            == "read-only"@),
{
    lemma_preset_index(presets, mode_id);
}

proof fn lemma_preset_id_index(presets: Seq<ModelPresetView>, id: Seq<char>)
    ensures
        0 <= preset_id_index(presets, id) <= presets.len(),
        preset_id_index(presets, id) < presets.len() ==> presets[preset_id_index(presets, id)].id
            == id,
        forall|i: int| 0 <= i < preset_id_index(presets, id) ==> (#[trigger] presets[i]).id != id,
    decreases presets.len(),
{
    if presets.len() > 0 && presets[0].id != id {
        lemma_preset_id_index(presets.drop_first(), id);
        assert forall|i: int| 0 <= i < preset_id_index(presets, id) implies (
        #[trigger] presets[i]).id != id by {
            if i > 0 {
                assert(presets.drop_first()[i - 1] == presets[i]);
            }
        }
    }
}

/// A model that is offered can be chosen: the value that stands for it names its provider, and
/// leads to its preset, with an effort that the preset supports or its default.
pub proof fn offered_model_can_be_chosen(
    config: ConfigView,
    presets: Seq<ModelPresetView>,
    chosen: int,
    provider: Seq<char>,
)
    requires
        0 <= chosen < presets.len(),
        forall|i: int| 0 <= i < chosen ==> (#[trigger] presets[i]).id != presets[chosen].id,
        presets[chosen].model.len() > 0,
        !starts_with(presets[chosen].id, KODEX_PROVIDER_VALUE_PREFIX@),
        trimmed(provider).len() > 0,
        !trimmed(provider).contains(':'),
    ensures
        decoded_value(encoded_value(presets[chosen].id, provider)) == (
            Some(trimmed(provider)),
            presets[chosen].id,
        ),
        chosen_model(
            config,
            presets,
            decoded_value(encoded_value(presets[chosen].id, provider)).1,
        ) == Ok::<ModelChangeView, ErrorView>(
            ModelChangeView {
                model: presets[chosen].model,
                effort: Some(effort_for(config.model_reasoning_effort, presets[chosen])),
            },
        ),
{
    encoded_value_is_read_back(presets[chosen].id, provider);
    lemma_preset_id_index(presets, presets[chosen].id);
    let i = preset_id_index(presets, presets[chosen].id);
    assert(i <= chosen);
}

/// An effort can be chosen exactly where the current model is a preset that supports it.
pub proof fn offered_effort_can_be_chosen(
    presets: Seq<ModelPresetView>,
    current_model: Seq<char>,
    effort: ReasoningEffort,
)
    ensures
        chosen_effort(presets, current_model, effort.text()) == Ok::<ReasoningEffort, ErrorView>(
            effort,
        ) <==> model_index(presets, current_model) < presets.len() && supports(
            presets[model_index(presets, current_model)].supported_reasoning_efforts,
            effort,
        ),
{
    effort_names_are_read_back(effort, effort.text());
}

/// A provider that cannot be had changes nothing; and whatever option is set, nothing but the
/// active provider changes before the thread has accepted it.
pub proof fn options_wait_for_acceptance(
    config: ConfigView,
    presets: Seq<ModelPresetView>,
    current_model: Seq<char>,
    config_id: Seq<char>,
    value: ConfigValueView,
)
    ensures
        option_set(config, presets, current_model, config_id, value).0 == (ConfigView {
            model_provider_id: option_set(
                config,
                presets,
                current_model,
                config_id,
                value,
            ).0.model_provider_id,
            ..config
        }),
        config_id != "model"@ ==> option_set(
            config,
            presets,
            current_model,
            config_id,
            value,
        ).0 == config,
        value matches ConfigValueView::ValueId(value) ==> provider_named(config, value) is Err
            ==> option_set(
            config,
            presets,
            current_model,
            config_id,
            ConfigValueView::ValueId(value),
        ).0 == config,
{
}

} // verus!
