//! Modes, models and efforts: what is offered, and how it is changed.
use codex_acp::actor::{
    message_tells_options, Accepted, MessageOutcome, ModelChoice, Pending, ThreadActor,
    ThreadMessage,
};
use codex_acp::collections::StringSet;
use codex_acp::config_options::{
    builtin_commands, config_options, maybe_emit_config_options_update, modes,
    same_config_options,
};
use codex_acp::json::Json;
use codex_acp::models::{
    assign_providers, decode_provider_value, encode_provider_value, find_current_model,
    model_id_for_provider, models, parse_effort, parse_model_id, EffortPreset, ModelPreset,
};
use codex_acp::protocol::{
    ApprovalPolicy, ConfigCategory, Error, ErrorKind, ModeKind, NetworkSandboxPolicy, Op,
    PermissionProfile, ProfileKind, ReasoningEffort, SessionUpdate, ThreadSettings,
};
use codex_acp::session_config::{
    active_profile_id_for_session_mode, current_session_mode_id, kodex_approval_presets,
    session_mode_id_for_active_profile, ApprovalPreset, Config, KodexModelProviderEntry,
};
use codex_acp::settings::{
    apply_mode, apply_model, handle_set_config_model, handle_set_config_option,
    handle_set_config_reasoning_effort, handle_set_mode, handle_set_model, model_change_op,
    set_active_model_provider, ConfigAnswer, ConfigValue, SettingsChange,
};

fn profile(identity: &str, kind: ProfileKind) -> PermissionProfile {
    PermissionProfile {
        identity: identity.to_string(),
        kind,
        network: NetworkSandboxPolicy::Restricted,
        full_disk_read: true,
        full_disk_write: false,
        writes_working_directory: false,
    }
}

fn workspace() -> PermissionProfile {
    PermissionProfile {
        network: NetworkSandboxPolicy::Enabled,
        writes_working_directory: true,
        ..profile("workspace", ProfileKind::Managed)
    }
}

fn preset(id: &str, approval: ApprovalPolicy, permission_profile: PermissionProfile) -> ApprovalPreset {
    ApprovalPreset {
        id: id.to_string(),
        label: format!("{id} label"),
        description: format!("{id} description"),
        approval,
        permission_profile,
    }
}

fn presets() -> Vec<ApprovalPreset> {
    let builtin = vec![
        preset(
            "read-only",
            ApprovalPolicy::OnRequest,
            profile("read-only", ProfileKind::Managed),
        ),
        preset(
            "auto",
            ApprovalPolicy::OnRequest,
            restricted_workspace(),
        ),
        preset(
            "full-access",
            ApprovalPolicy::Never,
            profile("disabled", ProfileKind::Disabled),
        ),
    ];
    kodex_approval_presets(builtin, &workspace())
}

fn config() -> Config {
    let mut model_providers = StringSet::new();
    model_providers.insert("openai".to_string());
    model_providers.insert("azure".to_string());
    Config {
        model: Some("gpt".to_string()),
        model_provider_id: "openai".to_string(),
        model_providers,
        model_reasoning_effort: None,
        approval_policy: ApprovalPolicy::OnRequest,
        permission_profile: workspace(),
        active_permission_profile: None,
        project_untrusted: false,
        cwd: "/work".to_string(),
        legacy_workspace_network: NetworkSandboxPolicy::Restricted,
    }
}

fn model(id: &str, efforts: &[ReasoningEffort], show_in_picker: bool) -> ModelPreset {
    ModelPreset {
        id: id.to_string(),
        model: id.to_string(),
        display_name: id.to_uppercase(),
        description: format!("{id} model."),
        default_reasoning_effort: ReasoningEffort::Medium,
        supported_reasoning_efforts: efforts
            .iter()
            .map(|effort| EffortPreset {
                effort: *effort,
                description: format!("{} effort.", effort.name()),
            })
            .collect(),
        show_in_picker,
    }
}

fn model_presets() -> Vec<ModelPreset> {
    vec![
        model("gpt", &[ReasoningEffort::Low, ReasoningEffort::XHigh], true),
        model("mini", &[ReasoningEffort::Medium], true),
        model("hidden", &[ReasoningEffort::Medium], false),
    ]
}

fn restricted_workspace() -> PermissionProfile {
    PermissionProfile {
        writes_working_directory: true,
        ..profile("restricted-workspace", ProfileKind::Managed)
    }
}

fn augmented() -> PermissionProfile {
    PermissionProfile {
        identity: "restricted-workspace with memories".to_string(),
        ..restricted_workspace()
    }
}

#[test]
fn modes_match_augmented_workspace_permission_profile() {
    let mut config = config();
    assert_ne!(augmented(), restricted_workspace());
    config.permission_profile = augmented();
    let mode_id = current_session_mode_id(&config, &presets()).expect("mode should be recognized");
    assert_eq!(mode_id, "auto");
}

#[test]
fn modes_match_legacy_augmented_workspace_permission_profile() {
    let mut config = config();
    assert_ne!(augmented(), restricted_workspace());
    config.permission_profile = augmented();
    assert!(config.active_permission_profile.is_none());
    let mode_id = current_session_mode_id(&config, &presets()).expect("mode should be recognized");
    assert_eq!(mode_id, "auto");
}

#[test]
fn modes_match_augmented_workspace_with_network() {
    let mut config = config();
    config.permission_profile = PermissionProfile {
        identity: "workspace with memories".to_string(),
        ..workspace()
    };
    assert_eq!(current_session_mode_id(&config, &presets()).as_deref(), Some("auto"));
}

#[test]
fn workspace_preset_reaches_the_network() {
    let presets = presets();
    assert_eq!(presets[1].permission_profile, workspace());
    assert_ne!(presets[1].description, "auto description");
    assert_eq!(presets[0].description, "read-only description");
}

#[test]
fn modes_and_profiles_match() {
    for mode in ["read-only", "auto", "full-access"] {
        let profile = active_profile_id_for_session_mode(mode).unwrap();
        assert_eq!(session_mode_id_for_active_profile(profile), Some(mode));
    }
    assert_eq!(active_profile_id_for_session_mode("other"), None);
    assert_eq!(session_mode_id_for_active_profile("other"), None);
}

#[test]
fn named_profile_decides_the_mode() {
    let mut config = config();
    config.active_permission_profile = Some(":read-only".to_string());
    assert_eq!(current_session_mode_id(&config, &presets()).as_deref(), Some("read-only"));
    config.approval_policy = ApprovalPolicy::Never;
    assert_eq!(current_session_mode_id(&config, &presets()), None);
    config.project_untrusted = true;
    assert_eq!(current_session_mode_id(&config, &presets()).as_deref(), Some("read-only"));
}

#[test]
fn other_profiles_have_no_mode() {
    let mut config = config();
    config.permission_profile = profile("x", ProfileKind::External);
    assert_eq!(current_session_mode_id(&config, &presets()), None);
    config.permission_profile = profile("x", ProfileKind::Disabled);
    config.approval_policy = ApprovalPolicy::Never;
    assert_eq!(current_session_mode_id(&config, &presets()).as_deref(), Some("full-access"));
    config.permission_profile = PermissionProfile {
        full_disk_write: true,
        ..augmented()
    };
    assert_eq!(current_session_mode_id(&config, &presets()), None);
}

#[test]
fn chosen_mode_is_current() {
    let mut config = config();
    for mode in ["read-only", "full-access", "auto"] {
        match handle_set_mode(&config, &presets(), mode, "gpt") {
            Ok(Op::ThreadSettings(settings)) => {
                let wanted = active_profile_id_for_session_mode(mode).map(str::to_string);
                assert_eq!(settings.active_permission_profile, wanted);
                let collaboration = settings.collaboration_mode.unwrap();
                assert_eq!(collaboration.model, "gpt");
                assert_eq!(collaboration.mode == ModeKind::Plan, mode == "read-only");
            }
            other => panic!("unexpected result: {other:?}"),
        }
        assert_eq!(
            apply_mode(&mut config, &presets(), mode, ConfigAnswer::Accepted),
            Ok(mode != "read-only")
        );
        assert_eq!(current_session_mode_id(&config, &presets()).as_deref(), Some(mode));
    }
}

#[test]
fn mode_without_a_preset_is_refused() {
    let error = handle_set_mode(&config(), &presets(), "other", "gpt").unwrap_err();
    assert_eq!(error.kind, ErrorKind::InvalidParams);
    assert_eq!(error.data, None);
    assert_eq!(
        apply_mode(&mut config(), &presets(), "other", ConfigAnswer::Accepted),
        Err(error)
    );
}

#[test]
fn provider_values_are_read_back() {
    let encoded = encode_provider_value("gpt/low", " azure ");
    assert_eq!(encoded, "kodex-provider:azure:gpt/low");
    assert_eq!(
        decode_provider_value(&encoded),
        (Some("azure".to_string()), "gpt/low".to_string())
    );
    assert_eq!(encode_provider_value(&encoded, "openai"), encoded);
    assert_eq!(encode_provider_value("gpt", "  "), "gpt");
    assert_eq!(decode_provider_value("gpt"), (None, "gpt".to_string()));
    assert_eq!(decode_provider_value("kodex-provider: :m"), (None, "m".to_string()));
    assert_eq!(
        decode_provider_value("kodex-provider:x"),
        (None, "kodex-provider:x".to_string())
    );
    assert_eq!(
        decode_provider_value("kodex-provider:a:b:c"),
        (Some("a".to_string()), "b:c".to_string())
    );
}

#[test]
fn model_ids_are_read_back() {
    let id = model_id_for_provider("gpt", ReasoningEffort::XHigh, "");
    assert_eq!(id, "gpt/xhigh");
    assert_eq!(parse_model_id(&id), Some(("gpt".to_string(), ReasoningEffort::XHigh)));
    assert_eq!(parse_model_id("gpt"), None);
    assert_eq!(parse_model_id("gpt/other"), None);
    assert_eq!(parse_model_id("org/gpt/low"), None);
}

#[test]
fn effort_names_are_read_back() {
    for effort in [
        ReasoningEffort::Off,
        ReasoningEffort::Minimal,
        ReasoningEffort::Low,
        ReasoningEffort::Medium,
        ReasoningEffort::High,
        ReasoningEffort::XHigh,
    ] {
        assert_eq!(parse_effort(effort.name()), Some(effort));
    }
    assert_eq!(parse_effort("Low"), None);
}

fn entry(model: &str, display_name: &str, provider: &str) -> KodexModelProviderEntry {
    KodexModelProviderEntry {
        model: model.to_string(),
        display_name: display_name.to_string(),
        provider: provider.to_string(),
    }
}

#[test]
fn entries_serve_once() {
    let presets = vec![
        model("gpt", &[], true),
        model("gpt", &[], true),
        model("mini", &[], true),
        model("gpt", &[], true),
    ];
    let entries = vec![
        entry("gpt", "", "a"),
        entry("", "MINI", "b"),
        entry("gpt", "", "c"),
    ];
    assert_eq!(assign_providers(&presets, &entries, "openai"), vec!["a", "c", "b", "openai"]);
}

#[test]
fn current_model_prefers_the_active_provider() {
    let presets = vec![model("gpt", &[], true), model("gpt", &[], true)];
    let entries = vec![entry("gpt", "", "azure"), entry("gpt", "", "openai")];
    let id = find_current_model(&config(), &presets, &entries, "gpt");
    assert_eq!(id.as_deref(), Some("kodex-provider:openai:gpt/medium"));
    assert_eq!(find_current_model(&config(), &presets, &entries, "other"), None);
}

#[test]
fn models_are_listed_with_their_efforts() {
    let state = models(&config(), model_presets(), &vec![], "gpt");
    assert_eq!(state.current_model_id, "kodex-provider:openai:gpt/medium");
    let listed = state
        .available_models
        .iter()
        .map(|model| (model.id.as_str(), model.name.as_str()))
        .collect::<Vec<_>>();
    assert_eq!(
        listed,
        vec![
            ("kodex-provider:openai:gpt/low", "GPT (low)"),
            ("kodex-provider:openai:gpt/xhigh", "GPT (xhigh)"),
            ("kodex-provider:openai:mini/medium", "MINI (medium)"),
        ]
    );
    assert_eq!(
        state.available_models[0].description.as_deref(),
        Some("gpt model. low effort.")
    );
}

#[test]
fn current_model_is_always_listed() {
    let state = models(&config(), model_presets(), &vec![], "hidden");
    assert_eq!(state.available_models.len(), 4);
    let state = models(&config(), model_presets(), &vec![], "custom");
    assert_eq!(state.current_model_id, "kodex-provider:openai:custom");
    assert_eq!(state.available_models[0].name, "custom");
    assert_eq!(state.available_models[0].description, None);
}

#[test]
fn options_offer_mode_model_and_effort() {
    let options = config_options(&config(), &presets(), model_presets(), &vec![], "gpt");
    assert_eq!(options.len(), 3);
    assert_eq!(options[0].id, "mode");
    assert_eq!(options[0].category, ConfigCategory::Mode);
    assert_eq!(options[0].current_value, "auto");
    assert_eq!(options[0].options.len(), 3);
    assert_eq!(options[1].id, "model");
    assert_eq!(options[1].current_value, "kodex-provider:openai:gpt");
    assert_eq!(options[1].options.len(), 2);
    assert_eq!(options[1].options[1].provider.as_deref(), Some("openai"));
    assert_eq!(options[2].id, "reasoning_effort");
    assert_eq!(options[2].current_value, "medium");
    let efforts = options[2]
        .options
        .iter()
        .map(|option| (option.value.as_str(), option.name.as_str()))
        .collect::<Vec<_>>();
    assert_eq!(efforts, vec![("low", "Low"), ("xhigh", "Xhigh")]);
}

#[test]
fn single_effort_leaves_no_choice() {
    let options = config_options(&config(), &vec![], model_presets(), &vec![], "mini");
    assert_eq!(options.len(), 1);
    assert_eq!(options[0].id, "model");
    let options = config_options(&config(), &vec![], model_presets(), &vec![], "custom");
    assert_eq!(options[0].options[0].name, "custom");
    assert_eq!(options[0].options.len(), 3);
}

#[test]
fn options_are_told_once() {
    let options = || config_options(&config(), &presets(), model_presets(), &vec![], "gpt");
    let other = || config_options(&config(), &presets(), model_presets(), &vec![], "mini");
    assert!(same_config_options(&options(), &options()));
    assert!(!same_config_options(&options(), &other()));
    let mut sent = None;
    let message = maybe_emit_config_options_update(&mut sent, options()).unwrap();
    assert_eq!(message.update, SessionUpdate::ConfigOptions(options()));
    assert_eq!(maybe_emit_config_options_update(&mut sent, options()), None);
    assert!(maybe_emit_config_options_update(&mut sent, other()).is_some());
}

#[test]
fn session_modes_are_offered_where_one_is_current() {
    let state = modes(&config(), &presets()).unwrap();
    assert_eq!(state.current_mode_id, "auto");
    assert_eq!(state.available_modes[2].name, "full-access label");
    let mut config = config();
    config.permission_profile = profile("x", ProfileKind::External);
    assert_eq!(modes(&config, &presets()), None);
}

#[test]
fn commands_are_built_in() {
    let names = builtin_commands()
        .into_iter()
        .map(|command| command.name)
        .collect::<Vec<_>>();
    assert_eq!(
        names,
        vec!["review", "review-branch", "review-commit", "init", "compact", "logout"]
    );
}

#[test]
fn model_is_set_by_its_identifier() {
    let mut config = config();
    let change = handle_set_model(&mut config, "kodex-provider:azure:mini/low", "gpt").unwrap();
    assert_eq!(config.model_provider_id, "azure");
    assert_eq!(change.model, "mini");
    assert_eq!(change.effort, Some(ReasoningEffort::Low));
    match model_change_op(&change) {
        Op::ThreadSettings(ThreadSettings { model, effort, approval_policy, .. }) => {
            assert_eq!(model.as_deref(), Some("mini"));
            assert_eq!(effort, Some(Some(ReasoningEffort::Low)));
            assert_eq!(approval_policy, None);
        }
        other => panic!("unexpected op: {other:?}"),
    }
    apply_model(&mut config, change);
    assert_eq!(config.model.as_deref(), Some("mini"));
    assert_eq!(config.model_reasoning_effort, Some(ReasoningEffort::Low));

    let change = handle_set_model(&mut config, "plain", "gpt").unwrap();
    assert_eq!(change.model, "plain");
    assert_eq!(change.effort, Some(ReasoningEffort::Low));
    let change = handle_set_model(&mut config, "", "gpt").unwrap();
    assert_eq!(change.model, "gpt");
    let error = handle_set_model(&mut config, "", "").unwrap_err();
    assert_eq!(error.data, Some(Json::Text("No model parsed or configured".to_string())));
}

#[test]
fn unsupported_provider_is_refused() {
    let mut config = config();
    let error = handle_set_model(&mut config, "kodex-provider:custom:m", "gpt").unwrap_err();
    assert_eq!(error.kind, ErrorKind::InvalidParams);
    assert_eq!(
        error.data,
        Some(Json::Text("Unsupported provider for selected model: custom".to_string()))
    );
    assert_eq!(config.model_provider_id, "openai");
    assert!(set_active_model_provider(&mut config, "azure").is_ok());
    assert_eq!(config.model_provider_id, "azure");
}

#[test]
fn chosen_model_keeps_an_effort_that_it_supports() {
    let mut config = config();
    config.model_reasoning_effort = Some(ReasoningEffort::XHigh);
    let change = handle_set_config_model(&mut config, &model_presets(), "gpt").unwrap();
    assert_eq!(change.effort, Some(ReasoningEffort::XHigh));
    let change = handle_set_config_model(&mut config, &model_presets(), "mini").unwrap();
    assert_eq!(change.effort, Some(ReasoningEffort::Medium));
    let change = handle_set_config_model(&mut config, &model_presets(), "custom").unwrap();
    assert_eq!(change.effort, Some(ReasoningEffort::XHigh));
    let error = handle_set_config_model(&mut config, &model_presets(), "").unwrap_err();
    assert_eq!(error.data, Some(Json::Text("No model selected".to_string())));
}

#[test]
fn effort_is_set_where_the_model_supports_it() {
    let set = |model, value| handle_set_config_reasoning_effort(&model_presets(), model, value);
    assert_eq!(set("gpt", "low"), Ok(ReasoningEffort::Low));
    assert_eq!(set("gpt", "unknown").unwrap_err().data, None);
    assert_eq!(
        set("custom", "low").unwrap_err().data,
        Some(Json::Text(
            "Reasoning effort can only be set for known model presets".to_string()
        ))
    );
    assert_eq!(
        set("mini", "low").unwrap_err().data,
        Some(Json::Text("Unsupported reasoning effort for selected model".to_string()))
    );
}

#[test]
fn option_is_set_by_its_identifier() {
    let mut config = config();
    let mut set = |id: &str, value| {
        handle_set_config_option(&mut config, &model_presets(), "gpt", id, value)
    };
    let value = |text: &str| ConfigValue::ValueId(text.to_string());
    assert!(matches!(
        set("mode", value("auto")),
        Ok(SettingsChange::Mode(mode)) if mode == "auto"
    ));
    assert!(matches!(
        set("model", value("mini")),
        Ok(SettingsChange::Model(change)) if change.model == "mini"
    ));
    assert!(matches!(
        set("reasoning_effort", value("xhigh")),
        Ok(SettingsChange::Effort(ReasoningEffort::XHigh))
    ));
    assert_eq!(
        set("other", value("x")).unwrap_err().data,
        Some(Json::Text("Unsupported config option".to_string()))
    );
    assert_eq!(
        set("mode", ConfigValue::Other).unwrap_err().data,
        Some(Json::Text("Unsupported config option value".to_string()))
    );
}

fn choice() -> ModelChoice {
    ModelChoice {
        current_model: "gpt".to_string(),
        presets: model_presets(),
    }
}

fn actor() -> ThreadActor {
    ThreadActor::new(config(), presets(), vec![])
}

#[test]
fn loaded_session_tells_what_it_offers() {
    let mut actor = actor();
    match actor.handle_message(ThreadMessage::Load, choice(), "") {
        MessageOutcome::Loaded(response) => {
            assert_eq!(response.models.current_model_id, "kodex-provider:openai:gpt/medium");
            assert_eq!(response.modes.unwrap().current_mode_id, "auto");
            assert_eq!(response.config_options.len(), 3);
        }
        other => panic!("unexpected outcome: {other:?}"),
    }
    match actor.handle_message(ThreadMessage::GetConfigOptions, choice(), "") {
        MessageOutcome::Options(options) => assert_eq!(options.len(), 3),
        other => panic!("unexpected outcome: {other:?}"),
    }
}

#[test]
fn accepted_mode_is_taken_over() {
    let mut actor = actor();
    let message = ThreadMessage::SetMode {
        mode: "full-access".to_string(),
    };
    assert!(message_tells_options(&message));
    let pending = match actor.handle_message(message, choice(), "") {
        MessageOutcome::Submit { notice: None, op: Op::ThreadSettings(_), then_apply } => then_apply,
        other => panic!("unexpected outcome: {other:?}"),
    };
    assert!(matches!(&pending, Pending::Mode(mode) if mode == "full-access"));
    assert_eq!(
        actor.handle_submitted(pending, Ok("0".to_string())),
        Ok(Accepted::Configure {
            mode: "full-access".to_string(),
            approval: ApprovalPolicy::Never,
            permission_profile: profile("disabled", ProfileKind::Disabled),
        })
    );
    assert_eq!(
        current_session_mode_id(&actor.config, &actor.presets).as_deref(),
        Some("auto")
    );
    assert_eq!(actor.handle_configured("full-access", ConfigAnswer::Accepted), Ok(true));
    assert_eq!(
        current_session_mode_id(&actor.config, &actor.presets).as_deref(),
        Some("full-access")
    );
    assert!(actor.emit_config_options(choice()).is_some());
    assert!(actor.emit_config_options(choice()).is_none());
}

#[test]
fn mode_that_the_configuration_refuses_is_not_set() {
    let refused = |message: &str| Error {
        kind: ErrorKind::InternalError,
        data: Some(Json::Text(message.to_string())),
    };
    let mut actor = actor();
    assert_eq!(
        actor.handle_configured(
            "full-access",
            ConfigAnswer::PolicyRefused("policy is fixed".to_string())
        ),
        Err(refused("policy is fixed"))
    );
    assert_eq!(actor.config.approval_policy, ApprovalPolicy::OnRequest);
    assert_eq!(actor.config.permission_profile, workspace());
    assert_eq!(
        actor.handle_configured(
            "full-access",
            ConfigAnswer::ProfileRefused("profile is fixed".to_string())
        ),
        Err(refused("profile is fixed"))
    );
    assert_eq!(actor.config.approval_policy, ApprovalPolicy::Never);
    assert_eq!(actor.config.permission_profile, workspace());
}

#[test]
fn refused_mode_changes_nothing() {
    let mut actor = actor();
    let message = ThreadMessage::SetMode { mode: "read-only".to_string() };
    let pending = match actor.handle_message(message, choice(), "") {
        MessageOutcome::Submit { then_apply, .. } => then_apply,
        other => panic!("unexpected outcome: {other:?}"),
    };
    let error = actor.handle_submitted(pending, Err("busy".to_string())).unwrap_err();
    assert_eq!(error.data, Some(Json::Text("busy".to_string())));
    assert_eq!(
        current_session_mode_id(&actor.config, &actor.presets).as_deref(),
        Some("auto")
    );
    let message = ThreadMessage::SetMode { mode: "other".to_string() };
    assert!(matches!(
        actor.handle_message(message, choice(), ""),
        MessageOutcome::Refused(error) if error.kind == ErrorKind::InvalidParams
    ));
}

#[test]
fn accepted_options_are_taken_over() {
    let mut actor = actor();
    for (id, value) in [("reasoning_effort", "low"), ("model", "mini"), ("mode", "read-only")] {
        let message = ThreadMessage::SetConfigOption {
            config_id: id.to_string(),
            value: ConfigValue::ValueId(value.to_string()),
        };
        let pending = match actor.handle_message(message, choice(), "") {
            MessageOutcome::Submit { then_apply, .. } => then_apply,
            other => panic!("unexpected outcome: {other:?}"),
        };
        match actor.handle_submitted(pending, Ok("0".to_string())) {
            Ok(Accepted::Configure { mode, .. }) => {
                assert_eq!(actor.handle_configured(&mode, ConfigAnswer::Accepted), Ok(false));
            }
            other => assert_eq!(other, Ok(Accepted::Done)),
        }
    }
    assert_eq!(actor.config.model.as_deref(), Some("mini"));
    assert_eq!(actor.config.model_reasoning_effort, Some(ReasoningEffort::Medium));
    assert_eq!(
        current_session_mode_id(&actor.config, &actor.presets).as_deref(),
        Some("read-only")
    );
    let message = ThreadMessage::SetModel { model: "gpt/xhigh".to_string() };
    let pending = match actor.handle_message(message, choice(), "") {
        MessageOutcome::Submit { then_apply, .. } => then_apply,
        other => panic!("unexpected outcome: {other:?}"),
    };
    assert!(actor.handle_submitted(pending, Ok("1".to_string())).is_ok());
    assert_eq!(actor.config.model.as_deref(), Some("gpt"));
    assert_eq!(actor.config.model_reasoning_effort, Some(ReasoningEffort::XHigh));
}

#[test]
fn only_settings_messages_tell_options() {
    assert!(message_tells_options(&ThreadMessage::SetModel { model: String::new() }));
    assert!(!message_tells_options(&ThreadMessage::Load));
    assert!(!message_tells_options(&ThreadMessage::Cancel));
}
