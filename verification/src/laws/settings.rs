//! What a choice of the mode, the model or the effort leads to.
use crate::actor::{
    AcceptedView, MessageOutcomeView, ModelChoiceView, PendingView, ThreadActorView,
    ThreadMessageView, left_to_do, message_handled, mode_configured, submission_answered,
};
use crate::config_options::{
    mode_option, model_option, options_update, session_modes, session_options,
};
use crate::json::JsonView;
use crate::models::{
    ModelPresetView, ProviderActivationView, activation, all_model_infos, assigned_providers,
    current_index, decoded_value, effort_for, effort_named, effort_names_are_read_back,
    encoded_value, encoded_value_is_read_back, entries_serve_once, entry_index, entry_serves,
    lemma_entry_index, lemma_model_index, lemma_served_index, model_index, model_info,
    plain_value_is_read_as_it_is, providers_of, session_models, shown_models, supports,
};
use crate::protocol::{
    ConfigCategory, ConfigOptionView, ErrorKindView, ErrorView, ModeKind, OpView,
    PermissionProfileView, ProfileKind, ReasoningEffort, SessionUpdateView,
};
use crate::session_config::{
    ApprovalPresetView, ConfigView, KodexModelProviderEntryView, current_mode, exact_mode,
    lemma_preset_index, offered_presets, preset_index, preset_matches,
};
use crate::settings::{
    ConfigAnswerView, ConfigValueView, SettingsChangeView, chosen_effort, chosen_model,
    mode_applied, mode_reply, mode_settings, option_set, preset_id_index, requested_model,
};
use crate::text::{before_char, lemma_before_char, starts_with, trimmed};
use vstd::prelude::*;

verus! {

/// The preset at position `i` is the one that a mode identifier stands for.
pub open spec fn stands_for(
    presets: Seq<ApprovalPresetView>,
    i: int,
    mode_id: Seq<char>,
) -> bool {
    &&& 0 <= i < presets.len()
    &&& presets[i].id == mode_id
    &&& forall|j: int| 0 <= j < i ==> (#[trigger] presets[j]).id != mode_id
}

proof fn lemma_stands_for(presets: Seq<ApprovalPresetView>, i: int, mode_id: Seq<char>)
    requires
        stands_for(presets, i, mode_id),
    ensures
        preset_index(presets, mode_id) == i,
{
    lemma_preset_index(presets, mode_id);
    let found = preset_index(presets, mode_id);
    if found < i {
        assert(presets[found].id != mode_id);
    }
    if i < found {
        assert(presets[i].id != mode_id);
    }
}

/// What is submitted for a mode are the approval policy and the permission profile of its preset,
/// whatever the configuration held before; they are what the configuration has once the mode is
/// accepted. The model and the effort stay as they are.
pub proof fn mode_submits_its_preset(
    config: ConfigView,
    other: ConfigView,
    presets: Seq<ApprovalPresetView>,
    i: int,
    mode_id: Seq<char>,
    current_model: Seq<char>,
)
    requires
        stands_for(presets, i, mode_id),
    ensures
        mode_settings(config, presets, mode_id, current_model) matches Ok(
            OpView::ThreadSettings(settings),
        ) && ({
            let applied = mode_applied(config, presets, mode_id, ConfigAnswerView::Accepted);
            let elsewhere = mode_settings(other, presets, mode_id, current_model);
            let collaboration = settings.collaboration_mode->Some_0;
            &&& settings.approval_policy == Some(presets[i].approval)
            &&& settings.permission_profile == Some(presets[i].permission_profile)
            &&& settings.approval_policy == Some(applied.approval_policy)
            &&& settings.permission_profile == Some(applied.permission_profile)
            &&& elsewhere matches Ok(OpView::ThreadSettings(same)) && same.approval_policy
                == settings.approval_policy && same.permission_profile
                == settings.permission_profile && same.active_permission_profile
                == settings.active_permission_profile
            &&& settings.active_permission_profile == if mode_id == "read-only"@ {
                Some(":read-only"@)
            } else if mode_id == "auto"@ {
                Some(":workspace"@)
            } else if mode_id == "full-access"@ {
                Some(":danger-no-sandbox"@)
            } else {
                None
            }
            &&& settings.collaboration_mode is Some
            &&& collaboration.mode == (if mode_id == "read-only"@ {
                ModeKind::Plan
            } else {
                ModeKind::Default
            })
            &&& collaboration.model == current_model
            &&& collaboration.reasoning_effort == config.model_reasoning_effort
            &&& settings.model is None
            &&& settings.effort is None
            &&& applied == (ConfigView {
                approval_policy: presets[i].approval,
                permission_profile: presets[i].permission_profile,
                active_permission_profile: None,
                ..config
            })
        }),
{
    lemma_stands_for(presets, i, mode_id);
}

/// From the message that chooses a mode to its effect: what is submitted, what is then to be
/// configured and what the session has in the end are the policy and the profile of one preset;
/// the session has them only once both are accepted.
pub proof fn mode_is_set_as_submitted(
    before: ThreadActorView,
    after: ThreadActorView,
    i: int,
    mode: Seq<char>,
    choice: ModelChoiceView,
    init_prompt: Seq<char>,
    outcome: MessageOutcomeView,
    id: Seq<char>,
)
    requires
        stands_for(before.presets, i, mode),
        message_handled(
            before,
            after,
            ThreadMessageView::SetMode { mode },
            choice,
            init_prompt,
            outcome,
        ),
    ensures
        after == before,
        outcome matches MessageOutcomeView::Submit { notice, op, then_apply } && ({
            let accepted = submission_answered(after, then_apply, Ok(id));
            let configured = mode_configured(accepted, mode, ConfigAnswerView::Accepted);
            let settings = op->ThreadSettings_0;
            &&& notice is None
            &&& op is ThreadSettings
            &&& then_apply == PendingView::Mode(mode)
            &&& settings.approval_policy == Some(before.presets[i].approval)
            &&& settings.permission_profile == Some(before.presets[i].permission_profile)
            &&& accepted == before
            &&& left_to_do(accepted, then_apply) == Ok::<AcceptedView, ErrorView>(
                AcceptedView::Configure {
                    mode,
                    approval: before.presets[i].approval,
                    permission_profile: before.presets[i].permission_profile,
                },
            )
            &&& configured.config.approval_policy == before.presets[i].approval
            &&& configured.config.permission_profile == before.presets[i].permission_profile
            &&& configured.config.model == before.config.model
            &&& configured.config.model_reasoning_effort == before.config.model_reasoning_effort
            &&& configured.submissions == before.submissions
        }),
        mode_reply(before.presets, mode, ConfigAnswerView::Accepted) == Ok::<bool, ErrorView>(
            mode == "auto"@ || mode == "full-access"@,
        ),
{
    lemma_stands_for(before.presets, i, mode);
}

/// A mode that no preset has is refused as an invalid parameter, before anything is submitted.
pub proof fn unknown_mode_is_refused(
    before: ThreadActorView,
    after: ThreadActorView,
    mode: Seq<char>,
    choice: ModelChoiceView,
    init_prompt: Seq<char>,
    outcome: MessageOutcomeView,
    answer: ConfigAnswerView,
)
    requires
        forall|i: int| 0 <= i < before.presets.len() ==> (#[trigger] before.presets[i]).id != mode,
        message_handled(
            before,
            after,
            ThreadMessageView::SetMode { mode },
            choice,
            init_prompt,
            outcome,
        ),
    ensures
        after == before,
        outcome matches MessageOutcomeView::Refused(error) && error.kind
            == ErrorKindView::InvalidParams && error.data is None,
        mode_reply(before.presets, mode, answer) matches Err(error) && error.kind
            == ErrorKindView::InvalidParams,
        mode_configured(before, mode, answer) == before,
{
    lemma_preset_index(before.presets, mode);
}

/// A mode whose policy or profile the configuration refuses is answered with an internal error
/// that says why.
pub proof fn refusal_says_why(
    presets: Seq<ApprovalPresetView>,
    i: int,
    mode_id: Seq<char>,
    message: Seq<char>,
)
    requires
        stands_for(presets, i, mode_id),
    ensures
        mode_reply(presets, mode_id, ConfigAnswerView::PolicyRefused(message)) matches Err(error)
            && error.kind == ErrorKindView::InternalError && error.data == Some(
            JsonView::Text(message),
        ),
        mode_reply(presets, mode_id, ConfigAnswerView::ProfileRefused(message)) matches Err(error)
            && error.kind == ErrorKindView::InternalError && error.data == Some(
            JsonView::Text(message),
        ),
{
    lemma_stands_for(presets, i, mode_id);
}

/// The presets are offered as they are built in; only the workspace preset has its profile and
/// its description from elsewhere.
pub proof fn presets_are_offered_as_they_are(
    presets: Seq<ApprovalPresetView>,
    workspace: PermissionProfileView,
)
    ensures
        offered_presets(presets, workspace).len() == presets.len(),
        forall|i: int|
            0 <= i < presets.len() ==> {
                let offered = #[trigger] offered_presets(presets, workspace)[i];
                &&& offered.id == presets[i].id
                &&& offered.label == presets[i].label
                &&& offered.approval == presets[i].approval
                &&& presets[i].id != "auto"@ ==> offered == presets[i]
                &&& presets[i].id == "auto"@ ==> offered.permission_profile == workspace
                &&& presets[i].id == "auto"@ ==> offered.description
                    == "Kodex can read and edit files in the current workspace, access the internet, and run commands. Approval is required to edit files outside the workspace."@
            },
{
}

/// An active profile decides the mode by its name, where a preset of that mode asks as the
/// configuration does; what is left of an untrusted project is read-only.
pub proof fn active_profile_decides_the_mode(
    presets: Seq<ApprovalPresetView>,
    config: ConfigView,
    profile: Seq<char>,
    i: int,
    mode_id: Seq<char>,
)
    requires
        config.active_permission_profile == Some(profile),
        0 <= i < presets.len(),
        presets[i].id == mode_id,
        presets[i].approval == config.approval_policy,
    ensures
        profile == ":read-only"@ && mode_id == "read-only"@ ==> current_mode(presets, config)
            == Some(mode_id),
        profile == ":workspace"@ && mode_id == "auto"@ ==> current_mode(presets, config) == Some(
            mode_id,
        ),
        profile == ":danger-no-sandbox"@ && mode_id == "full-access"@ ==> current_mode(
            presets,
            config,
        ) == Some(mode_id),
        profile != ":read-only"@ && profile != ":workspace"@ && profile != ":danger-no-sandbox"@
            ==> current_mode(presets, config) == if config.project_untrusted {
            Some("read-only"@)
        } else {
            None
        },
{
    reveal_strlit(":read-only");
    reveal_strlit(":workspace");
    reveal_strlit(":danger-no-sandbox");
    assert(":read-only"@[1] == 'r' && ":workspace"@[1] == 'w' && ":danger-no-sandbox"@[1] == 'd');
    assert(preset_matches(presets, mode_id, config.approval_policy));
}

/// Without an active profile, and where no preset is exactly what the configuration holds, the
/// permission profile decides: one that is switched off is full access; a managed one that reads
/// everything and writes no more than the working directory is the workspace mode, where its
/// network is that of the workspace preset, now or before.
pub proof fn profile_decides_the_mode(
    presets: Seq<ApprovalPresetView>,
    config: ConfigView,
    i: int,
    mode_id: Seq<char>,
)
    requires
        config.active_permission_profile is None,
        forall|k: int|
            0 <= k < presets.len() ==> (#[trigger] presets[k]).approval != config.approval_policy
                || presets[k].permission_profile.identity != config.permission_profile.identity,
        stands_for(presets, i, mode_id),
        presets[i].approval == config.approval_policy,
    ensures
        ({
            let profile = config.permission_profile;
            let workspace = presets[i].permission_profile.network;
            let mode = current_mode(presets, config);
            &&& profile.kind == ProfileKind::Disabled && mode_id == "full-access"@ ==> mode
                == Some(mode_id)
            &&& profile.kind == ProfileKind::Managed && mode_id == "auto"@ && profile.full_disk_read
                && !profile.full_disk_write && profile.writes_working_directory && (
            profile.network == workspace || profile.network == config.legacy_workspace_network)
                ==> mode == Some(mode_id)
            &&& profile.kind == ProfileKind::Managed && (!profile.full_disk_read
                || profile.full_disk_write || !profile.writes_working_directory) ==> mode
                == if config.project_untrusted {
                Some("read-only"@)
            } else {
                None
            }
            &&& profile.kind == ProfileKind::Managed && mode_id == "auto"@ && profile.network
                != workspace && profile.network != config.legacy_workspace_network ==> mode
                == if config.project_untrusted {
                Some("read-only"@)
            } else {
                None
            }
            &&& profile.kind == ProfileKind::External ==> mode == if config.project_untrusted {
                Some("read-only"@)
            } else {
                None
            }
        }),
{
    lemma_stands_for(presets, i, mode_id);
    lemma_no_exact_mode(presets, config);
    reveal_strlit("auto");
    reveal_strlit("full-access");
    assert("auto"@.len() == 4 && "full-access"@.len() == 11);
    assert(preset_matches(presets, mode_id, config.approval_policy));
}

proof fn lemma_no_exact_mode(presets: Seq<ApprovalPresetView>, config: ConfigView)
    requires
        forall|k: int|
            0 <= k < presets.len() ==> (#[trigger] presets[k]).approval != config.approval_policy
                || presets[k].permission_profile.identity != config.permission_profile.identity,
    ensures
        exact_mode(presets, config) is None,
    decreases presets.len(),
{
    if presets.len() > 0 {
        let rest = presets.drop_first();
        assert forall|k: int| 0 <= k < rest.len() implies (#[trigger] rest[k]).approval
            != config.approval_policy || rest[k].permission_profile.identity
            != config.permission_profile.identity by {
            assert(rest[k] == presets[k + 1]);
        }
        lemma_no_exact_mode(rest, config);
        assert(presets[0].approval != config.approval_policy
            || presets[0].permission_profile.identity != config.permission_profile.identity);
    }
}

/// The modes of a session are its presets, one for one, by their identifiers, labels and
/// descriptions; so are the choices of the mode.
pub proof fn modes_are_the_presets(config: ConfigView, presets: Seq<ApprovalPresetView>)
    ensures
        session_modes(config, presets) is Some <==> current_mode(presets, config) is Some,
        session_modes(config, presets) matches Some(state) ==> ({
            let option = mode_option(state);
            &&& current_mode(presets, config) == Some(state.current_mode_id)
            &&& state.available_modes.len() == presets.len()
            &&& option.options.len() == presets.len()
            &&& option.current_value == state.current_mode_id
            &&& option.id == "mode"@
            &&& option.category == ConfigCategory::Mode
            &&& option.name == "Approval Preset"@
            &&& option.description == "Choose an approval and sandboxing preset for your session"@
            &&& forall|i: int|
                0 <= i < presets.len() ==> {
                    &&& (#[trigger] presets[i]).id == state.available_modes[i].id
                    &&& presets[i].label == state.available_modes[i].name
                    &&& presets[i].description == state.available_modes[i].description
                    &&& presets[i].id == option.options[i].value
                    &&& presets[i].label == option.options[i].name
                    &&& Some(presets[i].description) == option.options[i].description
                    &&& option.options[i].provider is None
                }
        }),
{
}

/// What is submitted for a model and an effort is what the configuration has once the thread has
/// accepted them, and a refusal leaves the configuration as it was.
pub proof fn model_is_set_as_submitted(
    before: ThreadActorView,
    after: ThreadActorView,
    model: Seq<char>,
    choice: ModelChoiceView,
    init_prompt: Seq<char>,
    outcome: MessageOutcomeView,
    id: Seq<char>,
    refusal: Seq<char>,
)
    requires
        message_handled(
            before,
            after,
            ThreadMessageView::SetModel { model },
            choice,
            init_prompt,
            outcome,
        ),
    ensures
        outcome is Submit || outcome is Refused,
        outcome matches MessageOutcomeView::Submit { notice, op, then_apply } ==> ({
            let settings = op->ThreadSettings_0;
            let accepted = submission_answered(after, then_apply, Ok(id));
            &&& notice is None
            &&& op is ThreadSettings
            &&& settings.model is Some && settings.model == accepted.config.model
            &&& settings.effort == Some(accepted.config.model_reasoning_effort)
            &&& settings.approval_policy is None
            &&& settings.permission_profile is None
            &&& settings.active_permission_profile is None
            &&& settings.collaboration_mode is None
            &&& accepted.config.approval_policy == before.config.approval_policy
            &&& accepted.config.permission_profile == before.config.permission_profile
            &&& accepted.config.model_provider_id == after.config.model_provider_id
            &&& accepted.submissions == before.submissions
            &&& submission_answered(after, then_apply, Err(refusal)) == after
            &&& left_to_do(accepted, then_apply) == Ok::<AcceptedView, ErrorView>(
                AcceptedView::Done,
            )
        }),
{
}

/// A model identifier that names a model and one of the efforts asks for both; any other is taken
/// for the name of a model, and an empty one for the current model, with the effort as it is.
pub proof fn model_identifier_is_understood(
    config: ConfigView,
    model: Seq<char>,
    effort: ReasoningEffort,
    plain: Seq<char>,
    current_model: Seq<char>,
)
    requires
        !model.contains('/'),
        !plain.contains('/'),
    ensures
        ({
            let both = requested_model(config, model + "/"@ + effort.text(), current_model);
            let name = requested_model(config, plain, current_model);
            let wanted = if plain.len() > 0 {
                plain
            } else {
                current_model
            };
            &&& model.len() > 0 ==> (both matches Ok(change) && change.model == model
                && change.effort == Some(effort))
            &&& model.len() == 0 ==> (both matches Err(error) && error.kind
                == ErrorKindView::InvalidParams)
            &&& wanted.len() > 0 ==> (name matches Ok(change) && change.model == wanted
                && change.effort == config.model_reasoning_effort)
            &&& wanted.len() == 0 ==> (name matches Err(error) && error.kind
                == ErrorKindView::InvalidParams)
        }),
{
    let text = model + "/"@ + effort.text();
    reveal_strlit("/");
    assert("/"@ =~= seq!['/']);
    assert(text[model.len() as int] == '/');
    assert(text.contains('/'));
    lemma_before_char(text, '/');
    let head = before_char(text, '/');
    if head.len() < model.len() {
        assert(text[head.len() as int] == model[head.len() as int]);
        assert(model.contains('/'));
    }
    if head.len() > model.len() {
        assert(head[model.len() as int] == text[model.len() as int]);
        assert(head.contains('/'));
    }
    assert(text.take(model.len() as int) =~= model);
    assert(text.skip(head.len() as int + 1) =~= effort.text());
    effort_names_are_read_back(effort, effort.text());
}

/// The names of the efforts.
pub proof fn efforts_have_their_names()
    ensures
        ReasoningEffort::Off.text() == "none"@,
        ReasoningEffort::Minimal.text() == "minimal"@,
        ReasoningEffort::Low.text() == "low"@,
        ReasoningEffort::Medium.text() == "medium"@,
        ReasoningEffort::High.text() == "high"@,
        ReasoningEffort::XHigh.text() == "xhigh"@,
{
}

/// A preset of the models that is chosen by its identifier is used with the effort that is
/// configured, where it supports that effort, and else with its own; a model that is no preset is
/// used as it is named, with the effort that is configured.
pub proof fn model_is_chosen_with_its_effort(
    config: ConfigView,
    presets: Seq<ModelPresetView>,
    i: int,
    k: int,
    other: Seq<char>,
)
    requires
        0 <= i < presets.len(),
        forall|j: int| 0 <= j < i ==> (#[trigger] presets[j]).id != presets[i].id,
        presets[i].model.len() > 0,
        forall|j: int| 0 <= j < presets.len() ==> (#[trigger] presets[j]).id != other,
    ensures
        ({
            let chosen = chosen_model(config, presets, presets[i].id);
            let efforts = presets[i].supported_reasoning_efforts;
            &&& chosen matches Ok(change) && change.model == presets[i].model
            &&& config.model_reasoning_effort is None ==> chosen->Ok_0.effort == Some(
                presets[i].default_reasoning_effort,
            )
            &&& 0 <= k < efforts.len() && config.model_reasoning_effort == Some(efforts[k].effort)
                ==> chosen->Ok_0.effort == config.model_reasoning_effort
            &&& (forall|j: int|
                0 <= j < efforts.len() ==> Some((#[trigger] efforts[j]).effort)
                    != config.model_reasoning_effort) ==> chosen->Ok_0.effort == Some(
                presets[i].default_reasoning_effort,
            )
        }),
        other.len() > 0 ==> (chosen_model(config, presets, other) matches Ok(change)
            && change.model == other && change.effort == config.model_reasoning_effort),
        other.len() == 0 ==> (chosen_model(config, presets, other) matches Err(error) && error.kind
            == ErrorKindView::InvalidParams),
{
    lemma_identifier(presets, i);
    lemma_no_identifier(presets, other);
}

proof fn lemma_identifier(presets: Seq<ModelPresetView>, i: int)
    requires
        0 <= i < presets.len(),
        forall|j: int| 0 <= j < i ==> (#[trigger] presets[j]).id != presets[i].id,
    ensures
        preset_id_index(presets, presets[i].id) == i,
    decreases presets.len(),
{
    if i > 0 {
        let rest = presets.drop_first();
        assert(presets[0].id != presets[i].id);
        assert(rest[i - 1] == presets[i]);
        assert forall|j: int| 0 <= j < i - 1 implies (#[trigger] rest[j]).id != rest[i - 1].id by {
            assert(rest[j] == presets[j + 1]);
        }
        lemma_identifier(rest, i - 1);
    }
}

proof fn lemma_no_identifier(presets: Seq<ModelPresetView>, id: Seq<char>)
    requires
        forall|j: int| 0 <= j < presets.len() ==> (#[trigger] presets[j]).id != id,
    ensures
        preset_id_index(presets, id) == presets.len(),
    decreases presets.len(),
{
    if presets.len() > 0 {
        let rest = presets.drop_first();
        assert(presets[0].id != id);
        assert forall|j: int| 0 <= j < rest.len() implies (#[trigger] rest[j]).id != id by {
            assert(rest[j] == presets[j + 1]);
        }
        lemma_no_identifier(rest, id);
    }
}

/// An effort is set for a preset that supports it; it is refused as an invalid parameter for one
/// that does not, for a model that is no preset, and where the name is that of no effort.
pub proof fn effort_is_set_where_supported(
    presets: Seq<ModelPresetView>,
    i: int,
    k: int,
    effort: ReasoningEffort,
    other: Seq<char>,
    name: Seq<char>,
)
    requires
        0 <= i < presets.len(),
        forall|j: int| 0 <= j < i ==> (#[trigger] presets[j]).model != presets[i].model,
        forall|j: int| 0 <= j < presets.len() ==> (#[trigger] presets[j]).model != other,
    ensures
        ({
            let efforts = presets[i].supported_reasoning_efforts;
            let chosen = chosen_effort(presets, presets[i].model, effort.text());
            &&& 0 <= k < efforts.len() && efforts[k].effort == effort ==> chosen == Ok::<
                ReasoningEffort,
                ErrorView,
            >(effort)
            &&& (forall|j: int|
                0 <= j < efforts.len() ==> (#[trigger] efforts[j]).effort != effort) ==> (
            chosen matches Err(error) && error.kind == ErrorKindView::InvalidParams && error.data
                is Some)
            &&& chosen_effort(presets, other, effort.text()) matches Err(error) && error.kind
                == ErrorKindView::InvalidParams && error.data is Some
            &&& name != "none"@ && name != "minimal"@ && name != "low"@ && name != "medium"@ && name
                != "high"@ && name != "xhigh"@ ==> (chosen_effort(
                presets,
                presets[i].model,
                name,
            ) matches Err(error) && error.kind == ErrorKindView::InvalidParams && error.data
                is None)
        }),
{
    effort_names_are_read_back(effort, effort.text());
    lemma_model_index(presets, presets[i].model);
    lemma_model_index(presets, other);
    let found = model_index(presets, presets[i].model);
    if found < i {
        assert(presets[found].model != presets[i].model);
    }
    let lost = model_index(presets, other);
    if lost < presets.len() {
        assert(presets[lost].model != other);
    }
}

/// An option is set by its identifier: each leads to its own kind of change, and an unknown one,
/// or a value of another kind, to an invalid parameter and no change.
pub proof fn option_leads_to_its_change(
    config: ConfigView,
    presets: Seq<ModelPresetView>,
    current_model: Seq<char>,
    config_id: Seq<char>,
    value: Seq<char>,
)
    ensures
        option_set(config, presets, current_model, "mode"@, ConfigValueView::ValueId(value)) == (
            config,
            Ok::<SettingsChangeView, ErrorView>(SettingsChangeView::Mode(value)),
        ),
        ({
            let set = option_set(
                config,
                presets,
                current_model,
                "reasoning_effort"@,
                ConfigValueView::ValueId(value),
            );
            let chosen = chosen_effort(presets, current_model, value);
            &&& set.0 == config
            &&& chosen is Ok ==> set.1 == Ok::<SettingsChangeView, ErrorView>(
                SettingsChangeView::Effort(chosen->Ok_0),
            )
            &&& chosen is Err ==> set.1 == Err::<SettingsChangeView, ErrorView>(chosen->Err_0)
        }),
        ({
            let set = option_set(
                config,
                presets,
                current_model,
                "model"@,
                ConfigValueView::ValueId(value),
            );
            &&& set.1 is Ok ==> set.1->Ok_0 is Model
            &&& !starts_with(value, "kodex-provider:"@) ==> set.0 == config && (set.1
                is Ok <==> chosen_model(config, presets, value) is Ok) && (set.1 is Ok
                ==> set.1->Ok_0 == SettingsChangeView::Model(
                chosen_model(config, presets, value)->Ok_0,
            ))
        }),
        config_id != "mode"@ && config_id != "model"@ && config_id != "reasoning_effort"@ ==> {
            let set = option_set(
                config,
                presets,
                current_model,
                config_id,
                ConfigValueView::ValueId(value),
            );
            &&& set.0 == config
            &&& set.1 matches Err(error) && error.kind == ErrorKindView::InvalidParams
        },
        ({
            let set = option_set(config, presets, current_model, config_id, ConfigValueView::Other);
            &&& set.0 == config
            &&& set.1 matches Err(error) && error.kind == ErrorKindView::InvalidParams
        }),
{
    reveal_strlit("mode");
    reveal_strlit("model");
    reveal_strlit("reasoning_effort");
    assert("mode"@.len() == 4 && "model"@.len() == 5 && "reasoning_effort"@.len() == 16);
}

/// An option that is set by a message is submitted and takes effect like the setting it stands
/// for.
pub proof fn option_is_set_as_submitted(
    before: ThreadActorView,
    after: ThreadActorView,
    config_id: Seq<char>,
    value: Seq<char>,
    choice: ModelChoiceView,
    init_prompt: Seq<char>,
    outcome: MessageOutcomeView,
    id: Seq<char>,
)
    requires
        message_handled(
            before,
            after,
            ThreadMessageView::SetConfigOption {
                config_id,
                value: ConfigValueView::ValueId(value),
            },
            choice,
            init_prompt,
            outcome,
        ),
    ensures
        outcome is Submit || outcome is Refused,
        outcome matches MessageOutcomeView::Submit { notice, op, then_apply } ==> ({
            let settings = op->ThreadSettings_0;
            let accepted = submission_answered(after, then_apply, Ok(id));
            &&& notice is None
            &&& op is ThreadSettings
            &&& config_id == "mode"@ || config_id == "model"@ || config_id == "reasoning_effort"@
            &&& config_id == "mode"@ <==> then_apply == PendingView::Mode(value)
            &&& config_id == "mode"@ ==> accepted == before && settings.approval_policy is Some
                && settings.model is None && settings.effort is None
            &&& config_id == "model"@ ==> settings.model is Some && settings.model
                == accepted.config.model && settings.effort == Some(
                accepted.config.model_reasoning_effort,
            ) && settings.approval_policy is None && settings.permission_profile is None
            &&& config_id == "reasoning_effort"@ ==> settings.model is None && settings.effort
                is Some && settings.effort == Some(accepted.config.model_reasoning_effort)
                && settings.effort->Some_0 is Some && settings.effort->Some_0->Some_0.text()
                == value && accepted.config.model == before.config.model
                && settings.approval_policy is None && settings.permission_profile is None
        }),
{
    reveal_strlit("mode");
    reveal_strlit("model");
    reveal_strlit("reasoning_effort");
    assert("mode"@.len() == 4 && "model"@.len() == 5 && "reasoning_effort"@.len() == 16);
    if effort_named(value) is Some {
        effort_names_are_read_back(effort_named(value)->Some_0, value);
    }
}

/// A switch of the model to a provider that is configured ends at that provider; to one that is
/// not, at the proxy where there is one; else it is refused, and the refusal names the provider.
pub proof fn provider_is_activated_as_requested(
    requested: Seq<char>,
    current: Seq<char>,
    configured: bool,
    proxy_configured: bool,
)
    ensures
        ({
            let done = activation(requested, current, configured, proxy_configured);
            let now = match done {
                Ok(ProviderActivationView::KeepCurrent) => current,
                Ok(ProviderActivationView::Activate(target)) => target,
                Err(_) => current,
            };
            &&& configured || requested == current ==> done is Ok && now == requested
            &&& !configured && requested != current && proxy_configured ==> done is Ok && now
                == "byok"@
            &&& !configured && requested != current && !proxy_configured ==> (done matches Err(
                error,
            ) && error.kind == ErrorKindView::InvalidParams && error.data == Some(
                JsonView::Text("Unsupported provider for selected model: "@ + requested),
            ))
        }),
{
}

/// A value for a model names its provider behind a fixed mark, and is otherwise the identifier.
pub proof fn model_value_names_its_provider(value: Seq<char>, provider: Seq<char>)
    requires
        !starts_with(value, "kodex-provider:"@),
    ensures
        trimmed(provider).len() == 0 ==> encoded_value(value, provider) == value,
        trimmed(provider).len() > 0 ==> encoded_value(value, provider)
            == "kodex-provider:"@ + trimmed(provider) + ":"@ + value,
{
}

/// The choices of the model are the models that are shown, one for one, each with its name, its
/// description and its provider; the one that is chosen is that of the current model.
pub proof fn model_choices_are_the_models(
    shown: Seq<ModelPresetView>,
    providers: Seq<Seq<char>>,
    current_model: Seq<char>,
    active: Seq<char>,
)
    requires
        shown.len() == providers.len(),
    ensures
        ({
            let option = model_option(shown, providers, current_model, active);
            let known = exists|i: int|
                0 <= i < shown.len() && (#[trigger] shown[i]).model == current_model;
            let first: int = if known {
                0
            } else {
                1
            };
            &&& option.id == "model"@
            &&& option.category == ConfigCategory::Model
            &&& option.name == "Model"@
            &&& option.description == "Choose which model Codex should use"@
            &&& option.options.len() == shown.len() + first
            &&& forall|i: int|
                0 <= i < shown.len() ==> {
                    let choice = option.options[first + i];
                    &&& (#[trigger] shown[i]).display_name == choice.name
                    &&& Some(shown[i].description) == choice.description
                    &&& choice.provider == Some(providers[i])
                    &&& choice.value == encoded_value(shown[i].id, providers[i])
                }
            &&& !known ==> option.options[0].name == current_model && option.options[0].provider
                == Some(active) && option.options[0].description is None && option.options[0].value
                == option.current_value && option.current_value == encoded_value(
                current_model,
                active,
            )
            &&& known ==> exists|i: int|
                0 <= i < shown.len() && (#[trigger] shown[i]).model == current_model
                    && option.current_value == encoded_value(
                    shown[i].id,
                    providers[i],
                )
        }),
{
    lemma_model_index(shown, current_model);
    lemma_served_index(shown, providers, current_model, active);
    let current = current_index(shown, providers, current_model, active);
    let option = model_option(shown, providers, current_model, active);
    if current < shown.len() {
        assert(shown[current].model == current_model);
    }
}

/// An option offers the efforts of a preset, more than one, and is at the configured one where
/// the preset has it, or at the preset's own where none is configured.
pub open spec fn offers_efforts_of(
    option: ConfigOptionView,
    preset: ModelPresetView,
    configured: Option<ReasoningEffort>,
) -> bool {
    let efforts = preset.supported_reasoning_efforts;
    &&& efforts.len() > 1
    &&& option.options.len() == efforts.len()
    &&& forall|i: int|
        0 <= i < efforts.len() ==> (#[trigger] efforts[i]).effort.text() == option.options[i].value
            && Some(efforts[i].description) == option.options[i].description
            && option.options[i].provider is None
    &&& forall|i: int|
        0 <= i < efforts.len() && Some((#[trigger] efforts[i]).effort) == configured
            ==> option.current_value == efforts[i].effort.text()
    &&& configured is None ==> option.current_value == preset.default_reasoning_effort.text()
}

/// The choices of the effort are those that the current model supports, one for one, and the one
/// that is chosen is the configured one where it is among them; they are offered only where there
/// is a choice. The mode comes before the model, and the effort comes last.
pub proof fn effort_choices_are_those_supported(
    config: ConfigView,
    approvals: Seq<ApprovalPresetView>,
    presets: Seq<ModelPresetView>,
    entries: Seq<KodexModelProviderEntryView>,
    current_model: Seq<char>,
)
    ensures
        ({
            let options = session_options(config, approvals, presets, entries, current_model);
            let effort = options.last();
            let shown = shown_models(presets, current_model);
            effort.id == "reasoning_effort"@ ==> {
                &&& effort.category == ConfigCategory::ThoughtLevel
                &&& effort.name == "Reasoning Effort"@
                &&& effort.description == "Choose how much reasoning effort the model should use"@
                &&& exists|p: int|
                    0 <= p < shown.len() && (#[trigger] shown[p]).model == current_model
                        && offers_efforts_of(effort, shown[p], config.model_reasoning_effort)
            }
        }),
{
    let active = config.model_provider_id;
    let shown = shown_models(presets, current_model);
    let providers = providers_of(shown, entries, active);
    entries_serve_once(shown, entries, active);
    lemma_model_index(shown, current_model);
    lemma_served_index(shown, providers, current_model, active);
    let current = current_index(shown, providers, current_model, active);
    let options = session_options(config, approvals, presets, entries, current_model);
    reveal_strlit("mode");
    reveal_strlit("model");
    reveal_strlit("reasoning_effort");
    assert("mode"@.len() == 4 && "model"@.len() == 5 && "reasoning_effort"@.len() == 16);
    if current < shown.len() && shown[current].supported_reasoning_efforts.len() > 1 {
        let efforts = shown[current].supported_reasoning_efforts;
        let effort = options.last();
        assert forall|i: int|
            0 <= i < efforts.len() && Some((#[trigger] efforts[i]).effort)
                == config.model_reasoning_effort implies effort.current_value
            == efforts[i].effort.text() by {
            assert(supports(efforts, efforts[i].effort));
        }
        assert(offers_efforts_of(effort, shown[current], config.model_reasoning_effort));
        assert(shown[current].model == current_model);
    } else {
        assert(options.last().id == "model"@);
    }
}

/// The models that are shown are those for the picker and the current one, each as often as it is
/// offered and in the order in which they are offered.
pub proof fn shown_models_keep_their_order(
    presets: Seq<ModelPresetView>,
    preset: ModelPresetView,
    current_model: Seq<char>,
)
    ensures
        ({
            let shown = shown_models(presets, current_model);
            let more = shown_models(presets.push(preset), current_model);
            &&& preset.show_in_picker || preset.model == current_model ==> more == shown.push(
                preset,
            )
            &&& !preset.show_in_picker && preset.model != current_model ==> more == shown
            &&& presets.len() == 0 ==> shown.len() == 0
        }),
{
    assert(presets.push(preset).drop_last() =~= presets);
}

/// The models of a session are those that are shown, each with each of its efforts; every entry
/// names the model, the effort and the provider, and is identified by them. A current model that
/// is no preset comes first.
pub proof fn session_models_are_listed(
    config: ConfigView,
    presets: Seq<ModelPresetView>,
    entries: Seq<KodexModelProviderEntryView>,
    current_model: Seq<char>,
    p: int,
    e: int,
)
    requires
        0 <= p < shown_models(presets, current_model).len(),
        0 <= e < shown_models(presets, current_model)[p].supported_reasoning_efforts.len(),
    ensures
        ({
            let active = config.model_provider_id;
            let shown = shown_models(presets, current_model);
            let provider = providers_of(shown, entries, active)[p];
            let effort = shown[p].supported_reasoning_efforts[e];
            let state = session_models(config, presets, entries, current_model);
            exists|k: int|
                0 <= k < state.available_models.len() && {
                    let info = #[trigger] state.available_models[k];
                    &&& info.id == encoded_value(
                        shown[p].id + "/"@ + effort.effort.text(),
                        provider,
                    )
                    &&& info.name == shown[p].display_name + " ("@ + effort.effort.text() + ")"@
                    &&& info.description == Some(
                        shown[p].description + " "@ + effort.description,
                    )
                    &&& info.meta == Some(seq![("provider"@, JsonView::Text(provider))])
                }
        }),
{
    let active = config.model_provider_id;
    let shown = shown_models(presets, current_model);
    let providers = providers_of(shown, entries, active);
    let state = session_models(config, presets, entries, current_model);
    let listed = all_model_infos(shown, providers);
    let k = lemma_listed_model(shown, providers, p, e);
    if state.available_models.len() == listed.len() {
        assert(state.available_models[k] == listed[k]);
    } else {
        assert(state.available_models[k + 1] == listed[k]);
    }
}

proof fn lemma_listed_model(
    shown: Seq<ModelPresetView>,
    providers: Seq<Seq<char>>,
    p: int,
    e: int,
) -> (k: int)
    requires
        0 <= p < shown.len(),
        0 <= e < shown[p].supported_reasoning_efforts.len(),
    ensures
        0 <= k < all_model_infos(shown, providers).len(),
        all_model_infos(shown, providers)[k] == model_info(
            shown[p],
            shown[p].supported_reasoning_efforts[e],
            providers[p],
        ),
    decreases shown.len(),
{
    let before = all_model_infos(shown.drop_last(), providers);
    if p == shown.len() - 1 {
        before.len() + e
    } else {
        lemma_listed_model(shown.drop_last(), providers, p, e)
    }
}

/// The current model of a session is the current preset with the configured effort where the
/// preset supports it, at the active provider; a model that is no preset stands for itself and is
/// listed before the others.
pub proof fn session_has_its_current_model(
    config: ConfigView,
    presets: Seq<ModelPresetView>,
    entries: Seq<KodexModelProviderEntryView>,
    current_model: Seq<char>,
)
    ensures
        ({
            let active = config.model_provider_id;
            let state = session_models(config, presets, entries, current_model);
            let known = exists|i: int|
                0 <= i < presets.len() && (#[trigger] presets[i]).model == current_model;
            &&& known ==> exists|i: int|
                0 <= i < presets.len() && (#[trigger] presets[i]).model == current_model
                    && state.current_model_id == encoded_value(
                    presets[i].id + "/"@ + effort_for(
                        config.model_reasoning_effort,
                        presets[i],
                    ).text(),
                    active,
                )
            &&& !known ==> {
                let first = state.available_models[0];
                &&& state.available_models.len() > 0
                &&& state.current_model_id == encoded_value(current_model, active)
                &&& first.id == state.current_model_id
                &&& first.name == current_model
                &&& first.description is None
                &&& first.meta == Some(seq![("provider"@, JsonView::Text(active))])
            }
        }),
{
    let active = config.model_provider_id;
    let providers = providers_of(presets, entries, active);
    entries_serve_once(presets, entries, active);
    lemma_model_index(presets, current_model);
    lemma_served_index(presets, providers, current_model, active);
    let current = current_index(presets, providers, current_model, active);
    if current < presets.len() {
        assert(presets[current].model == current_model);
    }
}

/// Of several presets of the current model the one that the active provider serves is current.
pub proof fn active_provider_decides_among_presets(
    presets: Seq<ModelPresetView>,
    providers: Seq<Seq<char>>,
    current_model: Seq<char>,
    active: Seq<char>,
    i: int,
)
    requires
        presets.len() == providers.len(),
        0 <= i < presets.len(),
        presets[i].model == current_model,
        providers[i] == active,
    ensures
        ({
            let current = current_index(presets, providers, current_model, active);
            0 <= current <= i && presets[current].model == current_model && providers[current]
                == active
        }),
{
    lemma_served_index(presets, providers, current_model, active);
}

/// The options are told where they differ from those that were told last, as they are.
pub proof fn changed_options_are_told(
    last_sent: Option<Seq<ConfigOptionView>>,
    options: Seq<ConfigOptionView>,
)
    ensures
        last_sent != Some(options) ==> (options_update(last_sent, options).1 matches Some(message)
            && message.meta is None && message.update
            == SessionUpdateView::ConfigOptions(options)),
        last_sent == Some(options) ==> options_update(last_sent, options).1 is None,
        options_update(last_sent, options).0 == Some(options),
{
}

/// A model is served by the provider of the first entry that names it, by its model or by the name
/// that it is shown under; where no entry does, by the active provider.
pub proof fn first_entry_serves_the_model(
    preset: ModelPresetView,
    entries: Seq<KodexModelProviderEntryView>,
    active: Seq<char>,
    i: int,
)
    requires
        0 <= i <= entries.len(),
        forall|j: int|
            0 <= j < i ==> (#[trigger] entries[j]).model != preset.model && entries[j].display_name
                != preset.display_name,
        i < entries.len() ==> entries[i].model == preset.model || entries[i].display_name
            == preset.display_name,
    ensures
        providers_of(seq![preset], entries, active) == seq![
            if i < entries.len() {
                entries[i].provider
            } else {
                active
            },
        ],
{
    let unused = Seq::new(entries.len(), |k: int| false);
    lemma_entry_index(entries, unused, preset.model, preset.display_name);
    let found = entry_index(entries, unused, preset.model, preset.display_name);
    if found < i {
        assert(entries[found].model != preset.model);
    }
    if i < found {
        assert(!unused[i]);
        assert(!entry_serves(entries[i], preset.model, preset.display_name));
    }
    let presets = seq![preset];
    assert(presets.drop_first() =~= Seq::empty());
    reveal_with_fuel(assigned_providers, 2);
    assert(providers_of(presets, entries, active) =~= seq![
        if i < entries.len() {
            entries[i].provider
        } else {
            active
        },
    ]);
}

/// A model that is chosen by a value that names a provider is switched to at that provider, where
/// it is configured; where the value names none the provider stays.
pub proof fn model_is_switched_with_its_provider(
    before: ThreadActorView,
    after: ThreadActorView,
    model: Seq<char>,
    provider: Seq<char>,
    choice: ModelChoiceView,
    init_prompt: Seq<char>,
    outcome: MessageOutcomeView,
)
    requires
        !starts_with(model, "kodex-provider:"@),
        message_handled(
            before,
            after,
            ThreadMessageView::SetModel { model: encoded_value(model, provider) },
            choice,
            init_prompt,
            outcome,
        ),
    ensures
        trimmed(provider).len() == 0 ==> after == before,
        trimmed(provider).len() > 0 && !trimmed(provider).contains(':')
            && before.config.model_providers.contains(trimmed(provider)) ==> after == (
        ThreadActorView {
            config: ConfigView { model_provider_id: trimmed(provider), ..before.config },
            ..before
        }),
        trimmed(provider).len() > 0 && !trimmed(provider).contains(':')
            && !before.config.model_providers.contains(trimmed(provider))
            && before.config.model_provider_id != trimmed(provider)
            && !before.config.model_providers.contains("byok"@) ==> after == before && outcome
            is Refused,
        outcome matches MessageOutcomeView::Submit { op, .. } ==> !model.contains('/')
            && model.len() > 0 && !trimmed(provider).contains(':') ==> op->ThreadSettings_0.model
            == Some(model),
{
    if trimmed(provider).len() > 0 {
        if !trimmed(provider).contains(':') {
            encoded_value_is_read_back(model, provider);
        }
    } else {
        plain_value_is_read_as_it_is(model);
    }
}

/// A value that begins like one with a provider but lacks the second mark is taken as it is; one
/// whose provider is blank names none.
pub proof fn value_without_provider_names_none(rest: Seq<char>, blank: Seq<char>, model: Seq<char>)
    requires
        !rest.contains(':'),
        !blank.contains(':'),
        trimmed(blank).len() == 0,
    ensures
        decoded_value("kodex-provider:"@ + rest) == (
            None::<Seq<char>>,
            "kodex-provider:"@ + rest,
        ),
        decoded_value("kodex-provider:"@ + (blank.push(':') + model)) == (
            None::<Seq<char>>,
            model,
        ),
{
    let mark = "kodex-provider:"@;
    let bare = mark + rest;
    assert(bare.take(mark.len() as int) =~= mark);
    assert(bare.skip(mark.len() as int) =~= rest);
    let named = blank.push(':') + model;
    let whole = mark + named;
    assert(whole.take(mark.len() as int) =~= mark);
    assert(whole.skip(mark.len() as int) =~= named);
    lemma_before_char(named, ':');
    let head = before_char(named, ':');
    assert(named[blank.len() as int] == ':');
    if head.len() < blank.len() {
        assert(blank[head.len() as int] == ':');
    }
    if head.len() > blank.len() {
        assert(head[blank.len() as int] == ':');
    }
    assert(named.take(blank.len() as int) =~= blank);
    assert(named.skip(blank.len() as int + 1) =~= model);
}

} // verus!
