//! A session: its submissions, its configuration and the messages it takes.
use crate::backend::{Event, EventView};
use crate::client::ClientCapabilities;
use crate::collections::{StringMap, StringSet, add_item, empty, one, result_view};
use crate::config_options::{
    config_options, maybe_emit_config_options_update, modes, options_update, session_modes,
    session_options,
};
use crate::events::{EventMsg, EventMsgView};
use crate::json::{Json, JsonView};
use crate::models::{
    EffortPreset, ModelPreset, ModelPresetView, SessionModelState, SessionModelStateView,
    decoded_value, models, session_models,
};
use crate::permissions::{
    PendingPermissionInteractionView, PermissionResponse, PermissionResponseView,
};
use crate::prompt_events::{
    new_turn_is_keyed, prompt_step, settles_turn, turn_is_answered_when_it_ends,
    turn_keeps_its_identity,
};
use crate::prompt_state::{
    Effect, EffectView, PermissionResolution, PermissionResolutionView, PromptState,
    PromptStateView, commands_are_keyed, detached, detached_turn_ignores_answers, is_running,
    new_prompt, notify, permission_resolved, responded, stop_notice, stopped,
    stopping_nothing_changes_nothing,
};
use crate::prompts::{PromptPlan, PromptPlanView, handle_prompt, prompt_plan};
use crate::protocol::{
    ApprovalPolicy, ConfigOption, ConfigOptionView, Error, ErrorKind, ErrorView, Notification,
    NotificationView, Op, OpView, PermissionProfile, PermissionProfileView, PromptResultView,
    ReasoningEffort, UserInput, UserInputView,
};
use crate::replay::{RolloutItem, RolloutItemView, handle_replay_history, history_replayed};
use crate::session_config::{
    ApprovalPreset, ApprovalPresetView, Config, ConfigView, KodexModelProviderEntry,
    KodexModelProviderEntryView, SessionModeState, SessionModeStateView, find_preset,
    preset_index,
};
use crate::settings::{
    ConfigAnswer, ConfigAnswerView, ConfigValue, ConfigValueView, ModelChange, ModelChangeView,
    SettingsChange, SettingsChangeView, apply_effort, apply_mode, apply_model, bare_invalid_params,
    effort_change_op, effort_settings, handle_set_config_option, handle_set_mode, handle_set_model,
    internal, internal_error, mode_applied, mode_reply, mode_settings, model_change_op,
    model_settings, option_set, options_wait_for_acceptance, provider_named, requested_model,
};
use crate::title::{normalize_session_title, normalized_title};
use crate::title_flow::{publish_session_title, title_published};
use vstd::prelude::*;

verus! {

/// The state of a session.
#[derive(Debug)]
pub struct ThreadActor {
    pub config: Config,
    pub presets: Vec<ApprovalPreset>,
    pub provider_entries: Vec<KodexModelProviderEntry>,
    pub submissions: StringMap<PromptState>,
    pub last_sent_config_options: Option<Vec<ConfigOption>>,
    pub session_title: Option<String>,
}

#[verifier::ext_equal]
pub struct ThreadActorView {
    pub config: ConfigView,
    pub presets: Seq<ApprovalPresetView>,
    pub provider_entries: Seq<KodexModelProviderEntryView>,
    pub submissions: Map<Seq<char>, PromptStateView>,
    pub last_sent_config_options: Option<Seq<ConfigOptionView>>,
    pub session_title: Option<Seq<char>>,
}

impl DeepView for ThreadActor {
    type V = ThreadActorView;

    open spec fn deep_view(&self) -> ThreadActorView {
        ThreadActorView {
            config: self.config.deep_view(),
            presets: self.presets.deep_view(),
            provider_entries: self.provider_entries.deep_view(),
            submissions: self.submissions.deep_view(),
            last_sent_config_options: self.last_sent_config_options.deep_view(),
            session_title: self.session_title.deep_view(),
        }
    }
}

/// The models of the moment.
#[derive(Debug, PartialEq)]
pub struct ModelChoice {
    pub current_model: String,
    pub presets: Vec<ModelPreset>,
}

#[verifier::ext_equal]
pub struct ModelChoiceView {
    pub current_model: Seq<char>,
    pub presets: Seq<ModelPresetView>,
}

impl DeepView for ModelChoice {
    type V = ModelChoiceView;

    open spec fn deep_view(&self) -> ModelChoiceView {
        ModelChoiceView {
            current_model: self.current_model.deep_view(),
            presets: self.presets.deep_view(),
        }
    }
}

/// The client's answer to a permission request, or why there is none.
#[derive(Debug, PartialEq)]
pub enum PermissionAnswer {
    Answered(PermissionResponse),
    Failed(Error),
}

#[verifier::ext_equal]
pub enum PermissionAnswerView {
    Answered(PermissionResponseView),
    Failed(ErrorView),
}

impl DeepView for PermissionAnswer {
    type V = PermissionAnswerView;

    open spec fn deep_view(&self) -> PermissionAnswerView {
        match self {
            PermissionAnswer::Answered(value) => PermissionAnswerView::Answered(value.deep_view()),
            PermissionAnswer::Failed(value) => PermissionAnswerView::Failed(value.deep_view()),
        }
    }
}

/// What the answer to a permission request leads to in its session.
#[derive(Debug)]
pub enum ActorResolution {
    Ignored,
    Failed(Vec<Effect>),
    Submit { op: Op, followup: Option<String> },
}

#[verifier::ext_equal]
pub enum ActorResolutionView {
    Ignored,
    Failed(Seq<EffectView>),
    Submit { op: OpView, followup: Option<Seq<char>> },
}

impl DeepView for ActorResolution {
    type V = ActorResolutionView;

    open spec fn deep_view(&self) -> ActorResolutionView {
        match self {
            ActorResolution::Ignored => ActorResolutionView::Ignored,
            ActorResolution::Failed(value) => ActorResolutionView::Failed(value.deep_view()),
            ActorResolution::Submit { op, followup } => ActorResolutionView::Submit {
                op: op.deep_view(),
                followup: followup.deep_view(),
            },
        }
    }
}

/// A message to the session.
#[derive(Debug)]
pub enum ThreadMessage {
    Load,
    GetConfigOptions,
    Prompt { items: Vec<UserInput> },
    SetMode { mode: String },
    SetModel { model: String },
    SetConfigOption { config_id: String, value: ConfigValue },
    Cancel,
    StopTool { tool_call_id: String },
    Shutdown,
    ReplayHistory { history: Vec<RolloutItem> },
    PermissionRequestResolved {
        submission_id: String,
        interaction_id: u64,
        request_key: String,
        answer: PermissionAnswer,
    },
}

#[verifier::ext_equal]
pub enum ThreadMessageView {
    Load,
    GetConfigOptions,
    Prompt { items: Seq<UserInputView> },
    SetMode { mode: Seq<char> },
    SetModel { model: Seq<char> },
    SetConfigOption { config_id: Seq<char>, value: ConfigValueView },
    Cancel,
    StopTool { tool_call_id: Seq<char> },
    Shutdown,
    ReplayHistory { history: Seq<RolloutItemView> },
    PermissionRequestResolved {
        submission_id: Seq<char>,
        interaction_id: u64,
        request_key: Seq<char>,
        answer: PermissionAnswerView,
    },
}

impl DeepView for ThreadMessage {
    type V = ThreadMessageView;

    open spec fn deep_view(&self) -> ThreadMessageView {
        match self {
            ThreadMessage::Load => ThreadMessageView::Load,
            ThreadMessage::GetConfigOptions => ThreadMessageView::GetConfigOptions,
            ThreadMessage::Prompt { items } => ThreadMessageView::Prompt {
                items: items.deep_view(),
            },
            ThreadMessage::SetMode { mode } => ThreadMessageView::SetMode {
                mode: mode.deep_view(),
            },
            ThreadMessage::SetModel { model } => ThreadMessageView::SetModel {
                model: model.deep_view(),
            },
            ThreadMessage::SetConfigOption {
                config_id,
                value,
            } => ThreadMessageView::SetConfigOption {
                config_id: config_id.deep_view(),
                value: value.deep_view(),
            },
            ThreadMessage::Cancel => ThreadMessageView::Cancel,
            ThreadMessage::StopTool { tool_call_id } => ThreadMessageView::StopTool {
                tool_call_id: tool_call_id.deep_view(),
            },
            ThreadMessage::Shutdown => ThreadMessageView::Shutdown,
            ThreadMessage::ReplayHistory { history } => ThreadMessageView::ReplayHistory {
                history: history.deep_view(),
            },
            ThreadMessage::PermissionRequestResolved {
                submission_id,
                interaction_id,
                request_key,
                answer,
            } => ThreadMessageView::PermissionRequestResolved {
                submission_id: submission_id.deep_view(),
                interaction_id: interaction_id.deep_view(),
                request_key: request_key.deep_view(),
                answer: answer.deep_view(),
            },
        }
    }
}

/// What is answered when a session is loaded.
#[derive(Debug)]
pub struct LoadResponse {
    pub models: SessionModelState,
    pub modes: Option<SessionModeState>,
    pub config_options: Vec<ConfigOption>,
}

#[verifier::ext_equal]
pub struct LoadResponseView {
    pub models: SessionModelStateView,
    pub modes: Option<SessionModeStateView>,
    pub config_options: Seq<ConfigOptionView>,
}

impl DeepView for LoadResponse {
    type V = LoadResponseView;

    open spec fn deep_view(&self) -> LoadResponseView {
        LoadResponseView {
            models: self.models.deep_view(),
            modes: self.modes.deep_view(),
            config_options: self.config_options.deep_view(),
        }
    }
}

/// What follows once an operation was accepted.
#[derive(Debug)]
pub enum Pending {
    Nothing,
    Prompt { prompt_text: Option<String> },
    Mode(String),
    Model(ModelChange),
    Effort(ReasoningEffort),
}

#[verifier::ext_equal]
pub enum PendingView {
    Nothing,
    Prompt { prompt_text: Option<Seq<char>> },
    Mode(Seq<char>),
    Model(ModelChangeView),
    Effort(ReasoningEffort),
}

impl DeepView for Pending {
    type V = PendingView;

    open spec fn deep_view(&self) -> PendingView {
        match self {
            Pending::Nothing => PendingView::Nothing,
            Pending::Prompt { prompt_text } => PendingView::Prompt {
                prompt_text: prompt_text.deep_view(),
            },
            Pending::Mode(value) => PendingView::Mode(value.deep_view()),
            Pending::Model(value) => PendingView::Model(value.deep_view()),
            Pending::Effort(value) => PendingView::Effort(value.deep_view()),
        }
    }
}

/// What is left to do once an operation was accepted: the policy and the profile of a mode are
/// given to the configuration.
#[derive(Debug, PartialEq)]
pub enum Accepted {
    Done,
    Configure { mode: String, approval: ApprovalPolicy, permission_profile: PermissionProfile },
}

#[verifier::ext_equal]
pub enum AcceptedView {
    Done,
    Configure {
        mode: Seq<char>,
        approval: ApprovalPolicy,
        permission_profile: PermissionProfileView,
    },
}

impl DeepView for Accepted {
    type V = AcceptedView;

    open spec fn deep_view(&self) -> AcceptedView {
        match self {
            Accepted::Done => AcceptedView::Done,
            Accepted::Configure { mode, approval, permission_profile } => AcceptedView::Configure {
                mode: mode.deep_view(),
                approval: approval.deep_view(),
                permission_profile: permission_profile.deep_view(),
            },
        }
    }
}

/// What a message leads to. What is submitted is pending until the thread has accepted it.
#[allow(inconsistent_fields)]
#[derive(Debug)]
pub enum MessageOutcome {
    Refused(Error),
    Loaded(LoadResponse),
    Options(Vec<ConfigOption>),
    Logout,
    Submit { notice: Option<Notification>, op: Op, then_apply: Pending },
    Stopped { notices: Vec<Effect>, op: Option<Op> },
    Replay(Vec<Notification>),
    Permission(ActorResolution),
}

#[allow(inconsistent_fields)]
#[verifier::ext_equal]
pub enum MessageOutcomeView {
    Refused(ErrorView),
    Loaded(LoadResponseView),
    Options(Seq<ConfigOptionView>),
    Logout,
    Submit { notice: Option<NotificationView>, op: OpView, then_apply: PendingView },
    Stopped { notices: Seq<EffectView>, op: Option<OpView> },
    Replay(Seq<NotificationView>),
    Permission(ActorResolutionView),
}

impl DeepView for MessageOutcome {
    type V = MessageOutcomeView;

    open spec fn deep_view(&self) -> MessageOutcomeView {
        match self {
            MessageOutcome::Refused(value) => MessageOutcomeView::Refused(value.deep_view()),
            MessageOutcome::Loaded(value) => MessageOutcomeView::Loaded(value.deep_view()),
            MessageOutcome::Options(value) => MessageOutcomeView::Options(value.deep_view()),
            MessageOutcome::Logout => MessageOutcomeView::Logout,
            MessageOutcome::Submit { notice, op, then_apply } => MessageOutcomeView::Submit {
                notice: notice.deep_view(),
                op: op.deep_view(),
                then_apply: then_apply.deep_view(),
            },
            MessageOutcome::Stopped { notices, op } => MessageOutcomeView::Stopped {
                notices: notices.deep_view(),
                op: op.deep_view(),
            },
            MessageOutcome::Replay(value) => MessageOutcomeView::Replay(value.deep_view()),
            MessageOutcome::Permission(value) => MessageOutcomeView::Permission(value.deep_view()),
        }
    }
}

/// The session with one of its submissions replaced.
pub open spec fn with_submission(
    s: ThreadActorView,
    id: Seq<char>,
    state: PromptStateView,
) -> ThreadActorView {
    ThreadActorView { submissions: s.submissions.insert(id, state), ..s }
}

/// A prompt was accepted under the given identifier.
pub open spec fn submission_registered(
    s: ThreadActorView,
    id: Seq<char>,
    prompt_text: Option<Seq<char>>,
) -> ThreadActorView {
    with_submission(s, id, new_prompt(id, prompt_text))
}

/// The title that an event tells, and how it is shown.
pub open spec fn global_event(s: ThreadActorView, msg: EventMsgView) -> (
    ThreadActorView,
    Seq<EffectView>,
) {
    match msg {
        EventMsgView::SessionConfigured { thread_name: Some(name) } => match normalized_title(
            name,
            None,
        ) {
            Some(title) => {
                let (shown, message) = title_published(s.session_title, title);
                (
                    ThreadActorView { session_title: shown, ..s },
                    match message {
                        Some(message) => notify(message),
                        None => seq![],
                    },
                )
            },
            None => (s, seq![]),
        },
        _ => (s, seq![]),
    }
}

/// What an event of the thread leads to: it goes to the submission that it belongs to. One that
/// belongs to none is ignored.
pub open spec fn event_routed(
    s: ThreadActorView,
    client: Option<Seq<(Seq<char>, JsonView)>>,
    event: EventView,
) -> (ThreadActorView, Seq<EffectView>) {
    let (told, first) = global_event(s, event.msg);
    if told.submissions.contains_key(event.id) {
        let (state, effects) = prompt_step(told.submissions[event.id], client, event.msg);
        (with_submission(told, event.id, state), first + effects)
    } else {
        (told, first)
    }
}

/// A submission fails: what waits in it is dropped, and it is answered with the error.
pub open spec fn submission_failed(state: PromptStateView, error: ErrorView) -> (
    PromptStateView,
    Seq<EffectView>,
) {
    responded(detached(state), PromptResultView::Failed(error))
}

/// An event could not be handled: its submission is answered with the error, and what waits in it
/// goes on waiting.
pub open spec fn failed_by_event(
    s: ThreadActorView,
    submission_id: Seq<char>,
    error: ErrorView,
) -> (ThreadActorView, Seq<EffectView>) {
    if s.submissions.contains_key(submission_id) {
        let (state, effects) = responded(
            s.submissions[submission_id],
            PromptResultView::Failed(error),
        );
        (with_submission(s, submission_id, state), effects)
    } else {
        (s, seq![])
    }
}

/// What an answer led to could not be submitted: its submission fails.
pub open spec fn failed_by_resolution(
    s: ThreadActorView,
    submission_id: Seq<char>,
    error: ErrorView,
) -> (ThreadActorView, Seq<EffectView>) {
    if s.submissions.contains_key(submission_id) {
        let (state, effects) = submission_failed(s.submissions[submission_id], error);
        (with_submission(s, submission_id, state), effects)
    } else {
        (s, seq![])
    }
}

pub open spec fn answer_result(answer: PermissionAnswerView) -> Result<
    PermissionResponseView,
    ErrorView,
> {
    match answer {
        PermissionAnswerView::Answered(response) => Ok(response),
        PermissionAnswerView::Failed(error) => Err(error),
    }
}

/// What the answer to a permission request leads to: one for a submission that is gone is
/// ignored.
pub open spec fn answer_routed(
    s: ThreadActorView,
    submission_id: Seq<char>,
    interaction_id: u64,
    request_key: Seq<char>,
    answer: PermissionAnswerView,
) -> (ThreadActorView, ActorResolutionView) {
    if !s.submissions.contains_key(submission_id) {
        (s, ActorResolutionView::Ignored)
    } else {
        let (state, resolution) = permission_resolved(
            s.submissions[submission_id],
            interaction_id,
            request_key,
            answer_result(answer),
        );
        match resolution {
            PermissionResolutionView::Ignored => (s, ActorResolutionView::Ignored),
            PermissionResolutionView::Failed(error) => {
                let (failed, effects) = submission_failed(state, error);
                (with_submission(s, submission_id, failed), ActorResolutionView::Failed(effects))
            },
            PermissionResolutionView::Resolved { op, followup } => (
                with_submission(s, submission_id, state),
                ActorResolutionView::Submit { op, followup },
            ),
        }
    }
}

pub open spec fn all_detached(s: ThreadActorView) -> ThreadActorView {
    ThreadActorView {
        submissions: s.submissions.map_values(|state: PromptStateView| detached(state)),
        ..s
    }
}

/// The submissions in which something is shown under the given tool call.
pub open spec fn running_in(s: ThreadActorView, tool_call_id: Seq<char>) -> Set<Seq<char>> {
    s.submissions.dom().filter(|id: Seq<char>| is_running(s.submissions[id], tool_call_id))
}

/// A tool is stopped in every submission.
pub open spec fn all_stopped(
    before: ThreadActorView,
    after: ThreadActorView,
    tool_call_id: Seq<char>,
) -> bool {
    &&& after == ThreadActorView { submissions: after.submissions, ..before }
    &&& after.submissions.dom() == before.submissions.dom()
    &&& forall|id: Seq<char>| #[trigger]
        before.submissions.contains_key(id) ==> stopped(
            before.submissions[id],
            after.submissions[id],
            tool_call_id,
        )
}

/// As many notices as there were submissions to stop, all the same.
pub open spec fn stop_notices(count: nat, tool_call_id: Seq<char>) -> Seq<EffectView> {
    Seq::new(count, |i: int| EffectView::Notify(stop_notice(tool_call_id)))
}

/// The submissions that somebody still waits for.
pub open spec fn still_active(s: ThreadActorView, closed: Set<Seq<char>>) -> ThreadActorView {
    ThreadActorView {
        submissions: s.submissions.restrict(
            s.submissions.dom().filter(
                |id: Seq<char>| s.submissions[id].response_open && !closed.contains(id),
            ),
        ),
        ..s
    }
}

/// What is answered when a session is loaded: its models, its modes and its options.
pub open spec fn loaded(s: ThreadActorView, choice: ModelChoiceView) -> LoadResponseView {
    LoadResponseView {
        models: session_models(
            s.config,
            choice.presets,
            s.provider_entries,
            choice.current_model,
        ),
        modes: session_modes(s.config, s.presets),
        config_options: session_options(
            s.config,
            s.presets,
            choice.presets,
            s.provider_entries,
            choice.current_model,
        ),
    }
}

pub open spec fn submit_then(op: OpView, pending: PendingView) -> MessageOutcomeView {
    MessageOutcomeView::Submit { notice: None, op, then_apply: pending }
}

pub open spec fn mode_outcome(
    s: ThreadActorView,
    mode: Seq<char>,
    current_model: Seq<char>,
) -> MessageOutcomeView {
    match mode_settings(s.config, s.presets, mode, current_model) {
        Ok(op) => submit_then(op, PendingView::Mode(mode)),
        Err(error) => MessageOutcomeView::Refused(error),
    }
}

pub open spec fn model_outcome(change: Result<ModelChangeView, ErrorView>) -> MessageOutcomeView {
    match change {
        Ok(change) => submit_then(model_settings(change), PendingView::Model(change)),
        Err(error) => MessageOutcomeView::Refused(error),
    }
}

pub open spec fn prompt_outcome(plan: PromptPlanView) -> MessageOutcomeView {
    match plan {
        PromptPlanView::Submit { notice, op, prompt_text } => MessageOutcomeView::Submit {
            notice,
            op,
            then_apply: PendingView::Prompt { prompt_text },
        },
        PromptPlanView::Logout => MessageOutcomeView::Logout,
    }
}

/// What setting an option leads to.
pub open spec fn option_outcome(
    s: ThreadActorView,
    change: Result<SettingsChangeView, ErrorView>,
    current_model: Seq<char>,
) -> MessageOutcomeView {
    match change {
        Err(error) => MessageOutcomeView::Refused(error),
        Ok(SettingsChangeView::Mode(mode)) => mode_outcome(s, mode, current_model),
        Ok(SettingsChangeView::Model(change)) => model_outcome(Ok(change)),
        Ok(SettingsChangeView::Effort(effort)) => submit_then(
            effort_settings(effort),
            PendingView::Effort(effort),
        ),
    }
}

/// The session once the thread has answered a submission: what was pending takes effect where
/// it was accepted, and nothing changes where it was not. A mode takes effect when it is
/// configured.
pub open spec fn submission_answered(
    s: ThreadActorView,
    pending: PendingView,
    answer: Result<Seq<char>, Seq<char>>,
) -> ThreadActorView {
    match answer {
        Err(_) => s,
        Ok(id) => match pending {
            PendingView::Nothing => s,
            PendingView::Prompt { prompt_text } => submission_registered(s, id, prompt_text),
            PendingView::Mode(_) => s,
            PendingView::Model(change) => ThreadActorView {
                config: ConfigView {
                    model: Some(change.model),
                    model_reasoning_effort: change.effort,
                    ..s.config
                },
                ..s
            },
            PendingView::Effort(effort) => ThreadActorView {
                config: ConfigView { model_reasoning_effort: Some(effort), ..s.config },
                ..s
            },
        },
    }
}

/// What is left to do once the thread has accepted a submission.
pub open spec fn left_to_do(s: ThreadActorView, pending: PendingView) -> Result<
    AcceptedView,
    ErrorView,
> {
    match pending {
        PendingView::Mode(mode) => {
            let i = preset_index(s.presets, mode);
            if i < s.presets.len() {
                Ok(
                    AcceptedView::Configure {
                        mode,
                        approval: s.presets[i].approval,
                        permission_profile: s.presets[i].permission_profile,
                    },
                )
            } else {
                Err(bare_invalid_params())
            }
        },
        _ => Ok(AcceptedView::Done),
    }
}

/// How a submission is answered once the thread has answered it.
pub open spec fn submission_reply(
    s: ThreadActorView,
    pending: PendingView,
    answer: Result<Seq<char>, Seq<char>>,
) -> Result<AcceptedView, ErrorView> {
    match answer {
        Ok(_) => left_to_do(s, pending),
        Err(message) => Err(internal_error(message)),
    }
}

/// The session once the configuration has answered to a mode.
pub open spec fn mode_configured(
    s: ThreadActorView,
    mode: Seq<char>,
    answer: ConfigAnswerView,
) -> ThreadActorView {
    ThreadActorView { config: mode_applied(s.config, s.presets, mode, answer), ..s }
}

/// What a message changes and leads to.
pub open spec fn message_handled(
    before: ThreadActorView,
    after: ThreadActorView,
    message: ThreadMessageView,
    choice: ModelChoiceView,
    init_prompt: Seq<char>,
    outcome: MessageOutcomeView,
) -> bool {
    match message {
        ThreadMessageView::Load => after == before && outcome == MessageOutcomeView::Loaded(
            loaded(before, choice),
        ),
        ThreadMessageView::GetConfigOptions => after == before && outcome
            == MessageOutcomeView::Options(loaded(before, choice).config_options),
        ThreadMessageView::Prompt { items } => after == before && outcome
            == prompt_outcome(prompt_plan(items, init_prompt)),
        ThreadMessageView::SetMode { mode } => after == before && outcome == mode_outcome(
            before,
            mode,
            choice.current_model,
        ),
        ThreadMessageView::SetModel { model } => match provider_named(before.config, model) {
            Ok(switched) => after == ThreadActorView { config: switched, ..before } && outcome
                == model_outcome(
                requested_model(switched, decoded_value(model).1, choice.current_model),
            ),
            Err(error) => after == before && outcome == MessageOutcomeView::Refused(error),
        },
        ThreadMessageView::SetConfigOption { config_id, value } => {
            let (config, change) = option_set(
                before.config,
                choice.presets,
                choice.current_model,
                config_id,
                value,
            );
            after == ThreadActorView { config, ..before } && outcome == option_outcome(
                after,
                change,
                choice.current_model,
            )
        },
        ThreadMessageView::Cancel => after == all_detached(before) && outcome
            == submit_then(OpView::Interrupt, PendingView::Nothing),
        ThreadMessageView::StopTool { tool_call_id } => {
            &&& all_stopped(before, after, tool_call_id)
            &&& outcome == MessageOutcomeView::Stopped {
                notices: stop_notices(running_in(before, tool_call_id).len(), tool_call_id),
                op: if running_in(before, tool_call_id).len() > 0 {
                    Some(OpView::Interrupt)
                } else {
                    None
                },
            }
        },
        ThreadMessageView::Shutdown => after == all_detached(before) && outcome
            == submit_then(OpView::Shutdown, PendingView::Nothing),
        ThreadMessageView::ReplayHistory { history } => after == before && outcome
            == MessageOutcomeView::Replay(history_replayed(history, before.config.cwd)),
        ThreadMessageView::PermissionRequestResolved {
            submission_id,
            interaction_id,
            request_key,
            answer,
        } => (after, outcome) == ({
            let (state, resolution) = answer_routed(
                before,
                submission_id,
                interaction_id,
                request_key,
                answer,
            );
            (state, MessageOutcomeView::Permission(resolution))
        }),
    }
}

/// The messages after which the configuration options are told again, where they changed.
pub open spec fn tells_options(message: ThreadMessageView) -> bool {
    message is SetMode || message is SetModel
}

impl ThreadActor {
    pub fn new(
        config: Config,
        presets: Vec<ApprovalPreset>,
        provider_entries: Vec<KodexModelProviderEntry>,
    ) -> (actor: Self)
        ensures
            actor.deep_view() == (ThreadActorView {
                config: config.deep_view(),
                presets: presets.deep_view(),
                provider_entries: provider_entries.deep_view(),
                submissions: Map::empty(),
                last_sent_config_options: None,
                session_title: None,
            }),
    {
        ThreadActor {
            config,
            presets,
            provider_entries,
            submissions: StringMap::new(),
            last_sent_config_options: None,
            session_title: None,
        }
    }

    /// Takes a prompt that was accepted under the given identifier.
    pub fn register_submission(&mut self, submission_id: String, prompt_text: Option<String>)
        ensures
            final(self).deep_view() == submission_registered(
                old(self).deep_view(),
                submission_id@,
                prompt_text.deep_view(),
            ),
    {
        let state = PromptState::new(submission_id.clone(), prompt_text);
        self.submissions.insert(submission_id, state);
    }

    fn handle_global_event(&mut self, msg: &EventMsg) -> (effects: Vec<Effect>)
        ensures
            (final(self).deep_view(), effects.deep_view()) == global_event(
                old(self).deep_view(),
                msg.deep_view(),
            ),
    {
        match msg {
            EventMsg::SessionConfigured { thread_name } => match thread_name {
                Some(name) => match normalize_session_title(name.as_str(), None) {
                    Some(title) => match publish_session_title(&mut self.session_title, title) {
                        Some(message) => one(Effect::Notify(message)),
                        None => empty(),
                    },
                    None => empty(),
                },
                None => empty(),
            },
            _ => empty(),
        }
    }

    /// Takes an event of the thread; what is to be done about it is returned in order.
    pub fn handle_event(&mut self, client: &ClientCapabilities, event: Event) -> (effects: Vec<
        Effect,
    >)
        ensures
            (final(self).deep_view(), effects.deep_view()) == event_routed(
                old(self).deep_view(),
                client.deep_view(),
                event.deep_view(),
            ),
    {
        let mut effects = self.handle_global_event(&event.msg);
        let ghost first = effects.deep_view();
        let ghost before = self.submissions.deep_view();
        match self.submissions.remove(event.id.as_str()) {
            Some(state) => {
                let mut state = state;
                let mut more = state.handle_event(client, event.msg);
                let ghost second = more.deep_view();
                let ghost after = state.deep_view();
                self.submissions.insert(event.id, state);
                effects.append(&mut more);
                assert(effects.deep_view() =~= first + second);
                assert(self.submissions.deep_view() =~= before.insert(event.id@, after));
            },
            None => {
                assert(before.remove(event.id@) =~= before);
            },
        }
        effects
    }

    /// Takes note that an operation that an event led to was not accepted.
    pub fn event_failed(&mut self, submission_id: &str, error: Error) -> (effects: Vec<Effect>)
        ensures
            (final(self).deep_view(), effects.deep_view()) == failed_by_event(
                old(self).deep_view(),
                submission_id@,
                error.deep_view(),
            ),
    {
        let ghost before = self.submissions.deep_view();
        match self.submissions.remove(submission_id) {
            Some(state) => {
                let mut state = state;
                let effects = state.fail(error);
                let ghost after = state.deep_view();
                self.submissions.insert(submission_id.to_owned(), state);
                assert(self.submissions.deep_view() =~= before.insert(submission_id@, after));
                effects
            },
            None => {
                assert(before.remove(submission_id@) =~= before);
                empty()
            },
        }
    }

    /// Takes note that the operation that an answer led to was not accepted.
    pub fn resolution_failed(&mut self, submission_id: &str, error: Error) -> (effects: Vec<Effect>)
        ensures
            (final(self).deep_view(), effects.deep_view()) == failed_by_resolution(
                old(self).deep_view(),
                submission_id@,
                error.deep_view(),
            ),
    {
        let ghost before = self.submissions.deep_view();
        match self.submissions.remove(submission_id) {
            Some(state) => {
                let mut state = state;
                state.detach_pending_interactions();
                let effects = state.fail(error);
                let ghost after = state.deep_view();
                self.submissions.insert(submission_id.to_owned(), state);
                assert(self.submissions.deep_view() =~= before.insert(submission_id@, after));
                effects
            },
            None => {
                assert(before.remove(submission_id@) =~= before);
                empty()
            },
        }
    }

    /// Takes the client's answer to a permission request.
    pub fn handle_permission_request_resolved(
        &mut self,
        submission_id: String,
        interaction_id: u64,
        request_key: String,
        answer: PermissionAnswer,
    ) -> (resolution: ActorResolution)
        ensures
            (final(self).deep_view(), resolution.deep_view()) == answer_routed(
                old(self).deep_view(),
                submission_id@,
                interaction_id,
                request_key@,
                answer.deep_view(),
            ),
    {
        let ghost before = self.submissions.deep_view();
        match self.submissions.remove(submission_id.as_str()) {
            Some(state) => {
                let mut state = state;
                let ghost start = state.deep_view();
                let response = match answer {
                    PermissionAnswer::Answered(response) => Ok(response),
                    PermissionAnswer::Failed(error) => Err(error),
                };
                let resolution = match state.handle_permission_request_resolved(
                    interaction_id,
                    request_key,
                    response,
                ) {
                    PermissionResolution::Ignored => ActorResolution::Ignored,
                    PermissionResolution::Failed(error) => {
                        state.detach_pending_interactions();
                        ActorResolution::Failed(state.fail(error))
                    },
                    PermissionResolution::Resolved { op, followup } => ActorResolution::Submit {
                        op,
                        followup,
                    },
                };
                let ghost after = state.deep_view();
                self.submissions.insert(submission_id, state);
                assert(self.submissions.deep_view() =~= before.insert(submission_id@, after));
                assert(after == start ==> before.insert(submission_id@, after) =~= before);
                resolution
            },
            None => {
                assert(before.remove(submission_id@) =~= before);
                ActorResolution::Ignored
            },
        }
    }

    /// Drops what waits for the client in every submission.
    pub fn detach_pending_interactions(&mut self)
        ensures
            final(self).deep_view() == all_detached(old(self).deep_view()),
    {
        let ghost all = self.submissions.deep_view();
        let mut rest: StringMap<PromptState> = StringMap::new();
        core::mem::swap(&mut rest, &mut self.submissions);
        let mut done: StringMap<PromptState> = StringMap::new();
        let mut more = true;
        while more
            invariant
                forall|id: Seq<char>| #[trigger]
                    all.contains_key(id) <==> (rest.deep_view().contains_key(id)
                        || done.deep_view().contains_key(id)),
                forall|id: Seq<char>| #[trigger]
                    rest.deep_view().contains_key(id) ==> !done.deep_view().contains_key(id)
                        && rest.deep_view()[id] == all[id],
                forall|id: Seq<char>| #[trigger]
                    done.deep_view().contains_key(id) ==> done.deep_view()[id] == detached(all[id]),
                !more ==> rest.deep_view() == Map::<Seq<char>, PromptStateView>::empty(),
            decreases rest.entries@.len() + if more {
                1int
            } else {
                0
            },
        {
            match rest.take_first() {
                Some((id, state)) => {
                    let mut state = state;
                    state.detach_pending_interactions();
                    done.insert(id, state);
                },
                None => {
                    more = false;
                },
            }
        }
        self.submissions = done;
        assert(self.submissions.deep_view() =~= all.map_values(
            |state: PromptStateView| detached(state),
        ));
    }

    /// Stops what is shown under the given tool call, in every submission.
    pub fn handle_stop_tool(&mut self, tool_call_id: &str) -> (result: (bool, Vec<Effect>))
        ensures
            all_stopped(old(self).deep_view(), final(self).deep_view(), tool_call_id@),
            result.0 == (running_in(old(self).deep_view(), tool_call_id@).len() > 0),
            result.1.deep_view() == stop_notices(
                running_in(old(self).deep_view(), tool_call_id@).len(),
                tool_call_id@,
            ),
    {
        let ghost all = self.submissions.deep_view();
        let mut rest: StringMap<PromptState> = StringMap::new();
        core::mem::swap(&mut rest, &mut self.submissions);
        let mut done: StringMap<PromptState> = StringMap::new();
        let mut stopped_any = false;
        let mut notices: Vec<Effect> = empty();
        let ghost mut hit: Set<Seq<char>> = Set::empty();
        let mut more = true;
        assert(notices.deep_view() =~= stop_notices(0, tool_call_id@));
        while more
            invariant
                forall|id: Seq<char>| #[trigger]
                    all.contains_key(id) <==> (rest.deep_view().contains_key(id)
                        || done.deep_view().contains_key(id)),
                forall|id: Seq<char>| #[trigger]
                    rest.deep_view().contains_key(id) ==> !done.deep_view().contains_key(id)
                        && rest.deep_view()[id] == all[id],
                forall|id: Seq<char>| #[trigger]
                    done.deep_view().contains_key(id) ==> stopped(
                        all[id],
                        done.deep_view()[id],
                        tool_call_id@,
                    ),
                hit.finite(),
                forall|id: Seq<char>| #[trigger]
                    hit.contains(id) <==> done.deep_view().contains_key(id) && is_running(
                        all[id],
                        tool_call_id@,
                    ),
                stopped_any == (hit.len() > 0),
                notices.deep_view() == stop_notices(hit.len(), tool_call_id@),
                !more ==> rest.deep_view() == Map::<Seq<char>, PromptStateView>::empty(),
            decreases rest.entries@.len() + if more {
                1int
            } else {
                0
            },
        {
            match rest.take_first() {
                Some((id, state)) => {
                    let mut state = state;
                    let (found, mut notice) = state.stop_tool(tool_call_id);
                    let ghost before = notices.deep_view();
                    let ghost added = notice.deep_view();
                    notices.append(&mut notice);
                    assert(notices.deep_view() =~= before + added);
                    if found {
                        stopped_any = true;
                        proof {
                            assert(!hit.contains(id@));
                            hit = hit.insert(id@);
                            assert(notices.deep_view() =~= stop_notices(hit.len(), tool_call_id@));
                        }
                    } else {
                        assert(before + added =~= before);
                    }
                    done.insert(id, state);
                },
                None => {
                    more = false;
                },
            }
        }
        self.submissions = done;
        proof {
            assert(hit =~= running_in(old(self).deep_view(), tool_call_id@));
            assert(self.submissions.deep_view().dom() =~= all.dom());
        }
        (stopped_any, notices)
    }

    /// Forgets the submissions that nobody waits for any longer. `closed` names those whose
    /// receiver has gone.
    pub fn collect_litter(&mut self, closed: &StringSet)
        ensures
            final(self).deep_view() == still_active(old(self).deep_view(), closed.deep_view()),
    {
        let ghost all = self.submissions.deep_view();
        let mut rest: StringMap<PromptState> = StringMap::new();
        core::mem::swap(&mut rest, &mut self.submissions);
        let mut kept: StringMap<PromptState> = StringMap::new();
        let ghost mut seen: Set<Seq<char>> = Set::empty();
        let mut more = true;
        while more
            invariant
                forall|id: Seq<char>| #[trigger]
                    all.contains_key(id) <==> (rest.deep_view().contains_key(id) || seen.contains(
                        id,
                    )),
                forall|id: Seq<char>| #[trigger]
                    rest.deep_view().contains_key(id) ==> !seen.contains(id)
                        && rest.deep_view()[id] == all[id],
                forall|id: Seq<char>| #[trigger]
                    kept.deep_view().contains_key(id) <==> seen.contains(id)
                        && all[id].response_open && !closed.deep_view().contains(id),
                forall|id: Seq<char>| #[trigger]
                    kept.deep_view().contains_key(id) ==> kept.deep_view()[id] == all[id],
                !more ==> rest.deep_view() == Map::<Seq<char>, PromptStateView>::empty(),
            decreases rest.entries@.len() + if more {
                1int
            } else {
                0
            },
        {
            match rest.take_first() {
                Some((id, state)) => {
                    let gone = closed.contains(id.as_str());
                    proof {
                        seen = seen.insert(id@);
                    }
                    if state.is_active(gone) {
                        kept.insert(id, state);
                    }
                },
                None => {
                    more = false;
                },
            }
        }
        self.submissions = kept;
        assert(self.submissions.deep_view() =~= still_active(
            old(self).deep_view(),
            closed.deep_view(),
        ).submissions);
    }

    /// Whether the session ends: no message can come, and nobody waits for a response.
    pub fn is_finished(&self, messages_open: bool) -> (finished: bool)
        ensures
            finished == (!messages_open && self.deep_view().submissions == Map::<
                Seq<char>,
                PromptStateView,
            >::empty()),
    {
        !messages_open && self.submissions.is_empty()
    }

    /// The configuration options, where they differ from those sent last.
    pub fn emit_config_options(&mut self, choice: ModelChoice) -> (message: Option<Notification>)
        ensures
            ({
                let (last_sent, update) = options_update(
                    old(self).deep_view().last_sent_config_options,
                    loaded(old(self).deep_view(), choice.deep_view()).config_options,
                );
                &&& message.deep_view() == update
                &&& final(self).deep_view() == (ThreadActorView {
                    last_sent_config_options: last_sent,
                    ..old(self).deep_view()
                })
            }),
    {
        let options = config_options(
            &self.config,
            &self.presets,
            choice.presets,
            &self.provider_entries,
            choice.current_model.as_str(),
        );
        maybe_emit_config_options_update(&mut self.last_sent_config_options, options)
    }

    fn handle_load(&self, choice: ModelChoice, again: Vec<ModelPreset>) -> (response: LoadResponse)
        requires
            again.deep_view() == choice.deep_view().presets,
        ensures
            response.deep_view() == loaded(self.deep_view(), choice.deep_view()),
    {
        LoadResponse {
            models: models(
                &self.config,
                choice.presets,
                &self.provider_entries,
                choice.current_model.as_str(),
            ),
            modes: modes(&self.config, &self.presets),
            config_options: config_options(
                &self.config,
                &self.presets,
                again,
                &self.provider_entries,
                choice.current_model.as_str(),
            ),
        }
    }

    fn change_mode(&self, mode: String, current_model: &str) -> (outcome: MessageOutcome)
        ensures
            outcome.deep_view() == mode_outcome(self.deep_view(), mode@, current_model@),
    {
        match handle_set_mode(&self.config, &self.presets, mode.as_str(), current_model) {
            Ok(op) => MessageOutcome::Submit { notice: None, op, then_apply: Pending::Mode(mode) },
            Err(error) => MessageOutcome::Refused(error),
        }
    }

    fn change_option(
        &mut self,
        config_id: String,
        value: ConfigValue,
        choice: &ModelChoice,
    ) -> (outcome: MessageOutcome)
        ensures
            message_handled(
                old(self).deep_view(),
                final(self).deep_view(),
                ThreadMessageView::SetConfigOption {
                    config_id: config_id@,
                    value: value.deep_view(),
                },
                choice.deep_view(),
                Seq::empty(),
                outcome.deep_view(),
            ),
    {
        match handle_set_config_option(
            &mut self.config,
            &choice.presets,
            choice.current_model.as_str(),
            config_id.as_str(),
            value,
        ) {
            Ok(SettingsChange::Mode(mode)) => self.change_mode(
                mode,
                choice.current_model.as_str(),
            ),
            Ok(SettingsChange::Model(change)) => MessageOutcome::Submit {
                notice: None,
                op: model_change_op(&change),
                then_apply: Pending::Model(change),
            },
            Ok(SettingsChange::Effort(effort)) => MessageOutcome::Submit {
                notice: None,
                op: effort_change_op(effort),
                then_apply: Pending::Effort(effort),
            },
            Err(error) => MessageOutcome::Refused(error),
        }
    }

    /// Drops what waits for the client, and interrupts the turn.
    pub fn handle_cancel(&mut self) -> (outcome: MessageOutcome)
        ensures
            final(self).deep_view() == all_detached(old(self).deep_view()),
            outcome.deep_view() == submit_then(OpView::Interrupt, PendingView::Nothing),
    {
        self.detach_pending_interactions();
        MessageOutcome::Submit { notice: None, op: Op::Interrupt, then_apply: Pending::Nothing }
    }

    /// Drops what waits for the client, and ends the thread.
    pub fn handle_shutdown(&mut self) -> (outcome: MessageOutcome)
        ensures
            final(self).deep_view() == all_detached(old(self).deep_view()),
            outcome.deep_view() == submit_then(OpView::Shutdown, PendingView::Nothing),
    {
        self.detach_pending_interactions();
        MessageOutcome::Submit { notice: None, op: Op::Shutdown, then_apply: Pending::Nothing }
    }

    /// Takes the thread's answer to what was submitted for a message: the identifier of the
    /// submission, or why it was refused. Tells what is left to do.
    pub fn handle_submitted(&mut self, pending: Pending, answer: Result<String, String>) -> (reply:
        Result<Accepted, Error>)
        ensures
            final(self).deep_view() == submission_answered(
                old(self).deep_view(),
                pending.deep_view(),
                result_view(answer),
            ),
            result_view(reply) == submission_reply(
                old(self).deep_view(),
                pending.deep_view(),
                result_view(answer),
            ),
    {
        let id = match answer {
            Ok(id) => id,
            Err(message) => {
                return Err(internal(message));
            },
        };
        match pending {
            Pending::Nothing => Ok(Accepted::Done),
            Pending::Prompt { prompt_text } => {
                self.register_submission(id, prompt_text);
                Ok(Accepted::Done)
            },
            Pending::Mode(mode) => match find_preset(&self.presets, mode.as_str()) {
                Some(preset) => {
                    let approval = preset.approval;
                    let permission_profile = preset.permission_profile.duplicate();
                    Ok(Accepted::Configure { mode, approval, permission_profile })
                },
                None => Err(Error { kind: ErrorKind::InvalidParams, data: None }),
            },
            Pending::Model(change) => {
                apply_model(&mut self.config, change);
                Ok(Accepted::Done)
            },
            Pending::Effort(effort) => {
                apply_effort(&mut self.config, effort);
                Ok(Accepted::Done)
            },
        }
    }

    /// Takes the configuration's answer to a mode that the thread has accepted. Tells whether the
    /// project is to be trusted from now on, or why the mode is not set.
    pub fn handle_configured(&mut self, mode: &str, answer: ConfigAnswer) -> (reply: Result<
        bool,
        Error,
    >)
        ensures
            final(self).deep_view() == mode_configured(
                old(self).deep_view(),
                mode@,
                answer.deep_view(),
            ),
            result_view(reply) == mode_reply(
                old(self).deep_view().presets,
                mode@,
                answer.deep_view(),
            ),
    {
        apply_mode(&mut self.config, &self.presets, mode, answer)
    }

    /// Takes a message; what it leads to is returned. `choice` tells the models of the moment, and
    /// `init_prompt` is what `/init` submits.
    pub fn handle_message(
        &mut self,
        message: ThreadMessage,
        choice: ModelChoice,
        init_prompt: &str,
    ) -> (outcome: MessageOutcome)
        ensures
            message_handled(
                old(self).deep_view(),
                final(self).deep_view(),
                message.deep_view(),
                choice.deep_view(),
                init_prompt@,
                outcome.deep_view(),
            ),
    {
        match message {
            ThreadMessage::Load => {
                let again = copy_presets(&choice.presets);
                MessageOutcome::Loaded(self.handle_load(choice, again))
            },
            ThreadMessage::GetConfigOptions => MessageOutcome::Options(
                config_options(
                    &self.config,
                    &self.presets,
                    choice.presets,
                    &self.provider_entries,
                    choice.current_model.as_str(),
                ),
            ),
            ThreadMessage::Prompt { items } => match handle_prompt(items, init_prompt) {
                PromptPlan::Submit { notice, op, prompt_text } => MessageOutcome::Submit {
                    notice,
                    op,
                    then_apply: Pending::Prompt { prompt_text },
                },
                PromptPlan::Logout => MessageOutcome::Logout,
            },
            ThreadMessage::SetMode { mode } => self.change_mode(
                mode,
                choice.current_model.as_str(),
            ),
            ThreadMessage::SetModel { model } => {
                match handle_set_model(
                    &mut self.config,
                    model.as_str(),
                    choice.current_model.as_str(),
                ) {
                    Ok(change) => MessageOutcome::Submit {
                        notice: None,
                        op: model_change_op(&change),
                        then_apply: Pending::Model(change),
                    },
                    Err(error) => MessageOutcome::Refused(error),
                }
            },
            ThreadMessage::SetConfigOption { config_id, value } => {
                self.change_option(config_id, value, &choice)
            },
            ThreadMessage::Cancel => self.handle_cancel(),
            ThreadMessage::StopTool { tool_call_id } => {
                let (found, notices) = self.handle_stop_tool(tool_call_id.as_str());
                let op = if found {
                    Some(Op::Interrupt)
                } else {
                    None
                };
                MessageOutcome::Stopped { notices, op }
            },
            ThreadMessage::Shutdown => self.handle_shutdown(),
            ThreadMessage::ReplayHistory { history } => MessageOutcome::Replay(
                handle_replay_history(history, self.config.cwd.as_str()),
            ),
            ThreadMessage::PermissionRequestResolved {
                submission_id,
                interaction_id,
                request_key,
                answer,
            } => MessageOutcome::Permission(
                self.handle_permission_request_resolved(
                    submission_id,
                    interaction_id,
                    request_key,
                    answer,
                ),
            ),
        }
    }
}

/// Whether the configuration options are told again after a message.
pub fn message_tells_options(message: &ThreadMessage) -> (tells: bool)
    ensures
        tells == tells_options(message.deep_view()),
{
    match message {
        ThreadMessage::SetMode { .. } => true,
        ThreadMessage::SetModel { .. } => true,
        _ => false,
    }
}

fn copy_efforts(efforts: &Vec<EffortPreset>) -> (copy: Vec<EffortPreset>)
    ensures
        copy.deep_view() == efforts.deep_view(),
{
    let mut copy: Vec<EffortPreset> = empty();
    let ghost all = efforts.deep_view();
    for i in 0..efforts.len()
        invariant
            all == efforts.deep_view(),
            copy.deep_view() == all.take(i as int),
    {
        assert(all.take(i + 1) =~= all.take(i as int).push(all[i as int]));
        add_item(
            &mut copy,
            EffortPreset {
                effort: efforts[i].effort,
                description: efforts[i].description.clone(),
            },
        );
    }
    assert(all.take(all.len() as int) =~= all);
    copy
}

fn copy_presets(presets: &Vec<ModelPreset>) -> (copy: Vec<ModelPreset>)
    ensures
        copy.deep_view() == presets.deep_view(),
{
    let mut copy: Vec<ModelPreset> = empty();
    let ghost all = presets.deep_view();
    for i in 0..presets.len()
        invariant
            all == presets.deep_view(),
            copy.deep_view() == all.take(i as int),
    {
        assert(all.take(i + 1) =~= all.take(i as int).push(all[i as int]));
        let preset = &presets[i];
        add_item(
            &mut copy,
            ModelPreset {
                id: preset.id.clone(),
                model: preset.model.clone(),
                display_name: preset.display_name.clone(),
                description: preset.description.clone(),
                default_reasoning_effort: preset.default_reasoning_effort,
                supported_reasoning_efforts: copy_efforts(&preset.supported_reasoning_efforts),
                show_in_picker: preset.show_in_picker,
            },
        );
    }
    assert(all.take(all.len() as int) =~= all);
    copy
}

/// Every submission is kept under its own identifier, with its commands under their tool calls.
pub open spec fn submissions_are_keyed(s: ThreadActorView) -> bool {
    forall|id: Seq<char>| #[trigger]
        s.submissions.contains_key(id) ==> s.submissions[id].submission_id == id
            && commands_are_keyed(s.submissions[id])
}

/// A new session has its submissions under their identifiers, and a prompt that is accepted keeps
/// them there and is waited for.
pub proof fn accepted_prompt_is_kept(
    s: ThreadActorView,
    id: Seq<char>,
    prompt_text: Option<Seq<char>>,
)
    ensures
        submissions_are_keyed(s) ==> submissions_are_keyed(
            submission_registered(s, id, prompt_text),
        ),
        submission_registered(s, id, prompt_text).submissions.contains_key(id),
        submission_registered(s, id, prompt_text).submissions[id].response_open,
{
    new_turn_is_keyed(id, prompt_text);
}

/// An event concerns the submission that it belongs to and no other: every other submission stays
/// as it is, none comes and none goes, and each stays under its identifier.
pub proof fn event_concerns_its_submission(
    s: ThreadActorView,
    client: Option<Seq<(Seq<char>, JsonView)>>,
    event: EventView,
)
    ensures
        ({
            let after = event_routed(s, client, event).0;
            &&& after.submissions.dom() == s.submissions.dom()
            &&& forall|id: Seq<char>| #[trigger]
                s.submissions.contains_key(id) && id != event.id ==> after.submissions[id]
                    == s.submissions[id]
            &&& after == (ThreadActorView {
                submissions: after.submissions,
                session_title: after.session_title,
                ..s
            })
            &&& submissions_are_keyed(s) ==> submissions_are_keyed(after)
        }),
{
    let told = global_event(s, event.msg).0;
    let after = event_routed(s, client, event).0;
    if s.submissions.contains_key(event.id) {
        turn_keeps_its_identity(told.submissions[event.id], client, event.msg);
        assert(after.submissions.dom() =~= s.submissions.dom());
    }
}

/// An event of a submission that is not known is ignored, apart from the title it may tell.
pub proof fn unknown_event_is_ignored(
    s: ThreadActorView,
    client: Option<Seq<(Seq<char>, JsonView)>>,
    event: EventView,
)
    requires
        !s.submissions.contains_key(event.id),
    ensures
        event_routed(s, client, event) == global_event(s, event.msg),
        !(event.msg is SessionConfigured) ==> event_routed(s, client, event) == (
            s,
            Seq::<EffectView>::empty(),
        ),
{
}

/// The answer to a permission request concerns its submission and no other; one for a submission
/// that is gone, or for a request that does not wait, changes nothing.
pub proof fn answer_concerns_its_submission(
    s: ThreadActorView,
    submission_id: Seq<char>,
    interaction_id: u64,
    request_key: Seq<char>,
    answer: PermissionAnswerView,
)
    ensures
        ({
            let (after, resolution) = answer_routed(
                s,
                submission_id,
                interaction_id,
                request_key,
                answer,
            );
            &&& after.submissions.dom() == s.submissions.dom()
            &&& forall|id: Seq<char>| #[trigger]
                s.submissions.contains_key(id) && id != submission_id ==> after.submissions[id]
                    == s.submissions[id]
            &&& resolution is Ignored ==> after == s
            &&& !s.submissions.contains_key(submission_id) ==> resolution is Ignored
            &&& submissions_are_keyed(s) ==> submissions_are_keyed(after)
        }),
{
    let after = answer_routed(s, submission_id, interaction_id, request_key, answer).0;
    if s.submissions.contains_key(submission_id) {
        assert(after.submissions.dom() =~= s.submissions.dom());
    }
}

/// A request that could not be put to the client fails its submission: it is answered with the
/// error, and nothing of it waits any longer.
pub proof fn failed_request_fails_its_submission(
    s: ThreadActorView,
    submission_id: Seq<char>,
    interaction_id: u64,
    request_key: Seq<char>,
    error: ErrorView,
)
    requires
        s.submissions.contains_key(submission_id),
        s.submissions[submission_id].pending_permission_interactions.contains_key(request_key),
        s.submissions[submission_id].pending_permission_interactions[request_key].id
            == interaction_id,
        s.submissions[submission_id].response_open,
    ensures
        ({
            let (after, resolution) = answer_routed(
                s,
                submission_id,
                interaction_id,
                request_key,
                PermissionAnswerView::Failed(error),
            );
            &&& resolution == ActorResolutionView::Failed(
                seq![EffectView::Respond(PromptResultView::Failed(error))],
            )
            &&& !after.submissions[submission_id].response_open
            &&& after.submissions[submission_id].pending_permission_interactions == Map::<
                Seq<char>,
                PendingPermissionInteractionView,
            >::empty()
        }),
{
}

/// After a cancellation or a shutdown every answer that still comes is ignored, while every
/// submission still waits for its response.
pub proof fn late_answers_are_ignored(
    s: ThreadActorView,
    submission_id: Seq<char>,
    interaction_id: u64,
    request_key: Seq<char>,
    answer: PermissionAnswerView,
)
    ensures
        answer_routed(all_detached(s), submission_id, interaction_id, request_key, answer) == (
            all_detached(s),
            ActorResolutionView::Ignored,
        ),
        all_detached(s).submissions.dom() == s.submissions.dom(),
        forall|id: Seq<char>| #[trigger]
            s.submissions.contains_key(id) ==> all_detached(s).submissions[id].response_open
                == s.submissions[id].response_open,
        submissions_are_keyed(s) ==> submissions_are_keyed(all_detached(s)),
{
    let after = all_detached(s);
    if after.submissions.contains_key(submission_id) {
        detached_turn_ignores_answers(
            s.submissions[submission_id],
            interaction_id,
            request_key,
            answer_result(answer),
        );
    }
}

/// Stopping a tool that no submission runs changes nothing.
pub proof fn stopping_unknown_tool_changes_nothing(
    before: ThreadActorView,
    after: ThreadActorView,
    tool_call_id: Seq<char>,
)
    requires
        all_stopped(before, after, tool_call_id),
        forall|id: Seq<char>| #[trigger]
            before.submissions.contains_key(id) ==> !is_running(
                before.submissions[id],
                tool_call_id,
            ),
    ensures
        after == before,
        running_in(before, tool_call_id) == Set::<Seq<char>>::empty(),
{
    assert(running_in(before, tool_call_id) =~= Set::<Seq<char>>::empty());
    assert forall|id: Seq<char>| #[trigger] before.submissions.contains_key(id) implies after
        .submissions[id] == before.submissions[id] by {
        stopping_nothing_changes_nothing(
            before.submissions[id],
            after.submissions[id],
            tool_call_id,
        );
    }
    assert(after.submissions =~= before.submissions);
}

/// Stopping a tool interrupts the thread exactly where a submission runs it.
pub proof fn tool_that_runs_is_interrupted(
    before: ThreadActorView,
    after: ThreadActorView,
    tool_call_id: Seq<char>,
    choice: ModelChoiceView,
    init_prompt: Seq<char>,
    outcome: MessageOutcomeView,
)
    requires
        before.submissions.dom().finite(),
        message_handled(
            before,
            after,
            ThreadMessageView::StopTool { tool_call_id },
            choice,
            init_prompt,
            outcome,
        ),
    ensures
        outcome matches MessageOutcomeView::Stopped { notices, op } && ({
            let runs = exists|id: Seq<char>| #[trigger]
                before.submissions.contains_key(id) && is_running(
                    before.submissions[id],
                    tool_call_id,
                );
            &&& runs <==> op == Some(OpView::Interrupt)
            &&& !runs <==> op is None
            &&& !runs ==> notices.len() == 0 && after == before
        }),
{
    let found = running_in(before, tool_call_id);
    if exists|id: Seq<char>| #[trigger]
        before.submissions.contains_key(id) && is_running(before.submissions[id], tool_call_id) {
        let id = choose|id: Seq<char>| #[trigger]
            before.submissions.contains_key(id) && is_running(before.submissions[id], tool_call_id);
        assert(found.contains(id));
        assert(found.finite());
        assert(found.len() > 0) by {
            if found.len() == 0 {
                assert(found =~= Set::<Seq<char>>::empty());
            }
        }
    } else {
        stopping_unknown_tool_changes_nothing(before, after, tool_call_id);
    }
}

/// A submission is forgotten once it is answered or nobody waits for it, and not before.
pub proof fn answered_submission_is_forgotten(
    s: ThreadActorView,
    closed: Set<Seq<char>>,
    id: Seq<char>,
)
    ensures
        still_active(s, closed).submissions.contains_key(id) <==> s.submissions.contains_key(id)
            && s.submissions[id].response_open && !closed.contains(id),
        still_active(s, closed).submissions.contains_key(id) ==> still_active(
            s,
            closed,
        ).submissions[id] == s.submissions[id],
        still_active(still_active(s, closed), closed) == still_active(s, closed),
{
    let once = still_active(s, closed);
    assert(still_active(once, closed).submissions =~= once.submissions);
}

/// A submission is forgotten after the event that answers its turn.
pub proof fn ended_submission_is_forgotten(
    s: ThreadActorView,
    client: Option<Seq<(Seq<char>, JsonView)>>,
    event: EventView,
    closed: Set<Seq<char>>,
)
    requires
        settles_turn(event.msg),
    ensures
        !still_active(event_routed(s, client, event).0, closed).submissions.contains_key(event.id),
{
    let told = global_event(s, event.msg).0;
    if told.submissions.contains_key(event.id) {
        turn_is_answered_when_it_ends(told.submissions[event.id], client, event.msg);
    }
}

/// What the thread refuses changes nothing, and is answered with an error that says why.
pub proof fn refused_submission_changes_nothing(
    s: ThreadActorView,
    pending: PendingView,
    message: Seq<char>,
)
    ensures
        submission_answered(s, pending, Err(message)) == s,
{
}

/// Messages leave the submissions alone, unless they cancel, stop, end or answer something; and
/// no message but the choice of a model changes the configuration before it is accepted.
pub proof fn messages_change_only_what_they_concern(
    before: ThreadActorView,
    after: ThreadActorView,
    message: ThreadMessageView,
    choice: ModelChoiceView,
    init_prompt: Seq<char>,
    outcome: MessageOutcomeView,
)
    requires
        message_handled(before, after, message, choice, init_prompt, outcome),
    ensures
        after.session_title == before.session_title,
        after.last_sent_config_options == before.last_sent_config_options,
        after.submissions.dom() == before.submissions.dom(),
        !(message is SetModel) && !(message is SetConfigOption) ==> after.config == before.config,
        after.config == (ConfigView {
            model_provider_id: after.config.model_provider_id,
            ..before.config
        }),
        !(message is Cancel) && !(message is Shutdown) && !(message is StopTool) && !(message
            is PermissionRequestResolved) ==> after.submissions == before.submissions,
{
    match message {
        ThreadMessageView::PermissionRequestResolved {
            submission_id,
            interaction_id,
            request_key,
            answer,
        } => {
            answer_concerns_its_submission(
                before,
                submission_id,
                interaction_id,
                request_key,
                answer,
            );
        },
        ThreadMessageView::SetConfigOption { config_id, value } => {
            options_wait_for_acceptance(
                before.config,
                choice.presets,
                choice.current_model,
                config_id,
                value,
            );
        },
        ThreadMessageView::Cancel => {
            assert(after.submissions.dom() =~= before.submissions.dom());
        },
        ThreadMessageView::Shutdown => {
            assert(after.submissions.dom() =~= before.submissions.dom());
        },
        _ => {},
    }
}

} // verus!
