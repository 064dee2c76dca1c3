//! The state of a prompt turn, and what its events and answers lead to.
use crate::client::{new_status_update, plain, status_update, tool_call_update};
use crate::collections::{
    StringMap, StringSet, empty, lemma_listed, lemma_present, one, result_view, two,
};
use crate::json::{Json, JsonView, text_value};
use crate::permissions::{
    PendingPermissionInteraction, PendingPermissionInteractionView, PendingPermissionRequest,
    PendingPermissionRequestView, PermissionOutcome, PermissionOutcomeView, PermissionResponse,
    PermissionResponseView, ResolvedMcpElicitation, ResolvedMcpElicitationView,
    ResolvedUserInputAnswer, ResolvedUserInputAnswerView,
};
use crate::permissions::answers::{
    empty_user_input_response, guidance_followup, permission_guidance_followup,
    permission_guidance_from_response, response_answers, response_guidance, single_answer,
    user_input_response_from_answer, user_input_response_from_permission_response,
};
use crate::permissions::elicitation::elicitation_cancelled;
use crate::protocol::{
    Error, ErrorView, GrantedPermissions, GrantedPermissionsView, Notification, NotificationView,
    Op, OpView, PermissionGrantScope, PermissionOption, PermissionOptionView, PermissionsResponse,
    PermissionsResponseView, PromptResult, PromptResultView, ReviewDecision, ReviewDecisionView,
    SessionUpdateView, ToolCallContent, ToolCallContentView, ToolCallStatus, ToolCallUpdate,
    ToolCallUpdateView,
};
use crate::text::{is_some_text, same};
use vstd::prelude::*;

verus! {

/// A command that runs, or waits for approval.
#[derive(Debug)]
pub struct ActiveCommand {
    pub tool_call_id: String,
    pub terminal_output: bool,
    pub output: String,
    pub file_extension: Option<String>,
}

#[verifier::ext_equal]
pub struct ActiveCommandView {
    pub tool_call_id: Seq<char>,
    pub terminal_output: bool,
    pub output: Seq<char>,
    pub file_extension: Option<Seq<char>>,
}

impl DeepView for ActiveCommand {
    type V = ActiveCommandView;

    open spec fn deep_view(&self) -> ActiveCommandView {
        ActiveCommandView {
            tool_call_id: self.tool_call_id.deep_view(),
            terminal_output: self.terminal_output.deep_view(),
            output: self.output.deep_view(),
            file_extension: self.file_extension.deep_view(),
        }
    }
}

/// A permission request to put to the client.
#[derive(Debug)]
pub struct PermissionRequest {
    pub submission_id: String,
    pub interaction_id: u64,
    pub request_key: String,
    pub tool_call: ToolCallUpdate,
    pub options: Vec<PermissionOption>,
    pub meta: Option<Vec<(String, Json)>>,
}

#[verifier::ext_equal]
pub struct PermissionRequestView {
    pub submission_id: Seq<char>,
    pub interaction_id: u64,
    pub request_key: Seq<char>,
    pub tool_call: ToolCallUpdateView,
    pub options: Seq<PermissionOptionView>,
    pub meta: Option<Seq<(Seq<char>, JsonView)>>,
}

impl DeepView for PermissionRequest {
    type V = PermissionRequestView;

    open spec fn deep_view(&self) -> PermissionRequestView {
        PermissionRequestView {
            submission_id: self.submission_id.deep_view(),
            interaction_id: self.interaction_id.deep_view(),
            request_key: self.request_key.deep_view(),
            tool_call: self.tool_call.deep_view(),
            options: self.options.deep_view(),
            meta: self.meta.deep_view(),
        }
    }
}

/// What is to be done after an event, in order.
#[derive(Debug)]
pub enum Effect {
    Notify(Notification),
    RequestPermission(PermissionRequest),
    Submit(Op),
    PublishTitle { response_text: Option<String> },
    Respond(PromptResult),
}

#[verifier::ext_equal]
pub enum EffectView {
    Notify(NotificationView),
    RequestPermission(PermissionRequestView),
    Submit(OpView),
    PublishTitle { response_text: Option<Seq<char>> },
    Respond(PromptResultView),
}

impl DeepView for Effect {
    type V = EffectView;

    open spec fn deep_view(&self) -> EffectView {
        match self {
            Effect::Notify(value) => EffectView::Notify(value.deep_view()),
            Effect::RequestPermission(value) => EffectView::RequestPermission(value.deep_view()),
            Effect::Submit(value) => EffectView::Submit(value.deep_view()),
            Effect::PublishTitle { response_text } => EffectView::PublishTitle {
                response_text: response_text.deep_view(),
            },
            Effect::Respond(value) => EffectView::Respond(value.deep_view()),
        }
    }
}

/// The state of a prompt turn.
#[derive(Debug)]
pub struct PromptState {
    pub submission_id: String,
    pub active_commands: StringMap<ActiveCommand>,
    pub active_agent_owned_tools: StringSet,
    pub stopped_agent_owned_tools: StringSet,
    pub active_web_search: Option<String>,
    pub active_image_generations: StringSet,
    pub active_guardian_assessments: StringMap<String>,
    pub prompt_text: Option<String>,
    pub pending_permission_interactions: StringMap<PendingPermissionInteraction>,
    pub next_permission_interaction_id: u64,
    pub response_open: bool,
    pub seen_final_message_deltas: bool,
    pub seen_commentary_message_deltas: bool,
    pub seen_reasoning_deltas: bool,
    pub agent_message_text: String,
    pub commentary_message_item_ids: StringSet,
}

#[verifier::ext_equal]
pub struct PromptStateView {
    pub submission_id: Seq<char>,
    pub active_commands: Map<Seq<char>, ActiveCommandView>,
    pub active_agent_owned_tools: Set<Seq<char>>,
    pub stopped_agent_owned_tools: Set<Seq<char>>,
    pub active_web_search: Option<Seq<char>>,
    pub active_image_generations: Set<Seq<char>>,
    pub active_guardian_assessments: Map<Seq<char>, Seq<char>>,
    pub prompt_text: Option<Seq<char>>,
    pub pending_permission_interactions: Map<Seq<char>, PendingPermissionInteractionView>,
    pub next_permission_interaction_id: u64,
    pub response_open: bool,
    pub seen_final_message_deltas: bool,
    pub seen_commentary_message_deltas: bool,
    pub seen_reasoning_deltas: bool,
    pub agent_message_text: Seq<char>,
    pub commentary_message_item_ids: Set<Seq<char>>,
}

impl DeepView for PromptState {
    type V = PromptStateView;

    open spec fn deep_view(&self) -> PromptStateView {
        PromptStateView {
            submission_id: self.submission_id.deep_view(),
            active_commands: self.active_commands.deep_view(),
            active_agent_owned_tools: self.active_agent_owned_tools.deep_view(),
            stopped_agent_owned_tools: self.stopped_agent_owned_tools.deep_view(),
            active_web_search: self.active_web_search.deep_view(),
            active_image_generations: self.active_image_generations.deep_view(),
            active_guardian_assessments: self.active_guardian_assessments.deep_view(),
            prompt_text: self.prompt_text.deep_view(),
            pending_permission_interactions: self.pending_permission_interactions.deep_view(),
            next_permission_interaction_id: self.next_permission_interaction_id.deep_view(),
            response_open: self.response_open.deep_view(),
            seen_final_message_deltas: self.seen_final_message_deltas.deep_view(),
            seen_commentary_message_deltas: self.seen_commentary_message_deltas.deep_view(),
            seen_reasoning_deltas: self.seen_reasoning_deltas.deep_view(),
            agent_message_text: self.agent_message_text.deep_view(),
            commentary_message_item_ids: self.commentary_message_item_ids.deep_view(),
        }
    }
}

/// What the answer to a permission request leads to.
#[derive(Debug)]
pub enum PermissionResolution {
    Ignored,
    Failed(Error),
    Resolved { op: Op, followup: Option<String> },
}

#[verifier::ext_equal]
pub enum PermissionResolutionView {
    Ignored,
    Failed(ErrorView),
    Resolved { op: OpView, followup: Option<Seq<char>> },
}

impl DeepView for PermissionResolution {
    type V = PermissionResolutionView;

    open spec fn deep_view(&self) -> PermissionResolutionView {
        match self {
            PermissionResolution::Ignored => PermissionResolutionView::Ignored,
            PermissionResolution::Failed(value) => PermissionResolutionView::Failed(
                value.deep_view(),
            ),
            PermissionResolution::Resolved { op, followup } => PermissionResolutionView::Resolved {
                op: op.deep_view(),
                followup: followup.deep_view(),
            },
        }
    }
}

/// A new turn: nothing runs, nothing waits, and the client waits for its response.
pub open spec fn new_prompt(
    submission_id: Seq<char>,
    prompt_text: Option<Seq<char>>,
) -> PromptStateView {
    PromptStateView {
        submission_id,
        active_commands: Map::empty(),
        active_agent_owned_tools: Set::empty(),
        stopped_agent_owned_tools: Set::empty(),
        active_web_search: None,
        active_image_generations: Set::empty(),
        active_guardian_assessments: Map::empty(),
        prompt_text,
        pending_permission_interactions: Map::empty(),
        next_permission_interaction_id: 0,
        response_open: true,
        seen_final_message_deltas: false,
        seen_commentary_message_deltas: false,
        seen_reasoning_deltas: false,
        agent_message_text: Seq::empty(),
        commentary_message_item_ids: Set::empty(),
    }
}

/// One notification.
pub open spec fn notify(notification: NotificationView) -> Seq<EffectView> {
    seq![EffectView::Notify(notification)]
}

/// The turn is answered, unless it has been answered before.
pub open spec fn responded(s: PromptStateView, result: PromptResultView) -> (
    PromptStateView,
    Seq<EffectView>,
) {
    if s.response_open {
        (PromptStateView { response_open: false, ..s }, seq![EffectView::Respond(result)])
    } else {
        (s, seq![])
    }
}

/// No permission request waits any longer: an answer that still comes is ignored.
pub open spec fn detached(s: PromptStateView) -> PromptStateView {
    PromptStateView { pending_permission_interactions: Map::empty(), ..s }
}

pub open spec fn next_interaction(id: u64) -> u64 {
    if id == u64::MAX {
        0
    } else {
        (id + 1) as u64
    }
}

/// A permission request is put to the client and waits for its answer.
pub open spec fn permission_requested(
    s: PromptStateView,
    request_key: Seq<char>,
    request: PendingPermissionRequestView,
    tool_call: ToolCallUpdateView,
    options: Seq<PermissionOptionView>,
    meta: Option<Seq<(Seq<char>, JsonView)>>,
) -> (PromptStateView, Seq<EffectView>) {
    (
        PromptStateView {
            pending_permission_interactions: s.pending_permission_interactions.insert(
                request_key,
                PendingPermissionInteractionView { id: s.next_permission_interaction_id, request },
            ),
            next_permission_interaction_id: next_interaction(s.next_permission_interaction_id),
            ..s
        },
        seq![
            EffectView::RequestPermission(
                PermissionRequestView {
                    submission_id: s.submission_id,
                    interaction_id: s.next_permission_interaction_id,
                    request_key,
                    tool_call,
                    options,
                    meta,
                },
            ),
        ],
    )
}

/// The decision that an answer stands for: an unknown option, or none, stops the turn.
pub open spec fn chosen_decision(
    option_map: Map<Seq<char>, ReviewDecisionView>,
    outcome: PermissionOutcomeView,
) -> ReviewDecisionView {
    match outcome {
        PermissionOutcomeView::Selected { option_id, .. } => if option_map.contains_key(option_id) {
            option_map[option_id]
        } else {
            ReviewDecisionView::Abort
        },
        PermissionOutcomeView::Cancelled => ReviewDecisionView::Abort,
    }
}

/// What an answer grants of the permissions asked for.
pub open spec fn chosen_permissions(
    permissions: JsonView,
    outcome: PermissionOutcomeView,
) -> PermissionsResponseView {
    match outcome {
        PermissionOutcomeView::Selected { option_id, .. } => if option_id
            == "approved-for-session"@ {
            PermissionsResponseView {
                permissions: GrantedPermissionsView::Requested(permissions),
                scope: PermissionGrantScope::Session,
                strict_auto_review: false,
            }
        } else if option_id == "approved"@ {
            PermissionsResponseView {
                permissions: GrantedPermissionsView::Requested(permissions),
                scope: PermissionGrantScope::Turn,
                strict_auto_review: false,
            }
        } else {
            nothing_granted()
        },
        PermissionOutcomeView::Cancelled => nothing_granted(),
    }
}

pub open spec fn nothing_granted() -> PermissionsResponseView {
    PermissionsResponseView {
        permissions: GrantedPermissionsView::Nothing,
        scope: PermissionGrantScope::Turn,
        strict_auto_review: true,
    }
}

/// How an elicitation is resolved by an answer.
pub open spec fn chosen_elicitation(
    option_map: Map<Seq<char>, ResolvedMcpElicitationView>,
    outcome: PermissionOutcomeView,
) -> ResolvedMcpElicitationView {
    match outcome {
        PermissionOutcomeView::Selected { option_id, .. } => if option_map.contains_key(option_id) {
            option_map[option_id]
        } else {
            elicitation_cancelled()
        },
        PermissionOutcomeView::Cancelled => elicitation_cancelled(),
    }
}

/// The answers to questions: those that the response spells out, else that of the option.
pub open spec fn chosen_answers(
    option_map: Map<Seq<char>, ResolvedUserInputAnswerView>,
    response: PermissionResponseView,
) -> Map<Seq<char>, Seq<Seq<char>>> {
    match response_answers(response) {
        Some(answers) => answers,
        None => match response.outcome {
            PermissionOutcomeView::Selected { option_id, .. } => if option_map.contains_key(
                option_id,
            ) {
                single_answer(option_map[option_id], response_guidance(response))
            } else {
                Map::empty()
            },
            PermissionOutcomeView::Cancelled => Map::empty(),
        },
    }
}

/// What is submitted for an answer, and the guidance that becomes a further prompt.
pub open spec fn resolved_request(
    request: PendingPermissionRequestView,
    response: PermissionResponseView,
) -> (OpView, Option<Seq<char>>) {
    match request {
        PendingPermissionRequestView::Exec { approval_id, turn_id, option_map } => {
            let decision = chosen_decision(option_map, response.outcome);
            (
                OpView::ExecApproval { id: approval_id, turn_id: Some(turn_id), decision },
                guidance_followup(decision, response_guidance(response)),
            )
        },
        PendingPermissionRequestView::Patch { call_id, option_map } => {
            let decision = chosen_decision(option_map, response.outcome);
            (
                OpView::PatchApproval { id: call_id, decision },
                guidance_followup(decision, response_guidance(response)),
            )
        },
        PendingPermissionRequestView::RequestPermissions { call_id, permissions } => (
            OpView::RequestPermissionsResponse {
                id: call_id,
                response: chosen_permissions(permissions, response.outcome),
            },
            None,
        ),
        PendingPermissionRequestView::McpElicitation { server_name, request_id, option_map } => {
            let resolved = chosen_elicitation(option_map, response.outcome);
            (
                OpView::ResolveElicitation {
                    server_name,
                    request_id,
                    decision: resolved.action,
                    content: resolved.content,
                    meta: resolved.meta,
                },
                None,
            )
        },
        PendingPermissionRequestView::UserInput { id, option_map } => (
            OpView::UserInputAnswer { id, answers: chosen_answers(option_map, response) },
            None,
        ),
    }
}

/// What the answer to a permission request leads to. An answer counts only for the interaction
/// that waits under its key, and it counts once.
pub open spec fn permission_resolved(
    s: PromptStateView,
    interaction_id: u64,
    request_key: Seq<char>,
    response: Result<PermissionResponseView, ErrorView>,
) -> (PromptStateView, PermissionResolutionView) {
    let pending = s.pending_permission_interactions;
    if !pending.contains_key(request_key) || pending[request_key].id != interaction_id {
        (s, PermissionResolutionView::Ignored)
    } else {
        let after = PromptStateView {
            pending_permission_interactions: pending.remove(request_key),
            ..s
        };
        match response {
            Err(error) => (after, PermissionResolutionView::Failed(error)),
            Ok(response) => {
                let (op, followup) = resolved_request(pending[request_key].request, response);
                (after, PermissionResolutionView::Resolved { op, followup })
            },
        }
    }
}

/// Whether something that runs is shown under the given tool call.
pub open spec fn is_running(s: PromptStateView, tool_call_id: Seq<char>) -> bool {
    ||| command_runs(s, tool_call_id)
    ||| s.active_web_search == Some(tool_call_id)
    ||| s.active_image_generations.contains(tool_call_id)
    ||| s.active_agent_owned_tools.contains(tool_call_id)
    ||| guardian_runs(s, tool_call_id)
}

pub open spec fn command_runs(s: PromptStateView, tool_call_id: Seq<char>) -> bool {
    s.active_commands.contains_key(tool_call_id) || exists|key: Seq<char>| #[trigger]
        s.active_commands.contains_key(key) && s.active_commands[key].tool_call_id == tool_call_id
}

pub open spec fn guardian_runs(s: PromptStateView, tool_call_id: Seq<char>) -> bool {
    exists|key: Seq<char>| #[trigger]
        s.active_guardian_assessments.contains_key(key) && s.active_guardian_assessments[key]
            == tool_call_id
}

/// A command that is shown under the given tool call: the one with that key, where there is one.
pub open spec fn names_command(
    s: PromptStateView,
    tool_call_id: Seq<char>,
    key: Seq<char>,
) -> bool {
    s.active_commands.contains_key(key) && (key == tool_call_id || !s.active_commands.contains_key(
        tool_call_id,
    ) && s.active_commands[key].tool_call_id == tool_call_id)
}

pub open spec fn names_guardian(
    s: PromptStateView,
    tool_call_id: Seq<char>,
    key: Seq<char>,
) -> bool {
    s.active_guardian_assessments.contains_key(key) && s.active_guardian_assessments[key]
        == tool_call_id
}

/// What is shown under the tool call is taken out: of the commands and of the guardian
/// reviews one each, where there are any.
pub open spec fn stopped(
    before: PromptStateView,
    after: PromptStateView,
    tool_call_id: Seq<char>,
) -> bool {
    &&& if command_runs(before, tool_call_id) {
        exists|key: Seq<char>| #[trigger]
            names_command(before, tool_call_id, key) && after.active_commands
                == before.active_commands.remove(key)
    } else {
        after.active_commands == before.active_commands
    }
    &&& if guardian_runs(before, tool_call_id) {
        exists|key: Seq<char>| #[trigger]
            names_guardian(before, tool_call_id, key) && after.active_guardian_assessments
                == before.active_guardian_assessments.remove(key)
    } else {
        after.active_guardian_assessments == before.active_guardian_assessments
    }
    &&& after == PromptStateView {
        active_commands: after.active_commands,
        active_guardian_assessments: after.active_guardian_assessments,
        active_web_search: if before.active_web_search == Some(tool_call_id) {
            None
        } else {
            before.active_web_search
        },
        active_image_generations: before.active_image_generations.remove(tool_call_id),
        active_agent_owned_tools: before.active_agent_owned_tools.remove(tool_call_id),
        stopped_agent_owned_tools: if is_running(before, tool_call_id) {
            before.stopped_agent_owned_tools.insert(tool_call_id)
        } else {
            before.stopped_agent_owned_tools
        },
        ..before
    }
}

/// How the client is told that a tool was stopped.
pub open spec fn stop_notice(tool_call_id: Seq<char>) -> NotificationView {
    plain(
        SessionUpdateView::ToolCallUpdate(
            ToolCallUpdateView {
                content: Some(seq![ToolCallContentView::Text("Tool stopped by user"@)]),
                raw_output: Some(
                    JsonView::Object(
                        seq![
                            ("interrupted"@, JsonView::Bool(true)),
                            ("reason"@, JsonView::Text("tool stopped by user"@)),
                        ],
                    ),
                ),
                ..status_update(tool_call_id, Some(ToolCallStatus::Failed))
            },
        ),
    )
}

impl PromptState {
    pub fn new(submission_id: String, prompt_text: Option<String>) -> (state: Self)
        ensures
            state.deep_view() == new_prompt(submission_id@, prompt_text.deep_view()),
    {
        PromptState {
            submission_id,
            active_commands: StringMap::new(),
            active_agent_owned_tools: StringSet::new(),
            stopped_agent_owned_tools: StringSet::new(),
            active_web_search: None,
            active_image_generations: StringSet::new(),
            active_guardian_assessments: StringMap::new(),
            prompt_text,
            pending_permission_interactions: StringMap::new(),
            next_permission_interaction_id: 0,
            response_open: true,
            seen_final_message_deltas: false,
            seen_commentary_message_deltas: false,
            seen_reasoning_deltas: false,
            agent_message_text: String::new(),
            commentary_message_item_ids: StringSet::new(),
        }
    }

    /// Whether somebody still waits for the response. `receiver_closed` tells whether the one who
    /// asked has gone.
    pub fn is_active(&self, receiver_closed: bool) -> (active: bool)
        ensures
            active == (self.response_open && !receiver_closed),
    {
        self.response_open && !receiver_closed
    }

    pub fn detach_pending_interactions(&mut self)
        ensures
            final(self).deep_view() == detached(old(self).deep_view()),
    {
        self.pending_permission_interactions.clear();
    }

    /// Answers the turn, unless it has been answered before.
    pub fn respond(&mut self, result: PromptResult) -> (effects: Vec<Effect>)
        ensures
            (final(self).deep_view(), effects.deep_view()) == responded(
                old(self).deep_view(),
                result.deep_view(),
            ),
    {
        if self.response_open {
            self.response_open = false;
            one(Effect::Respond(result))
        } else {
            empty()
        }
    }

    /// Answers the turn with an error, unless it has been answered before.
    pub fn fail(&mut self, error: Error) -> (effects: Vec<Effect>)
        ensures
            (final(self).deep_view(), effects.deep_view()) == responded(
                old(self).deep_view(),
                PromptResultView::Failed(error.deep_view()),
            ),
    {
        self.respond(PromptResult::Failed(error))
    }

    /// Puts a permission request to the client.
    pub fn spawn_permission_request(
        &mut self,
        request_key: String,
        pending_request: PendingPermissionRequest,
        tool_call: ToolCallUpdate,
        options: Vec<PermissionOption>,
        request_meta: Option<Vec<(String, Json)>>,
    ) -> (effects: Vec<Effect>)
        ensures
            (final(self).deep_view(), effects.deep_view()) == permission_requested(
                old(self).deep_view(),
                request_key@,
                pending_request.deep_view(),
                tool_call.deep_view(),
                options.deep_view(),
                request_meta.deep_view(),
            ),
    {
        let interaction_id: u64 = self.next_permission_interaction_id;
        self.next_permission_interaction_id =
        if interaction_id == u64::MAX {
            0
        } else {
            interaction_id + 1
        };
        self.pending_permission_interactions.insert(
            request_key.clone(),
            PendingPermissionInteraction { id: interaction_id, request: pending_request },
        );
        one(
            Effect::RequestPermission(
                PermissionRequest {
                    submission_id: self.submission_id.clone(),
                    interaction_id,
                    request_key,
                    tool_call,
                    options,
                    meta: request_meta,
                },
            ),
        )
    }

    /// Takes the client's answer to a permission request.
    pub fn handle_permission_request_resolved(
        &mut self,
        interaction_id: u64,
        request_key: String,
        response: Result<PermissionResponse, Error>,
    ) -> (resolution: PermissionResolution)
        ensures
            (final(self).deep_view(), resolution.deep_view()) == permission_resolved(
                old(self).deep_view(),
                interaction_id,
                request_key@,
                result_view(response),
            ),
    {
        match self.pending_permission_interactions.get(request_key.as_str()) {
            Some(interaction) => if interaction.id != interaction_id {
                return PermissionResolution::Ignored;
            },
            None => {
                return PermissionResolution::Ignored;
            },
        }
        let interaction = match self.pending_permission_interactions.remove(request_key.as_str()) {
            Some(interaction) => interaction,
            None => {
                return PermissionResolution::Ignored;
            },
        };
        match response {
            Err(error) => PermissionResolution::Failed(error),
            Ok(response) => resolve_request(interaction.request, response),
        }
    }

    /// Stops what is shown under the given tool call; tells whether anything was.
    pub fn stop_tool(&mut self, tool_call_id: &str) -> (result: (bool, Vec<Effect>))
        ensures
            result.0 == is_running(old(self).deep_view(), tool_call_id@),
            stopped(old(self).deep_view(), final(self).deep_view(), tool_call_id@),
            result.1.deep_view() == if result.0 {
                notify(stop_notice(tool_call_id@))
            } else {
                seq![]
            },
    {
        broadcast use crate::json::lemma_tree;

        let ghost before = self.deep_view();
        let mut stopped = false;
        if self.active_commands.remove(tool_call_id).is_some() {
            assert(names_command(before, tool_call_id@, tool_call_id@));
            stopped = true;
        } else {
            assert(before.active_commands.remove(tool_call_id@) =~= before.active_commands);
            if self.remove_active_command_by_tool_call_id(tool_call_id).is_some() {
                stopped = true;
            }
        }
        assert(stopped == command_runs(before, tool_call_id@));
        let ghost commands = self.active_commands.deep_view();
        assert(if stopped {
            exists|key: Seq<char>| #[trigger]
                names_command(before, tool_call_id@, key) && commands
                    == before.active_commands.remove(key)
        } else {
            commands == before.active_commands
        });
        if is_some_text(&self.active_web_search, tool_call_id) {
            self.active_web_search = None;
            stopped = true;
        }
        if self.active_image_generations.remove(tool_call_id) {
            stopped = true;
        }
        if self.active_agent_owned_tools.remove(tool_call_id) {
            stopped = true;
        }
        let ghost middle = self.deep_view();
        assert(middle.active_guardian_assessments == before.active_guardian_assessments);
        if self.remove_guardian_assessment_by_tool_call_id(tool_call_id) {
            stopped = true;
            proof {
                let key = choose|key: Seq<char>| #[trigger]
                    names_guardian(middle, tool_call_id@, key)
                        && self.deep_view().active_guardian_assessments
                        == middle.active_guardian_assessments.remove(key);
                assert(names_guardian(before, tool_call_id@, key));
            }
        }
        assert(stopped == is_running(before, tool_call_id@));
        if stopped {
            self.stopped_agent_owned_tools.insert(tool_call_id.to_owned());
            let mut update = new_status_update(
                tool_call_id.to_owned(),
                Some(ToolCallStatus::Failed),
            );
            update.content = Some(one(ToolCallContent::Text("Tool stopped by user".to_owned())));
            update.raw_output = Some(
                Json::Object(
                    two(
                        ("interrupted".to_owned(), Json::Bool(true)),
                        ("reason".to_owned(), text_value("tool stopped by user")),
                    ),
                ),
            );
            (true, one(Effect::Notify(tool_call_update(update))))
        } else {
            (false, empty())
        }
    }

    /// Takes out a command that is shown under the given tool call.
    fn remove_active_command_by_tool_call_id(&mut self, tool_call_id: &str) -> (command: Option<
        ActiveCommand,
    >)
        requires
            !old(self).deep_view().active_commands.contains_key(tool_call_id@),
        ensures
            command is Some == command_runs(old(self).deep_view(), tool_call_id@),
            final(self).deep_view() == (PromptStateView {
                active_commands: final(self).deep_view().active_commands,
                ..old(self).deep_view()
            }),
            command is Some ==> exists|key: Seq<char>| #[trigger]
                names_command(old(self).deep_view(), tool_call_id@, key)
                    && final(self).deep_view().active_commands
                    == old(self).deep_view().active_commands.remove(key),
            command is None ==> final(self).deep_view() == old(self).deep_view(),
    {
        let ghost before = self.deep_view();
        let n: usize = self.active_commands.entries.len();
        let mut i: usize = 0;
        while i < n
            invariant
                n == self.active_commands.entries@.len(),
                i <= n,
                *self == *old(self),
                before == self.deep_view(),
                !before.active_commands.contains_key(tool_call_id@),
                forall|k: int|
                    0 <= k < i ==> (#[trigger] self.active_commands.entries@[k]).1.tool_call_id@
                        != tool_call_id@
                        || before.active_commands[self.active_commands.entries@[k].0@].tool_call_id
                        != tool_call_id@,
            decreases n - i,
        {
            let key = self.active_commands.entries[i].0.clone();
            proof {
                lemma_listed(self.active_commands.entries@, i as int);
            }
            let named = match self.active_commands.get(key.as_str()) {
                Some(command) => same(command.tool_call_id.as_str(), tool_call_id),
                None => false,
            };
            if named {
                assert(names_command(before, tool_call_id@, key@));
                return self.active_commands.remove(key.as_str());
            }
            i += 1;
        }
        proof {
            if command_runs(before, tool_call_id@) {
                let key = choose|key: Seq<char>| #[trigger]
                    before.active_commands.contains_key(key)
                        && before.active_commands[key].tool_call_id == tool_call_id@;
                let k = lemma_present(self.active_commands.entries@, key);
                assert(self.active_commands.entries@[k].1.tool_call_id@ == tool_call_id@);
                assert(false);
            }
        }
        None
    }

    /// Takes out a guardian review that is shown under the given tool call.
    fn remove_guardian_assessment_by_tool_call_id(&mut self, tool_call_id: &str) -> (removed: bool)
        ensures
            removed == guardian_runs(old(self).deep_view(), tool_call_id@),
            final(self).deep_view() == (PromptStateView {
                active_guardian_assessments: final(self).deep_view().active_guardian_assessments,
                ..old(self).deep_view()
            }),
            removed ==> exists|key: Seq<char>| #[trigger]
                names_guardian(old(self).deep_view(), tool_call_id@, key)
                    && final(self).deep_view().active_guardian_assessments
                    == old(self).deep_view().active_guardian_assessments.remove(key),
            !removed ==> final(self).deep_view() == old(self).deep_view(),
    {
        let ghost before = self.deep_view();
        let n: usize = self.active_guardian_assessments.entries.len();
        let mut i: usize = 0;
        while i < n
            invariant
                n == self.active_guardian_assessments.entries@.len(),
                i <= n,
                *self == *old(self),
                before == self.deep_view(),
                forall|k: int|
                    0 <= k < i ==> before.active_guardian_assessments[(
                    #[trigger] self.active_guardian_assessments.entries@[k]).0@] != tool_call_id@,
            decreases n - i,
        {
            let key = self.active_guardian_assessments.entries[i].0.clone();
            proof {
                lemma_listed(self.active_guardian_assessments.entries@, i as int);
            }
            let named = match self.active_guardian_assessments.get(key.as_str()) {
                Some(shown) => same(shown.as_str(), tool_call_id),
                None => false,
            };
            if named {
                assert(names_guardian(before, tool_call_id@, key@));
                let _removed = self.active_guardian_assessments.remove(key.as_str());
                return true;
            }
            i += 1;
        }
        proof {
            if guardian_runs(before, tool_call_id@) {
                let key = choose|key: Seq<char>| #[trigger]
                    before.active_guardian_assessments.contains_key(key)
                        && before.active_guardian_assessments[key] == tool_call_id@;
                let k = lemma_present(self.active_guardian_assessments.entries@, key);
                assert(self.active_guardian_assessments.entries@[k].0@ == key);
                assert(false);
            }
        }
        false
    }
}

fn take_decision(option_map: StringMap<ReviewDecision>, outcome: &PermissionOutcome) -> (decision:
    ReviewDecision)
    ensures
        decision.deep_view() == chosen_decision(option_map.deep_view(), outcome.deep_view()),
{
    match outcome {
        PermissionOutcome::Selected { option_id, .. } => match option_map.get(option_id.as_str()) {
            Some(decision) => decision.duplicate(),
            None => ReviewDecision::Abort,
        },
        PermissionOutcome::Cancelled => ReviewDecision::Abort,
    }
}

fn grant_nothing() -> (response: PermissionsResponse)
    ensures
        response.deep_view() == nothing_granted(),
{
    PermissionsResponse {
        permissions: GrantedPermissions::Nothing,
        scope: PermissionGrantScope::Turn,
        strict_auto_review: true,
    }
}

fn grant_permissions(permissions: Json, outcome: &PermissionOutcome) -> (response:
    PermissionsResponse)
    ensures
        response.deep_view() == chosen_permissions(permissions.deep_view(), outcome.deep_view()),
{
    match outcome {
        PermissionOutcome::Selected { option_id, .. } => {
            if same(option_id.as_str(), "approved-for-session") {
                PermissionsResponse {
                    permissions: GrantedPermissions::Requested(permissions),
                    scope: PermissionGrantScope::Session,
                    strict_auto_review: false,
                }
            } else if same(option_id.as_str(), "approved") {
                PermissionsResponse {
                    permissions: GrantedPermissions::Requested(permissions),
                    scope: PermissionGrantScope::Turn,
                    strict_auto_review: false,
                }
            } else {
                grant_nothing()
            }
        },
        PermissionOutcome::Cancelled => grant_nothing(),
    }
}

fn take_elicitation(
    option_map: StringMap<ResolvedMcpElicitation>,
    outcome: &PermissionOutcome,
) -> (resolved: ResolvedMcpElicitation)
    ensures
        resolved.deep_view() == chosen_elicitation(option_map.deep_view(), outcome.deep_view()),
{
    let mut option_map = option_map;
    match outcome {
        PermissionOutcome::Selected { option_id, .. } => match option_map.remove(
            option_id.as_str(),
        ) {
            Some(resolved) => resolved,
            None => ResolvedMcpElicitation::cancel(),
        },
        PermissionOutcome::Cancelled => ResolvedMcpElicitation::cancel(),
    }
}

fn take_answers(
    option_map: StringMap<ResolvedUserInputAnswer>,
    response: &PermissionResponse,
) -> (answers: StringMap<Vec<String>>)
    ensures
        answers.deep_view() == chosen_answers(option_map.deep_view(), response.deep_view()),
{
    if let Some(answers) = user_input_response_from_permission_response(response) {
        return answers;
    }
    match &response.outcome {
        PermissionOutcome::Selected { option_id, .. } => match option_map.get(option_id.as_str()) {
            Some(answer) => user_input_response_from_answer(
                answer,
                permission_guidance_from_response(response),
            ),
            None => empty_user_input_response(),
        },
        PermissionOutcome::Cancelled => empty_user_input_response(),
    }
}

fn resolve_request(request: PendingPermissionRequest, response: PermissionResponse) -> (resolution:
    PermissionResolution)
    ensures
        resolution.deep_view() == (PermissionResolutionView::Resolved {
            op: resolved_request(request.deep_view(), response.deep_view()).0,
            followup: resolved_request(request.deep_view(), response.deep_view()).1,
        }),
{
    match request {
        PendingPermissionRequest::Exec { approval_id, turn_id, option_map } => {
            let decision = take_decision(option_map, &response.outcome);
            let followup = permission_guidance_followup(
                &decision,
                permission_guidance_from_response(&response),
            );
            PermissionResolution::Resolved {
                op: Op::ExecApproval { id: approval_id, turn_id: Some(turn_id), decision },
                followup,
            }
        },
        PendingPermissionRequest::Patch { call_id, option_map } => {
            let decision = take_decision(option_map, &response.outcome);
            let followup = permission_guidance_followup(
                &decision,
                permission_guidance_from_response(&response),
            );
            PermissionResolution::Resolved {
                op: Op::PatchApproval { id: call_id, decision },
                followup,
            }
        },
        PendingPermissionRequest::RequestPermissions { call_id, permissions } => {
            PermissionResolution::Resolved {
                op: Op::RequestPermissionsResponse {
                    id: call_id,
                    response: grant_permissions(permissions, &response.outcome),
                },
                followup: None,
            }
        },
        PendingPermissionRequest::McpElicitation { server_name, request_id, option_map } => {
            let resolved = take_elicitation(option_map, &response.outcome);
            PermissionResolution::Resolved {
                op: Op::ResolveElicitation {
                    server_name,
                    request_id,
                    decision: resolved.action,
                    content: resolved.content,
                    meta: resolved.meta,
                },
                followup: None,
            }
        },
        PendingPermissionRequest::UserInput { id, option_map } => {
            PermissionResolution::Resolved {
                op: Op::UserInputAnswer { id, answers: take_answers(option_map, &response) },
                followup: None,
            }
        },
    }
}

/// An answer that nothing waits for any longer changes nothing: one to an unknown request, and
/// one to a request that was put again under the same key since.
pub proof fn stale_answer_is_ignored(
    s: PromptStateView,
    interaction_id: u64,
    request_key: Seq<char>,
    response: Result<PermissionResponseView, ErrorView>,
)
    requires
        !s.pending_permission_interactions.contains_key(request_key)
            || s.pending_permission_interactions[request_key].id != interaction_id,
    ensures
        permission_resolved(s, interaction_id, request_key, response) == (
            s,
            PermissionResolutionView::Ignored,
        ),
{
}

/// A request is answered once: the same answer again is ignored.
pub proof fn answer_counts_once(
    s: PromptStateView,
    interaction_id: u64,
    request_key: Seq<char>,
    response: Result<PermissionResponseView, ErrorView>,
    again: Result<PermissionResponseView, ErrorView>,
)
    ensures
        ({
            let after = permission_resolved(s, interaction_id, request_key, response).0;
            permission_resolved(after, interaction_id, request_key, again) == (
                after,
                PermissionResolutionView::Ignored,
            )
        }),
{
}

/// Once a turn is detached, every answer is ignored.
pub proof fn detached_turn_ignores_answers(
    s: PromptStateView,
    interaction_id: u64,
    request_key: Seq<char>,
    response: Result<PermissionResponseView, ErrorView>,
)
    ensures
        permission_resolved(detached(s), interaction_id, request_key, response) == (
            detached(s),
            PermissionResolutionView::Ignored,
        ),
{
}

/// The answer to a request that was just put resolves that very request, and leaves every other
/// one waiting.
pub proof fn request_is_resolved_by_its_answer(
    s: PromptStateView,
    request_key: Seq<char>,
    request: PendingPermissionRequestView,
    tool_call: ToolCallUpdateView,
    options: Seq<PermissionOptionView>,
    meta: Option<Seq<(Seq<char>, JsonView)>>,
    response: PermissionResponseView,
)
    ensures
        ({
            let (waiting, effects) = permission_requested(
                s,
                request_key,
                request,
                tool_call,
                options,
                meta,
            );
            let asked = effects[0]->RequestPermission_0;
            let (after, resolution) = permission_resolved(
                waiting,
                asked.interaction_id,
                asked.request_key,
                Ok(response),
            );
            let (op, followup) = resolved_request(request, response);
            &&& effects.len() == 1
            &&& resolution == PermissionResolutionView::Resolved { op, followup }
            &&& after == (PromptStateView {
                pending_permission_interactions: s.pending_permission_interactions.remove(
                    request_key,
                ),
                next_permission_interaction_id: next_interaction(
                    s.next_permission_interaction_id,
                ),
                ..s
            })
        }),
{
    let waiting = permission_requested(s, request_key, request, tool_call, options, meta).0;
    assert(waiting.pending_permission_interactions.remove(request_key)
        =~= s.pending_permission_interactions.remove(request_key));
}

/// Where a request is put again under its key, the answer to the earlier one is ignored.
pub proof fn later_request_replaces_earlier(
    s: PromptStateView,
    request_key: Seq<char>,
    earlier: PendingPermissionRequestView,
    later: PendingPermissionRequestView,
    tool_call: ToolCallUpdateView,
    options: Seq<PermissionOptionView>,
    meta: Option<Seq<(Seq<char>, JsonView)>>,
    response: Result<PermissionResponseView, ErrorView>,
)
    ensures
        ({
            let first = permission_requested(s, request_key, earlier, tool_call, options, meta).0;
            let second = permission_requested(
                first,
                request_key,
                later,
                tool_call,
                options,
                meta,
            ).0;
            permission_resolved(
                second,
                s.next_permission_interaction_id,
                request_key,
                response,
            ) == (second, PermissionResolutionView::Ignored)
        }),
{
}

/// An approval is never invented: a command or a patch is approved only by an option that was
/// offered for it, and a refusal or an unknown option stops the turn.
pub proof fn unknown_choice_aborts(
    option_map: Map<Seq<char>, ReviewDecisionView>,
    outcome: PermissionOutcomeView,
)
    ensures
        chosen_decision(option_map, outcome) != ReviewDecisionView::Abort ==> outcome is Selected
            && option_map.contains_key(outcome->option_id) && option_map[outcome->option_id]
            == chosen_decision(option_map, outcome),
        outcome is Cancelled ==> chosen_decision(option_map, outcome) == ReviewDecisionView::Abort,
{
}

/// Permissions are granted only where they were approved, and then exactly those asked for.
pub proof fn permissions_are_granted_on_approval(
    permissions: JsonView,
    outcome: PermissionOutcomeView,
)
    ensures
        chosen_permissions(permissions, outcome) == nothing_granted() || chosen_permissions(
            permissions,
            outcome,
        ).permissions == GrantedPermissionsView::Requested(permissions) && outcome is Selected && (
        outcome->option_id == "approved"@ || outcome->option_id == "approved-for-session"@),
        outcome is Cancelled ==> chosen_permissions(permissions, outcome) == nothing_granted(),
{
}

/// A turn is answered at most once: the first answer is given, any other is not.
pub proof fn turn_is_answered_once(
    s: PromptStateView,
    first: PromptResultView,
    second: PromptResultView,
)
    ensures
        responded(responded(s, first).0, second).1 == Seq::<EffectView>::empty(),
        responded(responded(s, first).0, second).0 == responded(s, first).0,
        responded(s, first).1.len() == (if s.response_open {
            1int
        } else {
            0
        }),
{
}

/// Every command is kept under the tool call that it is shown as.
pub open spec fn commands_are_keyed(s: PromptStateView) -> bool {
    forall|key: Seq<char>| #[trigger]
        s.active_commands.contains_key(key) ==> s.active_commands[key].tool_call_id == key
}

/// No two guardian reviews are shown as the same tool call.
pub open spec fn guardians_are_distinct(s: PromptStateView) -> bool {
    forall|a: Seq<char>, b: Seq<char>|
        #![trigger
            s.active_guardian_assessments.contains_key(a),
            s.active_guardian_assessments.contains_key(b)]
        s.active_guardian_assessments.contains_key(a) && s.active_guardian_assessments.contains_key(
            b,
        ) && s.active_guardian_assessments[a] == s.active_guardian_assessments[b] ==> a == b
}

/// Stopping a tool that does not run changes nothing.
pub proof fn stopping_nothing_changes_nothing(
    before: PromptStateView,
    after: PromptStateView,
    tool_call_id: Seq<char>,
)
    requires
        stopped(before, after, tool_call_id),
        !is_running(before, tool_call_id),
    ensures
        after == before,
{
    assert(before.active_image_generations.remove(tool_call_id)
        =~= before.active_image_generations);
    assert(before.active_agent_owned_tools.remove(tool_call_id)
        =~= before.active_agent_owned_tools);
}

/// Once a tool is stopped it no longer runs, and everything else goes on running.
pub proof fn stopped_tool_no_longer_runs(
    before: PromptStateView,
    after: PromptStateView,
    tool_call_id: Seq<char>,
    other: Seq<char>,
)
    requires
        stopped(before, after, tool_call_id),
        commands_are_keyed(before),
        guardians_are_distinct(before),
    ensures
        !is_running(after, tool_call_id),
        other != tool_call_id ==> is_running(after, other) == is_running(before, other),
        commands_are_keyed(after),
        guardians_are_distinct(after),
        after.pending_permission_interactions == before.pending_permission_interactions,
        after.response_open == before.response_open,
{
    if command_runs(before, tool_call_id) {
        let key = choose|key: Seq<char>| #[trigger]
            names_command(before, tool_call_id, key) && after.active_commands
                == before.active_commands.remove(key);
        assert(key == tool_call_id);
    }
    assert(after.active_commands =~= before.active_commands.remove(tool_call_id));
    if guardian_runs(before, tool_call_id) {
        let key = choose|key: Seq<char>| #[trigger]
            names_guardian(before, tool_call_id, key) && after.active_guardian_assessments
                == before.active_guardian_assessments.remove(key);
        assert forall|k: Seq<char>| #[trigger]
            after.active_guardian_assessments.contains_key(k) implies k != key
            && before.active_guardian_assessments.contains_key(k)
            && after.active_guardian_assessments[k] == before.active_guardian_assessments[k] by {}
        if guardian_runs(before, other) && other != tool_call_id {
            let k = choose|k: Seq<char>| #[trigger]
                before.active_guardian_assessments.contains_key(k)
                    && before.active_guardian_assessments[k] == other;
            assert(after.active_guardian_assessments.contains_key(k));
        }
    }
    if command_runs(before, other) && other != tool_call_id {
        assert(before.active_commands.contains_key(other));
        assert(after.active_commands.contains_key(other));
    }
}

} // verus!
