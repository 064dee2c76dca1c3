//! The events of a prompt turn.
use crate::approval_events::{
    command_awaited, elicitation_requested, exec_approval_requested, guardian_assessed,
    patch_approval_requested, permissions_requested, permissions_text, review_ended,
    review_mode_exit, unwritable, user_input_requested,
};
use crate::client::{
    ClientCapabilities, agent_text, agent_thought, compacted_notice, context_compacted,
    kodex_usage_meta, new_call, new_tool_call, plain, plan_entries, shows_terminals, tool_call,
    update_plan, usage_meta,
};
use crate::collections::{empty, one, two};
use crate::command_events::{
    command_begun, command_ended, command_output, end_patch_apply, patch_begun, patch_ended,
    patch_updated, start_patch_apply, update_patch_apply,
};
use crate::events::{
    ElicitationRequestView, EventMsg, EventMsgView, ExecApprovalRequest, ExecApprovalRequestView,
    TokenInfo, TokenInfoView, UserInputRequestView,
};
use crate::json::{Json, JsonView};
use crate::permissions::{
    PendingPermissionInteractionView, format_thread_goal_update, goal_update_text,
};
use crate::prompt_state::{
    Effect, EffectView, PromptState, PromptStateView, commands_are_keyed, detached,
    guardians_are_distinct, new_prompt, notify, responded,
};
use crate::protocol::{
    Error, ErrorKind, ErrorKindView, ErrorView, MessagePhase, Notification, NotificationView,
    PromptResult, PromptResultView, RequestIdView, RunStatus, SessionUpdate, SessionUpdateView,
    StopReason, ToolCallContent, ToolCallContentView, ToolCallStatus, ToolCallView, ToolKind,
};
use crate::text::{concat2, lossy_text, trimmed};
use crate::title::non_empty_str;
use crate::tool_events::{
    dynamic_tool_ended, dynamic_tool_started, end_dynamic_tool_call, end_mcp_tool_call,
    image_content, image_ended, image_generation_content, image_started, mcp_tool_ended,
    mcp_tool_started, start_dynamic_tool_call, start_mcp_tool_call, update_web_search_query,
    web_search_completed, web_search_queried, web_search_started,
};
use vstd::prelude::*;

verus! {

/// Whether a message is commentary rather than the answer.
pub open spec fn is_commentary(phase: Option<MessagePhase>) -> bool {
    phase == Some(MessagePhase::Commentary)
}

pub fn is_commentary_phase(phase: Option<MessagePhase>) -> (commentary: bool)
    ensures
        commentary == is_commentary(phase),
{
    match phase {
        Some(MessagePhase::Commentary) => true,
        _ => false,
    }
}

/// The events that end a web search: all that begin or end something else.
pub open spec fn ends_web_search(event: EventMsgView) -> bool {
    match event {
        EventMsgView::Error { .. } => true,
        EventMsgView::StreamError { .. } => true,
        EventMsgView::WebSearchBegin { .. } => true,
        EventMsgView::UserMessage { .. } => true,
        EventMsgView::ExecApprovalRequest(_) => true,
        EventMsgView::ImageGenerationBegin { .. } => true,
        EventMsgView::ImageGenerationEnd { .. } => true,
        EventMsgView::ExecCommandBegin { .. } => true,
        EventMsgView::ExecCommandOutputDelta { .. } => true,
        EventMsgView::ExecCommandEnd { .. } => true,
        EventMsgView::McpToolCallBegin { .. } => true,
        EventMsgView::McpToolCallEnd { .. } => true,
        EventMsgView::ApplyPatchApprovalRequest { .. } => true,
        EventMsgView::PatchApplyBegin { .. } => true,
        EventMsgView::PatchApplyEnd { .. } => true,
        EventMsgView::TurnStarted => true,
        EventMsgView::TurnComplete { .. } => true,
        EventMsgView::TurnDiff => true,
        EventMsgView::TurnAborted => true,
        EventMsgView::EnteredReviewMode => true,
        EventMsgView::ExitedReviewMode(_) => true,
        EventMsgView::ShutdownComplete => true,
        _ => false,
    }
}

fn event_ends_web_search(event: &EventMsg) -> (ends: bool)
    ensures
        ends == ends_web_search(event.deep_view()),
{
    match event {
        EventMsg::Error { .. } => true,
        EventMsg::StreamError { .. } => true,
        EventMsg::WebSearchBegin { .. } => true,
        EventMsg::UserMessage { .. } => true,
        EventMsg::ExecApprovalRequest(_) => true,
        EventMsg::ImageGenerationBegin { .. } => true,
        EventMsg::ImageGenerationEnd { .. } => true,
        EventMsg::ExecCommandBegin { .. } => true,
        EventMsg::ExecCommandOutputDelta { .. } => true,
        EventMsg::ExecCommandEnd { .. } => true,
        EventMsg::McpToolCallBegin { .. } => true,
        EventMsg::McpToolCallEnd { .. } => true,
        EventMsg::ApplyPatchApprovalRequest { .. } => true,
        EventMsg::PatchApplyBegin { .. } => true,
        EventMsg::PatchApplyEnd { .. } => true,
        EventMsg::TurnStarted => true,
        EventMsg::TurnComplete { .. } => true,
        EventMsg::TurnDiff => true,
        EventMsg::TurnAborted => true,
        EventMsg::EnteredReviewMode => true,
        EventMsg::ExitedReviewMode(_) => true,
        EventMsg::ShutdownComplete => true,
        _ => false,
    }
}

pub open spec fn told(text: Seq<char>) -> Seq<EffectView> {
    notify(plain(SessionUpdateView::AgentText(text)))
}

pub open spec fn thought(text: Seq<char>) -> Seq<EffectView> {
    notify(plain(SessionUpdateView::AgentThought(text)))
}

/// How full the context is after a request. A usage that is reported as negative counts as none.
pub open spec fn usage_told(info: Option<TokenInfoView>) -> Seq<EffectView> {
    match info {
        Some(info) => match info.model_context_window {
            Some(size) => seq![
                EffectView::Notify(
                    NotificationView {
                        update: SessionUpdateView::Usage {
                            used: if info.last.total_tokens > 0 {
                                info.last.total_tokens as u64
                            } else {
                                0
                            },
                            size: size as u64,
                        },
                        meta: Some(usage_meta(info.last, info.total)),
                    },
                ),
            ],
            None => seq![],
        },
        None => seq![],
    }
}

fn tell_usage(info: Option<TokenInfo>) -> (effects: Vec<Effect>)
    ensures
        effects.deep_view() == usage_told(info.deep_view()),
{
    match info {
        Some(info) => match info.model_context_window {
            Some(size) => {
                let used: u64 = if info.last.total_tokens > 0 {
                    info.last.total_tokens as u64
                } else {
                    0
                };
                let meta = kodex_usage_meta(&info.last, &info.total);
                one(
                    Effect::Notify(
                        Notification {
                            update: SessionUpdate::Usage { used, size: size as u64 },
                            meta: Some(meta),
                        },
                    ),
                )
            },
            None => empty(),
        },
        None => empty(),
    }
}

/// A piece of a message: it is told at once, and what is no commentary is kept.
pub open spec fn message_delta(s: PromptStateView, item_id: Seq<char>, delta: Seq<char>) -> (
    PromptStateView,
    Seq<EffectView>,
) {
    (
        if s.commentary_message_item_ids.contains(item_id) {
            PromptStateView { seen_commentary_message_deltas: true, ..s }
        } else {
            PromptStateView {
                seen_final_message_deltas: true,
                agent_message_text: s.agent_message_text + delta,
                ..s
            }
        },
        told(delta),
    )
}

/// A whole message: it is told unless its pieces were. An answer is kept where none was before.
pub open spec fn message_complete(
    s: PromptStateView,
    message: Seq<char>,
    phase: Option<MessagePhase>,
) -> (PromptStateView, Seq<EffectView>) {
    if is_commentary(phase) {
        (
            PromptStateView { seen_commentary_message_deltas: false, ..s },
            if s.seen_commentary_message_deltas {
                seq![]
            } else {
                told(message)
            },
        )
    } else if s.seen_final_message_deltas {
        (PromptStateView { seen_final_message_deltas: false, ..s }, seq![])
    } else {
        (
            PromptStateView {
                agent_message_text: if s.agent_message_text.len() == 0 {
                    message
                } else {
                    s.agent_message_text
                },
                ..s
            },
            told(message),
        )
    }
}

/// The turn ends: waiting permission requests are dropped and the turn is answered.
pub open spec fn turn_ended(s: PromptStateView, result: PromptResultView) -> (
    PromptStateView,
    Seq<EffectView>,
) {
    responded(detached(s), result)
}

/// What the answer of the turn was: as reported, else as it was told.
pub open spec fn turn_answer(s: PromptStateView, last_agent_message: Option<Seq<char>>) -> Option<
    Seq<char>,
> {
    match last_agent_message {
        Some(message) => Some(message),
        None => if trimmed(s.agent_message_text).len() > 0 {
            Some(s.agent_message_text)
        } else {
            None
        },
    }
}

/// The turn is complete: the title of the session is seen to before the turn is answered.
pub open spec fn turn_completed(s: PromptStateView, last_agent_message: Option<Seq<char>>) -> (
    PromptStateView,
    Seq<EffectView>,
) {
    let (after, effects) = turn_ended(s, PromptResultView::Stopped(StopReason::EndTurn));
    (
        after,
        seq![
            EffectView::PublishTitle { response_text: turn_answer(s, last_agent_message) },
        ] + effects,
    )
}

pub open spec fn turn_error(message: Seq<char>, codex_error_info: JsonView) -> ErrorView {
    ErrorView {
        kind: ErrorKindView::InternalError,
        data: Some(
            JsonView::Object(
                seq![
                    ("message"@, JsonView::Text(message)),
                    ("codex_error_info"@, codex_error_info),
                ],
            ),
        ),
    }
}

/// The approval of a command is put to the client. Where it cannot be, the turn is answered with
/// the error.
pub open spec fn approval_step(s: PromptStateView, request: ExecApprovalRequestView) -> (
    PromptStateView,
    Seq<EffectView>,
) {
    let (after, effects) = exec_approval_requested(s, request);
    match effects {
        Ok(effects) => (after, effects),
        Err(error) => responded(after, PromptResultView::Failed(error)),
    }
}

pub open spec fn image_viewed(call_id: Seq<char>, path: Seq<char>) -> Seq<EffectView> {
    notify(
        plain(
            SessionUpdateView::ToolCall(
                ToolCallView {
                    content: seq![ToolCallContentView::ResourceLink { name: path, uri: path }],
                    locations: seq![path],
                    ..new_call(
                        call_id,
                        "View Image "@ + path,
                        ToolKind::Read,
                        ToolCallStatus::Completed,
                    )
                },
            ),
        ),
    )
}

/// What an event changes and leads to, apart from the end of a web search.
pub open spec fn event_step(
    s: PromptStateView,
    client: Option<Seq<(Seq<char>, JsonView)>>,
    event: EventMsgView,
) -> (PromptStateView, Seq<EffectView>) {
    match event {
        EventMsgView::TokenCount(info) => (s, usage_told(info)),
        EventMsgView::AgentItemStarted { item_id, phase } => (
            if is_commentary(phase) {
                PromptStateView {
                    commentary_message_item_ids: s.commentary_message_item_ids.insert(item_id),
                    ..s
                }
            } else {
                s
            },
            seq![],
        ),
        EventMsgView::AgentMessageContentDelta { item_id, delta } => message_delta(
            s,
            item_id,
            delta,
        ),
        EventMsgView::ReasoningContentDelta { delta } => (
            PromptStateView { seen_reasoning_deltas: true, ..s },
            thought(delta),
        ),
        EventMsgView::ReasoningRawContentDelta { delta } => (
            PromptStateView { seen_reasoning_deltas: true, ..s },
            thought(delta),
        ),
        EventMsgView::AgentReasoningSectionBreak => (
            PromptStateView { seen_reasoning_deltas: true, ..s },
            thought("\n\n"@),
        ),
        EventMsgView::AgentMessage { message, phase } => message_complete(s, message, phase),
        EventMsgView::AgentReasoning { text } => (
            PromptStateView { seen_reasoning_deltas: false, ..s },
            if s.seen_reasoning_deltas {
                seq![]
            } else {
                thought(text)
            },
        ),
        EventMsgView::ThreadGoalUpdated { objective, status } => (
            s,
            told(goal_update_text(objective, status)),
        ),
        EventMsgView::PlanUpdate { plan } => (
            s,
            notify(plain(SessionUpdateView::Plan(plan_entries(plan)))),
        ),
        EventMsgView::WebSearchBegin { call_id } => web_search_started(s, call_id),
        EventMsgView::WebSearchEnd { call_id, query, action, raw_action } => (
            s,
            web_search_queried(call_id, query, action, raw_action),
        ),
        EventMsgView::ImageGenerationBegin { call_id, raw } => image_started(s, call_id, raw),
        EventMsgView::ImageGenerationEnd {
            call_id,
            status,
            revised_prompt,
            result,
            saved_path,
            raw,
        } => image_ended(
            s,
            call_id,
            status,
            image_content(revised_prompt, result, saved_path),
            raw,
        ),
        EventMsgView::ExecApprovalRequest(request) => approval_step(s, request),
        EventMsgView::ExecCommandBegin { call_id, cwd, parsed_cmd, raw } => command_begun(
            s,
            client,
            call_id,
            cwd,
            parsed_cmd,
            raw,
        ),
        EventMsgView::ExecCommandOutputDelta { call_id, chunk } => command_output(
            s,
            client,
            call_id,
            lossy_text(chunk),
        ),
        EventMsgView::ExecCommandEnd { call_id, exit_code, status, raw } => command_ended(
            s,
            client,
            call_id,
            exit_code,
            status,
            raw,
        ),
        EventMsgView::TerminalInteraction { call_id, stdin } => command_output(
            s,
            client,
            call_id,
            "\n"@ + stdin + "\n"@,
        ),
        EventMsgView::DynamicToolCallRequest { call_id, tool, arguments } => (
            s,
            dynamic_tool_started(call_id, tool, arguments),
        ),
        EventMsgView::DynamicToolCallResponse { call_id, success, content_items, error, raw } => (
            s,
            dynamic_tool_ended(call_id, success, content_items, error, raw),
        ),
        EventMsgView::McpToolCallBegin { call_id, server, tool, raw_invocation } => (
            s,
            mcp_tool_started(call_id, server, tool, raw_invocation),
        ),
        EventMsgView::McpToolCallEnd { call_id, result } => (s, mcp_tool_ended(call_id, result)),
        EventMsgView::ApplyPatchApprovalRequest { call_id, changes, reason, raw } =>
            patch_approval_requested(s, call_id, changes, reason, raw),
        EventMsgView::PatchApplyBegin { call_id, changes, raw } => (
            s,
            patch_begun(call_id, changes, raw),
        ),
        EventMsgView::PatchApplyUpdated { call_id, changes, raw } => (
            s,
            patch_updated(call_id, changes, raw),
        ),
        EventMsgView::PatchApplyEnd { call_id, success, status, changes, raw } => (
            s,
            patch_ended(call_id, success, status, changes, raw),
        ),
        EventMsgView::TurnComplete { last_agent_message } => turn_completed(s, last_agent_message),
        EventMsgView::Error { message, codex_error_info } => turn_ended(
            s,
            PromptResultView::Failed(turn_error(message, codex_error_info)),
        ),
        EventMsgView::TurnAborted => turn_ended(
            s,
            PromptResultView::Stopped(StopReason::Cancelled),
        ),
        EventMsgView::ShutdownComplete => turn_ended(
            s,
            PromptResultView::Stopped(StopReason::Cancelled),
        ),
        EventMsgView::ViewImageToolCall { call_id, path } => (s, image_viewed(call_id, path)),
        EventMsgView::ExitedReviewMode(output) => (s, review_ended(output)),
        EventMsgView::Warning { message } => (s, told(message)),
        EventMsgView::GuardianWarning { message } => (s, told(message)),
        EventMsgView::ElicitationRequest { server_name, id, request, raw } => elicitation_requested(
            s,
            server_name,
            id,
            request,
            raw,
        ),
        EventMsgView::ContextCompacted => (s, notify(compacted_notice())),
        EventMsgView::RequestPermissions { call_id, reason, permissions, raw } =>
            permissions_requested(s, call_id, reason, permissions, raw),
        EventMsgView::RequestUserInput(request) => user_input_requested(s, request),
        EventMsgView::GuardianAssessment(event) => guardian_assessed(s, event),
        _ => (s, seq![]),
    }
}

/// What an event changes and leads to: a web search that ends comes first.
pub open spec fn prompt_step(
    s: PromptStateView,
    client: Option<Seq<(Seq<char>, JsonView)>>,
    event: EventMsgView,
) -> (PromptStateView, Seq<EffectView>) {
    let (searched, first) = if ends_web_search(event) {
        web_search_completed(s)
    } else {
        (s, seq![])
    };
    let (after, then_effects) = event_step(searched, client, event);
    (after, first + then_effects)
}

impl PromptState {
    /// Takes an event of the turn; what is to be done about it is returned in order.
    pub fn handle_event(&mut self, client: &ClientCapabilities, event: EventMsg) -> (effects: Vec<
        Effect,
    >)
        ensures
            (final(self).deep_view(), effects.deep_view()) == prompt_step(
                old(self).deep_view(),
                client.deep_view(),
                event.deep_view(),
            ),
    {
        let mut effects: Vec<Effect> = if event_ends_web_search(&event) {
            self.complete_web_search()
        } else {
            empty()
        };
        let ghost first = effects.deep_view();
        let mut rest = self.take_event(client, event);
        let ghost second = rest.deep_view();
        effects.append(&mut rest);
        assert(effects.deep_view() =~= first + second);
        effects
    }

    #[verifier::rlimit(50)]
    #[verifier::spinoff_prover]
    fn take_event(&mut self, client: &ClientCapabilities, event: EventMsg) -> (effects: Vec<Effect>)
        ensures
            (final(self).deep_view(), effects.deep_view()) == event_step(
                old(self).deep_view(),
                client.deep_view(),
                event.deep_view(),
            ),
    {
        match event {
            EventMsg::TokenCount(info) => tell_usage(info),
            EventMsg::AgentItemStarted { item_id, phase } => {
                if is_commentary_phase(phase) {
                    self.commentary_message_item_ids.insert(item_id);
                }
                empty()
            },
            EventMsg::AgentMessageContentDelta { item_id, delta } => {
                self.take_message_delta(item_id, delta)
            },
            EventMsg::ReasoningContentDelta { delta } => {
                self.seen_reasoning_deltas = true;
                one(Effect::Notify(agent_thought(delta)))
            },
            EventMsg::ReasoningRawContentDelta { delta } => {
                self.seen_reasoning_deltas = true;
                one(Effect::Notify(agent_thought(delta)))
            },
            EventMsg::AgentReasoningSectionBreak => {
                self.seen_reasoning_deltas = true;
                one(Effect::Notify(agent_thought("\n\n".to_owned())))
            },
            EventMsg::AgentMessage { message, phase } => self.take_message(message, phase),
            EventMsg::AgentReasoning { text } => {
                if self.seen_reasoning_deltas {
                    self.seen_reasoning_deltas = false;
                    empty()
                } else {
                    one(Effect::Notify(agent_thought(text)))
                }
            },
            EventMsg::ThreadGoalUpdated { objective, status } => one(
                Effect::Notify(agent_text(format_thread_goal_update(objective.as_str(), status))),
            ),
            EventMsg::PlanUpdate { plan } => one(Effect::Notify(update_plan(plan))),
            EventMsg::WebSearchBegin { call_id } => self.start_web_search(call_id),
            EventMsg::WebSearchEnd { call_id, query, action, raw_action } => {
                update_web_search_query(call_id, query, action, raw_action)
            },
            EventMsg::ImageGenerationBegin { call_id, raw } => {
                self.start_image_generation(call_id, raw)
            },
            EventMsg::ImageGenerationEnd {
                call_id,
                status,
                revised_prompt,
                result,
                saved_path,
                raw,
            } => {
                let content = image_generation_content(revised_prompt, result, saved_path);
                self.end_image_generation(call_id, status, content, raw)
            },
            EventMsg::ExecApprovalRequest(request) => self.take_approval(request),
            EventMsg::ExecCommandBegin { call_id, cwd, parsed_cmd, raw } => {
                self.exec_command_begin(client, call_id, cwd, parsed_cmd, raw)
            },
            EventMsg::ExecCommandOutputDelta { call_id, chunk } => {
                assert(chunk.deep_view() =~= chunk@);
                self.exec_command_output_delta(client, call_id, chunk)
            },
            EventMsg::ExecCommandEnd { call_id, exit_code, status, raw } => {
                self.exec_command_end(client, call_id, exit_code, status, raw)
            },
            EventMsg::TerminalInteraction { call_id, stdin } => {
                self.terminal_interaction(client, call_id, stdin)
            },
            EventMsg::DynamicToolCallRequest { call_id, tool, arguments } => {
                start_dynamic_tool_call(call_id, tool, arguments)
            },
            EventMsg::DynamicToolCallResponse { call_id, success, content_items, error, raw } => {
                end_dynamic_tool_call(call_id, success, content_items, error, raw)
            },
            EventMsg::McpToolCallBegin { call_id, server, tool, raw_invocation } => {
                start_mcp_tool_call(call_id, server, tool, raw_invocation)
            },
            EventMsg::McpToolCallEnd { call_id, result } => end_mcp_tool_call(call_id, result),
            EventMsg::ApplyPatchApprovalRequest { call_id, changes, reason, raw } => {
                self.patch_approval(call_id, changes, reason, raw)
            },
            EventMsg::PatchApplyBegin { call_id, changes, raw } => {
                start_patch_apply(call_id, changes, raw)
            },
            EventMsg::PatchApplyUpdated { call_id, changes, raw } => {
                update_patch_apply(call_id, changes, raw)
            },
            EventMsg::PatchApplyEnd { call_id, success, status, changes, raw } => {
                end_patch_apply(call_id, success, status, changes, raw)
            },
            EventMsg::TurnComplete { last_agent_message } => {
                self.complete_turn(last_agent_message)
            },
            EventMsg::Error { message, codex_error_info } => {
                self.end_turn(PromptResult::Failed(turn_failure(message, codex_error_info)))
            },
            EventMsg::TurnAborted => self.end_turn(PromptResult::Stopped(StopReason::Cancelled)),
            EventMsg::ShutdownComplete => {
                self.end_turn(PromptResult::Stopped(StopReason::Cancelled))
            },
            EventMsg::ViewImageToolCall { call_id, path } => view_image(call_id, path),
            EventMsg::ExitedReviewMode(output) => review_mode_exit(output),
            EventMsg::Warning { message } => one(Effect::Notify(agent_text(message))),
            EventMsg::GuardianWarning { message } => one(Effect::Notify(agent_text(message))),
            EventMsg::ElicitationRequest { server_name, id, request, raw } => {
                self.mcp_elicitation(server_name, id, request, raw)
            },
            EventMsg::ContextCompacted => one(Effect::Notify(context_compacted())),
            EventMsg::RequestPermissions { call_id, reason, permissions, raw } => {
                self.request_permissions(call_id, reason, permissions, raw)
            },
            EventMsg::RequestUserInput(request) => self.request_user_input(request),
            EventMsg::GuardianAssessment(assessment) => self.guardian_assessment(assessment),
            _ => empty(),
        }
    }

    fn take_approval(&mut self, request: ExecApprovalRequest) -> (effects: Vec<Effect>)
        ensures
            (final(self).deep_view(), effects.deep_view()) == approval_step(
                old(self).deep_view(),
                request.deep_view(),
            ),
    {
        match self.exec_approval(request) {
            Ok(effects) => effects,
            Err(error) => self.fail(error),
        }
    }

    fn take_message_delta(&mut self, item_id: String, delta: String) -> (effects: Vec<Effect>)
        ensures
            (final(self).deep_view(), effects.deep_view()) == message_delta(
                old(self).deep_view(),
                item_id@,
                delta@,
            ),
    {
        if self.commentary_message_item_ids.contains(item_id.as_str()) {
            self.seen_commentary_message_deltas = true;
        } else {
            self.seen_final_message_deltas = true;
            let text = concat2(self.agent_message_text.as_str(), delta.as_str());
            self.agent_message_text = text;
        }
        one(Effect::Notify(agent_text(delta)))
    }

    fn take_message(&mut self, message: String, phase: Option<MessagePhase>) -> (effects: Vec<
        Effect,
    >)
        ensures
            (final(self).deep_view(), effects.deep_view()) == message_complete(
                old(self).deep_view(),
                message@,
                phase,
            ),
    {
        let saw_delta;
        if is_commentary_phase(phase) {
            saw_delta = self.seen_commentary_message_deltas;
            self.seen_commentary_message_deltas = false;
        } else {
            saw_delta = self.seen_final_message_deltas;
            self.seen_final_message_deltas = false;
            if !saw_delta && self.agent_message_text.as_str().is_empty() {
                self.agent_message_text = message.clone();
            }
        }
        if saw_delta {
            empty()
        } else {
            one(Effect::Notify(agent_text(message)))
        }
    }

    fn end_turn(&mut self, result: PromptResult) -> (effects: Vec<Effect>)
        ensures
            (final(self).deep_view(), effects.deep_view()) == turn_ended(
                old(self).deep_view(),
                result.deep_view(),
            ),
    {
        self.detach_pending_interactions();
        self.respond(result)
    }

    fn complete_turn(&mut self, last_agent_message: Option<String>) -> (effects: Vec<Effect>)
        ensures
            (final(self).deep_view(), effects.deep_view()) == turn_completed(
                old(self).deep_view(),
                last_agent_message.deep_view(),
            ),
    {
        let response_text = match last_agent_message {
            Some(message) => Some(message),
            None => match non_empty_str(self.agent_message_text.as_str()) {
                Some(text) => Some(text.to_owned()),
                None => None,
            },
        };
        let mut effects: Vec<Effect> = one(Effect::PublishTitle { response_text });
        let ghost first = effects.deep_view();
        let mut rest = self.end_turn(PromptResult::Stopped(StopReason::EndTurn));
        let ghost second = rest.deep_view();
        effects.append(&mut rest);
        assert(effects.deep_view() =~= first + second);
        effects
    }
}

fn turn_failure(message: String, codex_error_info: Json) -> (error: Error)
    ensures
        error.deep_view() == turn_error(message@, codex_error_info.deep_view()),
{
    broadcast use crate::json::lemma_tree;

    Error {
        kind: ErrorKind::InternalError,
        data: Some(
            Json::Object(
                two(
                    ("message".to_owned(), Json::Text(message)),
                    ("codex_error_info".to_owned(), codex_error_info),
                ),
            ),
        ),
    }
}

fn view_image(call_id: String, path: String) -> (effects: Vec<Effect>)
    ensures
        effects.deep_view() == image_viewed(call_id@, path@),
{
    let mut call = new_tool_call(
        call_id,
        concat2("View Image ", path.as_str()),
        ToolKind::Read,
        ToolCallStatus::Completed,
    );
    call.content = one(
        ToolCallContent::ResourceLink { name: path.clone(), uri: path.clone() },
    );
    call.locations = one(path);
    one(Effect::Notify(tool_call(call)))
}

/// The events that end a turn.
pub open spec fn ends_turn(event: EventMsgView) -> bool {
    event is TurnComplete || event is Error || event is TurnAborted || event is ShutdownComplete
}

/// The approvals that cannot be put to the client: what they ask for cannot be written.
pub open spec fn cannot_be_put(event: EventMsgView) -> bool {
    event matches EventMsgView::ExecApprovalRequest(request) && permissions_text(
        request.additional_permissions,
    ) is Err
}

/// The events that answer a turn: those that end it, and approvals that cannot be put to the
/// client.
pub open spec fn settles_turn(event: EventMsgView) -> bool {
    ends_turn(event) || cannot_be_put(event)
}

/// Whether one of the effects answers the turn.
pub open spec fn answers(effects: Seq<EffectView>) -> bool {
    exists|i: int| 0 <= i < effects.len() && #[trigger] effects[i] is Respond
}

/// A step that answers nothing and keeps what identifies a turn.
spec fn goes_on(s: PromptStateView, step: (PromptStateView, Seq<EffectView>)) -> bool {
    &&& step.0.response_open == s.response_open
    &&& step.0.submission_id == s.submission_id
    &&& step.0.prompt_text == s.prompt_text
    &&& commands_are_keyed(s) ==> commands_are_keyed(step.0)
    &&& !answers(step.1)
}

proof fn lemma_exec_approval_goes_on(s: PromptStateView, request: ExecApprovalRequestView)
    requires
        !cannot_be_put(EventMsgView::ExecApprovalRequest(request)),
    ensures
        goes_on(s, approval_step(s, request)),
{
}

/// An approval that cannot be put to the client keeps the command, and answers the turn.
proof fn lemma_approval_fails(s: PromptStateView, request: ExecApprovalRequestView)
    requires
        cannot_be_put(EventMsgView::ExecApprovalRequest(request)),
    ensures
        ({
            let (after, effects) = approval_step(s, request);
            &&& after == (PromptStateView { response_open: false, ..command_awaited(s, request) })
            &&& s.response_open ==> effects.len() == 1 && effects[0] is Respond
            &&& !s.response_open ==> !answers(effects)
        }),
{
}

proof fn lemma_user_input_goes_on(s: PromptStateView, request: UserInputRequestView)
    ensures
        goes_on(s, user_input_requested(s, request)),
{
}

proof fn lemma_elicitation_goes_on(
    s: PromptStateView,
    server_name: Seq<char>,
    id: RequestIdView,
    request: ElicitationRequestView,
    raw: JsonView,
)
    ensures
        goes_on(s, elicitation_requested(s, server_name, id, request, raw)),
{
}

proof fn lemma_command_goes_on(
    s: PromptStateView,
    client: Option<Seq<(Seq<char>, JsonView)>>,
    event: EventMsgView,
)
    requires
        event is ExecCommandBegin || event is ExecCommandOutputDelta || event is ExecCommandEnd
            || event is TerminalInteraction,
    ensures
        goes_on(s, event_step(s, client, event)),
{
    match event {
        EventMsgView::ExecCommandBegin { .. } => {},
        EventMsgView::ExecCommandOutputDelta { .. } => {},
        EventMsgView::ExecCommandEnd { .. } => {},
        _ => {},
    }
}

#[verifier::spinoff_prover]
proof fn lemma_tool_goes_on(
    s: PromptStateView,
    client: Option<Seq<(Seq<char>, JsonView)>>,
    event: EventMsgView,
)
    requires
        event is WebSearchBegin || event is WebSearchEnd || event is ImageGenerationBegin
            || event is ImageGenerationEnd || event is DynamicToolCallRequest
            || event is DynamicToolCallResponse || event is McpToolCallBegin
            || event is McpToolCallEnd || event is PatchApplyBegin || event is PatchApplyUpdated
            || event is PatchApplyEnd || event is ViewImageToolCall || event is ExitedReviewMode
            || event is GuardianAssessment,
    ensures
        goes_on(s, event_step(s, client, event)),
{
    match event {
        EventMsgView::WebSearchBegin { .. } => {},
        EventMsgView::WebSearchEnd { .. } => {},
        EventMsgView::ImageGenerationBegin { .. } => {},
        EventMsgView::ImageGenerationEnd { .. } => {},
        EventMsgView::DynamicToolCallRequest { .. } => {},
        EventMsgView::DynamicToolCallResponse { .. } => {},
        EventMsgView::McpToolCallBegin { .. } => {},
        EventMsgView::McpToolCallEnd { .. } => {},
        EventMsgView::PatchApplyBegin { .. } => {},
        EventMsgView::PatchApplyUpdated { .. } => {},
        EventMsgView::PatchApplyEnd { .. } => {},
        EventMsgView::ViewImageToolCall { .. } => {},
        EventMsgView::ExitedReviewMode(_) => {},
        _ => {},
    }
}

#[verifier::spinoff_prover]
proof fn lemma_event_goes_on(
    s: PromptStateView,
    client: Option<Seq<(Seq<char>, JsonView)>>,
    event: EventMsgView,
)
    requires
        !settles_turn(event),
    ensures
        goes_on(s, event_step(s, client, event)),
{
    match event {
        EventMsgView::ExecApprovalRequest(request) => {
            lemma_exec_approval_goes_on(s, request);
        },
        EventMsgView::RequestUserInput(request) => {
            lemma_user_input_goes_on(s, request);
        },
        EventMsgView::ElicitationRequest { server_name, id, request, raw } => {
            lemma_elicitation_goes_on(s, server_name, id, request, raw);
        },
        EventMsgView::ApplyPatchApprovalRequest { .. } => {},
        EventMsgView::RequestPermissions { .. } => {},
        EventMsgView::TokenCount(_) => {},
        EventMsgView::AgentItemStarted { .. } => {},
        EventMsgView::AgentMessageContentDelta { .. } => {},
        EventMsgView::ReasoningContentDelta { .. } => {},
        EventMsgView::ReasoningRawContentDelta { .. } => {},
        EventMsgView::AgentReasoningSectionBreak => {},
        EventMsgView::AgentMessage { .. } => {},
        EventMsgView::AgentReasoning { .. } => {},
        EventMsgView::ThreadGoalUpdated { .. } => {},
        EventMsgView::PlanUpdate { .. } => {},
        EventMsgView::Warning { .. } => {},
        EventMsgView::GuardianWarning { .. } => {},
        EventMsgView::ContextCompacted => {},
        EventMsgView::ExecCommandBegin { .. } => {
            lemma_command_goes_on(s, client, event);
        },
        EventMsgView::ExecCommandOutputDelta { .. } => {
            lemma_command_goes_on(s, client, event);
        },
        EventMsgView::ExecCommandEnd { .. } => {
            lemma_command_goes_on(s, client, event);
        },
        EventMsgView::TerminalInteraction { .. } => {
            lemma_command_goes_on(s, client, event);
        },
        EventMsgView::WebSearchBegin { .. } => {
            lemma_tool_goes_on(s, client, event);
        },
        EventMsgView::WebSearchEnd { .. } => {
            lemma_tool_goes_on(s, client, event);
        },
        EventMsgView::ImageGenerationBegin { .. } => {
            lemma_tool_goes_on(s, client, event);
        },
        EventMsgView::ImageGenerationEnd { .. } => {
            lemma_tool_goes_on(s, client, event);
        },
        EventMsgView::DynamicToolCallRequest { .. } => {
            lemma_tool_goes_on(s, client, event);
        },
        EventMsgView::DynamicToolCallResponse { .. } => {
            lemma_tool_goes_on(s, client, event);
        },
        EventMsgView::McpToolCallBegin { .. } => {
            lemma_tool_goes_on(s, client, event);
        },
        EventMsgView::McpToolCallEnd { .. } => {
            lemma_tool_goes_on(s, client, event);
        },
        EventMsgView::PatchApplyBegin { .. } => {
            lemma_tool_goes_on(s, client, event);
        },
        EventMsgView::PatchApplyUpdated { .. } => {
            lemma_tool_goes_on(s, client, event);
        },
        EventMsgView::PatchApplyEnd { .. } => {
            lemma_tool_goes_on(s, client, event);
        },
        EventMsgView::ViewImageToolCall { .. } => {
            lemma_tool_goes_on(s, client, event);
        },
        EventMsgView::ExitedReviewMode(_) => {
            lemma_tool_goes_on(s, client, event);
        },
        EventMsgView::GuardianAssessment(_) => {
            lemma_tool_goes_on(s, client, event);
        },
        _ => {},
    }
}

/// What a turn looks like after the event that ends it, and how it is answered.
proof fn lemma_turn_ends(
    s: PromptStateView,
    client: Option<Seq<(Seq<char>, JsonView)>>,
    event: EventMsgView,
)
    requires
        ends_turn(event),
    ensures
        ({
            let (after, effects) = event_step(s, client, event);
            &&& after == (PromptStateView { response_open: false, ..detached(s) })
            &&& s.response_open ==> effects.len() > 0 && effects.last() is Respond && forall|i: int|
                0 <= i < effects.len() - 1 ==> !(#[trigger] effects[i] is Respond)
            &&& !s.response_open ==> !answers(effects)
        }),
{
    match event {
        EventMsgView::TurnComplete { .. } => {},
        EventMsgView::Error { .. } => {},
        EventMsgView::TurnAborted => {},
        _ => {},
    }
}

/// A turn is answered by the first event that ends it or that asks for an approval that cannot be
/// put to the client, by no other event, and never twice. When it has ended, nothing waits for the
/// client any longer.
pub proof fn turn_is_answered_when_it_ends(
    s: PromptStateView,
    client: Option<Seq<(Seq<char>, JsonView)>>,
    event: EventMsgView,
)
    ensures
        ({
            let (after, effects) = prompt_step(s, client, event);
            &&& answers(effects) <==> s.response_open && settles_turn(event)
            &&& after.response_open <==> s.response_open && !settles_turn(event)
            &&& answers(effects) ==> effects.last() is Respond
            &&& forall|i: int, j: int|
                0 <= i < effects.len() && 0 <= j < effects.len() && #[trigger] effects[i] is Respond
                    && #[trigger] effects[j] is Respond ==> i == j
            &&& ends_turn(event) ==> after.pending_permission_interactions == Map::<
                Seq<char>,
                PendingPermissionInteractionView,
            >::empty()
        }),
{
    let (searched, first) = if ends_web_search(event) {
        web_search_completed(s)
    } else {
        (s, seq![])
    };
    let (after, then_effects) = event_step(searched, client, event);
    let effects = first + then_effects;
    assert(!answers(first));
    if ends_turn(event) {
        lemma_turn_ends(searched, client, event);
        if s.response_open {
            assert(effects[effects.len() - 1] == then_effects.last());
        }
    } else if cannot_be_put(event) {
        lemma_approval_fails(searched, event->ExecApprovalRequest_0);
        if s.response_open {
            assert(effects[effects.len() - 1] == then_effects[0]);
        }
    } else {
        lemma_event_goes_on(searched, client, event);
    }
    assert forall|i: int| 0 <= i < effects.len() && #[trigger] effects[i] is Respond implies i
        == effects.len() - 1 && s.response_open && settles_turn(event) by {
        if i < first.len() {
            assert(first[i] is Respond);
        } else {
            assert(then_effects[i - first.len()] is Respond);
        }
    }
}

/// A turn that is cancelled is answered as cancelled, one that is complete as ended, and one that
/// failed, or whose approval cannot be put to the client, with its error.
pub proof fn turn_is_answered_as_it_ended(
    s: PromptStateView,
    client: Option<Seq<(Seq<char>, JsonView)>>,
    event: EventMsgView,
)
    requires
        s.response_open,
        settles_turn(event),
    ensures
        prompt_step(s, client, event).1.last() == EffectView::Respond(
            match event {
                EventMsgView::TurnComplete { .. } => PromptResultView::Stopped(StopReason::EndTurn),
                EventMsgView::Error { message, codex_error_info } => PromptResultView::Failed(
                    turn_error(message, codex_error_info),
                ),
                EventMsgView::ExecApprovalRequest(request) => PromptResultView::Failed(
                    unwritable(permissions_text(request.additional_permissions)->Err_0),
                ),
                _ => PromptResultView::Stopped(StopReason::Cancelled),
            },
        ),
{
}

/// Whatever happens in a turn, each command stays under the tool call that it is shown as, and
/// the turn stays that of its submission and its prompt.
pub proof fn turn_keeps_its_identity(
    s: PromptStateView,
    client: Option<Seq<(Seq<char>, JsonView)>>,
    event: EventMsgView,
)
    ensures
        commands_are_keyed(s) ==> commands_are_keyed(prompt_step(s, client, event).0),
        prompt_step(s, client, event).0.submission_id == s.submission_id,
        prompt_step(s, client, event).0.prompt_text == s.prompt_text,
{
    let searched = if ends_web_search(event) {
        web_search_completed(s).0
    } else {
        s
    };
    assert(searched.active_commands == s.active_commands);
    if ends_turn(event) {
        lemma_turn_ends(searched, client, event);
    } else if cannot_be_put(event) {
        lemma_approval_fails(searched, event->ExecApprovalRequest_0);
    } else {
        lemma_event_goes_on(searched, client, event);
    }
}

/// A new turn has its commands under their tool calls.
pub proof fn new_turn_is_keyed(submission_id: Seq<char>, prompt_text: Option<Seq<char>>)
    ensures
        commands_are_keyed(new_prompt(submission_id, prompt_text)),
        guardians_are_distinct(new_prompt(submission_id, prompt_text)),
{
}

/// A message whose pieces were told is not told again; the next one is.
pub proof fn streamed_message_is_told_once(
    s: PromptStateView,
    client: Option<Seq<(Seq<char>, JsonView)>>,
    item_id: Seq<char>,
    delta: Seq<char>,
    message: Seq<char>,
    phase: Option<MessagePhase>,
    next: Seq<char>,
)
    requires
        s.commentary_message_item_ids.contains(item_id) == is_commentary(phase),
    ensures
        ({
            let (streamed, first) = prompt_step(
                s,
                client,
                EventMsgView::AgentMessageContentDelta { item_id, delta },
            );
            let (whole, second) = prompt_step(
                streamed,
                client,
                EventMsgView::AgentMessage { message, phase },
            );
            let (after, third) = prompt_step(
                whole,
                client,
                EventMsgView::AgentMessage { message: next, phase },
            );
            &&& first == told(delta)
            &&& second == Seq::<EffectView>::empty()
            &&& third == told(next)
        }),
{
    assert(Seq::<EffectView>::empty() + told(delta) =~= told(delta));
    assert(Seq::<EffectView>::empty() + told(next) =~= told(next));
    assert(Seq::<EffectView>::empty() + Seq::<EffectView>::empty() =~= Seq::<EffectView>::empty());
}

/// Commentary that was streamed does not keep the answer from being told, nor is it taken for
/// the answer.
pub proof fn commentary_does_not_hide_the_answer(
    s: PromptStateView,
    client: Option<Seq<(Seq<char>, JsonView)>>,
    item_id: Seq<char>,
    delta: Seq<char>,
    message: Seq<char>,
    phase: Option<MessagePhase>,
)
    requires
        s.commentary_message_item_ids.contains(item_id),
        !is_commentary(phase),
        !s.seen_final_message_deltas,
    ensures
        ({
            let streamed = prompt_step(
                s,
                client,
                EventMsgView::AgentMessageContentDelta { item_id, delta },
            ).0;
            let (after, effects) = prompt_step(
                streamed,
                client,
                EventMsgView::AgentMessage { message, phase },
            );
            &&& streamed.agent_message_text == s.agent_message_text
            &&& effects == told(message)
            &&& s.agent_message_text.len() == 0 ==> after.agent_message_text == message
        }),
{
    assert(Seq::<EffectView>::empty() + told(message) =~= told(message));
}

/// Reasoning whose pieces were told is not told again.
pub proof fn streamed_reasoning_is_told_once(
    s: PromptStateView,
    client: Option<Seq<(Seq<char>, JsonView)>>,
    delta: Seq<char>,
    text: Seq<char>,
)
    ensures
        ({
            let (streamed, first) = prompt_step(
                s,
                client,
                EventMsgView::ReasoningContentDelta { delta },
            );
            &&& first == thought(delta)
            &&& prompt_step(streamed, client, EventMsgView::AgentReasoning { text }).1 == Seq::<
                EffectView,
            >::empty()
            &&& !s.seen_reasoning_deltas ==> prompt_step(
                s,
                client,
                EventMsgView::AgentReasoning { text },
            ).1 == thought(text)
        }),
{
    assert(Seq::<EffectView>::empty() + thought(delta) =~= thought(delta));
    assert(Seq::<EffectView>::empty() + thought(text) =~= thought(text));
    assert(Seq::<EffectView>::empty() + Seq::<EffectView>::empty() =~= Seq::<EffectView>::empty());
}

/// No search is left open when something else begins or ends: it is shown as found first.
pub proof fn web_search_is_closed(
    s: PromptStateView,
    client: Option<Seq<(Seq<char>, JsonView)>>,
    event: EventMsgView,
)
    requires
        ends_web_search(event),
    ensures
        !(event is WebSearchBegin) ==> prompt_step(s, client, event).0.active_web_search is None,
        s.active_web_search is Some ==> prompt_step(s, client, event).1.len() > 0 && prompt_step(
            s,
            client,
            event,
        ).1[0] == web_search_completed(s).1[0],
{
}

/// The output of a command without a terminal is kept piece by piece: two pieces leave the same
/// as both at once, and neither is told before the command ends.
pub proof fn output_is_kept_until_the_end(
    s: PromptStateView,
    client: Option<Seq<(Seq<char>, JsonView)>>,
    call_id: Seq<char>,
    first: Seq<char>,
    second: Seq<char>,
)
    requires
        s.active_commands.contains_key(call_id),
        !(s.active_commands[call_id].terminal_output && shows_terminals(client)),
    ensures
        command_output(s, client, call_id, first).1 == Seq::<EffectView>::empty(),
        command_output(command_output(s, client, call_id, first).0, client, call_id, second).0
            == command_output(s, client, call_id, first + second).0,
        command_output(s, client, call_id, first).0.active_commands[call_id].output
            == s.active_commands[call_id].output + first,
{
    let once = command_output(s, client, call_id, first).0;
    let twice = command_output(once, client, call_id, second).0;
    let both = command_output(s, client, call_id, first + second).0;
    assert(s.active_commands[call_id].output + first + second =~= s.active_commands[call_id].output
        + (first + second));
    assert(twice.active_commands =~= both.active_commands);
}

/// The end of a command is told once: a second end of the same call says nothing.
pub proof fn command_ends_once(
    s: PromptStateView,
    client: Option<Seq<(Seq<char>, JsonView)>>,
    call_id: Seq<char>,
    exit_code: i32,
    status: RunStatus,
    raw: JsonView,
)
    ensures
        ({
            let (after, effects) = command_ended(s, client, call_id, exit_code, status, raw);
            &&& effects.len() == (if s.active_commands.contains_key(call_id) {
                1int
            } else {
                0
            })
            &&& command_ended(after, client, call_id, exit_code, status, raw) == (
                after,
                Seq::<EffectView>::empty(),
            )
        }),
{
}

} // verus!
