//! Whole turns: an actor between a scripted thread and a client that records what it is told.
use std::cell::{Cell, RefCell};
use std::collections::VecDeque;

use codex_acp::actor::{
    Accepted, ActorResolution, MessageOutcome, ModelChoice, Pending, PermissionAnswer,
    ThreadActor, ThreadMessage,
};
use codex_acp::backend::{CodexThreadImpl, Event};
use codex_acp::client::{
    ClientCapabilities, KODEX_CONTEXT_COMPACTED_META_KEY, KODEX_CONTEXT_COMPACTION_META_KEY,
    KODEX_TOOL_STOP_META_KEY,
};
use codex_acp::collections::{StringMap, StringSet};
use codex_acp::events::{EventMsg, ExecApprovalRequest, ParsedCommand, ReviewOutput};
use codex_acp::json::{get_field, get_text, Json};
use codex_acp::permissions::answers::PERMISSION_GUIDANCE_META_KEY;
use codex_acp::permissions::{PermissionOutcome, PermissionResponse};
use codex_acp::prompt_state::{Effect, PermissionRequest, PromptState};
use codex_acp::prompts::submit_permission_guidance_followup;
use codex_acp::protocol::{
    ApprovalPolicy, ErrorKind, MessagePhase, NetworkSandboxPolicy, Notification, Op,
    PermissionProfile, ProfileKind, PromptResult, ReviewDecision, ReviewTarget, RunStatus,
    SessionUpdate, StopReason, ThreadGoalStatus, ToolCall, ToolCallContent, ToolCallStatus,
    ToolCallUpdate, UserInput,
};
use codex_acp::session_config::Config;
use codex_acp::title::{prompt_text_from_items, ThreadTitleState, SESSION_TITLE_INSTRUCTIONS};
use codex_acp::title_flow::{
    generate_session_title_via_hidden_turn, hidden_turn_next, hidden_turn_rollback,
    maybe_publish_session_title, publish_session_title, rollback_hidden_title_turn,
    store_session_title, title_step, GeneratorOutcome, HiddenTurnOutcome, HiddenTurnStep,
    TitleDecision, TitleStep,
};

const INIT_COMMAND_PROMPT: &str = "Generate a file named AGENTS.md.";

/// A thread that answers each operation with the events of a script.
struct ScriptedThread {
    next_id: Cell<usize>,
    active_prompt: RefCell<Option<String>>,
    name: RefCell<Option<String>>,
    first_user_message: RefCell<Option<String>>,
    ops: RefCell<Vec<Op>>,
    events: RefCell<VecDeque<Event>>,
}

impl ScriptedThread {
    fn new() -> Self {
        ScriptedThread {
            next_id: Cell::new(0),
            active_prompt: RefCell::new(None),
            name: RefCell::new(None),
            first_user_message: RefCell::new(None),
            ops: RefCell::new(vec![]),
            events: RefCell::new(VecDeque::new()),
        }
    }

    fn send(&self, id: &str, msg: EventMsg) {
        self.events.borrow_mut().push_back(Event {
            id: id.to_string(),
            msg,
        });
    }

    fn complete(&self, id: &str, last_agent_message: Option<&str>) {
        self.send(
            id,
            EventMsg::TurnComplete {
                last_agent_message: last_agent_message.map(str::to_string),
            },
        );
    }

    fn answer_prompt(&self, id: &str, prompt: String) {
        if self.first_user_message.borrow().is_none() {
            *self.first_user_message.borrow_mut() = Some(prompt.clone());
        }
        if prompt.starts_with(SESSION_TITLE_INSTRUCTIONS) {
            self.send(
                id,
                EventMsg::AgentMessageContentDelta {
                    item_id: id.to_string(),
                    delta: "WOA Title Fix".to_string(),
                },
            );
            self.complete(id, Some("WOA Title Fix"));
            return;
        }
        match prompt.as_str() {
            "parallel-exec" => {
                self.send(id, command_begin("call-a", "echo a"));
                self.send(id, command_begin("call-b", "echo b"));
                self.send(id, command_end("call-a"));
                self.send(id, command_end("call-b"));
                self.complete(id, None);
            }
            "long-exec" => self.send(id, command_begin("call-long", "sleep 60")),
            "title-sync" => self.complete(id, Some("Session title sync is fixed.")),
            "image-generation" => {
                self.send(
                    id,
                    EventMsg::ImageGenerationBegin {
                        call_id: "ig-1".to_string(),
                        raw: Json::Null,
                    },
                );
                self.send(
                    id,
                    EventMsg::ImageGenerationEnd {
                        call_id: "ig-1".to_string(),
                        status: ToolCallStatus::Completed,
                        revised_prompt: Some("A tiny blue square".to_string()),
                        result: "Zm9v".to_string(),
                        saved_path: Some("/tmp/ig-1.png".to_string()),
                        raw: Json::Null,
                    },
                );
                self.complete(id, None);
            }
            "thread-goal-update" => {
                self.send(
                    id,
                    EventMsg::ThreadGoalUpdated {
                        objective: "Ship the goal update".to_string(),
                        status: ThreadGoalStatus::Active,
                    },
                );
                self.complete(id, None);
            }
            "commentary-only" => {
                self.send(
                    id,
                    EventMsg::AgentMessage {
                        message: "Need patch.".to_string(),
                        phase: Some(MessagePhase::Commentary),
                    },
                );
                self.complete(id, None);
            }
            "commentary-delta-then-final" => {
                self.send(
                    id,
                    EventMsg::AgentItemStarted {
                        item_id: "commentary-item".to_string(),
                        phase: Some(MessagePhase::Commentary),
                    },
                );
                self.send(
                    id,
                    EventMsg::AgentMessageContentDelta {
                        item_id: "commentary-item".to_string(),
                        delta: "Need internal note.".to_string(),
                    },
                );
                self.send(
                    id,
                    EventMsg::AgentMessage {
                        message: "Final answer.".to_string(),
                        phase: Some(MessagePhase::FinalAnswer),
                    },
                );
                self.complete(id, None);
            }
            "approval-block" => self.send(
                id,
                EventMsg::ExecApprovalRequest(exec_approval_request(
                    id,
                    vec![ReviewDecision::Approved, ReviewDecision::Abort],
                )),
            ),
            _ => {
                self.send(
                    id,
                    EventMsg::AgentMessageContentDelta {
                        item_id: id.to_string(),
                        delta: prompt.clone(),
                    },
                );
                self.send(
                    id,
                    EventMsg::AgentMessage {
                        message: prompt,
                        phase: None,
                    },
                );
                self.complete(id, None);
            }
        }
    }
}

impl CodexThreadImpl for ScriptedThread {
    fn submit(&self, op: Op) -> Result<String, String> {
        let id = self.next_id.get().to_string();
        self.next_id.set(self.next_id.get() + 1);
        match &op {
            Op::UserInput { items } => {
                let prompt = items
                    .iter()
                    .map(|item| match item {
                        UserInput::Text(text) => text.clone(),
                        UserInput::Other(_) => unreachable!(),
                    })
                    .collect::<Vec<_>>()
                    .join("\n");
                if prompt == "steer-reject" {
                    self.ops.borrow_mut().push(op);
                    return Err("active turn is not steerable".to_string());
                }
                *self.active_prompt.borrow_mut() = Some(id.clone());
                self.answer_prompt(&id, prompt);
            }
            Op::Compact => {
                self.send(&id, EventMsg::TurnStarted);
                self.send(&id, EventMsg::ContextCompacted);
                self.send(
                    &id,
                    EventMsg::AgentMessage {
                        message: "Compact task completed".to_string(),
                        phase: None,
                    },
                );
                self.complete(&id, None);
            }
            Op::Review { target } => {
                self.send(&id, EventMsg::EnteredReviewMode);
                self.send(
                    &id,
                    EventMsg::ExitedReviewMode(Some(ReviewOutput {
                        finding_count: 0,
                        findings_block: String::new(),
                        overall_explanation: review_hint(target),
                    })),
                );
                self.complete(&id, None);
            }
            Op::ThreadRollback { .. } => self.send(&id, EventMsg::ThreadRolledBack),
            Op::Shutdown => {
                if let Some(active) = self.active_prompt.borrow_mut().take() {
                    self.send(&active, EventMsg::TurnAborted);
                }
            }
            _ => {}
        }
        self.ops.borrow_mut().push(op);
        Ok(id)
    }

    fn next_event(&self) -> Result<Event, String> {
        self.events
            .borrow_mut()
            .pop_front()
            .ok_or("the agent died".to_string())
    }

    fn read_thread_title_state(&self) -> Result<ThreadTitleState, String> {
        Ok(ThreadTitleState {
            name: self.name.borrow().clone(),
            first_user_message: self.first_user_message.borrow().clone(),
        })
    }

    fn set_thread_name(&self, name: String) -> Result<(), String> {
        *self.name.borrow_mut() = Some(name);
        Ok(())
    }
}

fn review_hint(target: &ReviewTarget) -> String {
    match target {
        ReviewTarget::UncommittedChanges => "current changes".to_string(),
        ReviewTarget::BaseBranch { branch } => format!("changes against '{branch}'"),
        ReviewTarget::Commit { sha, .. } => format!("commit {sha}"),
        ReviewTarget::Custom { instructions } => instructions.clone(),
    }
}

fn command_begin(call_id: &str, cmd: &str) -> EventMsg {
    EventMsg::ExecCommandBegin {
        call_id: call_id.to_string(),
        cwd: "/work".to_string(),
        parsed_cmd: vec![ParsedCommand::Unknown {
            cmd: cmd.to_string(),
        }],
        raw: Json::Null,
    }
}

fn command_end(call_id: &str) -> EventMsg {
    EventMsg::ExecCommandEnd {
        call_id: call_id.to_string(),
        exit_code: 0,
        status: RunStatus::Completed,
        raw: Json::Null,
    }
}

fn exec_approval_request(turn_id: &str, decisions: Vec<ReviewDecision>) -> ExecApprovalRequest {
    ExecApprovalRequest {
        call_id: "call-id".to_string(),
        turn_id: turn_id.to_string(),
        approval_id: Some("approval-id".to_string()),
        cwd: "/work".to_string(),
        reason: None,
        parsed_cmd: vec![ParsedCommand::Unknown {
            cmd: "echo hi".to_string(),
        }],
        proposed_execpolicy_amendment: None,
        network_approval_context: None,
        additional_permissions: None,
        available_decisions: decisions,
        proposed_network_policy_amendments: None,
        raw: Json::Null,
    }
}

fn workspace_profile() -> PermissionProfile {
    PermissionProfile {
        identity: "workspace".to_string(),
        kind: ProfileKind::Managed,
        network: NetworkSandboxPolicy::Restricted,
        full_disk_read: true,
        full_disk_write: false,
        writes_working_directory: true,
    }
}

fn config() -> Config {
    Config {
        model: Some("gpt".to_string()),
        model_provider_id: "openai".to_string(),
        model_providers: StringSet::new(),
        model_reasoning_effort: None,
        approval_policy: ApprovalPolicy::OnRequest,
        permission_profile: workspace_profile(),
        active_permission_profile: None,
        project_untrusted: false,
        cwd: "/work".to_string(),
        legacy_workspace_network: NetworkSandboxPolicy::Restricted,
    }
}

/// How the session asks for a title.
enum Generator {
    Missing,
    Answers(Option<String>),
    Fails,
}

struct Session {
    actor: ThreadActor,
    capabilities: ClientCapabilities,
    thread: ScriptedThread,
    generator: Generator,
    generator_calls: usize,
    answers: VecDeque<PermissionAnswer>,
    notifications: Vec<Notification>,
    requests: Vec<PermissionRequest>,
    results: Vec<PromptResult>,
}

impl Session {
    fn new() -> Self {
        Session {
            actor: ThreadActor::new(config(), vec![], vec![]),
            capabilities: ClientCapabilities { meta: None },
            thread: ScriptedThread::new(),
            generator: Generator::Missing,
            generator_calls: 0,
            answers: VecDeque::new(),
            notifications: vec![],
            requests: vec![],
            results: vec![],
        }
    }

    fn message(&mut self, message: ThreadMessage) -> MessageOutcome {
        let choice = ModelChoice {
            current_model: "gpt".to_string(),
            presets: vec![],
        };
        self.actor
            .handle_message(message, choice, INIT_COMMAND_PROMPT)
    }

    /// Sends a prompt, and lets the turn run as far as it goes by itself.
    fn prompt(&mut self, text: &str) {
        let outcome = self.message(ThreadMessage::Prompt {
            items: vec![UserInput::Text(text.to_string())],
        });
        match outcome {
            MessageOutcome::Submit {
                notice,
                op,
                then_apply,
            } => {
                self.notifications.extend(notice);
                let answer = self.thread.submit(op);
                assert_eq!(self.actor.handle_submitted(then_apply, answer).is_ok(), true);
            }
            other => panic!("unexpected outcome: {other:?}"),
        }
        self.run();
    }

    fn run(&mut self) {
        loop {
            let next = self.thread.events.borrow_mut().pop_front();
            let Some(event) = next else { break };
            let id = event.id.clone();
            let effects = self.actor.handle_event(&self.capabilities, event);
            self.perform(&id, effects);
        }
    }

    fn perform(&mut self, submission_id: &str, effects: Vec<Effect>) {
        for effect in effects {
            match effect {
                Effect::Notify(notification) => self.notifications.push(notification),
                Effect::RequestPermission(request) => {
                    let answer = self.answers.pop_front();
                    let interaction_id = request.interaction_id;
                    let request_key = request.request_key.clone();
                    self.requests.push(request);
                    if let Some(answer) = answer {
                        self.resolve(submission_id, interaction_id, request_key, answer);
                    }
                }
                Effect::Submit(op) => {
                    assert!(self.thread.submit(op).is_ok());
                }
                Effect::PublishTitle { response_text } => {
                    self.publish_title(submission_id, response_text)
                }
                Effect::Respond(result) => self.results.push(result),
            }
        }
    }

    fn resolve(
        &mut self,
        submission_id: &str,
        interaction_id: u64,
        request_key: String,
        answer: PermissionAnswer,
    ) {
        let resolution = self.actor.handle_permission_request_resolved(
            submission_id.to_string(),
            interaction_id,
            request_key,
            answer,
        );
        match resolution {
            ActorResolution::Ignored => {}
            ActorResolution::Failed(effects) => self.perform(submission_id, effects),
            ActorResolution::Submit { op, followup } => {
                assert!(self.thread.submit(op).is_ok());
                let prompt = followup.and_then(|text| submit_permission_guidance_followup(&text));
                if let Some((op, prompt_text)) = prompt {
                    let answer = self.thread.submit(op);
                    let pending = Pending::Prompt { prompt_text };
                    assert!(self.actor.handle_submitted(pending, answer).is_ok());
                }
            }
        }
    }

    fn publish_title(&mut self, submission_id: &str, response_text: Option<String>) {
        let prompt_text = self
            .actor
            .submissions
            .get(submission_id)
            .and_then(|state| state.prompt_text.clone());
        let decision = maybe_publish_session_title(
            &self.thread,
            &self.actor.session_title,
            &prompt_text,
            !matches!(self.generator, Generator::Missing),
        );
        let prompt_text = match decision {
            TitleDecision::Generate { prompt_text } => prompt_text,
            TitleDecision::Publish(title) => {
                let message = publish_session_title(&mut self.actor.session_title, title);
                self.notifications.extend(message);
                return;
            }
            TitleDecision::Nothing => return,
        };
        self.generator_calls += 1;
        let outcome = match &self.generator {
            Generator::Missing => unreachable!(),
            Generator::Answers(title) => GeneratorOutcome::Title(title.clone()),
            Generator::Fails => GeneratorOutcome::Failed,
        };
        let title = match title_step(outcome) {
            TitleStep::Publish(title) => Some(title),
            TitleStep::Nothing => None,
            TitleStep::HiddenTurn => self.hidden_title(prompt_text, response_text),
        };
        if let Some(title) = title {
            let message = store_session_title(&self.thread, &mut self.actor.session_title, title);
            self.notifications.extend(message);
        }
    }

    fn hidden_title(
        &mut self,
        prompt_text: String,
        response_text: Option<String>,
    ) -> Option<String> {
        let mut turn = generate_session_title_via_hidden_turn(
            &self.thread,
            prompt_text,
            response_text.as_deref(),
        )
        .unwrap();
        let outcome = loop {
            let event = self.thread.next_event().unwrap();
            match turn.collect_hidden_title_turn(event) {
                HiddenTurnStep::Continue => {}
                HiddenTurnStep::Finished(title) => break HiddenTurnOutcome::Finished(title),
                HiddenTurnStep::Interrupt => break HiddenTurnOutcome::ToolRequested,
                HiddenTurnStep::Failed(message) => break HiddenTurnOutcome::Failed(message),
            }
        };
        let next = hidden_turn_next(outcome);
        if next.interrupt {
            self.thread.submit(Op::Interrupt).unwrap();
        }
        if !next.roll_back {
            return next.title;
        }
        let rollback_id = self.thread.submit(hidden_turn_rollback()).unwrap();
        loop {
            let event = self.thread.next_event().unwrap();
            if let Some(rolled_back) = rollback_hidden_title_turn(&rollback_id, &event) {
                assert!(rolled_back);
                return next.title;
            }
        }
    }

    fn agent_texts(&self) -> Vec<&str> {
        self.notifications
            .iter()
            .filter_map(|notification| match &notification.update {
                SessionUpdate::AgentText(text) => Some(text.as_str()),
                _ => None,
            })
            .collect()
    }

    fn tool_calls(&self) -> Vec<&ToolCall> {
        self.notifications
            .iter()
            .filter_map(|notification| match &notification.update {
                SessionUpdate::ToolCall(call) => Some(call),
                _ => None,
            })
            .collect()
    }

    fn tool_updates(&self) -> Vec<&ToolCallUpdate> {
        self.notifications
            .iter()
            .filter_map(|notification| match &notification.update {
                SessionUpdate::ToolCallUpdate(update) => Some(update),
                _ => None,
            })
            .collect()
    }

    fn titles(&self) -> Vec<&str> {
        self.notifications
            .iter()
            .filter_map(|notification| match &notification.update {
                SessionUpdate::SessionInfo { title } => title.as_deref(),
                _ => None,
            })
            .collect()
    }

    fn ended(&self) -> bool {
        self.results == vec![PromptResult::Stopped(StopReason::EndTurn)]
    }
}

fn selected(option_id: &str, meta: Option<Vec<(String, Json)>>) -> PermissionAnswer {
    PermissionAnswer::Answered(PermissionResponse {
        outcome: PermissionOutcome::Selected {
            option_id: option_id.to_string(),
            meta: None,
        },
        meta,
    })
}

fn compaction_phase(notification: &Notification) -> Option<&str> {
    let meta = notification.meta.as_ref()?;
    match get_field(meta, KODEX_CONTEXT_COMPACTION_META_KEY) {
        Some(Json::Object(fields)) => get_text(fields, "phase").map(String::as_str),
        _ => None,
    }
}

#[test]
fn test_prompt() {
    let mut session = Session::new();
    session.prompt("Hi");

    assert!(session.ended());
    assert_eq!(session.notifications.len(), 1);
    assert_eq!(session.agent_texts(), vec!["Hi"]);
}

#[test]
fn commentary_phase_agent_message_is_sent_as_chat() {
    let mut session = Session::new();
    session.prompt("commentary-only");

    assert!(session.ended());
    assert!(session
        .agent_texts()
        .iter()
        .any(|text| text.contains("Need patch")));
}

#[test]
fn commentary_phase_deltas_do_not_suppress_final_answer() {
    let mut session = Session::new();
    session.prompt("commentary-delta-then-final");

    assert!(session.ended());
    assert!(session
        .agent_texts()
        .iter()
        .any(|text| text.contains("Need internal note")));
    assert!(session.agent_texts().contains(&"Final answer."));
}

#[test]
fn test_thread_goal_updated_is_sent_as_agent_message() {
    let mut session = Session::new();
    session.prompt("thread-goal-update");

    assert!(session.ended());
    assert!(session
        .agent_texts()
        .contains(&"Goal updated (active): Ship the goal update"));
}

#[test]
fn test_image_generation_emits_image_content() {
    let mut session = Session::new();
    session.prompt("image-generation");

    assert!(session.ended());
    let calls = session.tool_calls();
    let call = calls
        .iter()
        .find(|call| call.id == "ig-1")
        .expect("image generation tool call should be sent");
    assert_eq!(call.title, "Image generation");
    assert_eq!(call.status, ToolCallStatus::InProgress);

    let updates = session.tool_updates();
    let update = updates
        .iter()
        .find(|update| update.id == "ig-1")
        .expect("image generation tool call update should be sent");
    assert_eq!(update.status, Some(ToolCallStatus::Completed));
    let content = update
        .content
        .as_ref()
        .expect("image generation update should include content");
    assert_eq!(content.len(), 2);
    assert_eq!(
        content[0],
        ToolCallContent::Text("Revised prompt: A tiny blue square".to_string())
    );
    assert_eq!(
        content[1],
        ToolCallContent::Image {
            data: "Zm9v".to_string(),
            mime_type: "image/png".to_string(),
            uri: Some("/tmp/ig-1.png".to_string()),
        }
    );
}

#[test]
fn test_compact() {
    let mut session = Session::new();
    session.prompt("/compact");

    assert!(session.ended());
    assert!(session.agent_texts().contains(&"Compact task completed"));
    assert!(session.notifications.iter().any(|notification| {
        notification
            .meta
            .as_ref()
            .is_some_and(|meta| get_field(meta, KODEX_CONTEXT_COMPACTED_META_KEY).is_some())
    }));
    assert!(session
        .notifications
        .iter()
        .any(|notification| compaction_phase(notification) == Some("started")));
    assert!(session
        .notifications
        .iter()
        .any(|notification| compaction_phase(notification) == Some("completed")));
    let ops = session.thread.ops.borrow();
    assert_eq!(ops.len(), 1);
    assert!(matches!(ops[0], Op::Compact));
}

#[test]
fn test_init() {
    let mut session = Session::new();
    session.prompt("/init");

    assert!(session.ended());
    assert!(session.agent_texts().contains(&INIT_COMMAND_PROMPT));
    let ops = session.thread.ops.borrow();
    assert_eq!(ops.len(), 1);
    assert!(matches!(
        &ops[0],
        Op::UserInput { items }
            if *items == vec![UserInput::Text(INIT_COMMAND_PROMPT.to_string())]
    ));
}

#[test]
fn test_review() {
    let mut session = Session::new();
    session.prompt("/review");

    assert!(session.ended());
    assert_eq!(session.notifications.len(), 1);
    assert_eq!(session.agent_texts(), vec!["current changes"]);
    let ops = session.thread.ops.borrow();
    assert_eq!(ops.len(), 1);
    assert!(matches!(
        &ops[0],
        Op::Review { target: ReviewTarget::UncommittedChanges }
    ));
}

#[test]
fn test_custom_review() {
    let instructions = "Review what we did in agents.md";
    let mut session = Session::new();
    session.prompt(&format!("/review {instructions}"));

    assert!(session.ended());
    assert_eq!(session.notifications.len(), 1);
    assert_eq!(session.agent_texts(), vec!["Review what we did in agents.md"]);
    let ops = session.thread.ops.borrow();
    assert_eq!(ops.len(), 1);
    assert!(matches!(
        &ops[0],
        Op::Review { target: ReviewTarget::Custom { instructions: given } }
            if given == instructions
    ));
}

#[test]
fn test_commit_review() {
    let mut session = Session::new();
    session.prompt("/review-commit 123456");

    assert!(session.ended());
    assert_eq!(session.notifications.len(), 1);
    assert_eq!(session.agent_texts(), vec!["commit 123456"]);
    let ops = session.thread.ops.borrow();
    assert_eq!(ops.len(), 1);
    assert!(matches!(
        &ops[0],
        Op::Review { target: ReviewTarget::Commit { sha, title: None } } if sha == "123456"
    ));
}

#[test]
fn test_branch_review() {
    let mut session = Session::new();
    session.prompt("/review-branch feature");

    assert!(session.ended());
    assert_eq!(session.notifications.len(), 1);
    assert_eq!(session.agent_texts(), vec!["changes against 'feature'"]);
    let ops = session.thread.ops.borrow();
    assert_eq!(ops.len(), 1);
    assert!(matches!(
        &ops[0],
        Op::Review { target: ReviewTarget::BaseBranch { branch } } if branch == "feature"
    ));
}

#[test]
fn test_delta_deduplication() {
    let mut session = Session::new();
    session.prompt("test delta");

    assert!(session.ended());
    assert_eq!(session.notifications.len(), 1);
    assert_eq!(session.agent_texts(), vec!["test delta"]);
}

#[test]
fn test_parallel_exec_commands() {
    let mut session = Session::new();
    session.prompt("parallel-exec");

    assert!(session.ended());
    let mut begin_ids = session
        .tool_calls()
        .iter()
        .map(|call| call.id.clone())
        .collect::<Vec<_>>();
    let mut end_ids = session
        .tool_updates()
        .iter()
        .filter(|update| update.status == Some(ToolCallStatus::Completed))
        .map(|update| update.id.clone())
        .collect::<Vec<_>>();
    assert_eq!(begin_ids.len(), 2);
    assert_eq!(end_ids.len(), 2);
    begin_ids.sort();
    end_ids.sort();
    assert_eq!(begin_ids, end_ids);
}

#[test]
fn stop_tool_interrupts_only_registered_in_flight_tool() {
    let mut session = Session::new();
    session.prompt("long-exec");

    {
        let calls = session.tool_calls();
        let call = calls.iter().find(|call| call.id == "call-long").unwrap();
        let meta = call.meta.as_ref().unwrap();
        let stop = match get_field(meta, KODEX_TOOL_STOP_META_KEY) {
            Some(Json::Object(fields)) => fields,
            _ => panic!("tool call should include stop metadata"),
        };
        assert_eq!(
            get_text(stop, "toolCallId").map(String::as_str),
            Some("call-long")
        );
        assert_eq!(
            get_text(stop, "stopKind").map(String::as_str),
            Some("agent_owned")
        );
    }

    let outcome = session.message(ThreadMessage::StopTool {
        tool_call_id: "call-long".to_string(),
    });
    match outcome {
        MessageOutcome::Stopped { notices, op } => {
            assert!(matches!(op, Some(Op::Interrupt)));
            session.perform("0", notices);
        }
        other => panic!("unexpected outcome: {other:?}"),
    }
    assert!(session
        .tool_updates()
        .iter()
        .any(|update| update.id == "call-long" && update.status == Some(ToolCallStatus::Failed)));
}

#[test]
fn stop_tool_ignores_unknown_tool_without_interrupting_turn() {
    let mut session = Session::new();
    let outcome = session.message(ThreadMessage::StopTool {
        tool_call_id: "missing-tool".to_string(),
    });
    assert!(matches!(
        outcome,
        MessageOutcome::Stopped { notices, op: None } if notices.is_empty()
    ));
}

#[test]
fn permission_abort_guidance_submits_followup_prompt() {
    let mut session = Session::new();
    session.answers.push_back(selected(
        "abort",
        Some(vec![(
            PERMISSION_GUIDANCE_META_KEY.to_string(),
            Json::Text("Explain the command first and avoid deleting files.".to_string()),
        )]),
    ));
    session.prompt("approval-block");

    let ops = session.thread.ops.borrow();
    assert!(ops.len() >= 3);
    assert!(matches!(
        &ops[1],
        Op::ExecApproval { id, turn_id: Some(_), decision: ReviewDecision::Abort }
            if id == "approval-id"
    ));
    assert!(matches!(
        &ops[2],
        Op::UserInput { items }
            if prompt_text_from_items(items).as_deref()
                == Some("Explain the command first and avoid deleting files.")
    ));
}

#[test]
fn test_thread_shutdown_bypasses_blocked_permission_request() {
    let mut session = Session::new();
    session.prompt("approval-block");
    assert_eq!(session.requests.len(), 1);

    match session.message(ThreadMessage::Shutdown) {
        MessageOutcome::Submit { notice: None, op, then_apply } => {
            let answer = session.thread.submit(op);
            assert_eq!(
                session.actor.handle_submitted(then_apply, answer),
                Ok(Accepted::Done)
            );
        }
        other => panic!("unexpected outcome: {other:?}"),
    }
    session.run();
    assert_eq!(
        session.results,
        vec![PromptResult::Stopped(StopReason::Cancelled)]
    );
    assert!(matches!(session.thread.ops.borrow().last(), Some(Op::Shutdown)));

    // The answer that comes when the client lets go is not submitted.
    let request = session.requests.pop().unwrap();
    let submitted = session.thread.ops.borrow().len();
    session.resolve(
        "0",
        request.interaction_id,
        request.request_key,
        PermissionAnswer::Answered(PermissionResponse {
            outcome: PermissionOutcome::Cancelled,
            meta: None,
        }),
    );
    assert_eq!(session.thread.ops.borrow().len(), submitted);
}

#[test]
fn first_turn_persists_and_publishes_llm_session_title() {
    let mut session = Session::new();
    session.generator = Generator::Answers(Some("LLM Session Title".to_string()));
    session.prompt("title-sync");

    assert!(session.ended());
    assert_eq!(
        session.thread.name.borrow().as_deref(),
        Some("LLM Session Title")
    );
    assert_eq!(session.generator_calls, 1);
    assert!(session.titles().contains(&"LLM Session Title"));
}

#[test]
fn first_turn_falls_back_to_hidden_thread_title_when_generator_fails() {
    let mut session = Session::new();
    session.generator = Generator::Fails;
    session.prompt("title-sync");

    assert!(session.ended());
    assert_eq!(
        session.thread.name.borrow().as_deref(),
        Some("WOA Title Fix")
    );
    assert_eq!(session.generator_calls, 1);
    {
        let ops = session.thread.ops.borrow();
        assert!(ops.iter().any(|op| matches!(
            op,
            Op::UserInput { items }
                if prompt_text_from_items(items)
                    .is_some_and(|text| text.starts_with(SESSION_TITLE_INSTRUCTIONS))
        )));
        assert!(ops
            .iter()
            .any(|op| matches!(op, Op::ThreadRollback { num_turns } if *num_turns == 1)));
    }
    assert!(session.titles().contains(&"WOA Title Fix"));
}

#[test]
fn first_turn_does_not_use_agent_reply_as_session_title() {
    let mut session = Session::new();
    session.prompt("title-sync");

    assert!(session.ended());
    assert_eq!(session.thread.name.borrow().as_deref(), None);
    assert!(session.titles().is_empty());
}

#[test]
fn second_turn_keeps_the_title() {
    let mut session = Session::new();
    session.generator = Generator::Answers(Some("First Title".to_string()));
    session.prompt("title-sync");
    session.generator = Generator::Answers(Some("Second Title".to_string()));
    session.prompt("title-sync");

    assert_eq!(session.generator_calls, 1);
    assert_eq!(session.titles(), vec!["First Title"]);
}

#[test]
fn refused_prompt_registers_nothing() {
    let mut session = Session::new();
    let outcome = session.message(ThreadMessage::Prompt {
        items: vec![UserInput::Text("steer-reject".to_string())],
    });
    let (op, pending) = match outcome {
        MessageOutcome::Submit { op, then_apply, .. } => (op, then_apply),
        other => panic!("unexpected outcome: {other:?}"),
    };
    let answer = session.thread.submit(op);
    let error = session.actor.handle_submitted(pending, answer).unwrap_err();
    assert_eq!(error.kind, ErrorKind::InternalError);
    assert_eq!(
        error.data,
        Some(Json::Text("active turn is not steerable".to_string()))
    );
    assert!(session.actor.submissions.is_empty());
}

#[test]
fn answered_turn_is_forgotten() {
    let mut session = Session::new();
    session.prompt("Hi");
    assert!(session.actor.submissions.contains_key("0"));
    assert!(!session.actor.is_finished(false));
    session.actor.collect_litter(&StringSet::new());
    assert!(session.actor.submissions.is_empty());
    assert!(session.actor.is_finished(false));
    assert!(!session.actor.is_finished(true));
}

#[test]
fn open_turn_is_forgotten_when_nobody_waits_for_it() {
    let mut session = Session::new();
    session.prompt("long-exec");
    session.actor.collect_litter(&StringSet::new());
    assert!(session.actor.submissions.contains_key("0"));
    let mut closed = StringSet::new();
    closed.insert("0".to_string());
    session.actor.collect_litter(&closed);
    assert!(session.actor.submissions.is_empty());
}

#[test]
fn event_of_an_unknown_submission_is_ignored() {
    let mut session = Session::new();
    session.prompt("long-exec");
    session.thread.complete("7", None);
    session.run();
    assert!(session.results.is_empty());
}

#[test]
fn failed_permission_request_fails_its_turn() {
    let mut session = Session::new();
    session
        .answers
        .push_back(PermissionAnswer::Failed(codex_acp::protocol::Error {
            kind: ErrorKind::FromClient {
                code: -32001,
                message: "the client went away".to_string(),
            },
            data: None,
        }));
    session.prompt("approval-block");
    assert_eq!(session.results.len(), 1);
    assert!(matches!(
        &session.results[0],
        PromptResult::Failed(error)
            if matches!(
                &error.kind,
                ErrorKind::FromClient { code: -32001, message } if message == "the client went away"
            )
    ));
    assert_eq!(session.thread.ops.borrow().len(), 1);
}

#[test]
fn failed_submission_of_an_answer_fails_its_turn_once() {
    let mut session = Session::new();
    session.prompt("approval-block");
    let error = codex_acp::protocol::Error {
        kind: ErrorKind::InternalError,
        data: None,
    };
    let effects = session.actor.resolution_failed("0", error);
    session.perform("0", effects);
    let again = codex_acp::protocol::Error {
        kind: ErrorKind::InternalError,
        data: None,
    };
    let effects = session.actor.event_failed("0", again);
    session.perform("0", effects);
    assert_eq!(session.results.len(), 1);
    let state: &PromptState = session.actor.submissions.get("0").unwrap();
    assert!(state.pending_permission_interactions.is_empty());
}

#[test]
fn cancel_interrupts_and_drops_pending_requests() {
    let mut session = Session::new();
    session.prompt("approval-block");
    let outcome = session.message(ThreadMessage::Cancel);
    assert!(matches!(
        outcome,
        MessageOutcome::Submit { notice: None, op: Op::Interrupt, then_apply: Pending::Nothing }
    ));
    let request = session.requests.pop().unwrap();
    let resolution = session.actor.handle_permission_request_resolved(
        "0".to_string(),
        request.interaction_id,
        request.request_key,
        selected("approved", None),
    );
    assert!(matches!(resolution, ActorResolution::Ignored));
}

#[test]
fn answer_to_an_unknown_submission_is_ignored() {
    let mut session = Session::new();
    let resolution = session.actor.handle_permission_request_resolved(
        "9".to_string(),
        0,
        "exec:call-id".to_string(),
        selected("approved", None),
    );
    assert!(matches!(resolution, ActorResolution::Ignored));
}

#[test]
fn logout_is_not_submitted() {
    let mut session = Session::new();
    let outcome = session.message(ThreadMessage::Prompt {
        items: vec![UserInput::Text("/logout".to_string())],
    });
    assert!(matches!(outcome, MessageOutcome::Logout));
}

#[test]
fn stored_title_is_published_with_the_first_turn() {
    let mut session = Session::new();
    *session.thread.name.borrow_mut() = Some("  Stored \"title\".  ".to_string());
    session.prompt("title-sync");
    assert_eq!(session.titles(), vec!["Stored \"title\""]);
    assert_eq!(session.generator_calls, 0);
}

#[test]
fn string_maps_keep_the_last_value() {
    let mut map: StringMap<u8> = StringMap::new();
    map.insert("a".to_string(), 1);
    map.insert("b".to_string(), 2);
    map.insert("a".to_string(), 3);
    assert_eq!(map.get("a"), Some(&3));
    assert_eq!(map.get("b"), Some(&2));
    assert_eq!(map.remove("a"), Some(3));
    assert_eq!(map.get("a"), None);
    assert!(!map.contains_key("a"));
    assert_eq!(map.take_first(), Some(("b".to_string(), 2)));
    assert_eq!(map.take_first(), None);
    assert!(map.is_empty());
}
