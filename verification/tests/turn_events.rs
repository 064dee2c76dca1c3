//! The events of a turn, and what the client is told of them.
use codex_acp::client::{
    kodex_usage_meta, merge_meta, ClientCapabilities, KODEX_TOOL_STOP_META_KEY,
    KODEX_USAGE_META_KEY,
};
use codex_acp::events::{
    DynamicToolContent, EventMsg, GuardianAssessment, McpToolResult, ParsedCommand, PatchSummary,
    ReviewOutput, TokenInfo, TokenUsage, WebSearchAction,
};
use codex_acp::json::{compact, get_field, parse, Json};
use codex_acp::prompt_state::{Effect, PromptState};
use codex_acp::protocol::{
    ErrorKind, GuardianAssessmentStatus, MessagePhase, Notification, PlanEntryPriority, PlanItem,
    PromptResult, RunStatus, SessionUpdate, StepStatus, StopReason, ThreadGoalStatus, ToolCall,
    ToolCallContent, ToolCallStatus, ToolCallUpdate, ToolKind,
};
use codex_acp::tool_events::{image_generation_content, tell_mcp_tool_result};

fn plain_client() -> ClientCapabilities {
    ClientCapabilities { meta: None }
}

fn terminal_client() -> ClientCapabilities {
    ClientCapabilities {
        meta: Some(vec![("terminal_output".to_string(), Json::Bool(true))]),
    }
}

fn turn() -> PromptState {
    PromptState::new("turn".to_string(), None)
}

fn text(value: &str) -> Json {
    Json::Text(value.to_string())
}

fn notifications(effects: Vec<Effect>) -> Vec<Notification> {
    effects
        .into_iter()
        .map(|effect| match effect {
            Effect::Notify(notification) => notification,
            other => panic!("unexpected effect: {other:?}"),
        })
        .collect()
}

fn updates(effects: Vec<Effect>) -> Vec<SessionUpdate> {
    notifications(effects)
        .into_iter()
        .map(|notification| notification.update)
        .collect()
}

fn only_call(effects: Vec<Effect>) -> ToolCall {
    let mut told = updates(effects);
    assert_eq!(told.len(), 1);
    match told.pop() {
        Some(SessionUpdate::ToolCall(call)) => call,
        other => panic!("unexpected update: {other:?}"),
    }
}

fn only_update(effects: Vec<Effect>) -> ToolCallUpdate {
    let mut told = updates(effects);
    assert_eq!(told.len(), 1);
    match told.pop() {
        Some(SessionUpdate::ToolCallUpdate(update)) => update,
        other => panic!("unexpected update: {other:?}"),
    }
}

fn begin(call_id: &str, parsed_cmd: Vec<ParsedCommand>) -> EventMsg {
    EventMsg::ExecCommandBegin {
        call_id: call_id.to_string(),
        cwd: "/work".to_string(),
        parsed_cmd,
        raw: text("begin"),
    }
}

fn unknown(cmd: &str) -> Vec<ParsedCommand> {
    vec![ParsedCommand::Unknown {
        cmd: cmd.to_string(),
    }]
}

fn read(path: &str) -> Vec<ParsedCommand> {
    vec![ParsedCommand::Read {
        cmd: format!("cat {path}"),
        name: path.to_string(),
        path: path.to_string(),
    }]
}

fn output(call_id: &str, chunk: &[u8]) -> EventMsg {
    EventMsg::ExecCommandOutputDelta {
        call_id: call_id.to_string(),
        chunk: chunk.to_vec(),
    }
}

fn end(call_id: &str, exit_code: i32, status: RunStatus) -> EventMsg {
    EventMsg::ExecCommandEnd {
        call_id: call_id.to_string(),
        exit_code,
        status,
        raw: text("end"),
    }
}

#[test]
fn output_is_kept_until_the_command_ends() {
    let client = plain_client();
    let mut state = turn();
    let call = only_call(state.handle_event(&client, begin("c", unknown("make"))));
    assert_eq!(call.title, "make");
    assert_eq!(call.status, ToolCallStatus::InProgress);
    assert_eq!(call.content, vec![]);
    assert_eq!(call.raw_input, Some(text("begin")));
    assert!(state.handle_event(&client, output("c", b"one\n")).is_empty());
    assert!(state
        .handle_event(
            &client,
            EventMsg::TerminalInteraction {
                call_id: "c".to_string(),
                stdin: "y".to_string(),
            }
        )
        .is_empty());
    assert!(state.handle_event(&client, output("c", b"caf\xc3\xa9 \xff\n\n")).is_empty());
    let update = only_update(state.handle_event(&client, end("c", 0, RunStatus::Completed)));
    assert_eq!(update.status, Some(ToolCallStatus::Completed));
    assert_eq!(update.raw_output, Some(text("end")));
    assert_eq!(
        update.content,
        Some(vec![ToolCallContent::Text(
            "```sh\none\n\ny\ncaf\u{e9} \u{fffd}\n```\n".to_string()
        )])
    );
    assert_eq!(update.meta, None);
}

#[test]
fn command_ends_only_once() {
    let client = plain_client();
    let mut state = turn();
    state.handle_event(&client, begin("c", unknown("make")));
    let update = only_update(state.handle_event(&client, end("c", 1, RunStatus::Failed)));
    assert_eq!(update.status, Some(ToolCallStatus::Failed));
    assert_eq!(update.content, None);
    assert!(state.handle_event(&client, end("c", 1, RunStatus::Failed)).is_empty());
    assert!(state.handle_event(&client, output("c", b"late")).is_empty());
}

#[test]
fn exit_code_decides_over_the_reported_status() {
    let client = plain_client();
    let mut state = turn();
    for (exit_code, status, shown) in [
        (0, RunStatus::Failed, ToolCallStatus::Completed),
        (0, RunStatus::Declined, ToolCallStatus::Completed),
        (2, RunStatus::Completed, ToolCallStatus::Completed),
        (2, RunStatus::Declined, ToolCallStatus::Failed),
    ] {
        state.handle_event(&client, begin("c", unknown("make")));
        let update = only_update(state.handle_event(&client, end("c", exit_code, status)));
        assert_eq!(update.status, Some(shown));
    }
}

#[test]
fn output_is_fenced_by_the_kind_of_file() {
    let client = plain_client();
    let mut state = turn();
    for (path, expected) in [
        ("a.rs", "```rs\nx\n```\n"),
        ("a.md", "x\n"),
        ("a", "```sh\nx\n```\n"),
    ] {
        state.handle_event(&client, begin("c", read(path)));
        state.handle_event(&client, output("c", b"x\n"));
        let update = only_update(state.handle_event(&client, end("c", 0, RunStatus::Completed)));
        assert_eq!(
            update.content,
            Some(vec![ToolCallContent::Text(expected.to_string())])
        );
    }
}

#[test]
fn terminal_shows_output_at_once() {
    let client = terminal_client();
    let mut state = turn();
    let call = only_call(state.handle_event(&client, begin("c", unknown("make"))));
    assert_eq!(call.content, vec![ToolCallContent::Terminal("c".to_string())]);
    let meta = call.meta.unwrap();
    assert!(get_field(&meta, KODEX_TOOL_STOP_META_KEY).is_some());
    assert_eq!(
        compact(get_field(&meta, "terminal_info").unwrap()),
        "{\"terminal_id\":\"c\",\"cwd\":\"/work\"}"
    );
    let update = only_update(state.handle_event(&client, output("c", b"one\n")));
    assert_eq!(update.status, None);
    assert_eq!(
        compact(get_field(&update.meta.unwrap(), "terminal_output").unwrap()),
        "{\"terminal_id\":\"c\",\"data\":\"one\\n\"}"
    );
    let update = only_update(state.handle_event(&client, end("c", -3, RunStatus::Failed)));
    assert_eq!(update.content, None);
    assert_eq!(
        compact(get_field(&update.meta.unwrap(), "terminal_exit").unwrap()),
        "{\"terminal_id\":\"c\",\"exit_code\":-3,\"signal\":null}"
    );
}

#[test]
fn command_that_is_understood_needs_no_terminal() {
    let client = terminal_client();
    let mut state = turn();
    let call = only_call(state.handle_event(&client, begin("c", read("a.rs"))));
    assert_eq!(call.content, vec![]);
    assert_eq!(call.locations, vec!["/work/a.rs"]);
    assert_eq!(call.kind, ToolKind::Read);
    assert!(state.handle_event(&client, output("c", b"one\n")).is_empty());
}

#[test]
fn stopped_command_no_longer_runs() {
    let client = plain_client();
    let mut state = turn();
    state.handle_event(&client, begin("c", unknown("make")));
    let (stopped, effects) = state.stop_tool("c");
    assert!(stopped);
    let update = only_update(effects);
    assert_eq!(update.id, "c");
    assert_eq!(update.status, Some(ToolCallStatus::Failed));
    let (stopped, effects) = state.stop_tool("c");
    assert!(!stopped);
    assert!(effects.is_empty());
    assert!(state.handle_event(&client, end("c", 0, RunStatus::Completed)).is_empty());
}

#[test]
fn commentary_does_not_count_as_the_answer() {
    let client = plain_client();
    let mut state = turn();
    let told = updates(state.handle_event(
        &client,
        EventMsg::AgentMessage {
            message: "thinking aloud".to_string(),
            phase: Some(MessagePhase::Commentary),
        },
    ));
    assert_eq!(told, vec![SessionUpdate::AgentText("thinking aloud".to_string())]);
    assert_eq!(state.agent_message_text, "");
    state.handle_event(
        &client,
        EventMsg::AgentMessage {
            message: "done".to_string(),
            phase: None,
        },
    );
    assert_eq!(state.agent_message_text, "done");
    let effects = state.handle_event(
        &client,
        EventMsg::TurnComplete {
            last_agent_message: None,
        },
    );
    assert!(matches!(
        &effects[0],
        Effect::PublishTitle { response_text: Some(response) } if response == "done"
    ));
}

#[test]
fn streamed_reasoning_is_told_once() {
    let client = plain_client();
    let mut state = turn();
    let told = updates(state.handle_event(
        &client,
        EventMsg::ReasoningContentDelta {
            delta: "hm".to_string(),
        },
    ));
    assert_eq!(told, vec![SessionUpdate::AgentThought("hm".to_string())]);
    let told = updates(state.handle_event(&client, EventMsg::AgentReasoningSectionBreak));
    assert_eq!(told, vec![SessionUpdate::AgentThought("\n\n".to_string())]);
    let whole = || EventMsg::AgentReasoning {
        text: "hm".to_string(),
    };
    assert!(state.handle_event(&client, whole()).is_empty());
    assert_eq!(state.handle_event(&client, whole()).len(), 1);
}

#[test]
fn turn_is_answered_once() {
    let client = plain_client();
    let mut state = turn();
    let mut effects = state.handle_event(&client, EventMsg::TurnAborted);
    assert!(matches!(
        effects.pop(),
        Some(Effect::Respond(PromptResult::Stopped(StopReason::Cancelled)))
    ));
    let effects = state.handle_event(
        &client,
        EventMsg::TurnComplete {
            last_agent_message: Some("late".to_string()),
        },
    );
    assert!(!effects.iter().any(|effect| matches!(effect, Effect::Respond(_))));
    assert!(!state.is_active(false));
}

#[test]
fn error_fails_the_turn() {
    let mut state = turn();
    let mut effects = state.handle_event(
        &plain_client(),
        EventMsg::Error {
            message: "boom".to_string(),
            codex_error_info: text("other"),
        },
    );
    match effects.pop() {
        Some(Effect::Respond(PromptResult::Failed(error))) => {
            assert_eq!(error.kind, ErrorKind::InternalError);
            assert_eq!(
                compact(&error.data.unwrap()),
                "{\"message\":\"boom\",\"codex_error_info\":\"other\"}"
            );
        }
        other => panic!("unexpected effect: {other:?}"),
    }
}

#[test]
fn stream_error_does_not_end_the_turn() {
    let mut state = turn();
    let effects = state.handle_event(
        &plain_client(),
        EventMsg::StreamError {
            message: "retrying".to_string(),
        },
    );
    assert!(effects.is_empty());
    assert!(state.is_active(false));
    assert!(!state.is_active(true));
}

#[test]
fn web_search_is_closed_by_the_next_step() {
    let client = plain_client();
    let mut state = turn();
    let call = only_call(state.handle_event(
        &client,
        EventMsg::WebSearchBegin {
            call_id: "w".to_string(),
        },
    ));
    assert_eq!(call.title, "Searching the Web");
    assert_eq!(call.status, ToolCallStatus::Pending);
    let update = only_update(state.handle_event(
        &client,
        EventMsg::WebSearchEnd {
            call_id: "w".to_string(),
            query: "verus".to_string(),
            action: WebSearchAction::Search {
                query: None,
                queries: Some(vec!["a".to_string(), "b".to_string()]),
            },
            raw_action: Json::Null,
        },
    ));
    assert_eq!(update.title.as_deref(), Some("Searching for: a, b"));
    assert_eq!(
        compact(&update.raw_input.unwrap()),
        "{\"query\":\"verus\",\"action\":null}"
    );
    let told = updates(state.handle_event(&client, EventMsg::TurnDiff));
    assert!(matches!(
        told.as_slice(),
        [SessionUpdate::ToolCallUpdate(update)]
            if update.id == "w" && update.status == Some(ToolCallStatus::Completed)
    ));
    assert!(state.handle_event(&client, EventMsg::TurnDiff).is_empty());
}

#[test]
fn web_search_steps_have_titles() {
    let some = |value: &str| Some(value.to_string());
    let mut state = turn();
    for (action, title) in [
        (
            WebSearchAction::Search { query: some("q"), queries: None },
            "Searching for: q",
        ),
        (WebSearchAction::Search { query: None, queries: None }, "Web search"),
        (WebSearchAction::OpenPage { url: some("u") }, "Opening: u"),
        (WebSearchAction::OpenPage { url: None }, "Open page"),
        (
            WebSearchAction::FindInPage { pattern: some("p"), url: some("u") },
            "Finding: p in u",
        ),
        (WebSearchAction::FindInPage { pattern: some("p"), url: None }, "Finding: p"),
        (WebSearchAction::FindInPage { pattern: None, url: some("u") }, "Find in page: u"),
        (WebSearchAction::FindInPage { pattern: None, url: None }, "Find in page"),
        (WebSearchAction::Other, "Web search"),
    ] {
        let update = only_update(state.handle_event(
            &plain_client(),
            EventMsg::WebSearchEnd {
                call_id: "w".to_string(),
                query: String::new(),
                action,
                raw_action: Json::Null,
            },
        ));
        assert_eq!(update.title.as_deref(), Some(title));
    }
}

#[test]
fn image_without_a_beginning_is_a_whole_call() {
    let mut state = turn();
    let call = only_call(state.handle_event(
        &plain_client(),
        EventMsg::ImageGenerationEnd {
            call_id: "i".to_string(),
            status: ToolCallStatus::Failed,
            revised_prompt: None,
            result: String::new(),
            saved_path: None,
            raw: Json::Null,
        },
    ));
    assert_eq!(call.title, "Image generation");
    assert_eq!(call.status, ToolCallStatus::Failed);
    assert_eq!(call.content, vec![]);
    assert_eq!(
        image_generation_content(None, "AA".to_string(), None),
        vec![ToolCallContent::Image {
            data: "AA".to_string(),
            mime_type: "image/png".to_string(),
            uri: None,
        }]
    );
}

#[test]
fn tools_are_named_by_their_server() {
    let client = plain_client();
    let mut state = turn();
    let call = only_call(state.handle_event(
        &client,
        EventMsg::McpToolCallBegin {
            call_id: "m".to_string(),
            server: "docs".to_string(),
            tool: "search".to_string(),
            raw_invocation: Json::Null,
        },
    ));
    assert_eq!(call.title, "Tool: docs/search");
    let call = only_call(state.handle_event(
        &client,
        EventMsg::DynamicToolCallRequest {
            call_id: "d".to_string(),
            tool: "search".to_string(),
            arguments: Json::Null,
        },
    ));
    assert_eq!(call.title, "Tool: search");
}

fn text_block(value: &str) -> Json {
    Json::Object(vec![
        ("type".to_string(), text("text")),
        ("text".to_string(), text(value)),
    ])
}

#[test]
fn tool_results_are_shown() {
    let client = plain_client();
    let mut state = turn();
    let update = only_update(state.handle_event(
        &client,
        EventMsg::McpToolCallEnd {
            call_id: "m".to_string(),
            result: McpToolResult::Returned {
                is_error: Some(true),
                content: vec![
                    text("no block"),
                    text_block("found"),
                    parse("{\"type\":\"text\"}").unwrap(),
                    parse("{\"type\":\"sound\",\"text\":\"x\"}").unwrap(),
                    Json::Null,
                    text_block("more"),
                ],
                raw: Json::Null,
            },
        },
    ));
    assert_eq!(update.status, Some(ToolCallStatus::Failed));
    assert_eq!(
        update.content,
        Some(vec![
            ToolCallContent::Block(text_block("found")),
            ToolCallContent::Block(text_block("more")),
        ])
    );
    let update = only_update(state.handle_event(
        &client,
        EventMsg::McpToolCallEnd {
            call_id: "m".to_string(),
            result: McpToolResult::Returned {
                is_error: Some(false),
                content: vec![text("no block")],
                raw: Json::Null,
            },
        },
    ));
    assert_eq!(update.status, Some(ToolCallStatus::Completed));
    assert_eq!(update.content, Some(vec![]));
    let update = only_update(tell_mcp_tool_result(
        "m".to_string(),
        None,
        vec![None, Some(text("kept")), None],
        text("raw"),
    ));
    assert_eq!(update.content, Some(vec![ToolCallContent::Block(text("kept"))]));
    assert_eq!(update.raw_output, Some(text("raw")));
    let update = only_update(state.handle_event(
        &client,
        EventMsg::McpToolCallEnd {
            call_id: "m".to_string(),
            result: McpToolResult::Returned {
                is_error: None,
                content: vec![],
                raw: Json::Null,
            },
        },
    ));
    assert_eq!(update.status, Some(ToolCallStatus::Completed));
    assert_eq!(update.content, None);
    let update = only_update(state.handle_event(
        &client,
        EventMsg::McpToolCallEnd {
            call_id: "m".to_string(),
            result: McpToolResult::Failed {
                message: "gone".to_string(),
            },
        },
    ));
    assert_eq!(update.status, Some(ToolCallStatus::Failed));
    assert_eq!(update.raw_output, Some(text("gone")));
    let update = only_update(state.handle_event(
        &client,
        EventMsg::DynamicToolCallResponse {
            call_id: "d".to_string(),
            success: false,
            content_items: vec![
                DynamicToolContent::Text("t".to_string()),
                DynamicToolContent::Image("u".to_string()),
            ],
            error: Some("e".to_string()),
            raw: Json::Null,
        },
    ));
    assert_eq!(update.status, Some(ToolCallStatus::Failed));
    assert_eq!(
        update.content,
        Some(vec![
            ToolCallContent::Text("t".to_string()),
            ToolCallContent::ResourceLink { name: "u".to_string(), uri: "u".to_string() },
            ToolCallContent::Text("e".to_string()),
        ])
    );
}

fn no_patch() -> PatchSummary {
    PatchSummary {
        change_count: 0,
        title: String::new(),
        locations: vec![],
        content: vec![],
    }
}

fn patch() -> PatchSummary {
    PatchSummary {
        change_count: 1,
        title: "Edit a.rs".to_string(),
        locations: vec!["a.rs".to_string()],
        content: vec![],
    }
}

#[test]
fn patches_are_shown_as_edits() {
    let client = plain_client();
    let mut state = turn();
    let call = only_call(state.handle_event(
        &client,
        EventMsg::PatchApplyBegin {
            call_id: "p".to_string(),
            changes: patch(),
            raw: Json::Null,
        },
    ));
    assert_eq!(call.title, "Edit a.rs");
    assert_eq!(call.kind, ToolKind::Edit);
    assert!(state
        .handle_event(
            &client,
            EventMsg::PatchApplyUpdated {
                call_id: "p".to_string(),
                changes: no_patch(),
                raw: Json::Null,
            }
        )
        .is_empty());
    let update = only_update(state.handle_event(
        &client,
        EventMsg::PatchApplyUpdated {
            call_id: "p".to_string(),
            changes: patch(),
            raw: Json::Null,
        },
    ));
    assert_eq!(update.status, Some(ToolCallStatus::InProgress));
    assert_eq!(update.locations, Some(vec!["a.rs".to_string()]));
    let update = only_update(state.handle_event(
        &client,
        EventMsg::PatchApplyEnd {
            call_id: "p".to_string(),
            success: false,
            status: RunStatus::Declined,
            changes: no_patch(),
            raw: text("raw"),
        },
    ));
    assert_eq!(update.status, Some(ToolCallStatus::Failed));
    assert_eq!(update.raw_output, Some(text("raw")));
    assert_eq!(update.title, None);
    let update = only_update(state.handle_event(
        &client,
        EventMsg::PatchApplyEnd {
            call_id: "p".to_string(),
            success: true,
            status: RunStatus::Completed,
            changes: patch(),
            raw: Json::Null,
        },
    ));
    assert_eq!(update.title.as_deref(), Some("Edit a.rs"));
}

#[test]
fn plan_steps_have_medium_priority() {
    let told = updates(turn().handle_event(
        &plain_client(),
        EventMsg::PlanUpdate {
            plan: vec![PlanItem {
                step: "read".to_string(),
                status: StepStatus::InProgress,
            }],
        },
    ));
    match told.as_slice() {
        [SessionUpdate::Plan(entries)] => {
            assert_eq!(entries.len(), 1);
            assert_eq!(entries[0].content, "read");
            assert_eq!(entries[0].priority, PlanEntryPriority::Medium);
            assert_eq!(entries[0].status, StepStatus::InProgress);
        }
        other => panic!("unexpected updates: {other:?}"),
    }
}

fn usage(total: i64) -> TokenUsage {
    TokenUsage {
        input_tokens: 1,
        cached_input_tokens: 2,
        output_tokens: 3,
        reasoning_output_tokens: 4,
        total_tokens: total,
    }
}

#[test]
fn usage_is_told_with_its_window() {
    let mut told = notifications(turn().handle_event(
        &plain_client(),
        EventMsg::TokenCount(Some(TokenInfo {
            last: usage(70),
            total: usage(900),
            model_context_window: Some(1000),
        })),
    ));
    assert_eq!(told.len(), 1);
    let notification = told.pop().unwrap();
    assert_eq!(notification.update, SessionUpdate::Usage { used: 70, size: 1000 });
    let meta = notification.meta.unwrap();
    assert_eq!(meta, kodex_usage_meta(&usage(70), &usage(900)));
    let shown = match get_field(&meta, KODEX_USAGE_META_KEY) {
        Some(Json::Object(fields)) => fields,
        other => panic!("unexpected meta: {other:?}"),
    };
    assert_eq!(get_field(shown, "total_tokens"), parse("900").as_ref());
    match get_field(shown, "turn_delta") {
        Some(Json::Object(fields)) => {
            assert_eq!(get_field(fields, "total_tokens"), parse("70").as_ref())
        }
        other => panic!("unexpected delta: {other:?}"),
    }
}

#[test]
fn negative_usage_counts_as_none() {
    let told = updates(turn().handle_event(
        &plain_client(),
        EventMsg::TokenCount(Some(TokenInfo {
            last: usage(-5),
            total: usage(-5),
            model_context_window: Some(10),
        })),
    ));
    assert_eq!(told, vec![SessionUpdate::Usage { used: 0, size: 10 }]);
}

#[test]
fn usage_without_a_window_is_not_told() {
    let event = EventMsg::TokenCount(Some(TokenInfo {
        last: usage(1),
        total: usage(1),
        model_context_window: None,
    }));
    assert!(turn().handle_event(&plain_client(), event).is_empty());
    assert!(turn().handle_event(&plain_client(), EventMsg::TokenCount(None)).is_empty());
}

#[test]
fn viewed_image_is_linked() {
    let call = only_call(turn().handle_event(
        &plain_client(),
        EventMsg::ViewImageToolCall {
            call_id: "v".to_string(),
            path: "/a.png".to_string(),
        },
    ));
    assert_eq!(call.title, "View Image /a.png");
    assert_eq!(call.locations, vec!["/a.png"]);
    assert_eq!(call.status, ToolCallStatus::Completed);
}

#[test]
fn warnings_and_goals_are_told() {
    let client = plain_client();
    let mut state = turn();
    for event in [
        EventMsg::Warning { message: "w".to_string() },
        EventMsg::GuardianWarning { message: "w".to_string() },
    ] {
        let told = updates(state.handle_event(&client, event));
        assert_eq!(told, vec![SessionUpdate::AgentText("w".to_string())]);
    }
    let told = updates(state.handle_event(
        &client,
        EventMsg::ThreadGoalUpdated {
            objective: "ship".to_string(),
            status: ThreadGoalStatus::Complete,
        },
    ));
    assert_eq!(told, vec![SessionUpdate::AgentText("Goal updated (complete): ship".to_string())]);
}

#[test]
fn review_tells_its_findings_or_its_explanation() {
    let client = plain_client();
    let tell = |output| updates(turn().handle_event(&client, EventMsg::ExitedReviewMode(output)));
    let output = |findings: Option<&str>, explanation: &str| {
        Some(ReviewOutput {
            finding_count: findings.map_or(0, |_| 1),
            findings_block: findings.unwrap_or_default().to_string(),
            overall_explanation: explanation.to_string(),
        })
    };
    assert_eq!(
        tell(output(Some("- a"), "fine")),
        vec![SessionUpdate::AgentText("- a".to_string())]
    );
    assert_eq!(
        tell(output(None, " fine ")),
        vec![SessionUpdate::AgentText("fine".to_string())]
    );
    assert_eq!(
        tell(output(None, "  ")),
        vec![SessionUpdate::AgentText("Review failed to output a response".to_string())]
    );
    assert_eq!(tell(None), vec![]);
}

fn assessment(status: GuardianAssessmentStatus, tool_status: ToolCallStatus) -> EventMsg {
    EventMsg::GuardianAssessment(GuardianAssessment {
        id: "g".to_string(),
        tool_call_id: "guardian-g".to_string(),
        status,
        tool_status,
        content: vec![],
        raw: Json::Null,
    })
}

#[test]
fn guardian_is_shown_and_then_updated() {
    let client = plain_client();
    let mut state = turn();
    let running = || assessment(GuardianAssessmentStatus::InProgress, ToolCallStatus::InProgress);
    let ended = || assessment(GuardianAssessmentStatus::Denied, ToolCallStatus::Failed);
    let call = only_call(state.handle_event(&client, running()));
    assert_eq!(call.title, "Guardian Review");
    assert_eq!(call.kind, ToolKind::Think);
    only_update(state.handle_event(&client, running()));
    let update = only_update(state.handle_event(&client, ended()));
    assert_eq!(update.status, Some(ToolCallStatus::Failed));
    only_call(state.handle_event(&client, ended()));
}

#[test]
fn merged_meta_takes_the_later_entry() {
    let entry = |name: &str, value: &str| (name.to_string(), text(value));
    let merged = merge_meta(
        vec![entry("a", "1"), entry("b", "2")],
        vec![entry("c", "3"), entry("a", "4")],
    );
    assert_eq!(merged, vec![entry("a", "4"), entry("b", "2"), entry("c", "3")]);
}
