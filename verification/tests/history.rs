//! Prompts, and histories that are told again.
use codex_acp::events::{EventMsg, ParsedCommand};
use codex_acp::json::{compact, parse, Json};
use codex_acp::prompts::{
    auth_required, extract_slash_command, handle_prompt, submit_permission_guidance_followup,
    PromptPlan,
};
use codex_acp::protocol::{
    ErrorKind, LocalShellStatus, MessagePhase, Notification, Op, ReviewTarget, SessionUpdate,
    ToolCall, ToolCallContent, ToolCallStatus, ToolKind, UserInput,
};
use codex_acp::replay::{
    handle_replay_history, parse_apply_patch_call, replay_response_item, shell_command_words,
    takes_script, PatchChunk, PatchHunk, ResponseItem, RolloutItem, ShellArguments, ShellCall,
    WebSearchShown,
};

fn strings(items: &[&str]) -> Vec<String> {
    items.iter().map(|item| item.to_string()).collect()
}

fn input(text: &str) -> Vec<UserInput> {
    vec![UserInput::Text(text.to_string())]
}

fn only_call(mut messages: Vec<Notification>) -> ToolCall {
    assert_eq!(messages.len(), 1);
    match messages.pop().unwrap().update {
        SessionUpdate::ToolCall(call) => call,
        other => panic!("unexpected update: {other:?}"),
    }
}

#[test]
fn slash_commands_are_read() {
    let items = input("/review-branch   main ");
    assert_eq!(extract_slash_command(&items), Some(("review-branch", "main ")));
    let items = input("/compact");
    assert_eq!(extract_slash_command(&items), Some(("compact", "")));
    assert_eq!(extract_slash_command(&input("/ compact")), None);
    assert_eq!(extract_slash_command(&input(" /compact")), None);
    assert_eq!(extract_slash_command(&vec![]), None);
    let items = vec![UserInput::Other(Json::Null), UserInput::Text("/init".to_string())];
    assert_eq!(extract_slash_command(&items), None);
}

#[test]
fn command_without_its_argument_is_submitted_as_it_is() {
    for text in ["/review-branch", "/review-commit  ", "/unknown", "hello"] {
        match handle_prompt(input(text), "init") {
            PromptPlan::Submit { notice: None, op: Op::UserInput { items }, .. } => {
                assert_eq!(items, input(text))
            }
            other => panic!("unexpected plan: {other:?}"),
        }
    }
}

#[test]
fn prompt_text_is_what_the_user_wrote() {
    match handle_prompt(input("  /review  "), "init") {
        PromptPlan::Submit { op: Op::UserInput { .. }, prompt_text, .. } => {
            assert_eq!(prompt_text.as_deref(), Some("/review"))
        }
        other => panic!("unexpected plan: {other:?}"),
    }
    match handle_prompt(input("/review  a b "), "init") {
        PromptPlan::Submit {
            op: Op::Review { target: ReviewTarget::Custom { instructions } },
            prompt_text,
            ..
        } => {
            assert_eq!(instructions, "a b");
            assert_eq!(prompt_text.as_deref(), Some("/review  a b"));
        }
        other => panic!("unexpected plan: {other:?}"),
    }
    assert!(matches!(handle_prompt(input("/logout"), "init"), PromptPlan::Logout));
    assert_eq!(auth_required().kind, ErrorKind::AuthRequired);
}

#[test]
fn guidance_is_submitted_trimmed() {
    match submit_permission_guidance_followup("  wait ") {
        Some((Op::UserInput { items }, prompt_text)) => {
            assert_eq!(items, input("wait"));
            assert_eq!(prompt_text.as_deref(), Some("wait"));
        }
        other => panic!("unexpected followup: {other:?}"),
    }
    assert!(submit_permission_guidance_followup("  ").is_none());
}

#[test]
fn history_is_told_in_order() {
    let history = vec![
        RolloutItem::Event(EventMsg::UserMessage { message: "hi".to_string() }),
        RolloutItem::Other,
        RolloutItem::Event(EventMsg::AgentMessage {
            message: "aside".to_string(),
            phase: Some(MessagePhase::Commentary),
        }),
        RolloutItem::Event(EventMsg::AgentReasoning { text: "hm".to_string() }),
        RolloutItem::Event(EventMsg::AgentReasoningRawContent { text: "raw".to_string() }),
        RolloutItem::Response(ResponseItem::Other),
        RolloutItem::Event(EventMsg::AgentMessage {
            message: "hello".to_string(),
            phase: None,
        }),
        RolloutItem::Event(EventMsg::TurnStarted),
    ];
    let told = handle_replay_history(history, "/work")
        .into_iter()
        .map(|message| message.update)
        .collect::<Vec<_>>();
    assert_eq!(
        told,
        vec![
            SessionUpdate::UserMessage("hi".to_string()),
            SessionUpdate::AgentThought("hm".to_string()),
            SessionUpdate::AgentThought("raw".to_string()),
            SessionUpdate::AgentText("hello".to_string()),
        ]
    );
}

#[test]
fn function_calls_show_their_arguments() {
    let call = only_call(replay_response_item(
        ResponseItem::FunctionCall {
            name: "plan".to_string(),
            call_id: "c".to_string(),
            arguments: "{\"a\": [1]}".to_string(),
            shell: None,
        },
        "/work",
    ));
    assert_eq!(call.title, "plan");
    assert_eq!(call.kind, ToolKind::Other);
    assert_eq!(call.status, ToolCallStatus::Completed);
    assert_eq!(call.raw_input, parse("{\"a\":[1]}"));
    let call = only_call(replay_response_item(
        ResponseItem::FunctionCall {
            name: "plan".to_string(),
            call_id: "c".to_string(),
            arguments: "not json".to_string(),
            shell: None,
        },
        "/work",
    ));
    assert_eq!(call.raw_input, None);
}

fn shell(workdir: Option<&str>) -> ShellCall {
    ShellCall {
        parsed_cmd: vec![ParsedCommand::Read {
            cmd: "cat a".to_string(),
            name: "a".to_string(),
            path: "a".to_string(),
        }],
        workdir: workdir.map(str::to_string),
    }
}

#[test]
fn shell_calls_are_shown_as_commands() {
    let call = only_call(replay_response_item(
        ResponseItem::FunctionCall {
            name: "shell".to_string(),
            call_id: "c".to_string(),
            arguments: "{}".to_string(),
            shell: Some(shell(Some("/elsewhere"))),
        },
        "/work",
    ));
    assert_eq!(call.title, "Read a");
    assert_eq!(call.locations, vec!["/elsewhere/a"]);
    let call = only_call(replay_response_item(
        ResponseItem::FunctionCall {
            name: "not_a_shell".to_string(),
            call_id: "c".to_string(),
            arguments: "{}".to_string(),
            shell: Some(shell(None)),
        },
        "/work",
    ));
    assert_eq!(call.title, "not_a_shell");
    for (status, shown) in [
        (LocalShellStatus::Completed, ToolCallStatus::Completed),
        (LocalShellStatus::InProgress, ToolCallStatus::Failed),
        (LocalShellStatus::Incomplete, ToolCallStatus::Failed),
    ] {
        let call = only_call(replay_response_item(
            ResponseItem::LocalShellCall {
                call_id: Some("l".to_string()),
                shell: shell(None),
                status,
            },
            "/work",
        ));
        assert_eq!(call.status, shown);
        assert_eq!(call.locations, vec!["/work/a"]);
    }
    let unnamed = ResponseItem::LocalShellCall {
        call_id: None,
        shell: shell(None),
        status: LocalShellStatus::Completed,
    };
    assert!(replay_response_item(unnamed, "/work").is_empty());
}

#[test]
fn scripts_run_in_a_login_shell() {
    assert!(takes_script("shell_command"));
    assert!(!takes_script("shell"));
    assert_eq!(
        shell_command_words(ShellArguments::Script {
            command: "ls | wc".to_string(),
            workdir: Some("/w".to_string()),
        }),
        (strings(&["bash", "-lc", "ls | wc"]), Some("/w".to_string()))
    );
    assert_eq!(
        shell_command_words(ShellArguments::Words {
            command: strings(&["ls"]),
            workdir: None,
        }),
        (strings(&["ls"]), None)
    );
}

#[test]
fn patches_are_shown_as_diffs() {
    let hunks = vec![
        PatchHunk::AddFile { path: "new".to_string(), contents: "x\n".to_string() },
        PatchHunk::DeleteFile { path: "/old".to_string() },
        PatchHunk::UpdateFile {
            path: "a".to_string(),
            move_path: Some("b".to_string()),
            chunks: vec![
                PatchChunk { old_lines: strings(&["1"]), new_lines: strings(&["2", "3"]) },
                PatchChunk { old_lines: strings(&["4"]), new_lines: strings(&[]) },
            ],
        },
    ];
    let shown = parse_apply_patch_call(&hunks, "/work");
    assert_eq!(shown.title, "Edit new, /old, a");
    assert_eq!(shown.locations, strings(&["/work/new", "/old", "/work/b"]));
    assert_eq!(
        shown.content,
        vec![
            ToolCallContent::Diff {
                path: "/work/new".to_string(),
                old_text: None,
                new_text: "x\n".to_string(),
            },
            ToolCallContent::Diff {
                path: "/old".to_string(),
                old_text: Some("[file deleted]".to_string()),
                new_text: String::new(),
            },
            ToolCallContent::Diff {
                path: "/work/b".to_string(),
                old_text: Some("1\n4".to_string()),
                new_text: "2\n3".to_string(),
            },
        ]
    );
    assert_eq!(parse_apply_patch_call(&vec![], "/work").title, "Apply patch");
    let call = only_call(replay_response_item(
        ResponseItem::CustomToolCall {
            name: "apply_patch".to_string(),
            call_id: "p".to_string(),
            input: "*** Begin Patch".to_string(),
            patch: Some(hunks),
        },
        "/work",
    ));
    assert_eq!(call.kind, ToolKind::Edit);
    assert_eq!(call.raw_input, None);
    assert_eq!(call.content.len(), 3);
}

#[test]
fn other_items_are_told_again() {
    let mut messages = replay_response_item(
        ResponseItem::FunctionCallOutput {
            call_id: "c".to_string(),
            output: Some(Json::Bool(true)),
        },
        "/work",
    );
    match messages.pop().unwrap().update {
        SessionUpdate::ToolCallUpdate(update) => {
            assert_eq!(update.status, Some(ToolCallStatus::Completed));
            assert_eq!(update.raw_output, Some(Json::Bool(true)));
        }
        other => panic!("unexpected update: {other:?}"),
    }
    let call = only_call(replay_response_item(
        ResponseItem::WebSearchCall { shown: None, fallback_id: "w".to_string() },
        "/work",
    ));
    assert_eq!((call.id.as_str(), call.title.as_str()), ("w", "Web Search"));
    let call = only_call(replay_response_item(
        ResponseItem::WebSearchCall {
            shown: Some(WebSearchShown {
                title: "Searching for: x".to_string(),
                call_id: "ws".to_string(),
            }),
            fallback_id: "w".to_string(),
        },
        "/work",
    ));
    assert_eq!((call.id.as_str(), call.title.as_str()), ("ws", "Searching for: x"));
    let call = only_call(replay_response_item(
        ResponseItem::ImageGenerationCall {
            id: "i".to_string(),
            status_text: "completed".to_string(),
            status: ToolCallStatus::Completed,
            revised_prompt: None,
            result: "AA".to_string(),
        },
        "/work",
    ));
    assert_eq!(call.title, "Image generation");
    assert_eq!(
        compact(&call.raw_output.unwrap()),
        "{\"status\":\"completed\",\"revised_prompt\":null,\"result\":\"AA\"}"
    );
}
