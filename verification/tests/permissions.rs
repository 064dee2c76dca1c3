//! Permission requests: what the client is offered, and what its answer means.
use codex_acp::client::ClientCapabilities;
use codex_acp::collections::StringMap;
use codex_acp::events::{
    ElicitationRequest, EventMsg, ExecApprovalRequest, NetworkApprovalContext,
    NetworkPolicyAmendment, ParsedCommand, PatchSummary, Question, QuestionOption,
    UserInputRequest,
};
use codex_acp::json::{get_field, get_text, parse, Json};
use codex_acp::permissions::answers::{
    permission_guidance_followup, permission_guidance_from_response,
    user_input_response_from_meta, PERMISSION_GUIDANCE_META_KEY, PERMISSION_INPUT_META_KEY,
    USER_INPUT_ANSWERS_META_KEY,
};
use codex_acp::permissions::commands::parse_command_tool_call;
use codex_acp::permissions::elicitation::{
    build_supported_mcp_elicitation_permission_request, format_mcp_tool_approval_content,
    format_mcp_tool_approval_params, format_mcp_tool_approval_value, mcp_tool_approval_call_id,
    mcp_tool_approval_persist_modes, MCP_TOOL_APPROVAL_ALLOW_ALWAYS_OPTION_ID,
    MCP_TOOL_APPROVAL_ALLOW_OPTION_ID, MCP_TOOL_APPROVAL_ALLOW_SESSION_OPTION_ID,
    MCP_TOOL_APPROVAL_CANCEL_OPTION_ID, MCP_TOOL_APPROVAL_PERSIST_SESSION,
    MCP_TOOL_APPROVAL_REQUEST_ID_PREFIX,
};
use codex_acp::permissions::exec_options::{
    build_exec_permission_options, exec_decisions, exec_offer,
};
use codex_acp::permissions::questions::{
    build_user_input_permission_request, user_input_permission_meta, user_input_question_label,
};
use codex_acp::permissions::{
    exec_request_key, format_thread_goal_update, mcp_elicitation_request_key, patch_request_key,
    permissions_request_key, user_input_request_key, PermissionOutcome, PermissionResponse,
};
use codex_acp::prompt_state::{
    Effect, PermissionRequest, PermissionResolution, PromptState,
};
use codex_acp::protocol::{
    ElicitationAction, Error, ErrorKind, FileSystemAccessMode, FileSystemEntry,
    GrantedPermissions, NetworkPolicyRuleAction, Op, PermissionGrantScope,
    PermissionOptionKind, PermissionProfileRequest, RequestId, ReviewDecision, SessionUpdate,
    ThreadGoalStatus, ToolCallContent, ToolCallStatus, ToolKind,
};

fn client() -> ClientCapabilities {
    ClientCapabilities { meta: None }
}

fn turn() -> PromptState {
    PromptState::new("submission-id".to_string(), None)
}

fn text(value: &str) -> Json {
    Json::Text(value.to_string())
}

fn object(fields: Vec<(&str, Json)>) -> Json {
    Json::Object(meta(fields))
}

fn meta(fields: Vec<(&str, Json)>) -> Vec<(String, Json)> {
    fields
        .into_iter()
        .map(|(name, value)| (name.to_string(), value))
        .collect()
}

fn selected(option_id: &str) -> PermissionResponse {
    PermissionResponse {
        outcome: PermissionOutcome::Selected {
            option_id: option_id.to_string(),
            meta: None,
        },
        meta: None,
    }
}

fn cancelled() -> PermissionResponse {
    PermissionResponse {
        outcome: PermissionOutcome::Cancelled,
        meta: None,
    }
}

fn exec_request(decisions: Vec<ReviewDecision>) -> ExecApprovalRequest {
    ExecApprovalRequest {
        call_id: "call-id".to_string(),
        turn_id: "turn-id".to_string(),
        approval_id: Some("approval-id".to_string()),
        cwd: "/work".to_string(),
        reason: None,
        parsed_cmd: vec![ParsedCommand::Unknown {
            cmd: "echo hi".to_string(),
        }],
        proposed_execpolicy_amendment: None,
        network_approval_context: None,
        additional_permissions: None,
        available_decisions: decisions,
        proposed_network_policy_amendments: None,
        raw: Json::Null,
    }
}

fn question(id: &str, header: &str, question: &str, is_other: bool) -> Question {
    Question {
        id: id.to_string(),
        header: header.to_string(),
        question: question.to_string(),
        is_other,
        options: None,
        raw: text(id),
    }
}

fn choice(label: &str, description: &str) -> QuestionOption {
    QuestionOption {
        label: label.to_string(),
        description: description.to_string(),
    }
}

fn user_input(call_id: &str, turn_id: &str, questions: Vec<Question>) -> EventMsg {
    EventMsg::RequestUserInput(UserInputRequest {
        call_id: call_id.to_string(),
        turn_id: turn_id.to_string(),
        questions,
        raw: Json::Null,
    })
}

/// The only request among the effects.
fn only_request(effects: Vec<Effect>) -> PermissionRequest {
    let mut requests = effects
        .into_iter()
        .filter_map(|effect| match effect {
            Effect::RequestPermission(request) => Some(request),
            _ => None,
        })
        .collect::<Vec<_>>();
    assert_eq!(requests.len(), 1);
    requests.pop().unwrap()
}

fn option_ids(request: &PermissionRequest) -> Vec<String> {
    request
        .options
        .iter()
        .map(|option| option.option_id.clone())
        .collect()
}

fn answer(
    state: &mut PromptState,
    request: &PermissionRequest,
    response: PermissionResponse,
) -> PermissionResolution {
    state.handle_permission_request_resolved(
        request.interaction_id,
        request.request_key.clone(),
        Ok(response),
    )
}

fn resolved_op(resolution: PermissionResolution) -> Op {
    match resolution {
        PermissionResolution::Resolved { op, .. } => op,
        other => panic!("unexpected resolution: {other:?}"),
    }
}

fn shown_text(request: &PermissionRequest) -> &str {
    match request.tool_call.content.as_ref().map(Vec::as_slice) {
        Some([ToolCallContent::Text(shown)]) => shown,
        other => panic!("unexpected content: {other:?}"),
    }
}

#[test]
fn test_exec_approval_uses_available_decisions() {
    let mut state = turn();
    let effects = state.exec_approval(exec_request(vec![
        ReviewDecision::Approved,
        ReviewDecision::Denied,
    ]));
    let request = only_request(effects.unwrap());
    assert_eq!(request.submission_id, "submission-id");
    assert_eq!(option_ids(&request), vec!["approved", "denied"]);

    let op = resolved_op(answer(&mut state, &request, selected("denied")));
    assert!(matches!(
        op,
        Op::ExecApproval { id, turn_id, decision: ReviewDecision::Denied }
            if id == "approval-id" && turn_id.as_deref() == Some("turn-id")
    ));
}

fn docs_elicitation() -> ElicitationRequest {
    ElicitationRequest::Form {
        meta: Some(object(vec![
            ("codex_approval_kind", text("mcp_tool_call")),
            ("persist", Json::Array(vec![text("session"), text("always")])),
            ("connector_name", text("Docs")),
            ("tool_title", text("search_docs")),
            ("tool_description", text("Search project documentation")),
            (
                "tool_params_display",
                Json::Array(vec![object(vec![
                    ("display_name", text("Query")),
                    ("name", text("query")),
                    ("value", text("approval flow")),
                ])]),
            ),
        ])),
        message: "Allow Docs to run tool \"search_docs\"?".to_string(),
    }
}

#[test]
fn test_mcp_tool_approval_elicitation_routes_to_permission_request() {
    let mut state = turn();
    let request_id = format!("{MCP_TOOL_APPROVAL_REQUEST_ID_PREFIX}call-123");
    let effects = state.mcp_elicitation(
        "test-server".to_string(),
        RequestId::Text(request_id.clone()),
        docs_elicitation(),
        Json::Null,
    );
    let request = only_request(effects);
    assert_eq!(request.submission_id, "submission-id");
    assert_eq!(request.tool_call.id, "call-123");
    assert_eq!(
        option_ids(&request),
        vec![
            MCP_TOOL_APPROVAL_ALLOW_OPTION_ID,
            MCP_TOOL_APPROVAL_ALLOW_SESSION_OPTION_ID,
            MCP_TOOL_APPROVAL_ALLOW_ALWAYS_OPTION_ID,
            MCP_TOOL_APPROVAL_CANCEL_OPTION_ID,
        ]
    );

    let op = resolved_op(answer(
        &mut state,
        &request,
        selected(MCP_TOOL_APPROVAL_ALLOW_SESSION_OPTION_ID),
    ));
    match op {
        Op::ResolveElicitation {
            server_name,
            request_id: RequestId::Text(id),
            decision,
            content,
            meta: Some(Json::Object(fields)),
        } => {
            assert_eq!(server_name, "test-server");
            assert_eq!(id, request_id);
            assert_eq!(decision, ElicitationAction::Accept);
            assert!(content.is_none());
            assert_eq!(
                get_text(&fields, "persist").map(String::as_str),
                Some(MCP_TOOL_APPROVAL_PERSIST_SESSION)
            );
        }
        other => panic!("unexpected op: {other:?}"),
    }
}

#[test]
fn test_request_user_input_routes_to_permission_request() {
    let mut state = turn();
    let asked = Question {
        options: Some(vec![
            choice("First", "Use the first path."),
            choice("Second", "Use the second path."),
        ]),
        ..question("approach", "Approach", "Which approach should I take?", false)
    };
    let effects =
        state.handle_event(&client(), user_input("call-user-input", "turn-id", vec![asked]));
    let request = only_request(effects);
    assert_eq!(request.submission_id, "submission-id");
    assert_eq!(request.tool_call.id, "call-user-input");
    assert_eq!(
        option_ids(&request),
        vec!["answer:0:0", "answer:0:1", "cancel"]
    );

    match resolved_op(answer(&mut state, &request, selected("answer:0:1"))) {
        Op::UserInputAnswer { id, answers } => {
            assert_eq!(id, "turn-id");
            assert_eq!(answers.get("approach"), Some(&vec!["Second".to_string()]));
        }
        other => panic!("unexpected op: {other:?}"),
    }
}

#[test]
fn test_request_user_input_custom_answer_uses_permission_guidance() {
    let mut state = turn();
    let asked = question(
        "guidance",
        "Guidance",
        "Tell Codex what to do differently.",
        true,
    );
    let effects =
        state.handle_event(&client(), user_input("call-custom-input", "turn-id", vec![asked]));
    let request = only_request(effects);

    let response = PermissionResponse {
        meta: Some(meta(vec![(
            PERMISSION_GUIDANCE_META_KEY,
            text("Use the smaller scoped refactor."),
        )])),
        ..selected("answer:0:custom")
    };
    match resolved_op(answer(&mut state, &request, response)) {
        Op::UserInputAnswer { answers, .. } => assert_eq!(
            answers.get("guidance"),
            Some(&vec!["Use the smaller scoped refactor.".to_string()])
        ),
        other => panic!("unexpected op: {other:?}"),
    }
}

#[test]
fn test_request_user_input_uses_structured_permission_answers() {
    let mut state = turn();
    let approach = Question {
        options: Some(vec![
            choice("Fast", "Use the fast path."),
            choice("Careful", "Use the careful path."),
        ]),
        ..question("approach", "Approach", "Which approach should I take?", false)
    };
    let checks = Question {
        options: Some(vec![
            choice("Unit", "Run unit tests."),
            choice("Build", "Run build."),
        ]),
        ..question("checks", "Checks", "Which checks should run?", true)
    };
    let effects = state.handle_event(
        &client(),
        user_input("call-user-input", "turn-id", vec![approach, checks]),
    );
    let request = only_request(effects);

    let response = PermissionResponse {
        meta: Some(meta(vec![(
            USER_INPUT_ANSWERS_META_KEY,
            object(vec![(
                "answers",
                object(vec![
                    ("approach", Json::Array(vec![text("Careful")])),
                    ("checks", Json::Array(vec![text("Unit"), text("Build")])),
                ]),
            )]),
        )])),
        ..selected("answer:0:0")
    };
    match resolved_op(answer(&mut state, &request, response)) {
        Op::UserInputAnswer { id, answers } => {
            assert_eq!(id, "turn-id");
            assert_eq!(answers.get("approach"), Some(&vec!["Careful".to_string()]));
            assert_eq!(
                answers.get("checks"),
                Some(&vec!["Unit".to_string(), "Build".to_string()])
            );
        }
        other => panic!("unexpected op: {other:?}"),
    }
}

#[test]
fn test_mcp_elicitation_declines_unsupported_form_requests() {
    let mut state = turn();
    let mut effects = state.mcp_elicitation(
        "test-server".to_string(),
        RequestId::Text("request-id".to_string()),
        ElicitationRequest::Form {
            meta: None,
            message: "Need some structured input".to_string(),
        },
        Json::Null,
    );
    assert_eq!(effects.len(), 1);
    assert!(matches!(
        effects.pop(),
        Some(Effect::Submit(Op::ResolveElicitation {
            server_name,
            request_id: RequestId::Text(request_id),
            decision: ElicitationAction::Decline,
            content: None,
            meta: None,
        })) if server_name == "test-server" && request_id == "request-id"
    ));
}

#[test]
fn test_blocked_approval_does_not_block_followup_events() {
    let mut state = turn();
    let effects = state.handle_event(
        &client(),
        EventMsg::ExecApprovalRequest(exec_request(vec![
            ReviewDecision::Approved,
            ReviewDecision::Abort,
        ])),
    );
    only_request(effects);
    let effects = state.handle_event(
        &client(),
        EventMsg::AgentMessage {
            message: "still flowing".to_string(),
            phase: None,
        },
    );
    assert!(effects.iter().any(|effect| matches!(
        effect,
        Effect::Notify(notification)
            if notification.update == SessionUpdate::AgentText("still flowing".to_string())
    )));
    state.detach_pending_interactions();
}

#[test]
fn test_detached_permission_request_drains_late_response() {
    let mut state = turn();
    let effects = state.handle_event(
        &client(),
        EventMsg::ExecApprovalRequest(exec_request(vec![
            ReviewDecision::Approved,
            ReviewDecision::Abort,
        ])),
    );
    let request = only_request(effects);
    assert_eq!(request.submission_id, "submission-id");
    state.detach_pending_interactions();
    assert!(matches!(
        answer(&mut state, &request, selected("approved")),
        PermissionResolution::Ignored
    ));
}

#[test]
fn url_elicitation_is_declined() {
    let mut state = turn();
    let mut effects = state.mcp_elicitation(
        "web".to_string(),
        RequestId::Integer(7),
        ElicitationRequest::Url,
        Json::Null,
    );
    assert!(matches!(
        effects.pop(),
        Some(Effect::Submit(Op::ResolveElicitation {
            request_id: RequestId::Integer(7),
            decision: ElicitationAction::Decline,
            ..
        }))
    ));
}

#[test]
fn answer_counts_once() {
    let mut state = turn();
    let request = only_request(state.exec_approval(exec_request(vec![ReviewDecision::Approved])).unwrap());
    assert!(matches!(
        answer(&mut state, &request, selected("approved")),
        PermissionResolution::Resolved { followup: None, .. }
    ));
    assert!(matches!(
        answer(&mut state, &request, selected("approved")),
        PermissionResolution::Ignored
    ));
}

#[test]
fn later_request_replaces_the_earlier_one() {
    let mut state = turn();
    let first = only_request(state.exec_approval(exec_request(vec![ReviewDecision::Approved])).unwrap());
    let second = only_request(state.exec_approval(exec_request(vec![ReviewDecision::Denied])).unwrap());
    assert_eq!(first.request_key, second.request_key);
    assert_eq!(second.interaction_id, first.interaction_id + 1);
    assert!(matches!(
        answer(&mut state, &first, selected("approved")),
        PermissionResolution::Ignored
    ));
    assert!(matches!(
        resolved_op(answer(&mut state, &second, selected("denied"))),
        Op::ExecApproval { decision: ReviewDecision::Denied, .. }
    ));
}

#[test]
fn unknown_choice_aborts() {
    let mut state = turn();
    let request = only_request(state.exec_approval(exec_request(vec![ReviewDecision::Approved])).unwrap());
    assert!(matches!(
        resolved_op(answer(&mut state, &request, selected("no-such-option"))),
        Op::ExecApproval { decision: ReviewDecision::Abort, .. }
    ));
    let request = only_request(state.exec_approval(exec_request(vec![ReviewDecision::Approved])).unwrap());
    assert!(matches!(
        resolved_op(answer(&mut state, &request, cancelled())),
        Op::ExecApproval { decision: ReviewDecision::Abort, .. }
    ));
}

#[test]
fn failed_request_fails() {
    let mut state = turn();
    let request = only_request(state.exec_approval(exec_request(vec![ReviewDecision::Approved])).unwrap());
    let resolution = state.handle_permission_request_resolved(
        request.interaction_id,
        request.request_key,
        Err(Error {
            kind: ErrorKind::InternalError,
            data: None,
        }),
    );
    assert!(matches!(
        resolution,
        PermissionResolution::Failed(error) if error.kind == ErrorKind::InternalError
    ));
}

#[test]
fn approval_falls_back_to_the_call() {
    let mut state = turn();
    let mut request = exec_request(vec![ReviewDecision::Approved]);
    request.approval_id = None;
    let request = only_request(state.exec_approval(request).unwrap());
    assert!(matches!(
        resolved_op(answer(&mut state, &request, selected("approved"))),
        Op::ExecApproval { id, .. } if id == "call-id"
    ));
}

#[test]
fn exec_approval_tells_everything_about_the_command() {
    let mut state = turn();
    let mut request = exec_request(vec![
        ReviewDecision::ApprovedForSession,
        ReviewDecision::TimedOut,
    ]);
    request.reason = Some("needs the network".to_string());
    request.proposed_execpolicy_amendment = Some(vec!["cargo".to_string(), "add".to_string()]);
    request.network_approval_context = Some(NetworkApprovalContext {
        host: "crates.io".to_string(),
        protocol: "Https".to_string(),
    });
    request.additional_permissions = Some(object(vec![(
        "network",
        object(vec![("enabled", Json::Bool(true))]),
    )]));
    request.proposed_network_policy_amendments = Some(vec![
        NetworkPolicyAmendment {
            host: "crates.io".to_string(),
            action: NetworkPolicyRuleAction::Allow,
        },
        NetworkPolicyAmendment {
            host: "a\"b\\c".to_string(),
            action: NetworkPolicyRuleAction::Deny,
        },
    ]);
    let request = only_request(state.exec_approval(request).unwrap());
    assert_eq!(request.tool_call.title.as_deref(), Some("echo hi"));
    assert_eq!(request.tool_call.kind, Some(ToolKind::Execute));
    assert_eq!(request.tool_call.status, Some(ToolCallStatus::Pending));
    assert_eq!(request.tool_call.locations, None);
    assert_eq!(
        shown_text(&request),
        "needs the network\n\
         Proposed Amendment: cargo\nadd\n\
         Network Approval Context: Https crates.io\n\
         Additional Permissions: {\n  \"network\": {\n    \"enabled\": true\n  }\n}\n\
         Available Decisions: ApprovedForSession\nTimedOut\n\
         Proposed Network Policy Amendments: Allow \"crates.io\"\nDeny \"a\\\"b\\\\c\""
    );
    assert_eq!(
        request.options[0].name,
        "Yes, and allow this host for this session"
    );
}

#[test]
fn permissions_that_cannot_be_written_are_an_error() {
    let mut state = turn();
    let mut request = exec_request(vec![ReviewDecision::Approved]);
    request.additional_permissions = Some(object(vec![]));
    assert_eq!(
        state
            .put_exec_approval(request, Err("no such form".to_string()))
            .unwrap_err(),
        Error {
            kind: ErrorKind::InvalidParams,
            data: Some(text("no such form")),
        }
    );
    assert!(state.active_commands.contains_key("call-id"));
    assert!(state.pending_permission_interactions.is_empty());
    assert_eq!(state.next_permission_interaction_id, 0);
    assert!(state.response_open);
}

#[test]
fn abort_with_guidance_is_followed_up() {
    let mut state = turn();
    let request = only_request(state.exec_approval(exec_request(vec![ReviewDecision::TimedOut])).unwrap());
    let response = PermissionResponse {
        outcome: PermissionOutcome::Selected {
            option_id: "timed_out".to_string(),
            meta: Some(meta(vec![(PERMISSION_GUIDANCE_META_KEY, text("  Try again. "))])),
        },
        meta: None,
    };
    assert!(matches!(
        answer(&mut state, &request, response),
        PermissionResolution::Resolved {
            op: Op::ExecApproval { decision: ReviewDecision::TimedOut, .. },
            followup: Some(followup),
        } if followup == "Try again."
    ));
}

#[test]
fn patch_is_approved_or_aborted() {
    let mut state = turn();
    let effects = state.patch_approval(
        "patch-1".to_string(),
        PatchSummary {
            change_count: 1,
            title: "Edit /work/a.rs".to_string(),
            locations: vec!["/work/a.rs".to_string()],
            content: vec![],
        },
        Some("writes a file".to_string()),
        Json::Null,
    );
    let request = only_request(effects);
    assert_eq!(request.request_key, "patch:patch-1");
    assert_eq!(option_ids(&request), vec!["approved", "abort"]);
    assert_eq!(shown_text(&request), "writes a file");
    assert_eq!(request.tool_call.kind, Some(ToolKind::Edit));
    assert!(matches!(
        resolved_op(answer(&mut state, &request, selected("approved"))),
        Op::PatchApproval { id, decision: ReviewDecision::Approved } if id == "patch-1"
    ));
}

fn permissions_request(
    state: &mut PromptState,
    reason: Option<&str>,
    file_system: Option<Vec<FileSystemEntry>>,
    network_enabled: Option<bool>,
) -> PermissionRequest {
    only_request(state.request_permissions(
        "perm-1".to_string(),
        reason.map(str::to_string),
        PermissionProfileRequest {
            file_system,
            network_enabled,
            profile: text("wanted"),
        },
        Json::Null,
    ))
}

#[test]
fn permissions_are_granted_on_approval() {
    let mut state = turn();
    let request = permissions_request(&mut state, None, None, None);
    assert_eq!(request.tool_call.title.as_deref(), Some("Permissions Request"));
    assert_eq!(request.tool_call.content, None);
    assert_eq!(
        option_ids(&request),
        vec!["approved-for-session", "approved", "abort"]
    );
    match resolved_op(answer(&mut state, &request, selected("approved-for-session"))) {
        Op::RequestPermissionsResponse { id, response } => {
            assert_eq!(id, "perm-1");
            assert_eq!(response.permissions, GrantedPermissions::Requested(text("wanted")));
            assert_eq!(response.scope, PermissionGrantScope::Session);
            assert!(!response.strict_auto_review);
        }
        other => panic!("unexpected op: {other:?}"),
    }

    let request = permissions_request(&mut state, None, None, None);
    match resolved_op(answer(&mut state, &request, selected("approved"))) {
        Op::RequestPermissionsResponse { response, .. } => {
            assert_eq!(response.permissions, GrantedPermissions::Requested(text("wanted")));
            assert_eq!(response.scope, PermissionGrantScope::Turn);
            assert!(!response.strict_auto_review);
        }
        other => panic!("unexpected op: {other:?}"),
    }

    for response in [selected("abort"), selected("other"), cancelled()] {
        let request = permissions_request(&mut state, None, None, None);
        match resolved_op(answer(&mut state, &request, response)) {
            Op::RequestPermissionsResponse { response, .. } => {
                assert_eq!(response.permissions, GrantedPermissions::Nothing);
                assert_eq!(response.scope, PermissionGrantScope::Turn);
                assert!(response.strict_auto_review);
            }
            other => panic!("unexpected op: {other:?}"),
        }
    }
}

#[test]
fn permissions_are_listed_by_access() {
    let mut state = turn();
    let entry = |access, label: &str| FileSystemEntry {
        access,
        label: label.to_string(),
    };
    let request = permissions_request(
        &mut state,
        Some("build cache"),
        Some(vec![
            entry(FileSystemAccessMode::Write, "/tmp"),
            entry(FileSystemAccessMode::Read, "/etc"),
            entry(FileSystemAccessMode::Read, "/usr"),
        ]),
        Some(false),
    );
    assert_eq!(request.tool_call.title.as_deref(), Some("build cache"));
    assert_eq!(
        shown_text(&request),
        "build cache\nFile System Read Access: /etc, /usr\n\
         File System Write Access: /tmp\nNetwork Access: false"
    );
}

#[test]
fn request_without_questions_is_answered_at_once() {
    let mut state = turn();
    let mut effects = state.handle_event(&client(), user_input("call", "  ", vec![]));
    assert_eq!(effects.len(), 1);
    match effects.pop() {
        Some(Effect::Submit(Op::UserInputAnswer { id, answers })) => {
            assert_eq!(id, "submission-id");
            assert!(answers.is_empty());
        }
        other => panic!("unexpected effect: {other:?}"),
    }
}

#[test]
fn cancelled_questions_are_answered_with_nothing() {
    let mut state = turn();
    let asked = question("q", "", "Why?", false);
    let effects = state.handle_event(&client(), user_input("call", "turn-id", vec![asked]));
    let request = only_request(effects);
    match resolved_op(answer(&mut state, &request, selected("cancel"))) {
        Op::UserInputAnswer { id, answers } => {
            assert_eq!(id, "turn-id");
            assert!(answers.is_empty());
        }
        other => panic!("unexpected op: {other:?}"),
    }
}

#[test]
fn questions_are_shown_with_their_choices() {
    let first = Question {
        options: Some(vec![choice(" Fast ", " now "), choice("Slow", "  ")]),
        ..question("speed", " Speed ", " How fast? ", false)
    };
    let second = question("why", "", "Why is that so, and what would have to change?", true);
    let (title, content, options, option_map) =
        build_user_input_permission_request(&vec![first, second]);
    assert_eq!(title, "Ask user: Speed");
    assert_eq!(
        content,
        "Question 1: Speed\nHow fast?\n- Fast: now\n- Slow\n\n\
         Question 2: Why is that so, and what would have to change?\n\
         - Custom response: use the supplemental note field."
    );
    let shown = options
        .iter()
        .map(|option| (option.option_id.as_str(), option.name.as_str()))
        .collect::<Vec<_>>();
    assert_eq!(
        shown,
        vec![
            ("answer:0:0", "Speed: Fast"),
            ("answer:0:1", "Speed: Slow"),
            ("answer:1:custom", "Why is that so, and what ...: Submit response"),
            ("cancel", "Cancel"),
        ]
    );
    assert_eq!(options[3].kind, PermissionOptionKind::RejectOnce);
    let fast = option_map.get("answer:0:0").unwrap();
    assert_eq!(fast.question_id, "speed");
    assert_eq!(fast.answer.as_deref(), Some(" Fast "));
    assert!(!fast.use_guidance);
    let custom = option_map.get("answer:1:custom").unwrap();
    assert_eq!(custom.question_id, "why");
    assert_eq!(custom.answer, None);
    assert!(custom.use_guidance);
    assert!(!option_map.contains_key("cancel"));
}

#[test]
fn questions_travel_with_the_request() {
    let mut state = turn();
    let asked = question("q", "Head", "Why?", false);
    let effects = state.handle_event(&client(), user_input("call", "turn-id", vec![asked]));
    let request = only_request(effects);
    let expected = user_input_permission_meta(vec![text("q")]);
    assert_eq!(request.meta, Some(expected));
    let fields = request.meta.unwrap();
    assert!(get_field(&fields, PERMISSION_INPUT_META_KEY).is_some());
}

#[test]
fn question_label_falls_back_to_the_question() {
    assert_eq!(user_input_question_label(&question("q", "  ", " Why? ", false)), "Why?");
    assert_eq!(user_input_question_label(&question("q", " Head ", "Why?", false)), "Head");
}

#[test]
fn exec_options_name_what_they_allow() {
    let decisions = vec![
        ReviewDecision::Approved,
        ReviewDecision::ApprovedExecpolicyAmendment {
            command: vec!["git".to_string(), "push".to_string()],
        },
        ReviewDecision::ApprovedForSession,
        ReviewDecision::NetworkPolicyAmendment {
            host: "h".to_string(),
            action: NetworkPolicyRuleAction::Allow,
        },
        ReviewDecision::NetworkPolicyAmendment {
            host: "h".to_string(),
            action: NetworkPolicyRuleAction::Deny,
        },
        ReviewDecision::Denied,
        ReviewDecision::Abort,
        ReviewDecision::TimedOut,
    ];
    let permissions = object(vec![]);
    let options = build_exec_permission_options(&decisions, None, Some(&permissions));
    let decision_by_id = exec_decisions(&options);
    for (option, decision) in options.iter().zip(&decisions) {
        assert_eq!(decision_by_id.get(&option.option_id), Some(decision));
    }
    let offer = exec_offer(options)
        .into_iter()
        .map(|option| (option.option_id, option.name, option.kind))
        .collect::<Vec<_>>();
    let expected = [
        ("approved", "Yes, proceed", PermissionOptionKind::AllowOnce),
        (
            "approved-execpolicy-amendment",
            "Yes, and don't ask again for commands that start with `git push`",
            PermissionOptionKind::AllowAlways,
        ),
        (
            "approved-for-session",
            "Yes, and allow these permissions for this session",
            PermissionOptionKind::AllowAlways,
        ),
        (
            "network-policy-amendment-allow",
            "Yes, and allow this host in the future",
            PermissionOptionKind::AllowAlways,
        ),
        (
            "network-policy-amendment-deny",
            "No, and block this host in the future",
            PermissionOptionKind::RejectAlways,
        ),
        ("denied", "No, continue without running it", PermissionOptionKind::RejectOnce),
        (
            "abort",
            "No, and tell Codex what to do differently",
            PermissionOptionKind::RejectOnce,
        ),
        (
            "timed_out",
            "Time out, tell Codex what to do differently",
            PermissionOptionKind::RejectOnce,
        ),
    ]
    .map(|(id, name, kind)| (id.to_string(), name.to_string(), kind));
    assert_eq!(offer, expected);
}

#[test]
fn command_pattern_of_several_lines_is_not_quoted() {
    for command in [vec![], vec!["a\nb".to_string()], vec!["a\rb".to_string()]] {
        let decisions = vec![ReviewDecision::ApprovedExecpolicyAmendment { command }];
        let options = build_exec_permission_options(&decisions, None, None);
        assert_eq!(
            options[0].permission_option.name,
            "Yes, and remember this command pattern"
        );
    }
}

#[test]
fn network_options_name_the_host() {
    let context = NetworkApprovalContext {
        host: "h".to_string(),
        protocol: "http".to_string(),
    };
    let decisions = vec![ReviewDecision::Approved, ReviewDecision::ApprovedForSession];
    let options = build_exec_permission_options(&decisions, Some(&context), None);
    assert_eq!(options[0].permission_option.name, "Yes, just this once");
    let options = build_exec_permission_options(&decisions, None, None);
    assert_eq!(
        options[1].permission_option.name,
        "Yes, and don't ask again for this command in this session"
    );
}

#[test]
fn elicitation_content_lists_its_sections() {
    let content = format_mcp_tool_approval_content(
        "server",
        " Allow? ",
        &meta(vec![
            ("connector_name", text("  ")),
            ("connector_description", text("A connector")),
            ("tool_description", text("A tool")),
            (
                "tool_params",
                object(vec![("b", Json::Bool(true)), ("a", Json::Null)]),
            ),
        ]),
    );
    assert_eq!(
        content,
        "Allow?\n\nServer: server\n\nA connector\n\nA tool\n\nArguments:\n{\n  \"b\": true,\n  \"a\": null\n}"
    );
}

#[test]
fn elicitation_params_prefer_their_display_form() {
    let shown = format_mcp_tool_approval_params(&meta(vec![
        (
            "tool_params_display",
            Json::Array(vec![
                object(vec![
                    ("name", text("limit")),
                    ("value", Json::Array(vec![Json::Bool(true), Json::Null])),
                ]),
                object(vec![("name", text("dropped"))]),
                text("dropped"),
            ]),
        ),
        ("tool_params", Json::Null),
    ]));
    assert_eq!(shown.as_deref(), Some("- limit: [true,null]"));
    let empty = meta(vec![("tool_params_display", Json::Array(vec![]))]);
    assert_eq!(format_mcp_tool_approval_params(&empty), None);
}

#[test]
fn approval_value_is_shown_as_compact_json() {
    assert_eq!(format_mcp_tool_approval_value(&text("as is")), "as is");
    let value = parse("{ \"x\" : [ 1 , 2.5 ] }").unwrap();
    assert_eq!(format_mcp_tool_approval_value(&value), "{\"x\":[1,2.5]}");
}

#[test]
fn approval_may_persist_where_it_says_so() {
    let modes = |value| mcp_tool_approval_persist_modes(&meta(vec![("persist", value)]));
    assert_eq!(modes(text("session")), (true, false));
    assert_eq!(modes(text("always")), (false, true));
    assert_eq!(modes(Json::Array(vec![text("always"), text("session")])), (true, true));
    assert_eq!(modes(Json::Bool(true)), (false, false));
    assert_eq!(mcp_tool_approval_persist_modes(&vec![]), (false, false));
}

#[test]
fn approval_names_its_call() {
    let id = RequestId::Text("mcp_tool_call_approval_x".to_string());
    assert_eq!(mcp_tool_approval_call_id(&id).as_deref(), Some("x"));
    assert_eq!(mcp_tool_approval_call_id(&RequestId::Text("x".to_string())), None);
    assert_eq!(mcp_tool_approval_call_id(&RequestId::Integer(3)), None);
}

#[test]
fn approval_without_a_call_is_named_by_its_request() {
    let request = ElicitationRequest::Form {
        meta: Some(object(vec![("codex_approval_kind", text("mcp_tool_call"))])),
        message: "Allow?".to_string(),
    };
    let supported = build_supported_mcp_elicitation_permission_request(
        "server",
        &RequestId::Integer(-12),
        &request,
        Json::Null,
    )
    .unwrap();
    assert_eq!(supported.request_key, "mcp-elicitation:server:-12");
    assert_eq!(supported.tool_call.id, "mcp-elicitation:-12");
    assert_eq!(supported.tool_call.title.as_deref(), Some("Approve MCP tool call"));
    assert_eq!(supported.options.len(), 2);
    assert_eq!(
        supported.option_map.get("cancel").unwrap().action,
        ElicitationAction::Cancel
    );
}

#[test]
fn cancelled_elicitation_is_cancelled() {
    let mut state = turn();
    let effects = state.mcp_elicitation(
        "test-server".to_string(),
        RequestId::Text("r".to_string()),
        docs_elicitation(),
        Json::Null,
    );
    let request = only_request(effects);
    assert!(matches!(
        resolved_op(answer(&mut state, &request, cancelled())),
        Op::ResolveElicitation { decision: ElicitationAction::Cancel, content: None, meta: None, .. }
    ));
}

#[test]
fn request_keys_tell_requests_apart() {
    let keys = vec![
        exec_request_key("id"),
        patch_request_key("id"),
        permissions_request_key("id"),
        mcp_elicitation_request_key("s", &RequestId::Text("id".to_string())),
        user_input_request_key("t", "id"),
    ];
    assert_eq!(
        keys,
        vec![
            "exec:id",
            "patch:id",
            "permissions:id",
            "mcp-elicitation:s:id",
            "user-input:t:id",
        ]
    );
}

#[test]
fn guidance_is_trimmed_and_the_answer_comes_first() {
    let own = PermissionResponse {
        outcome: PermissionOutcome::Selected {
            option_id: "abort".to_string(),
            meta: Some(meta(vec![(PERMISSION_GUIDANCE_META_KEY, text("option"))])),
        },
        meta: Some(meta(vec![(PERMISSION_GUIDANCE_META_KEY, text(" answer\n"))])),
    };
    assert_eq!(permission_guidance_from_response(&own).as_deref(), Some("answer"));
    let blank = PermissionResponse {
        meta: Some(meta(vec![(PERMISSION_GUIDANCE_META_KEY, text("  "))])),
        ..own
    };
    assert_eq!(permission_guidance_from_response(&blank).as_deref(), Some("option"));
    assert_eq!(permission_guidance_from_response(&cancelled()), None);
}

#[test]
fn guidance_is_followed_up_only_after_a_final_no() {
    let guidance = || Some("g".to_string());
    assert_eq!(
        permission_guidance_followup(&ReviewDecision::Abort, guidance()).as_deref(),
        Some("g")
    );
    assert_eq!(
        permission_guidance_followup(&ReviewDecision::TimedOut, guidance()).as_deref(),
        Some("g")
    );
    assert_eq!(permission_guidance_followup(&ReviewDecision::Denied, guidance()), None);
    assert_eq!(permission_guidance_followup(&ReviewDecision::Approved, guidance()), None);
}

#[test]
fn structured_answers_leave_blanks_out() {
    let fields = meta(vec![(
        USER_INPUT_ANSWERS_META_KEY,
        object(vec![
            ("a", Json::Array(vec![text(" x "), text("  "), Json::Null])),
            ("b", Json::Array(vec![text("  ")])),
            ("c", text("no list")),
        ]),
    )]);
    let answers: StringMap<Vec<String>> = user_input_response_from_meta(&fields).unwrap();
    assert_eq!(answers.get("a"), Some(&vec!["x".to_string()]));
    assert!(!answers.contains_key("b"));
    assert!(!answers.contains_key("c"));
    let empty = meta(vec![(USER_INPUT_ANSWERS_META_KEY, object(vec![]))]);
    assert!(user_input_response_from_meta(&empty).is_none());
}

#[test]
fn goal_of_several_lines_starts_on_its_own_line() {
    assert_eq!(
        format_thread_goal_update("  a\nb  ", ThreadGoalStatus::UsageLimited),
        "Goal updated (usage limited):\na\nb"
    );
    assert_eq!(
        format_thread_goal_update("a", ThreadGoalStatus::BudgetLimited),
        "Goal updated (budget limited): a"
    );
}

#[test]
fn parsed_commands_are_shown_together() {
    let call = parse_command_tool_call(
        vec![
            ParsedCommand::Read {
                cmd: "cat src/a.rs".to_string(),
                name: "a.rs".to_string(),
                path: "src/a.rs".to_string(),
            },
            ParsedCommand::ListFiles {
                cmd: "ls".to_string(),
                path: None,
            },
            ParsedCommand::ListFiles {
                cmd: "ls /etc".to_string(),
                path: Some("/etc".to_string()),
            },
            ParsedCommand::Search {
                cmd: "rg x src".to_string(),
                query: Some("x".to_string()),
                path: Some("src".to_string()),
            },
            ParsedCommand::Search {
                cmd: "rg".to_string(),
                query: None,
                path: None,
            },
        ],
        "/work",
    );
    assert_eq!(
        call.title,
        "Read a.rs, List /work, List /etc, Search x in src, Search rg"
    );
    assert_eq!(call.file_extension.as_deref(), Some("rs"));
    assert_eq!(call.locations, vec!["/work/src/a.rs", "/etc"]);
    assert_eq!(call.kind, ToolKind::Search);
    assert!(!call.terminal_output);
}

#[test]
fn command_that_is_not_understood_needs_a_terminal() {
    let call = parse_command_tool_call(
        vec![
            ParsedCommand::Read {
                cmd: "cat Makefile".to_string(),
                name: "Makefile".to_string(),
                path: "Makefile".to_string(),
            },
            ParsedCommand::Unknown {
                cmd: "make all".to_string(),
            },
        ],
        "/work/",
    );
    assert_eq!(call.title, "Read Makefile, make all");
    assert_eq!(call.kind, ToolKind::Read);
    assert_eq!(call.file_extension, None);
    assert_eq!(call.locations, vec!["/work/Makefile"]);
    assert!(call.terminal_output);
}
