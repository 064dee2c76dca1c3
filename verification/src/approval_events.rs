//! What the agent asks for: approvals, permissions, answers, elicitations, reviews.
use crate::client::{
    agent_text, new_call, new_status_update, new_tool_call, plain, status_update, tool_call,
    tool_call_update,
};
use crate::collections::{StringMap, add_item, empty, one, result_view, three, two};
use crate::events::{
    ElicitationRequest, ElicitationRequestView, ExecApprovalRequest, ExecApprovalRequestView,
    GuardianAssessment, GuardianAssessmentView, NetworkApprovalContextView,
    NetworkPolicyAmendment, NetworkPolicyAmendmentView, PatchSummary, PatchSummaryView, Question,
    QuestionView, ReviewOutput, ReviewOutputView, UserInputRequest, UserInputRequestView,
};
use crate::json::{Json, JsonView, pretty, pretty_text};
use crate::permissions::{
    PendingPermissionRequest, PendingPermissionRequestView, ResolvedUserInputAnswerView, exec_key,
    exec_request_key, patch_key, patch_request_key, permissions_key, permissions_request_key,
    user_input_key, user_input_request_key,
};
use crate::permissions::answers::empty_user_input_response;
use crate::permissions::commands::{command_tool_call, parse_command_tool_call};
use crate::permissions::elicitation::{
    build_supported_mcp_elicitation_permission_request, optional_section, supported_elicitation,
};
use crate::permissions::exec_options::{
    build_exec_permission_options, exec_decisions, exec_offer, exec_option_map, exec_options,
    new_permission_option, offered_options, permission_option,
};
use crate::permissions::questions::{
    build_user_input_permission_request, questions_content, questions_meta, questions_option_map,
    questions_options, questions_title, user_input_permission_meta,
};
use crate::prompt_state::{
    ActiveCommand, ActiveCommandView, Effect, EffectView, PromptState, PromptStateView, notify,
    permission_requested,
};
use crate::protocol::{
    ElicitationAction, Error, ErrorKind, ErrorKindView, ErrorView, FileSystemAccessMode,
    FileSystemEntry, FileSystemEntryView, GuardianAssessmentStatus, NetworkPolicyRuleAction, Op,
    OpView, PermissionOptionKind, PermissionOptionView, PermissionProfileRequest,
    PermissionProfileRequestView, RequestId, RequestIdView, ReviewDecision, ReviewDecisionView,
    SessionUpdateView, ToolCallContent, ToolCallContentView, ToolCallStatus, ToolCallUpdateView,
    ToolCallView, ToolKind,
};
use crate::text::{concat2, concat4, copy_option, debug_text, join, joined, quoted, trim, trimmed};
use vstd::prelude::*;

verus! {

pub open spec fn decision_name(decision: ReviewDecisionView) -> Seq<char> {
    match decision {
        ReviewDecisionView::Approved => "Approved"@,
        ReviewDecisionView::ApprovedExecpolicyAmendment { .. } => "ApprovedExecpolicyAmendment"@,
        ReviewDecisionView::ApprovedForSession => "ApprovedForSession"@,
        ReviewDecisionView::NetworkPolicyAmendment { .. } => "NetworkPolicyAmendment"@,
        ReviewDecisionView::Denied => "Denied"@,
        ReviewDecisionView::Abort => "Abort"@,
        ReviewDecisionView::TimedOut => "TimedOut"@,
    }
}

fn decision_text(decision: &ReviewDecision) -> (name: String)
    ensures
        name@ == decision_name(decision.deep_view()),
{
    let name = match decision {
        ReviewDecision::Approved => "Approved",
        ReviewDecision::ApprovedExecpolicyAmendment { .. } => "ApprovedExecpolicyAmendment",
        ReviewDecision::ApprovedForSession => "ApprovedForSession",
        ReviewDecision::NetworkPolicyAmendment { .. } => "NetworkPolicyAmendment",
        ReviewDecision::Denied => "Denied",
        ReviewDecision::Abort => "Abort",
        ReviewDecision::TimedOut => "TimedOut",
    };
    name.to_owned()
}

pub open spec fn decision_names(decisions: Seq<ReviewDecisionView>) -> Seq<Seq<char>> {
    decisions.map_values(|decision: ReviewDecisionView| decision_name(decision))
}

fn all_decision_texts(decisions: &Vec<ReviewDecision>) -> (names: Vec<String>)
    ensures
        names.deep_view() == decision_names(decisions.deep_view()),
{
    let mut names: Vec<String> = empty();
    let ghost all = decisions.deep_view();
    for i in 0..decisions.len()
        invariant
            all == decisions.deep_view(),
            names.deep_view() == decision_names(all.take(i as int)),
    {
        assert(decision_names(all.take(i + 1)) =~= decision_names(all.take(i as int)).push(
            decision_name(all[i as int]),
        ));
        add_item(&mut names, decision_text(&decisions[i]));
    }
    assert(all.take(all.len() as int) =~= all);
    names
}

pub open spec fn rule_text(amendment: NetworkPolicyAmendmentView) -> Seq<char> {
    match amendment.action {
        NetworkPolicyRuleAction::Allow => "Allow "@ + debug_text(amendment.host),
        NetworkPolicyRuleAction::Deny => "Deny "@ + debug_text(amendment.host),
    }
}

pub open spec fn rule_texts(amendments: Seq<NetworkPolicyAmendmentView>) -> Seq<Seq<char>> {
    amendments.map_values(|amendment: NetworkPolicyAmendmentView| rule_text(amendment))
}

fn all_rule_texts(amendments: &Vec<NetworkPolicyAmendment>) -> (texts: Vec<String>)
    ensures
        texts.deep_view() == rule_texts(amendments.deep_view()),
{
    let mut texts: Vec<String> = empty();
    let ghost all = amendments.deep_view();
    for i in 0..amendments.len()
        invariant
            all == amendments.deep_view(),
            texts.deep_view() == rule_texts(all.take(i as int)),
    {
        assert(rule_texts(all.take(i + 1)) =~= rule_texts(all.take(i as int)).push(
            rule_text(all[i as int]),
        ));
        let host = quoted(amendments[i].host.as_str());
        let text = match amendments[i].action {
            NetworkPolicyRuleAction::Allow => concat2("Allow ", host.as_str()),
            NetworkPolicyRuleAction::Deny => concat2("Deny ", host.as_str()),
        };
        add_item(&mut texts, text);
    }
    assert(all.take(all.len() as int) =~= all);
    texts
}

pub open spec fn amendment_section(command: Option<Seq<Seq<char>>>) -> Option<Seq<char>> {
    match command {
        Some(command) => Some("Proposed Amendment: "@ + joined(command, "\n"@)),
        None => None,
    }
}

pub open spec fn network_section(context: Option<NetworkApprovalContextView>) -> Option<Seq<char>> {
    match context {
        Some(context) => Some(
            "Network Approval Context: "@ + context.protocol + " "@ + context.host,
        ),
        None => None,
    }
}

/// The permissions that a command asks for, as indented JSON: none where it asks for none, and an
/// error where they cannot be written.
pub open spec fn permissions_text(permissions: Option<JsonView>) -> Result<
    Option<Seq<char>>,
    Seq<char>,
> {
    match permissions {
        Some(permissions) => match pretty_text(permissions) {
            Ok(text) => Ok(Some(text)),
            Err(message) => Err(message),
        },
        None => Ok(None),
    }
}

fn write_permissions(permissions: &Option<Json>) -> (text: Result<Option<String>, String>)
    ensures
        result_view(text) == permissions_text(permissions.deep_view()),
{
    match permissions {
        Some(permissions) => match pretty(permissions) {
            Ok(text) => Ok(Some(text)),
            Err(message) => Err(message),
        },
        None => Ok(None),
    }
}

pub open spec fn permissions_section(text: Option<Seq<char>>) -> Option<Seq<char>> {
    match text {
        Some(text) => Some("Additional Permissions: "@ + text),
        None => None,
    }
}

pub open spec fn rules_section(amendments: Option<Seq<NetworkPolicyAmendmentView>>) -> Option<
    Seq<char>,
> {
    match amendments {
        Some(amendments) => Some(
            "Proposed Network Policy Amendments: "@ + joined(rule_texts(amendments), "\n"@),
        ),
        None => None,
    }
}

/// What is told about a command that waits for approval. `permissions` is what it asks for, as it
/// is written.
pub open spec fn approval_sections(
    request: ExecApprovalRequestView,
    permissions: Option<Seq<char>>,
) -> Seq<Seq<char>> {
    optional_section(request.reason) + optional_section(
        amendment_section(request.proposed_execpolicy_amendment),
    ) + optional_section(network_section(request.network_approval_context)) + optional_section(
        permissions_section(permissions),
    ) + seq![
        "Available Decisions: "@ + joined(
            decision_names(request.available_decisions),
            "\n"@,
        ),
    ] + optional_section(rules_section(request.proposed_network_policy_amendments))
}

fn add_section(sections: &mut Vec<String>, section: Option<String>)
    ensures
        final(sections).deep_view() == old(sections).deep_view() + optional_section(
            section.deep_view(),
        ),
{
    let ghost before = sections.deep_view();
    let ghost view = section.deep_view();
    if let Some(section) = section {
        add_item(sections, section);
    }
    assert(sections.deep_view() =~= before + optional_section(view));
}

fn exec_approval_sections(request: &ExecApprovalRequest, permissions: &Option<String>) -> (sections:
    Vec<String>)
    ensures
        sections.deep_view() == approval_sections(request.deep_view(), permissions.deep_view()),
{
    let mut sections: Vec<String> = empty();
    add_section(&mut sections, copy_option(&request.reason));
    add_section(
        &mut sections,
        match &request.proposed_execpolicy_amendment {
            Some(command) => {
                let text = join(command, "\n");
                Some(concat2("Proposed Amendment: ", text.as_str()))
            },
            None => None,
        },
    );
    add_section(
        &mut sections,
        match &request.network_approval_context {
            Some(context) => Some(
                concat4(
                    "Network Approval Context: ",
                    context.protocol.as_str(),
                    " ",
                    context.host.as_str(),
                ),
            ),
            None => None,
        },
    );
    add_section(
        &mut sections,
        match permissions {
            Some(text) => Some(concat2("Additional Permissions: ", text.as_str())),
            None => None,
        },
    );
    let names = all_decision_texts(&request.available_decisions);
    let decisions = join(&names, "\n");
    let ghost before = sections.deep_view();
    add_item(&mut sections, concat2("Available Decisions: ", decisions.as_str()));
    assert(sections.deep_view() =~= before + seq![
        "Available Decisions: "@ + joined(
            decision_names(request.deep_view().available_decisions),
            "\n"@,
        ),
    ]);
    add_section(
        &mut sections,
        match &request.proposed_network_policy_amendments {
            Some(amendments) => {
                let rules = all_rule_texts(amendments);
                let text = join(&rules, "\n");
                Some(concat2("Proposed Network Policy Amendments: ", text.as_str()))
            },
            None => None,
        },
    );
    assert(sections.deep_view() =~= approval_sections(
        request.deep_view(),
        permissions.deep_view(),
    ));
    sections
}

/// A command that waits for approval is kept as active.
pub open spec fn command_awaited(
    s: PromptStateView,
    request: ExecApprovalRequestView,
) -> PromptStateView {
    let call = command_tool_call(request.parsed_cmd, request.cwd);
    PromptStateView {
        active_commands: s.active_commands.insert(
            request.call_id,
            ActiveCommandView {
                tool_call_id: request.call_id,
                terminal_output: call.terminal_output,
                output: Seq::empty(),
                file_extension: call.file_extension,
            },
        ),
        ..s
    }
}

/// The approval of a command is put to the client. `permissions` is what the command asks for, as
/// it is written.
pub open spec fn approval_put(
    s: PromptStateView,
    request: ExecApprovalRequestView,
    permissions: Option<Seq<char>>,
) -> (PromptStateView, Seq<EffectView>) {
    let call = command_tool_call(request.parsed_cmd, request.cwd);
    let options = exec_options(
        request.available_decisions,
        request.network_approval_context is Some,
        request.additional_permissions is Some,
    );
    permission_requested(
        command_awaited(s, request),
        exec_key(request.call_id),
        PendingPermissionRequestView::Exec {
            approval_id: match request.approval_id {
                Some(id) => id,
                None => request.call_id,
            },
            turn_id: request.turn_id,
            option_map: exec_option_map(options),
        },
        ToolCallUpdateView {
            kind: Some(call.kind),
            title: Some(call.title),
            content: Some(
                seq![
                    ToolCallContentView::Text(
                        joined(approval_sections(request, permissions), "\n"@),
                    ),
                ],
            ),
            locations: if call.locations.len() == 0 {
                None
            } else {
                Some(call.locations)
            },
            raw_input: Some(request.raw),
            ..status_update(request.call_id, Some(ToolCallStatus::Pending))
        },
        offered_options(options),
        None,
    )
}

pub open spec fn unwritable(message: Seq<char>) -> ErrorView {
    ErrorView { kind: ErrorKindView::InvalidParams, data: Some(JsonView::Text(message)) }
}

/// The command is kept as active, and its approval is put to the client. Permissions that cannot
/// be written are an error; the command stays active then.
pub open spec fn approval_with_permissions(
    s: PromptStateView,
    request: ExecApprovalRequestView,
    permissions: Result<Option<Seq<char>>, Seq<char>>,
) -> (PromptStateView, Result<Seq<EffectView>, ErrorView>) {
    match permissions {
        Ok(permissions) => {
            let (after, effects) = approval_put(s, request, permissions);
            (after, Ok(effects))
        },
        Err(message) => (command_awaited(s, request), Err(unwritable(message))),
    }
}

pub open spec fn exec_approval_requested(s: PromptStateView, request: ExecApprovalRequestView) -> (
    PromptStateView,
    Result<Seq<EffectView>, ErrorView>,
) {
    approval_with_permissions(s, request, permissions_text(request.additional_permissions))
}

pub open spec fn patch_options() -> Seq<PermissionOptionView> {
    seq![
        permission_option("approved"@, "Yes"@, PermissionOptionKind::AllowOnce),
        permission_option("abort"@, "No, provide feedback"@, PermissionOptionKind::RejectOnce),
    ]
}

pub open spec fn patch_option_map() -> Map<Seq<char>, ReviewDecisionView> {
    Map::<Seq<char>, ReviewDecisionView>::empty().insert(
        "approved"@,
        ReviewDecisionView::Approved,
    ).insert("abort"@, ReviewDecisionView::Abort)
}

pub open spec fn patch_approval_requested(
    s: PromptStateView,
    call_id: Seq<char>,
    changes: PatchSummaryView,
    reason: Option<Seq<char>>,
    raw: JsonView,
) -> (PromptStateView, Seq<EffectView>) {
    permission_requested(
        s,
        patch_key(call_id),
        PendingPermissionRequestView::Patch { call_id, option_map: patch_option_map() },
        ToolCallUpdateView {
            kind: Some(ToolKind::Edit),
            title: Some(changes.title),
            locations: Some(changes.locations),
            content: Some(
                match reason {
                    Some(reason) => changes.content.push(ToolCallContentView::Text(reason)),
                    None => changes.content,
                },
            ),
            raw_input: Some(raw),
            ..status_update(call_id, Some(ToolCallStatus::Pending))
        },
        patch_options(),
        None,
    )
}

/// The labels of the entries that grant the given access.
pub open spec fn entry_labels(
    entries: Seq<FileSystemEntryView>,
    access: FileSystemAccessMode,
) -> Seq<
    Seq<char>,
>
    decreases entries.len(),
{
    if entries.len() == 0 {
        seq![]
    } else if entries.last().access == access {
        entry_labels(entries.drop_last(), access).push(entries.last().label)
    } else {
        entry_labels(entries.drop_last(), access)
    }
}

pub fn format_file_system_entries(entries: &Vec<FileSystemEntry>, access: FileSystemAccessMode) -> (
text: String)
    ensures
        text@ == joined(entry_labels(entries.deep_view(), access), ", "@),
{
    let mut labels: Vec<String> = empty();
    let ghost all = entries.deep_view();
    for i in 0..entries.len()
        invariant
            all == entries.deep_view(),
            labels.deep_view() == entry_labels(all.take(i as int), access),
    {
        assert(all.take(i + 1).drop_last() =~= all.take(i as int));
        if entries[i].access == access {
            add_item(&mut labels, entries[i].label.clone());
        }
    }
    assert(all.take(all.len() as int) =~= all);
    join(&labels, ", ")
}

/// The line about one kind of access, unless there is nothing to tell.
pub open spec fn access_section(
    file_system: Option<Seq<FileSystemEntryView>>,
    access: FileSystemAccessMode,
    heading: Seq<char>,
) -> Option<Seq<char>> {
    match file_system {
        Some(entries) => {
            let labels = joined(entry_labels(entries, access), ", "@);
            if labels.len() > 0 {
                Some(heading + labels)
            } else {
                None
            }
        },
        None => None,
    }
}

pub open spec fn network_access_section(enabled: Option<bool>) -> Option<Seq<char>> {
    match enabled {
        Some(enabled) => Some(
            if enabled {
                "Network Access: true"@
            } else {
                "Network Access: false"@
            },
        ),
        None => None,
    }
}

pub open spec fn permission_sections(
    reason: Option<Seq<char>>,
    permissions: PermissionProfileRequestView,
) -> Seq<Seq<char>> {
    optional_section(reason) + optional_section(
        access_section(
            permissions.file_system,
            FileSystemAccessMode::Read,
            "File System Read Access: "@,
        ),
    ) + optional_section(
        access_section(
            permissions.file_system,
            FileSystemAccessMode::Write,
            "File System Write Access: "@,
        ),
    ) + optional_section(
        access_section(
            permissions.file_system,
            FileSystemAccessMode::Deny,
            "File System Denied Access: "@,
        ),
    ) + optional_section(network_access_section(permissions.network_enabled))
}

fn access_text(
    file_system: &Option<Vec<FileSystemEntry>>,
    access: FileSystemAccessMode,
    heading: &str,
) -> (section: Option<String>)
    ensures
        section.deep_view() == access_section(file_system.deep_view(), access, heading@),
{
    match file_system {
        Some(entries) => {
            let labels = format_file_system_entries(entries, access);
            if labels.as_str().is_empty() {
                None
            } else {
                Some(concat2(heading, labels.as_str()))
            }
        },
        None => None,
    }
}

pub open spec fn permissions_options() -> Seq<PermissionOptionView> {
    seq![
        permission_option(
            "approved-for-session"@,
            "Yes, for session"@,
            PermissionOptionKind::AllowAlways,
        ),
        permission_option("approved"@, "Yes"@, PermissionOptionKind::AllowOnce),
        permission_option("abort"@, "No"@, PermissionOptionKind::RejectOnce),
    ]
}

pub open spec fn permissions_requested(
    s: PromptStateView,
    call_id: Seq<char>,
    reason: Option<Seq<char>>,
    permissions: PermissionProfileRequestView,
    raw: JsonView,
) -> (PromptStateView, Seq<EffectView>) {
    let sections = permission_sections(reason, permissions);
    permission_requested(
        s,
        permissions_key(call_id),
        PendingPermissionRequestView::RequestPermissions {
            call_id,
            permissions: permissions.profile,
        },
        ToolCallUpdateView {
            title: Some(
                match reason {
                    Some(reason) => reason,
                    None => "Permissions Request"@,
                },
            ),
            content: if sections.len() == 0 {
                None
            } else {
                Some(seq![ToolCallContentView::Text(joined(sections, "\n"@))])
            },
            raw_input: Some(raw),
            ..status_update(call_id, Some(ToolCallStatus::Pending))
        },
        permissions_options(),
        None,
    )
}

/// The turn that the answers belong to: the one that asks, else the submission.
pub open spec fn answer_turn(s: PromptStateView, turn_id: Seq<char>) -> Seq<char> {
    if trimmed(turn_id).len() == 0 {
        s.submission_id
    } else {
        turn_id
    }
}

pub open spec fn raw_questions(questions: Seq<QuestionView>) -> Seq<JsonView> {
    questions.map_values(|question: QuestionView| question.raw)
}

/// Questions are put to the client; a request without any is answered at once with nothing.
pub open spec fn user_input_requested(s: PromptStateView, request: UserInputRequestView) -> (
    PromptStateView,
    Seq<EffectView>,
) {
    let id = answer_turn(s, request.turn_id);
    let option_map = questions_option_map(request.questions);
    if option_map == Map::<Seq<char>, ResolvedUserInputAnswerView>::empty() {
        (s, seq![EffectView::Submit(OpView::UserInputAnswer { id, answers: Map::empty() })])
    } else {
        let content = questions_content(request.questions);
        permission_requested(
            s,
            user_input_key(id, request.call_id),
            PendingPermissionRequestView::UserInput { id, option_map },
            ToolCallUpdateView {
                kind: Some(ToolKind::Think),
                title: Some(questions_title(request.questions)),
                content: if content.len() == 0 {
                    None
                } else {
                    Some(seq![ToolCallContentView::Text(content)])
                },
                raw_input: Some(request.raw),
                ..status_update(request.call_id, Some(ToolCallStatus::Pending))
            },
            questions_options(request.questions),
            Some(questions_meta(raw_questions(request.questions))),
        )
    }
}

fn take_raw_questions(questions: Vec<Question>) -> (raw: Vec<Json>)
    ensures
        raw.deep_view() == raw_questions(questions.deep_view()),
{
    let mut questions = questions;
    let mut raw: Vec<Json> = empty();
    let ghost all = questions.deep_view();
    let n: usize = questions.len();
    let mut done: usize = 0;
    assert(all.skip(0) =~= all);
    while done < n
        invariant
            n == all.len(),
            done <= n,
            questions.deep_view() == all.skip(done as int),
            questions@.len() == n - done,
            raw.deep_view() == raw_questions(all.take(done as int)),
        decreases n - done,
    {
        let ghost rest = questions.deep_view();
        let question = questions.remove(0);
        proof {
            assert(questions.deep_view() =~= rest.drop_first());
            assert(all.skip(done as int).drop_first() =~= all.skip(done + 1));
            assert(question.deep_view() == rest[0]);
            assert(raw_questions(all.take(done + 1)) =~= raw_questions(all.take(done as int)).push(
                all[done as int].raw,
            ));
        }
        add_item(&mut raw, question.raw);
        done += 1;
    }
    assert(all.take(n as int) =~= all);
    raw
}

/// An elicitation is put to the client where it asks for the approval of a tool call; any other
/// is declined.
pub open spec fn elicitation_requested(
    s: PromptStateView,
    server_name: Seq<char>,
    id: RequestIdView,
    request: ElicitationRequestView,
    raw: JsonView,
) -> (PromptStateView, Seq<EffectView>) {
    match supported_elicitation(server_name, id, request, raw) {
        Some(supported) => permission_requested(
            s,
            supported.request_key,
            PendingPermissionRequestView::McpElicitation {
                server_name,
                request_id: id,
                option_map: supported.option_map,
            },
            supported.tool_call,
            supported.options,
            None,
        ),
        None => (
            s,
            seq![
                EffectView::Submit(
                    OpView::ResolveElicitation {
                        server_name,
                        request_id: id,
                        decision: ElicitationAction::Decline,
                        content: None,
                        meta: None,
                    },
                ),
            ],
        ),
    }
}

/// A guardian review is shown as a tool call when it is first seen, and updated from then on
/// until it ends.
pub open spec fn guardian_assessed(s: PromptStateView, event: GuardianAssessmentView) -> (
    PromptStateView,
    Seq<EffectView>,
) {
    let shown = s.active_guardian_assessments.contains_key(event.id);
    let assessments = if event.status == GuardianAssessmentStatus::InProgress {
        if shown {
            s.active_guardian_assessments
        } else {
            s.active_guardian_assessments.insert(event.id, event.tool_call_id)
        }
    } else {
        s.active_guardian_assessments.remove(event.id)
    };
    (
        PromptStateView { active_guardian_assessments: assessments, ..s },
        if shown {
            notify(
                plain(
                    SessionUpdateView::ToolCallUpdate(
                        ToolCallUpdateView {
                            content: Some(event.content),
                            raw_output: Some(event.raw),
                            ..status_update(event.tool_call_id, Some(event.tool_status))
                        },
                    ),
                ),
            )
        } else {
            notify(
                plain(
                    SessionUpdateView::ToolCall(
                        ToolCallView {
                            content: event.content,
                            raw_input: Some(event.raw),
                            ..new_call(
                                event.tool_call_id,
                                "Guardian Review"@,
                                ToolKind::Think,
                                event.tool_status,
                            )
                        },
                    ),
                ),
            )
        },
    )
}

/// What is told of a review: its findings, else its explanation.
pub open spec fn review_text(output: ReviewOutputView) -> Seq<char> {
    if output.finding_count != 0 {
        output.findings_block
    } else if trimmed(output.overall_explanation).len() == 0 {
        "Review failed to output a response"@
    } else {
        trimmed(output.overall_explanation)
    }
}

pub open spec fn review_ended(output: Option<ReviewOutputView>) -> Seq<EffectView> {
    match output {
        Some(output) => notify(plain(SessionUpdateView::AgentText(review_text(output)))),
        None => seq![],
    }
}

pub fn review_mode_exit(output: Option<ReviewOutput>) -> (effects: Vec<Effect>)
    ensures
        effects.deep_view() == review_ended(output.deep_view()),
{
    match output {
        Some(output) => {
            let text = if output.finding_count != 0 {
                output.findings_block
            } else {
                let explanation = trim(output.overall_explanation.as_str());
                if explanation.is_empty() {
                    "Review failed to output a response".to_owned()
                } else {
                    explanation.to_owned()
                }
            };
            one(Effect::Notify(agent_text(text)))
        },
        None => empty(),
    }
}

impl PromptState {
    pub fn exec_approval(&mut self, request: ExecApprovalRequest) -> (effects: Result<
        Vec<Effect>,
        Error,
    >)
        ensures
            (final(self).deep_view(), result_view(effects)) == exec_approval_requested(
                old(self).deep_view(),
                request.deep_view(),
            ),
    {
        let permissions = write_permissions(&request.additional_permissions);
        self.put_exec_approval(request, permissions)
    }

    /// Puts the approval of a command to the client. `permissions` is what the command asks for, as
    /// it is written, or why it cannot be written.
    pub fn put_exec_approval(
        &mut self,
        request: ExecApprovalRequest,
        permissions: Result<Option<String>, String>,
    ) -> (effects: Result<Vec<Effect>, Error>)
        ensures
            (final(self).deep_view(), result_view(effects)) == approval_with_permissions(
                old(self).deep_view(),
                request.deep_view(),
                result_view(permissions),
            ),
    {
        let options = build_exec_permission_options(
            &request.available_decisions,
            request.network_approval_context.as_ref(),
            request.additional_permissions.as_ref(),
        );
        let content = match permissions {
            Ok(permissions) => Ok(join(&exec_approval_sections(&request, &permissions), "\n")),
            Err(message) => Err(message),
        };
        let call = parse_command_tool_call(request.parsed_cmd, request.cwd.as_str());
        self.active_commands.insert(
            request.call_id.clone(),
            ActiveCommand {
                tool_call_id: request.call_id.clone(),
                terminal_output: call.terminal_output,
                output: String::new(),
                file_extension: call.file_extension,
            },
        );
        let content = match content {
            Ok(content) => content,
            Err(message) => {
                return Err(
                    Error { kind: ErrorKind::InvalidParams, data: Some(Json::Text(message)) },
                );
            },
        };
        let mut update = new_status_update(
            request.call_id.clone(),
            Some(ToolCallStatus::Pending),
        );
        update.kind = Some(call.kind);
        update.title = Some(call.title);
        update.content = Some(one(ToolCallContent::Text(content)));
        if call.locations.len() > 0 {
            update.locations = Some(call.locations);
        }
        update.raw_input = Some(request.raw);
        let option_map = exec_decisions(&options);
        let key = exec_request_key(request.call_id.as_str());
        let approval_id = match request.approval_id {
            Some(id) => id,
            None => request.call_id,
        };
        Ok(
            self.spawn_permission_request(
                key,
                PendingPermissionRequest::Exec {
                    approval_id,
                    turn_id: request.turn_id,
                    option_map,
                },
                update,
                exec_offer(options),
                None,
            ),
        )
    }

    pub fn patch_approval(
        &mut self,
        call_id: String,
        changes: PatchSummary,
        reason: Option<String>,
        raw: Json,
    ) -> (effects: Vec<Effect>)
        ensures
            (final(self).deep_view(), effects.deep_view()) == patch_approval_requested(
                old(self).deep_view(),
                call_id@,
                changes.deep_view(),
                reason.deep_view(),
                raw.deep_view(),
            ),
    {
        let mut content = changes.content;
        if let Some(reason) = reason {
            add_item(&mut content, ToolCallContent::Text(reason));
        }
        let mut update = new_status_update(call_id.clone(), Some(ToolCallStatus::Pending));
        update.kind = Some(ToolKind::Edit);
        update.title = Some(changes.title);
        update.locations = Some(changes.locations);
        update.content = Some(content);
        update.raw_input = Some(raw);
        let mut option_map: StringMap<ReviewDecision> = StringMap::new();
        option_map.insert("approved".to_owned(), ReviewDecision::Approved);
        option_map.insert("abort".to_owned(), ReviewDecision::Abort);
        let options = two(
            new_permission_option("approved", "Yes", PermissionOptionKind::AllowOnce),
            new_permission_option(
                "abort",
                "No, provide feedback",
                PermissionOptionKind::RejectOnce,
            ),
        );
        self.spawn_permission_request(
            patch_request_key(call_id.as_str()),
            PendingPermissionRequest::Patch { call_id, option_map },
            update,
            options,
            None,
        )
    }

    pub fn request_permissions(
        &mut self,
        call_id: String,
        reason: Option<String>,
        permissions: PermissionProfileRequest,
        raw: Json,
    ) -> (effects: Vec<Effect>)
        ensures
            (final(self).deep_view(), effects.deep_view()) == permissions_requested(
                old(self).deep_view(),
                call_id@,
                reason.deep_view(),
                permissions.deep_view(),
                raw.deep_view(),
            ),
    {
        let mut sections: Vec<String> = empty();
        add_section(&mut sections, copy_option(&reason));
        add_section(
            &mut sections,
            access_text(
                &permissions.file_system,
                FileSystemAccessMode::Read,
                "File System Read Access: ",
            ),
        );
        add_section(
            &mut sections,
            access_text(
                &permissions.file_system,
                FileSystemAccessMode::Write,
                "File System Write Access: ",
            ),
        );
        add_section(
            &mut sections,
            access_text(
                &permissions.file_system,
                FileSystemAccessMode::Deny,
                "File System Denied Access: ",
            ),
        );
        add_section(
            &mut sections,
            match permissions.network_enabled {
                Some(enabled) => Some(
                    if enabled {
                        "Network Access: true".to_owned()
                    } else {
                        "Network Access: false".to_owned()
                    },
                ),
                None => None,
            },
        );
        assert(sections.deep_view() =~= permission_sections(
            reason.deep_view(),
            permissions.deep_view(),
        ));
        let mut update = new_status_update(call_id.clone(), Some(ToolCallStatus::Pending));
        update.title = Some(
            match reason {
                Some(reason) => reason,
                None => "Permissions Request".to_owned(),
            },
        );
        if sections.len() > 0 {
            update.content = Some(one(ToolCallContent::Text(join(&sections, "\n"))));
        }
        update.raw_input = Some(raw);
        let options = three(
            new_permission_option(
                "approved-for-session",
                "Yes, for session",
                PermissionOptionKind::AllowAlways,
            ),
            new_permission_option("approved", "Yes", PermissionOptionKind::AllowOnce),
            new_permission_option("abort", "No", PermissionOptionKind::RejectOnce),
        );
        self.spawn_permission_request(
            permissions_request_key(call_id.as_str()),
            PendingPermissionRequest::RequestPermissions {
                call_id,
                permissions: permissions.profile,
            },
            update,
            options,
            None,
        )
    }

    pub fn request_user_input(&mut self, request: UserInputRequest) -> (effects: Vec<Effect>)
        ensures
            (final(self).deep_view(), effects.deep_view()) == user_input_requested(
                old(self).deep_view(),
                request.deep_view(),
            ),
    {
        let id = if trim(request.turn_id.as_str()).is_empty() {
            self.submission_id.clone()
        } else {
            request.turn_id
        };
        let (title, content, options, option_map) = build_user_input_permission_request(
            &request.questions,
        );
        if option_map.is_empty() {
            return one(
                Effect::Submit(
                    Op::UserInputAnswer { id, answers: empty_user_input_response() },
                ),
            );
        }
        let mut update = new_status_update(
            request.call_id.clone(),
            Some(ToolCallStatus::Pending),
        );
        update.kind = Some(ToolKind::Think);
        update.title = Some(title);
        if !content.as_str().is_empty() {
            update.content = Some(one(ToolCallContent::Text(content)));
        }
        update.raw_input = Some(request.raw);
        let meta = user_input_permission_meta(take_raw_questions(request.questions));
        self.spawn_permission_request(
            user_input_request_key(id.as_str(), request.call_id.as_str()),
            PendingPermissionRequest::UserInput { id, option_map },
            update,
            options,
            Some(meta),
        )
    }

    pub fn mcp_elicitation(
        &mut self,
        server_name: String,
        id: RequestId,
        request: ElicitationRequest,
        raw: Json,
    ) -> (effects: Vec<Effect>)
        ensures
            (final(self).deep_view(), effects.deep_view()) == elicitation_requested(
                old(self).deep_view(),
                server_name@,
                id.deep_view(),
                request.deep_view(),
                raw.deep_view(),
            ),
    {
        match build_supported_mcp_elicitation_permission_request(
            server_name.as_str(),
            &id,
            &request,
            raw,
        ) {
            Some(supported) => self.spawn_permission_request(
                supported.request_key,
                PendingPermissionRequest::McpElicitation {
                    server_name,
                    request_id: id,
                    option_map: supported.option_map,
                },
                supported.tool_call,
                supported.options,
                None,
            ),
            None => one(
                Effect::Submit(
                    Op::ResolveElicitation {
                        server_name,
                        request_id: id,
                        decision: ElicitationAction::Decline,
                        content: None,
                        meta: None,
                    },
                ),
            ),
        }
    }

    pub fn guardian_assessment(&mut self, event: GuardianAssessment) -> (effects: Vec<Effect>)
        ensures
            (final(self).deep_view(), effects.deep_view()) == guardian_assessed(
                old(self).deep_view(),
                event.deep_view(),
            ),
    {
        let shown = self.active_guardian_assessments.contains_key(event.id.as_str());
        match event.status {
            GuardianAssessmentStatus::InProgress => {
                if !shown {
                    self.active_guardian_assessments.insert(event.id, event.tool_call_id.clone());
                }
            },
            _ => {
                let _ended = self.active_guardian_assessments.remove(event.id.as_str());
            },
        }
        if shown {
            let mut update = new_status_update(event.tool_call_id, Some(event.tool_status));
            update.content = Some(event.content);
            update.raw_output = Some(event.raw);
            one(Effect::Notify(tool_call_update(update)))
        } else {
            let mut call = new_tool_call(
                event.tool_call_id,
                "Guardian Review".to_owned(),
                ToolKind::Think,
                event.tool_status,
            );
            call.content = event.content;
            call.raw_input = Some(event.raw);
            one(Effect::Notify(tool_call(call)))
        }
    }
}

} // verus!
