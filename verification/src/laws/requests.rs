//! What the client is shown when something is asked of it, and how questions are answered.
use crate::approval_events::{
    access_section, amendment_section, approval_sections, decision_names, entry_labels,
    network_access_section, network_section, permission_sections, permissions_section,
    raw_questions, rule_texts, rules_section,
};
use crate::events::{
    ElicitationRequestView, EventMsgView, ExecApprovalRequestView, NetworkPolicyAmendmentView,
    QuestionView, UserInputRequestView,
};
use crate::json::{JsonView, compact_text, field, pretty_text, text_field};
use crate::laws::approvals::{answered, choosing, submitted};
use crate::permissions::{
    PermissionOutcomeView, PermissionResponseView, ResolvedUserInputAnswerView,
};
use crate::permissions::answers::{answer_texts, answers_by_question};
use crate::permissions::commands::command_tool_call;
use crate::permissions::elicitation::{
    approval_content, approval_params, approval_source, approval_title, filled_field,
    optional_section, param_lines,
};
use crate::permissions::exec_options::exec_option;
use crate::permissions::questions::{
    all_lines, all_offers, answer_option_means_its_answer, choices,
    only_offered_answers_are_understood, question_lines, question_offers, questions_option_map,
    questions_options, takes_free_answer,
};
use crate::prompt_events::prompt_step;
use crate::prompt_state::{EffectView, PromptStateView};
use crate::protocol::{
    ErrorKindView, FileSystemAccessMode, FileSystemEntryView, NetworkPolicyRuleAction, OpView,
    PermissionOptionKind, PermissionProfileRequestView, RequestIdView, ReviewDecisionView,
    ToolCallContentView, ToolCallStatus, ToolKind,
};
use crate::text::{
    debug_text, decimal_digits, decimal_text, joined, shortened, starts_with, trimmed,
    trimmed_is_trimmed,
};
use vstd::prelude::*;

verus! {

/// The texts that are there, in their order.
pub open spec fn those_given(texts: Seq<Option<Seq<char>>>) -> Seq<Seq<char>>
    decreases texts.len(),
{
    if texts.len() == 0 {
        seq![]
    } else if texts[0] is Some {
        seq![texts[0]->Some_0] + those_given(texts.drop_first())
    } else {
        those_given(texts.drop_first())
    }
}

proof fn lemma_given_first(first: Option<Seq<char>>, rest: Seq<Option<Seq<char>>>)
    ensures
        those_given(seq![first] + rest) == optional_section(first)
            + those_given(rest),
{
    let all = seq![first] + rest;
    assert(all.drop_first() =~= rest);
    assert(all[0] == first);
    assert(those_given(all) =~= optional_section(first)
        + those_given(rest));
}

/// The text that a heading introduces, where there is one.
pub open spec fn headed(heading: Seq<char>, text: Option<Seq<char>>) -> Option<Seq<char>> {
    match text {
        Some(text) => Some(heading + text),
        None => None,
    }
}

/// The name of a decision.
pub open spec fn name_of(decision: ReviewDecisionView) -> Seq<char> {
    match decision {
        ReviewDecisionView::Approved => "Approved"@,
        ReviewDecisionView::ApprovedExecpolicyAmendment { .. } => "ApprovedExecpolicyAmendment"@,
        ReviewDecisionView::ApprovedForSession => "ApprovedForSession"@,
        ReviewDecisionView::NetworkPolicyAmendment { .. } => "NetworkPolicyAmendment"@,
        ReviewDecisionView::Denied => "Denied"@,
        ReviewDecisionView::Abort => "Abort"@,
        ReviewDecisionView::TimedOut => "TimedOut"@,
    }
}

/// The names of the decisions, in their order.
pub open spec fn names_of(decisions: Seq<ReviewDecisionView>) -> Seq<Seq<char>> {
    Seq::new(decisions.len(), |i: int| name_of(decisions[i]))
}

/// The rules for the network, in their order: what is done, and for which host.
pub open spec fn rules_told(rules: Seq<NetworkPolicyAmendmentView>) -> Seq<Seq<char>> {
    Seq::new(
        rules.len(),
        |i: int|
            (if rules[i].action == NetworkPolicyRuleAction::Allow {
                "Allow "@
            } else {
                "Deny "@
            }) + debug_text(rules[i].host),
    )
}

/// All that can be told of a command that waits for approval.
pub open spec fn told_for_approval(
    request: ExecApprovalRequestView,
    permissions: Option<Seq<char>>,
) -> Seq<Option<Seq<char>>> {
    seq![
        request.reason,
        match request.proposed_execpolicy_amendment {
            Some(command) => Some("Proposed Amendment: "@ + joined(command, "\n"@)),
            None => None,
        },
        match request.network_approval_context {
            Some(context) => Some(
                "Network Approval Context: "@ + context.protocol + " "@ + context.host,
            ),
            None => None,
        },
        headed("Additional Permissions: "@, permissions),
        Some(
            "Available Decisions: "@ + joined(
                names_of(request.available_decisions),
                "\n"@,
            ),
        ),
        match request.proposed_network_policy_amendments {
            Some(rules) => Some(
                "Proposed Network Policy Amendments: "@ + joined(rules_told(rules), "\n"@),
            ),
            None => None,
        },
    ]
}

/// What is told of a command that waits for approval: the reason, what would be remembered, where
/// it connects to, what it asks for, what can be decided and which rules are proposed; each on its
/// own, in this order, and left out where there is nothing to tell.
pub proof fn command_is_explained_for_approval(
    request: ExecApprovalRequestView,
    permissions: Option<Seq<char>>,
)
    ensures
        approval_sections(request, permissions) == those_given(
            told_for_approval(request, permissions),
        ),
{
    let decisions = request.available_decisions;
    let rules = request.proposed_network_policy_amendments;
    let names = names_of(decisions);
    assert(decision_names(decisions) =~= names);
    let amendment = amendment_section(
        request.proposed_execpolicy_amendment,
    );
    let network = network_section(request.network_approval_context);
    let asked = permissions_section(permissions);
    let available = Some("Available Decisions: "@ + joined(names, "\n"@));
    let proposed = rules_section(rules);
    if rules is Some {
        assert(rule_texts(rules->Some_0) =~= rules_told(rules->Some_0));
    }
    let none: Seq<Option<Seq<char>>> = seq![];
    let sixth = seq![proposed] + none;
    let fifth = seq![available] + sixth;
    let fourth = seq![asked] + fifth;
    let third = seq![network] + fourth;
    let second = seq![amendment] + third;
    let all = seq![request.reason] + second;
    lemma_given_first(proposed, none);
    lemma_given_first(available, sixth);
    lemma_given_first(asked, fifth);
    lemma_given_first(network, fourth);
    lemma_given_first(amendment, third);
    lemma_given_first(request.reason, second);
    assert(all =~= told_for_approval(request, permissions));
    assert(approval_sections(request, permissions) =~= those_given(all));
}

/// A command is put to the client for approval as it is shown when it runs, with what is told of
/// it one to a line, and kept as a command that can run.
pub proof fn command_is_put_for_approval(
    s: PromptStateView,
    client: Option<Seq<(Seq<char>, JsonView)>>,
    request: ExecApprovalRequestView,
)
    ensures
        ({
            let step = prompt_step(s, client, EventMsgView::ExecApprovalRequest(request));
            let asked = step.1.last()->RequestPermission_0;
            let shown = command_tool_call(request.parsed_cmd, request.cwd);
            let written = pretty_text(request.additional_permissions->Some_0);
            let given = if request.additional_permissions is Some {
                Some(written->Ok_0)
            } else {
                None
            };
            let kept = step.0.active_commands[request.call_id];
            &&& request.additional_permissions is None || written is Ok ==> {
                &&& step.1.last() is RequestPermission
                &&& asked.tool_call.title == Some(shown.title)
                &&& asked.tool_call.kind == Some(shown.kind)
                &&& shown.locations.len() == 0 ==> asked.tool_call.locations is None
                &&& shown.locations.len() > 0 ==> asked.tool_call.locations == Some(shown.locations)
                &&& asked.tool_call.content == Some(
                    seq![
                        ToolCallContentView::Text(
                            joined(approval_sections(request, given), "\n"@),
                        ),
                    ],
                )
                &&& asked.meta is None
            }
            &&& step.0.active_commands.contains_key(request.call_id)
            &&& kept.tool_call_id == request.call_id
            &&& kept.output.len() == 0
            &&& kept.terminal_output == shown.terminal_output
            &&& kept.file_extension == shown.file_extension
        }),
{
}

/// Permissions that cannot be written fail the turn as an invalid parameter, with the reason.
pub proof fn unwritable_permissions_fail_the_turn(
    s: PromptStateView,
    client: Option<Seq<(Seq<char>, JsonView)>>,
    request: ExecApprovalRequestView,
    message: Seq<char>,
)
    requires
        s.response_open,
        request.additional_permissions matches Some(permissions) && pretty_text(permissions)
            == Err::<Seq<char>, Seq<char>>(message),
    ensures
        ({
            let (after, effects) = prompt_step(
                s,
                client,
                EventMsgView::ExecApprovalRequest(request),
            );
            let error = effects.last()->Respond_0->Failed_0;
            &&& effects.last() is Respond && effects.last()->Respond_0 is Failed
            &&& error.kind == ErrorKindView::InvalidParams
            &&& error.data == Some(JsonView::Text(message))
            &&& !after.response_open
        }),
{
}

/// The labels that the decisions about a command are offered under.
pub proof fn decisions_are_labelled(
    network: bool,
    permissions: bool,
    command: Seq<Seq<char>>,
    host: Seq<char>,
)
    ensures
        ({
            let label = |decision: ReviewDecisionView|
                exec_option(decision, network, permissions).permission_option.name;
            let prefix = joined(command, " "@);
            &&& label(ReviewDecisionView::Approved) == if network {
                "Yes, just this once"@
            } else {
                "Yes, proceed"@
            }
            &&& label(ReviewDecisionView::ApprovedForSession) == if network {
                "Yes, and allow this host for this session"@
            } else if permissions {
                "Yes, and allow these permissions for this session"@
            } else {
                "Yes, and don't ask again for this command in this session"@
            }
            &&& label(ReviewDecisionView::Denied) == "No, continue without running it"@
            &&& label(ReviewDecisionView::Abort) == "No, and tell Codex what to do differently"@
            &&& label(ReviewDecisionView::TimedOut)
                == "Time out, tell Codex what to do differently"@
            &&& label(
                ReviewDecisionView::NetworkPolicyAmendment {
                    action: NetworkPolicyRuleAction::Allow,
                    host,
                },
            ) == "Yes, and allow this host in the future"@
            &&& label(
                ReviewDecisionView::NetworkPolicyAmendment {
                    action: NetworkPolicyRuleAction::Deny,
                    host,
                },
            ) == "No, and block this host in the future"@
            &&& prefix.len() > 0 && !prefix.contains('\n') && !prefix.contains('\r') ==> label(
                ReviewDecisionView::ApprovedExecpolicyAmendment { command },
            ) == "Yes, and don't ask again for commands that start with `"@ + prefix + "`"@
            &&& prefix.len() == 0 || prefix.contains('\n') || prefix.contains('\r') ==> label(
                ReviewDecisionView::ApprovedExecpolicyAmendment { command },
            ) == "Yes, and remember this command pattern"@
        }),
{
}

/// What is told of permissions that are asked for: the reason, what can be read, what can be
/// written, what is denied and whether there is a network; in this order, and left out where there
/// is nothing to tell.
pub proof fn permissions_are_explained(
    reason: Option<Seq<char>>,
    permissions: PermissionProfileRequestView,
)
    ensures
        permission_sections(reason, permissions) == those_given(
            seq![
                reason,
                access_section(
                    permissions.file_system,
                    FileSystemAccessMode::Read,
                    "File System Read Access: "@,
                ),
                access_section(
                    permissions.file_system,
                    FileSystemAccessMode::Write,
                    "File System Write Access: "@,
                ),
                access_section(
                    permissions.file_system,
                    FileSystemAccessMode::Deny,
                    "File System Denied Access: "@,
                ),
                match permissions.network_enabled {
                    Some(true) => Some("Network Access: true"@),
                    Some(false) => Some("Network Access: false"@),
                    None => None,
                },
            ],
        ),
{
    let read = access_section(
        permissions.file_system,
        FileSystemAccessMode::Read,
        "File System Read Access: "@,
    );
    let write = access_section(
        permissions.file_system,
        FileSystemAccessMode::Write,
        "File System Write Access: "@,
    );
    let deny = access_section(
        permissions.file_system,
        FileSystemAccessMode::Deny,
        "File System Denied Access: "@,
    );
    let network = network_access_section(permissions.network_enabled);
    let none: Seq<Option<Seq<char>>> = seq![];
    let fifth = seq![network] + none;
    let fourth = seq![deny] + fifth;
    let third = seq![write] + fourth;
    let second = seq![read] + third;
    let all = seq![reason] + second;
    lemma_given_first(network, none);
    lemma_given_first(deny, fifth);
    lemma_given_first(write, fourth);
    lemma_given_first(read, third);
    lemma_given_first(reason, second);
    assert(all =~= seq![reason, read, write, deny, network]);
    assert(permission_sections(reason, permissions) =~= those_given(all));
}

/// The entries of a file system are told by the access that they grant: each under its own, in
/// their order.
pub proof fn entries_are_told_by_their_access(
    entries: Seq<FileSystemEntryView>,
    entry: FileSystemEntryView,
    access: FileSystemAccessMode,
    heading: Seq<char>,
)
    ensures
        ({
            let before = entry_labels(entries, access);
            let after = entry_labels(entries.push(entry), access);
            let labels = joined(before, ", "@);
            &&& entries.len() == 0 ==> before.len() == 0
            &&& entry.access == access ==> after == before.push(entry.label)
            &&& entry.access != access ==> after == before
            &&& labels.len() > 0 ==> access_section(Some(entries), access, heading) == Some(
                heading + labels,
            )
            &&& labels.len() == 0 ==> access_section(Some(entries), access, heading) is None
            &&& access_section(None, access, heading) is None
        }),
{
    assert(entries.push(entry).drop_last() =~= entries);
}

/// Permissions are put to the client with what is told of them, one to a line, and without a text
/// where there is nothing to tell.
pub proof fn permissions_are_put(
    s: PromptStateView,
    client: Option<Seq<(Seq<char>, JsonView)>>,
    call_id: Seq<char>,
    reason: Option<Seq<char>>,
    permissions: PermissionProfileRequestView,
    raw: JsonView,
)
    ensures
        ({
            let asked = prompt_step(
                s,
                client,
                EventMsgView::RequestPermissions { call_id, reason, permissions, raw },
            ).1.last()->RequestPermission_0;
            let sections = permission_sections(reason, permissions);
            &&& sections.len() == 0 ==> asked.tool_call.content is None
            &&& sections.len() > 0 ==> asked.tool_call.content == Some(
                seq![ToolCallContentView::Text(joined(sections, "\n"@))],
            )
            &&& asked.submission_id == s.submission_id
        }),
{
}

/// The text of a field, where it says something.
pub open spec fn said_in(meta: Seq<(Seq<char>, JsonView)>, name: Seq<char>) -> Option<Seq<char>> {
    match field(meta, name) {
        Some(JsonView::Text(text)) => if trimmed(text).len() > 0 {
            Some(text)
        } else {
            None
        },
        _ => None,
    }
}

/// All that can be told of a tool call that waits for approval.
pub open spec fn told_of_tool_call(
    server_name: Seq<char>,
    message: Seq<char>,
    meta: Seq<(Seq<char>, JsonView)>,
) -> Seq<Option<Seq<char>>> {
    seq![
        Some(trimmed(message)),
        match said_in(meta, "connector_name"@) {
            Some(name) => Some("Source: "@ + name),
            None => Some("Server: "@ + server_name),
        },
        said_in(meta, "connector_description"@),
        said_in(meta, "tool_description"@),
        headed("Arguments:\n"@, approval_params(meta)),
    ]
}

/// What is told of a tool call that waits for approval: the message, where it comes from, what the
/// connector and the tool are, and the arguments; in this order, with a blank line between them.
pub proof fn tool_call_is_explained_for_approval(
    server_name: Seq<char>,
    message: Seq<char>,
    meta: Seq<(Seq<char>, JsonView)>,
)
    ensures
        approval_content(server_name, message, meta) == joined(
            those_given(told_of_tool_call(server_name, message, meta)),
            "\n\n"@,
        ),
        approval_title(meta) == match said_in(meta, "tool_title"@) {
            Some(title) => "Approve "@ + title,
            None => "Approve MCP tool call"@,
        },
{
    let first = Some(trimmed(message));
    let source = match said_in(meta, "connector_name"@) {
        Some(name) => Some("Source: "@ + name),
        None => Some("Server: "@ + server_name),
    };
    let connector = said_in(meta, "connector_description"@);
    let tool = said_in(meta, "tool_description"@);
    let arguments = headed("Arguments:\n"@, approval_params(meta));
    let none: Seq<Option<Seq<char>>> = seq![];
    let fifth = seq![arguments] + none;
    let fourth = seq![tool] + fifth;
    let third = seq![connector] + fourth;
    let second = seq![source] + third;
    let all = seq![first] + second;
    lemma_given_first(arguments, none);
    lemma_given_first(tool, fifth);
    lemma_given_first(connector, fourth);
    lemma_given_first(source, third);
    lemma_given_first(first, second);
    assert(all =~= told_of_tool_call(server_name, message, meta));
    let sections = seq![
        trimmed(message),
        approval_source(server_name, meta),
    ] + optional_section(connector)
        + optional_section(tool)
        + optional_section(arguments);
    assert(connector == filled_field(
        meta,
        "connector_description"@,
    ));
    assert(tool == filled_field(meta, "tool_description"@));
    assert(sections =~= those_given(all));
}

/// The arguments of a tool call are told by name and value, one to a line, where they can be
/// displayed so; else they are told as they are written.
pub proof fn arguments_are_displayed(
    meta: Seq<(Seq<char>, JsonView)>,
    params: Seq<JsonView>,
    param: JsonView,
    name: Seq<char>,
    value: JsonView,
)
    requires
        param matches JsonView::Object(fields) && field(fields, "value"@) == Some(value) && (
        text_field(fields, "display_name"@) == Some(name) || text_field(fields, "display_name"@)
            is None && text_field(fields, "name"@) == Some(name)),
    ensures
        ({
            let before = param_lines(params);
            let after = param_lines(params.push(param));
            let text = match value {
                JsonView::Text(text) => text,
                _ => compact_text(value),
            };
            &&& params.len() == 0 ==> before.len() == 0
            &&& after == before.push("- "@ + name + ": "@ + text)
            &&& field(meta, "tool_params_display"@) == Some(JsonView::Array(params.push(param)))
                ==> approval_params(meta) == Some(joined(after, "\n"@))
            &&& field(meta, "tool_params_display"@) is None && field(meta, "tool_params"@) == Some(
                value,
            ) ==> approval_params(meta) == Some(
                match pretty_text(value) {
                    Ok(written) => written,
                    Err(_) => text,
                },
            )
            &&& field(meta, "tool_params_display"@) is None && field(meta, "tool_params"@) is None
                ==> approval_params(meta) is None
        }),
{
    assert(params.push(param).drop_last() =~= params);
}

/// A tool call that waits for approval is put to the client under the call that the request names,
/// with its title and what is told of it.
pub proof fn tool_call_is_put_for_approval(
    s: PromptStateView,
    client: Option<Seq<(Seq<char>, JsonView)>>,
    server_name: Seq<char>,
    call_id: Seq<char>,
    id: RequestIdView,
    meta: Seq<(Seq<char>, JsonView)>,
    message: Seq<char>,
    raw: JsonView,
)
    requires
        text_field(meta, "codex_approval_kind"@) == Some("mcp_tool_call"@),
    ensures
        ({
            let asked = |id: RequestIdView|
                prompt_step(
                    s,
                    client,
                    EventMsgView::ElicitationRequest {
                        server_name,
                        id,
                        request: ElicitationRequestView::Form {
                            meta: Some(JsonView::Object(meta)),
                            message,
                        },
                        raw,
                    },
                ).1.last()->RequestPermission_0;
            let named = asked(RequestIdView::Text("mcp_tool_call_approval_"@ + call_id));
            let call = asked(id).tool_call;
            &&& named.tool_call.id == call_id
            &&& id matches RequestIdView::Text(text) ==> !starts_with(
                text,
                "mcp_tool_call_approval_"@,
            ) ==> call.id == "mcp-elicitation:"@ + text
            &&& id matches RequestIdView::Integer(number) ==> call.id == "mcp-elicitation:"@
                + decimal_text(number as int)
            &&& call.status == Some(ToolCallStatus::Pending)
            &&& call.title == Some(approval_title(meta))
            &&& call.content == Some(
                seq![ToolCallContentView::Text(approval_content(server_name, message, meta))],
            )
            &&& call.raw_input == Some(raw)
            &&& call.kind is None
            &&& asked(id).submission_id == s.submission_id
        }),
{
    let prefix = "mcp_tool_call_approval_"@;
    assert((prefix + call_id).take(prefix.len() as int) =~= prefix);
    assert((prefix + call_id).skip(prefix.len() as int) =~= call_id);
}

/// The turn that answers to questions belong to.
pub open spec fn asking_turn(s: PromptStateView, request: UserInputRequestView) -> Seq<char> {
    if trimmed(request.turn_id).len() == 0 {
        s.submission_id
    } else {
        request.turn_id
    }
}

proof fn lemma_offer_at(questions: Seq<QuestionView>, several: bool, q: int, k: int) -> (at: int)
    requires
        0 <= q < questions.len(),
        0 <= k < question_offers(questions[q], q as nat, several).len(),
    ensures
        0 <= at < all_offers(questions, several).len(),
        all_offers(questions, several)[at] == question_offers(questions[q], q as nat, several)[k],
    decreases questions.len(),
{
    let before = all_offers(questions.drop_last(), several);
    if q == questions.len() - 1 {
        before.len() + k
    } else {
        lemma_offer_at(questions.drop_last(), several, q, k)
    }
}

/// A fixed choice of a question is offered by its label, and choosing it answers that question
/// with that label, for the turn that asks; whatever the other questions are.
pub proof fn chosen_choice_is_the_answer(
    s: PromptStateView,
    client: Option<Seq<(Seq<char>, JsonView)>>,
    request: UserInputRequestView,
    q: int,
    c: int,
    guidance: Seq<char>,
)
    requires
        0 <= q < request.questions.len(),
        request.questions[q].options matches Some(options) && 0 <= c < options.len(),
    ensures
        ({
            let step = prompt_step(s, client, EventMsgView::RequestUserInput(request));
            let asked = step.1.last()->RequestPermission_0;
            let question = request.questions[q];
            let choice = question.options->Some_0[c];
            let id = "answer:"@ + decimal_digits(q as nat) + ":"@ + decimal_digits(c as nat);
            let answer = OpView::UserInputAnswer {
                id: asking_turn(s, request),
                answers: map![question.id => seq![choice.label]],
            };
            let guided = PermissionResponseView {
                outcome: PermissionOutcomeView::Selected { option_id: id, meta: None },
                meta: Some(seq![("kodex.ai/permissionGuidance"@, JsonView::Text(guidance))]),
            };
            &&& step.1.last() is RequestPermission
            &&& submitted(step, choosing(id)) == answer
            &&& submitted(step, guided) == answer
            &&& exists|i: int|
                0 <= i < asked.options.len() && {
                    let option = #[trigger] asked.options[i];
                    &&& option.option_id == id
                    &&& option.kind == PermissionOptionKind::AllowOnce
                    &&& request.questions.len() == 1 ==> option.name == trimmed(choice.label)
                }
        }),
{
    let questions = request.questions;
    let several = questions.len() > 1;
    let at = lemma_offer_at(questions, several, q, c);
    answer_option_means_its_answer(questions, at);
    let step = prompt_step(s, client, EventMsgView::RequestUserInput(request));
    let asked = step.1.last()->RequestPermission_0;
    let id = "answer:"@ + decimal_digits(q as nat) + ":"@ + decimal_digits(c as nat);
    assert(questions_option_map(questions).contains_key(id));
    assert(questions_option_map(questions) != Map::<
        Seq<char>,
        ResolvedUserInputAnswerView,
    >::empty());
    assert(asked.options == questions_options(questions));
    assert(asked.options[at].option_id == id);
    lemma_other_keys(guidance);
}

proof fn lemma_other_keys(guidance: Seq<char>)
    ensures
        field(
            seq![("kodex.ai/permissionGuidance"@, JsonView::Text(guidance))],
            "kodex.ai/userInputAnswers"@,
        ) is None,
        field(
            seq![("kodex.ai/permissionGuidance"@, JsonView::Text(guidance))],
            "kodex.ai/permissionGuidance"@,
        ) == Some(JsonView::Text(guidance)),
{
    reveal_with_fuel(field, 2);
    reveal_strlit("kodex.ai/permissionGuidance");
    reveal_strlit("kodex.ai/userInputAnswers");
    assert("kodex.ai/permissionGuidance"@.len() == 27 && "kodex.ai/userInputAnswers"@.len() == 25);
}

/// A free answer is offered exactly for a question that has no fixed choices or takes others
/// besides; choosing it answers the question with the guidance, or with nothing where there is
/// none.
pub proof fn free_answer_is_the_guidance(
    s: PromptStateView,
    client: Option<Seq<(Seq<char>, JsonView)>>,
    request: UserInputRequestView,
    q: int,
    guidance: Seq<char>,
)
    requires
        0 <= q < request.questions.len(),
        request.questions[q].is_other || (request.questions[q].options matches Some(options)
            ==> options.len() == 0),
        trimmed(guidance).len() > 0,
    ensures
        ({
            let step = prompt_step(s, client, EventMsgView::RequestUserInput(request));
            let question = request.questions[q];
            let id = "answer:"@ + decimal_digits(q as nat) + ":custom"@;
            let answering = |text: Seq<char>|
                OpView::UserInputAnswer {
                    id: asking_turn(s, request),
                    answers: map![question.id => seq![text]],
                };
            let guided = PermissionResponseView {
                outcome: PermissionOutcomeView::Selected { option_id: id, meta: None },
                meta: Some(seq![("kodex.ai/permissionGuidance"@, JsonView::Text(guidance))]),
            };
            &&& step.1.last() is RequestPermission
            &&& submitted(step, guided) == answering(trimmed(guidance))
            &&& submitted(step, choosing(id)) == answering(Seq::empty())
        }),
{
    let questions = request.questions;
    let several = questions.len() > 1;
    let question = questions[q];
    assert(takes_free_answer(question));
    let k = choices(question).len() as int;
    let at = lemma_offer_at(questions, several, q, k);
    answer_option_means_its_answer(questions, at);
    let id = "answer:"@ + decimal_digits(q as nat) + ":custom"@;
    assert(questions_option_map(questions).contains_key(id));
    assert(questions_option_map(questions) != Map::<
        Seq<char>,
        ResolvedUserInputAnswerView,
    >::empty());
    lemma_other_keys(guidance);
    trimmed_is_trimmed(guidance);
}

/// Calling off, and choosing the way out, answers no question; a request without questions is
/// answered with nothing at once.
pub proof fn way_out_answers_nothing(
    s: PromptStateView,
    client: Option<Seq<(Seq<char>, JsonView)>>,
    request: UserInputRequestView,
)
    ensures
        ({
            let step = prompt_step(s, client, EventMsgView::RequestUserInput(request));
            let nothing = OpView::UserInputAnswer {
                id: asking_turn(s, request),
                answers: Map::empty(),
            };
            let called_off = PermissionResponseView {
                outcome: PermissionOutcomeView::Cancelled,
                meta: None,
            };
            let options = step.1.last()->RequestPermission_0.options;
            &&& step.1.len() == 1
            &&& request.questions.len() == 0 ==> step.0 == s && step.1[0] == EffectView::Submit(
                nothing,
            )
            &&& step.1.last() is RequestPermission ==> submitted(step, called_off) == nothing
                && submitted(step, choosing("cancel"@)) == nothing
                && options.last().option_id == "cancel"@ && options.last().kind
                == PermissionOptionKind::RejectOnce && options.last().name == "Cancel"@
        }),
{
    only_offered_answers_are_understood(request.questions, "cancel"@);
    let options = questions_options(request.questions);
    let offers = all_offers(request.questions, request.questions.len() > 1);
    if offers.len() == 0 {
        assert(questions_option_map(request.questions) == Map::<
            Seq<char>,
            ResolvedUserInputAnswerView,
        >::empty());
    }
}

/// Answers that the response spells out count before the option that was chosen: each question is
/// answered with its texts that are not blank, without the white space around them.
pub proof fn spelled_answers_count_first(
    s: PromptStateView,
    client: Option<Seq<(Seq<char>, JsonView)>>,
    request: UserInputRequestView,
    question: Seq<char>,
    items: Seq<JsonView>,
    outcome: PermissionOutcomeView,
)
    requires
        question != "answers"@,
        answer_texts(JsonView::Array(items)).len() > 0,
    ensures
        ({
            let step = prompt_step(s, client, EventMsgView::RequestUserInput(request));
            let fields = seq![(question, JsonView::Array(items))];
            let response = PermissionResponseView {
                outcome,
                meta: Some(seq![("kodex.ai/userInputAnswers"@, JsonView::Object(fields))]),
            };
            let wrapped = PermissionResponseView {
                outcome,
                meta: Some(
                    seq![
                        (
                            "kodex.ai/userInputAnswers"@,
                            JsonView::Object(seq![("answers"@, JsonView::Object(fields))]),
                        ),
                    ],
                ),
            };
            let answer = OpView::UserInputAnswer {
                id: asking_turn(s, request),
                answers: map![question => answer_texts(JsonView::Array(items))],
            };
            step.1.last() is RequestPermission ==> submitted(step, response) == answer && submitted(
                step,
                wrapped,
            ) == answer
        }),
{
    reveal_with_fuel(field, 2);
    reveal_with_fuel(answers_by_question, 2);
    let fields = seq![(question, JsonView::Array(items))];
    assert(fields.drop_last() =~= Seq::empty());
    let answers = map![question => answer_texts(JsonView::Array(items))];
    assert(answers_by_question(fields) =~= answers);
    assert(answers.contains_key(question));
    assert(answers != Map::<Seq<char>, Seq<Seq<char>>>::empty());
}

/// The texts of an answer are those among its items that are not blank, in their order.
pub proof fn answer_texts_keep_their_order(items: Seq<JsonView>, item: JsonView)
    ensures
        ({
            let before = answer_texts(JsonView::Array(items));
            let after = answer_texts(JsonView::Array(items.push(item)));
            &&& items.len() == 0 ==> before.len() == 0
            &&& item matches JsonView::Text(text) ==> after == if trimmed(text).len() > 0 {
                before.push(trimmed(text))
            } else {
                before
            }
            &&& !(item is Text) ==> after == before
            &&& !(item is Array) ==> answer_texts(item).len() == 0
        }),
{
    assert(items.push(item).drop_last() =~= items);
}

/// A question is shown by its number, its header and its words, its choices with what they mean,
/// and whether it takes an answer of its own.
pub proof fn question_is_shown_by_its_choices(question: QuestionView, index: nat, c: int)
    ensures
        ({
            let lines = question_lines(question, index);
            let header = trimmed(question.header);
            let words = trimmed(question.question);
            let label = if header.len() > 0 {
                header
            } else {
                words
            };
            let options = choices(question);
            let free = question.is_other || options.len() == 0;
            let head: int = (if label.len() > 0 {
                1int
            } else {
                0
            }) + (if words.len() > 0 && words != trimmed(label) {
                1int
            } else {
                0
            });
            &&& lines.len() == head + options.len() + 1 + (if free {
                1int
            } else {
                0
            })
            &&& label.len() > 0 ==> lines[0] == "Question "@ + decimal_digits(index + 1) + ": "@
                + label
            &&& words.len() > 0 && words != trimmed(label) ==> lines[head - 1] == words
            &&& 0 <= c < options.len() ==> lines[head + c] == "- "@ + trimmed(options[c].label) + (
            if trimmed(options[c].description).len() == 0 {
                Seq::empty()
            } else {
                ": "@ + trimmed(options[c].description)
            })
            &&& free ==> lines[head + options.len()]
                == "- Custom response: use the supplemental note field."@
            &&& lines.last().len() == 0
            &&& question.options is None ==> options.len() == 0
            &&& question.options matches Some(given) ==> options == given
        }),
{
    let options = choices(question);
    if 0 <= c < options.len() {
        let label = "- "@ + trimmed(options[c].label);
        let meaning = trimmed(options[c].description);
        assert(label + Seq::<char>::empty() =~= label);
        assert(label + (": "@ + meaning) =~= label + ": "@ + meaning);
    }
}

/// Questions are put to the client under the first of them, with all of them as they came.
pub proof fn questions_are_put(
    s: PromptStateView,
    client: Option<Seq<(Seq<char>, JsonView)>>,
    request: UserInputRequestView,
)
    ensures
        ({
            let step = prompt_step(s, client, EventMsgView::RequestUserInput(request));
            let asked = step.1.last()->RequestPermission_0;
            let questions = request.questions;
            let header = trimmed(questions[0].header);
            let words = trimmed(questions[0].question);
            let content = trimmed(
                joined(all_lines(questions), "\n"@),
            );
            step.1.last() is RequestPermission ==> {
                &&& asked.tool_call.id == request.call_id
                &&& asked.tool_call.kind == Some(ToolKind::Think)
                &&& asked.tool_call.status == Some(ToolCallStatus::Pending)
                &&& asked.tool_call.raw_input == Some(request.raw)
                &&& asked.submission_id == s.submission_id
                &&& header.len() > 0 ==> asked.tool_call.title == Some(
                    "Ask user: "@ + shortened(header, 80),
                )
                &&& header.len() == 0 && words.len() > 0 ==> asked.tool_call.title == Some(
                    "Ask user: "@ + shortened(words, 80),
                )
                &&& header.len() == 0 && words.len() == 0 ==> asked.tool_call.title == Some(
                    "Ask user"@,
                )
                &&& content.len() > 0 ==> asked.tool_call.content == Some(
                    seq![ToolCallContentView::Text(content)],
                )
                &&& content.len() == 0 ==> asked.tool_call.content is None
                &&& asked.meta matches Some(meta) && meta.len() == 1 && meta[0].0
                    == "kodex.ai/permissionInput"@ && meta[0].1 == JsonView::Object(
                    seq![
                        (
                            "questions"@,
                            JsonView::Array(
                                Seq::new(questions.len(), |i: int| questions[i].raw),
                            ),
                        ),
                    ],
                )
            }
        }),
{
    let questions = request.questions;
    assert(raw_questions(questions) =~= Seq::new(
        questions.len(),
        |i: int| questions[i].raw,
    ));
    if questions.len() == 0 {
        way_out_answers_nothing(s, client, request);
    }
}

/// Several questions are shown one after the other, each with its own number.
pub proof fn questions_are_shown_in_order(questions: Seq<QuestionView>, question: QuestionView)
    ensures
        ({
            let before = all_lines(questions);
            let after = all_lines(questions.push(question));
            &&& questions.len() == 0 ==> before.len() == 0
            &&& after == before + question_lines(question, questions.len())
        }),
{
    assert(questions.push(question).drop_last() =~= questions);
}

/// Of several questions a choice names the one that it answers.
pub proof fn choice_names_its_question(
    question: QuestionView,
    index: nat,
    c: int,
)
    requires
        question.options matches Some(options) && 0 <= c < options.len(),
    ensures
        ({
            let option = question_offers(question, index, true)[c].0;
            let header = trimmed(question.header);
            let choice = trimmed(question.options->Some_0[c].label);
            &&& header.len() > 0 ==> option.name == shortened(header, 28) + ": "@ + choice
            &&& header.len() == 0 ==> option.name == shortened(trimmed(question.question), 28)
                + ": "@ + choice
        }),
{
}

/// The answers that a response spells out are gathered question by question: one without an answer
/// is left out, and the later answer to a question counts.
pub proof fn answers_are_gathered_by_question(
    fields: Seq<(Seq<char>, JsonView)>,
    question: Seq<char>,
    value: JsonView,
)
    ensures
        ({
            let before = answers_by_question(fields);
            let after = answers_by_question(fields.push((question, value)));
            &&& fields.len() == 0 ==> before == Map::<Seq<char>, Seq<Seq<char>>>::empty()
            &&& answer_texts(value).len() == 0 ==> after == before
            &&& answer_texts(value).len() > 0 ==> after == before.insert(
                question,
                answer_texts(value),
            )
        }),
{
    assert(fields.push((question, value)).drop_last() =~= fields);
}

} // verus!
