//! What is asked of the client, and what its answers lead to.
use crate::approval_events::permissions_text;
use crate::events::{
    ElicitationRequestView, EventMsgView, ExecApprovalRequestView, PatchSummaryView,
    UserInputRequestView,
};
use crate::json::{JsonView, field, text_field};
use crate::permissions::{PermissionOutcomeView, PermissionResponseView};
use crate::permissions::elicitation::{approval_options, approval_options_are_understood};
use crate::permissions::exec_options::{
    exec_option, exec_option_map, exec_option_means_its_decision, exec_options,
    exec_options_are_understood, offered_options,
};
use crate::prompt_events::prompt_step;
use crate::prompt_state::{
    EffectView, PermissionResolutionView, PromptStateView, permission_resolved,
};
use crate::protocol::{
    ElicitationAction, GrantedPermissionsView, NetworkPolicyRuleAction, OpView,
    PermissionGrantScope, PermissionOptionKind, PermissionProfileRequestView,
    PermissionsResponseView, RequestIdView, ReviewDecisionView, ToolCallContentView, ToolCallStatus,
    ToolKind,
};
use crate::text::{decimal_text, trimmed};
use vstd::prelude::*;

verus! {

/// Choosing an option, without anything besides.
pub open spec fn choosing(option_id: Seq<char>) -> PermissionResponseView {
    PermissionResponseView {
        outcome: PermissionOutcomeView::Selected { option_id, meta: None },
        meta: None,
    }
}

/// What an answer to the request that a step ends with resolves to.
pub open spec fn answered(
    step: (PromptStateView, Seq<EffectView>),
    response: PermissionResponseView,
) -> PermissionResolutionView {
    let asked = step.1.last()->RequestPermission_0;
    permission_resolved(step.0, asked.interaction_id, asked.request_key, Ok(response)).1
}

/// The operation that an answer leads to.
pub open spec fn submitted(
    step: (PromptStateView, Seq<EffectView>),
    response: PermissionResponseView,
) -> OpView {
    answered(step, response)->Resolved_op
}

/// A patch is offered to be applied once or not at all. Saying yes applies it; saying no, calling
/// off, or naming anything that was not offered aborts.
pub proof fn patch_is_applied_only_on_approval(
    s: PromptStateView,
    client: Option<Seq<(Seq<char>, JsonView)>>,
    call_id: Seq<char>,
    changes: PatchSummaryView,
    reason: Option<Seq<char>>,
    raw: JsonView,
    response: PermissionResponseView,
)
    ensures
        ({
            let step = prompt_step(
                s,
                client,
                EventMsgView::ApplyPatchApprovalRequest { call_id, changes, reason, raw },
            );
            let asked = step.1.last()->RequestPermission_0;
            &&& step.1.last() is RequestPermission
            &&& answered(step, response) is Resolved
            // every option allows once or rejects once, and means what its kind says
            &&& forall|i: int|
                0 <= i < asked.options.len() ==> {
                    let option = #[trigger] asked.options[i];
                    ||| option.kind == PermissionOptionKind::AllowOnce && submitted(
                        step,
                        choosing(option.option_id),
                    ) == OpView::PatchApproval {
                        id: call_id,
                        decision: ReviewDecisionView::Approved,
                    }
                    ||| option.kind == PermissionOptionKind::RejectOnce && submitted(
                        step,
                        choosing(option.option_id),
                    ) == OpView::PatchApproval { id: call_id, decision: ReviewDecisionView::Abort }
                }
            &&& asked.options.len() == 2
            &&& asked.options[0].option_id == "approved"@ && asked.options[0].name == "Yes"@
                && asked.options[0].kind == PermissionOptionKind::AllowOnce
            &&& asked.options[1].option_id == "abort"@ && asked.options[1].name
                == "No, provide feedback"@ && asked.options[1].kind
                == PermissionOptionKind::RejectOnce
            // whatever the answer carries besides, only the option decides
            &&& submitted(step, response) == OpView::PatchApproval {
                id: call_id,
                decision: match response.outcome {
                    PermissionOutcomeView::Selected { option_id, .. } => if option_id
                        == "approved"@ {
                        ReviewDecisionView::Approved
                    } else {
                        ReviewDecisionView::Abort
                    },
                    PermissionOutcomeView::Cancelled => ReviewDecisionView::Abort,
                },
            }
        }),
{
    reveal_strlit("approved");
    reveal_strlit("abort");
    assert("approved"@.len() == 8 && "abort"@.len() == 5);
}

/// A patch is shown for approval with its own title, files and changes, and the reason behind
/// them.
pub proof fn patch_is_shown_for_approval(
    s: PromptStateView,
    client: Option<Seq<(Seq<char>, JsonView)>>,
    call_id: Seq<char>,
    changes: PatchSummaryView,
    reason: Option<Seq<char>>,
    raw: JsonView,
)
    ensures
        ({
            let asked = prompt_step(
                s,
                client,
                EventMsgView::ApplyPatchApprovalRequest { call_id, changes, reason, raw },
            ).1.last()->RequestPermission_0;
            let shown = asked.tool_call.content->Some_0;
            &&& asked.submission_id == s.submission_id
            &&& asked.tool_call.id == call_id
            &&& asked.tool_call.kind == Some(ToolKind::Edit)
            &&& asked.tool_call.status == Some(ToolCallStatus::Pending)
            &&& asked.tool_call.title == Some(changes.title)
            &&& asked.tool_call.locations == Some(changes.locations)
            &&& asked.tool_call.raw_input == Some(raw)
            &&& asked.tool_call.content is Some
            &&& forall|i: int|
                0 <= i < changes.content.len() ==> #[trigger] shown[i] == changes.content[i]
            &&& reason is None ==> shown.len() == changes.content.len()
            &&& reason matches Some(reason) ==> shown.len() == changes.content.len() + 1
                && shown.last() == ToolCallContentView::Text(reason)
        }),
{
}

/// The kind of option that stands for a decision about a command: what runs it now allows once,
/// what lets it or its like run from now on allows always, and what does not run it rejects.
pub open spec fn kind_of_decision(decision: ReviewDecisionView) -> PermissionOptionKind {
    match decision {
        ReviewDecisionView::Approved => PermissionOptionKind::AllowOnce,
        ReviewDecisionView::ApprovedForSession => PermissionOptionKind::AllowAlways,
        ReviewDecisionView::ApprovedExecpolicyAmendment { .. } => PermissionOptionKind::AllowAlways,
        ReviewDecisionView::NetworkPolicyAmendment { action, .. } => if action
            == NetworkPolicyRuleAction::Allow {
            PermissionOptionKind::AllowAlways
        } else {
            PermissionOptionKind::RejectAlways
        },
        ReviewDecisionView::Denied => PermissionOptionKind::RejectOnce,
        ReviewDecisionView::Abort => PermissionOptionKind::RejectOnce,
        ReviewDecisionView::TimedOut => PermissionOptionKind::RejectOnce,
    }
}

/// The identifier of the option that stands for a decision about a command.
pub open spec fn id_of_decision(decision: ReviewDecisionView) -> Seq<char> {
    match decision {
        ReviewDecisionView::Approved => "approved"@,
        ReviewDecisionView::ApprovedForSession => "approved-for-session"@,
        ReviewDecisionView::ApprovedExecpolicyAmendment { .. } => "approved-execpolicy-amendment"@,
        ReviewDecisionView::NetworkPolicyAmendment { action, .. } => if action
            == NetworkPolicyRuleAction::Allow {
            "network-policy-amendment-allow"@
        } else {
            "network-policy-amendment-deny"@
        },
        ReviewDecisionView::Denied => "denied"@,
        ReviewDecisionView::Abort => "abort"@,
        ReviewDecisionView::TimedOut => "timed_out"@,
    }
}

proof fn lemma_decision_labels()
    ensures
        "Yes, just this once"@.first() == 'Y' && "Yes, just this once"@.len() > 0,
        "Yes, proceed"@.first() == 'Y' && "Yes, proceed"@.len() > 0,
        "Yes, and remember this command pattern"@.first() == 'Y',
        "Yes, and remember this command pattern"@.len() > 0,
        "Yes, and don't ask again for commands that start with `"@.first() == 'Y',
        "Yes, and don't ask again for commands that start with `"@.len() > 0,
        "Yes, and allow this host for this session"@.first() == 'Y',
        "Yes, and allow this host for this session"@.len() > 0,
        "Yes, and allow these permissions for this session"@.first() == 'Y',
        "Yes, and allow these permissions for this session"@.len() > 0,
        "Yes, and don't ask again for this command in this session"@.first() == 'Y',
        "Yes, and don't ask again for this command in this session"@.len() > 0,
        "Yes, and allow this host in the future"@.first() == 'Y',
        "Yes, and allow this host in the future"@.len() > 0,
        "No, and block this host in the future"@.first() == 'N',
        "No, and block this host in the future"@.len() > 0,
        "No, continue without running it"@.first() == 'N',
        "No, continue without running it"@.len() > 0,
        "No, and tell Codex what to do differently"@.first() == 'N',
        "No, and tell Codex what to do differently"@.len() > 0,
        "Time out, tell Codex what to do differently"@.first() == 'T',
        "Time out, tell Codex what to do differently"@.len() > 0,
{
    reveal_strlit("Yes, just this once");
    reveal_strlit("Yes, proceed");
    reveal_strlit("Yes, and remember this command pattern");
    reveal_strlit("Yes, and don't ask again for commands that start with `");
    reveal_strlit("Yes, and allow this host for this session");
    reveal_strlit("Yes, and allow these permissions for this session");
    reveal_strlit("Yes, and don't ask again for this command in this session");
    reveal_strlit("Yes, and allow this host in the future");
    reveal_strlit("No, and block this host in the future");
    reveal_strlit("No, continue without running it");
    reveal_strlit("No, and tell Codex what to do differently");
    reveal_strlit("Time out, tell Codex what to do differently");
}

/// The decisions about a command are offered one for one, in their order: as approvals, which say
/// yes, and as refusals, which do not.
pub proof fn decisions_are_offered_as_what_they_are(
    s: PromptStateView,
    client: Option<Seq<(Seq<char>, JsonView)>>,
    request: ExecApprovalRequestView,
)
    requires
        permissions_text(request.additional_permissions) is Ok,
    ensures
        ({
            let step = prompt_step(s, client, EventMsgView::ExecApprovalRequest(request));
            let asked = step.1.last()->RequestPermission_0;
            &&& step.1.last() is RequestPermission
            &&& asked.options.len() == request.available_decisions.len()
            &&& forall|i: int|
                0 <= i < asked.options.len() ==> {
                    let option = #[trigger] asked.options[i];
                    let decision = request.available_decisions[i];
                    &&& option.kind == kind_of_decision(decision)
                    &&& option.option_id == id_of_decision(decision)
                    &&& option.name.len() > 0
                    &&& option.name.first() == 'Y' <==> option.kind
                        == PermissionOptionKind::AllowOnce || option.kind
                        == PermissionOptionKind::AllowAlways
                }
            &&& asked.tool_call.id == request.call_id
            &&& asked.tool_call.status == Some(ToolCallStatus::Pending)
            &&& asked.tool_call.raw_input == Some(request.raw)
            &&& asked.submission_id == s.submission_id
        }),
{
    lemma_decision_labels();
    let step = prompt_step(s, client, EventMsgView::ExecApprovalRequest(request));
    let asked = step.1.last()->RequestPermission_0;
    assert forall|i: int| 0 <= i < asked.options.len() implies {
        let option = #[trigger] asked.options[i];
        let decision = request.available_decisions[i];
        &&& option.kind == kind_of_decision(decision)
        &&& option.option_id == id_of_decision(decision)
        &&& option.name.len() > 0
        &&& option.name.first() == 'Y' <==> option.kind == PermissionOptionKind::AllowOnce
            || option.kind == PermissionOptionKind::AllowAlways
    } by {
        let decision = request.available_decisions[i];
        match decision {
            ReviewDecisionView::Approved => {},
            ReviewDecisionView::ApprovedForSession => {},
            ReviewDecisionView::ApprovedExecpolicyAmendment { command } => {},
            ReviewDecisionView::NetworkPolicyAmendment { action, .. } => {
                match action {
                    NetworkPolicyRuleAction::Allow => {},
                    NetworkPolicyRuleAction::Deny => {},
                }
            },
            _ => {},
        }
    }
}

/// The answer about a command submits the decision that was chosen, for the approval and the turn
/// that asked. What was not offered, and calling off, aborts.
pub proof fn command_runs_as_decided(
    s: PromptStateView,
    client: Option<Seq<(Seq<char>, JsonView)>>,
    request: ExecApprovalRequestView,
    chosen: int,
    response: PermissionResponseView,
)
    requires
        permissions_text(request.additional_permissions) is Ok,
    ensures
        ({
            let step = prompt_step(s, client, EventMsgView::ExecApprovalRequest(request));
            let decisions = request.available_decisions;
            let approval = |decision: ReviewDecisionView|
                OpView::ExecApproval {
                    id: match request.approval_id {
                        Some(id) => id,
                        None => request.call_id,
                    },
                    turn_id: Some(request.turn_id),
                    decision,
                };
            &&& answered(step, response) is Resolved
            &&& 0 <= chosen < decisions.len() && (forall|i: int|
                0 <= i < decisions.len() && i != chosen ==> id_of_decision(#[trigger] decisions[i])
                    != id_of_decision(decisions[chosen])) ==> submitted(
                step,
                choosing(id_of_decision(decisions[chosen])),
            ) == approval(decisions[chosen])
            &&& response.outcome is Cancelled ==> submitted(step, response) == approval(
                ReviewDecisionView::Abort,
            )
            &&& response.outcome matches PermissionOutcomeView::Selected { option_id, .. } ==> (
            forall|i: int|
                0 <= i < decisions.len() ==> id_of_decision(#[trigger] decisions[i]) != option_id)
                ==> submitted(step, response) == approval(ReviewDecisionView::Abort)
        }),
{
    let step = prompt_step(s, client, EventMsgView::ExecApprovalRequest(request));
    let decisions = request.available_decisions;
    let network = request.network_approval_context is Some;
    let permissions = request.additional_permissions is Some;
    let options = exec_options(decisions, network, permissions);
    assert forall|i: int| 0 <= i < decisions.len() implies (#[trigger] options[i]).option_id
        == id_of_decision(decisions[i]) && exec_option(
        decisions[i],
        network,
        permissions,
    ).option_id == id_of_decision(decisions[i]) by {
        match decisions[i] {
            ReviewDecisionView::NetworkPolicyAmendment { action, .. } => {
                match action {
                    NetworkPolicyRuleAction::Allow => {},
                    NetworkPolicyRuleAction::Deny => {},
                }
            },
            _ => {},
        }
    }
    exec_options_are_understood(options);
    if 0 <= chosen < decisions.len() && (forall|i: int|
        0 <= i < decisions.len() && i != chosen ==> id_of_decision(#[trigger] decisions[i])
            != id_of_decision(decisions[chosen])) {
        assert forall|i: int|
            0 <= i < decisions.len() && exec_option(
                #[trigger] decisions[i],
                network,
                permissions,
            ).option_id == exec_option(
                decisions[chosen],
                network,
                permissions,
            ).option_id implies i == chosen by {
            assert(options[i].option_id == id_of_decision(decisions[i]));
            assert(options[chosen].option_id == id_of_decision(decisions[chosen]));
        }
        exec_option_means_its_decision(decisions, network, permissions, chosen);
        assert(options[chosen].option_id == id_of_decision(decisions[chosen]));
        assert(offered_options(options)[chosen].option_id == id_of_decision(decisions[chosen]));
    }
    if let PermissionOutcomeView::Selected { option_id, .. } = response.outcome {
        if exec_option_map(options).contains_key(option_id) {
            let i = choose|i: int|
                0 <= i < options.len() && (#[trigger] options[i]).option_id == option_id
                    && options[i].decision == exec_option_map(options)[option_id];
            assert(id_of_decision(decisions[i]) == option_id);
        }
    }
}

/// Permissions are granted as they were asked for, for the session or for the turn as was chosen;
/// any other answer grants nothing and asks for strict review from then on.
pub proof fn permissions_are_granted_as_chosen(
    s: PromptStateView,
    client: Option<Seq<(Seq<char>, JsonView)>>,
    call_id: Seq<char>,
    reason: Option<Seq<char>>,
    permissions: PermissionProfileRequestView,
    raw: JsonView,
    response: PermissionResponseView,
)
    ensures
        ({
            let step = prompt_step(
                s,
                client,
                EventMsgView::RequestPermissions { call_id, reason, permissions, raw },
            );
            let asked = step.1.last()->RequestPermission_0;
            let granting = |scope: PermissionGrantScope|
                OpView::RequestPermissionsResponse {
                    id: call_id,
                    response: PermissionsResponseView {
                        permissions: GrantedPermissionsView::Requested(permissions.profile),
                        scope,
                        strict_auto_review: false,
                    },
                };
            let nothing = OpView::RequestPermissionsResponse {
                id: call_id,
                response: PermissionsResponseView {
                    permissions: GrantedPermissionsView::Nothing,
                    scope: PermissionGrantScope::Turn,
                    strict_auto_review: true,
                },
            };
            &&& step.1.last() is RequestPermission
            &&& answered(step, response) is Resolved
            &&& asked.options.len() == 3
            &&& forall|i: int|
                0 <= i < 3 ==> {
                    let option = #[trigger] asked.options[i];
                    submitted(step, choosing(option.option_id)) == match option.kind {
                        PermissionOptionKind::AllowAlways => granting(
                            PermissionGrantScope::Session,
                        ),
                        PermissionOptionKind::AllowOnce => granting(PermissionGrantScope::Turn),
                        _ => nothing,
                    }
                }
            &&& asked.options[0].kind == PermissionOptionKind::AllowAlways
                && asked.options[0].name == "Yes, for session"@
            &&& asked.options[1].kind == PermissionOptionKind::AllowOnce && asked.options[1].name
                == "Yes"@
            &&& asked.options[2].kind == PermissionOptionKind::RejectOnce && asked.options[2].name
                == "No"@
            &&& response.outcome is Cancelled ==> submitted(step, response) == nothing
            &&& response.outcome matches PermissionOutcomeView::Selected { option_id, .. } ==> (
            forall|i: int| 0 <= i < 2 ==> (#[trigger] asked.options[i]).option_id != option_id)
                ==> submitted(step, response) == nothing
            &&& asked.tool_call.id == call_id
            &&& asked.tool_call.status == Some(ToolCallStatus::Pending)
            &&& asked.tool_call.raw_input == Some(raw)
            &&& asked.tool_call.title == match reason {
                Some(reason) => Some(reason),
                None => Some("Permissions Request"@),
            }
        }),
{
    reveal_strlit("approved-for-session");
    reveal_strlit("approved");
    reveal_strlit("abort");
    assert("approved-for-session"@.len() == 20 && "approved"@.len() == 8 && "abort"@.len() == 5);
    let step = prompt_step(
        s,
        client,
        EventMsgView::RequestPermissions { call_id, reason, permissions, raw },
    );
    let asked = step.1.last()->RequestPermission_0;
    assert(asked.options[0].option_id == "approved-for-session"@);
    assert(asked.options[1].option_id == "approved"@);
    assert(asked.options[2].option_id == "abort"@);
}

/// Whether the metadata of an elicitation lets an approval be kept in the named way.
pub open spec fn keeps(meta: Seq<(Seq<char>, JsonView)>, way: Seq<char>) -> bool {
    match field(meta, "persist"@) {
        Some(JsonView::Text(text)) => text == way,
        Some(JsonView::Array(items)) => exists|i: int|
            0 <= i < items.len() && #[trigger] items[i] == JsonView::Text(way),
        _ => false,
    }
}

/// An approval that is asked for by a tool call is answered as was chosen: accepted for this once,
/// kept for the session, kept for good, or cancelled. The ways of keeping it are offered exactly
/// where they are allowed, and never mean the same.
pub proof fn elicitation_is_resolved_as_chosen(
    s: PromptStateView,
    client: Option<Seq<(Seq<char>, JsonView)>>,
    server_name: Seq<char>,
    id: RequestIdView,
    meta: Seq<(Seq<char>, JsonView)>,
    message: Seq<char>,
    raw: JsonView,
    response: PermissionResponseView,
)
    requires
        text_field(meta, "codex_approval_kind"@) == Some("mcp_tool_call"@),
    ensures
        ({
            let step = prompt_step(
                s,
                client,
                EventMsgView::ElicitationRequest {
                    server_name,
                    id,
                    request: ElicitationRequestView::Form {
                        meta: Some(JsonView::Object(meta)),
                        message,
                    },
                    raw,
                },
            );
            let asked = step.1.last()->RequestPermission_0;
            let resolving = |decision: ElicitationAction, kept: Option<Seq<char>>|
                OpView::ResolveElicitation {
                    server_name,
                    request_id: id,
                    decision,
                    content: None,
                    meta: match kept {
                        Some(way) => Some(
                            JsonView::Object(seq![("persist"@, JsonView::Text(way))]),
                        ),
                        None => None,
                    },
                };
            let offered = |option_id: Seq<char>|
                exists|i: int|
                    0 <= i < asked.options.len() && (#[trigger] asked.options[i]).option_id
                        == option_id;
            &&& step.1.last() is RequestPermission
            &&& answered(step, response) is Resolved
            &&& offered("approved"@) && offered("cancel"@)
            &&& offered("approved-for-session"@) <==> keeps(meta, "session"@)
            &&& offered("approved-always"@) <==> keeps(meta, "always"@)
            &&& forall|i: int|
                0 <= i < asked.options.len() ==> {
                    let option = #[trigger] asked.options[i];
                    ||| option.option_id == "approved"@ && option.kind
                        == PermissionOptionKind::AllowOnce
                    ||| option.option_id == "approved-for-session"@ && option.kind
                        == PermissionOptionKind::AllowAlways
                    ||| option.option_id == "approved-always"@ && option.kind
                        == PermissionOptionKind::AllowAlways
                    ||| option.option_id == "cancel"@ && option.kind
                        == PermissionOptionKind::RejectOnce
                }
            &&& submitted(step, response) == match response.outcome {
                PermissionOutcomeView::Selected { option_id, .. } => if option_id == "approved"@ {
                    resolving(ElicitationAction::Accept, None)
                } else if option_id == "approved-for-session"@ && keeps(meta, "session"@) {
                    resolving(ElicitationAction::Accept, Some("session"@))
                } else if option_id == "approved-always"@ && keeps(meta, "always"@) {
                    resolving(ElicitationAction::Accept, Some("always"@))
                } else {
                    resolving(ElicitationAction::Cancel, None)
                },
                PermissionOutcomeView::Cancelled => resolving(ElicitationAction::Cancel, None),
            }
            &&& resolving(ElicitationAction::Accept, Some("session"@)) != resolving(
                ElicitationAction::Accept,
                Some("always"@),
            )
        }),
{
    reveal_strlit("approved");
    reveal_strlit("approved-for-session");
    reveal_strlit("approved-always");
    reveal_strlit("cancel");
    reveal_strlit("session");
    reveal_strlit("always");
    assert("approved"@.len() == 8 && "approved-for-session"@.len() == 20);
    assert("approved-always"@.len() == 15 && "cancel"@.len() == 6);
    assert("session"@.len() == 7 && "always"@.len() == 6);
    let first = seq![("persist"@, JsonView::Text("session"@))];
    let second = seq![("persist"@, JsonView::Text("always"@))];
    assert(first[0].1 != second[0].1);
    let step = prompt_step(
        s,
        client,
        EventMsgView::ElicitationRequest {
            server_name,
            id,
            request: ElicitationRequestView::Form { meta: Some(JsonView::Object(meta)), message },
            raw,
        },
    );
    let asked = step.1.last()->RequestPermission_0;
    let session = keeps(meta, "session"@);
    let always = keeps(meta, "always"@);
    assert(asked.options == approval_options(session, always));
    approval_options_are_understood(session, always, "approved"@);
    approval_options_are_understood(session, always, "cancel"@);
    approval_options_are_understood(session, always, "approved-for-session"@);
    approval_options_are_understood(session, always, "approved-always"@);
}

/// An elicitation that asks for anything but the approval of a tool call is declined at once.
pub proof fn other_elicitations_are_declined(
    s: PromptStateView,
    client: Option<Seq<(Seq<char>, JsonView)>>,
    server_name: Seq<char>,
    id: RequestIdView,
    request: ElicitationRequestView,
    raw: JsonView,
)
    requires
        !(request matches ElicitationRequestView::Form { meta: Some(JsonView::Object(meta)), .. }
            && text_field(meta, "codex_approval_kind"@) == Some("mcp_tool_call"@)),
    ensures
        ({
            let (after, effects) = prompt_step(
                s,
                client,
                EventMsgView::ElicitationRequest { server_name, id, request, raw },
            );
            &&& after == s
            &&& effects.len() == 1
            &&& effects[0] == EffectView::Submit(
                OpView::ResolveElicitation {
                    server_name,
                    request_id: id,
                    decision: ElicitationAction::Decline,
                    content: None,
                    meta: None,
                },
            )
        }),
{
}

/// Guidance goes on as a prompt of its own where the answer turns a command or a patch down for
/// good, and nowhere else. It is what the answer says, without the white space around it.
pub proof fn guidance_follows_a_refusal(
    step: (PromptStateView, Seq<EffectView>),
    response: PermissionResponseView,
    guidance: Seq<char>,
)
    requires
        answered(step, response) is Resolved,
        response.meta matches Some(meta) && text_field(meta, "kodex.ai/permissionGuidance"@)
            == Some(guidance),
        trimmed(guidance).len() > 0,
    ensures
        answered(step, response)->Resolved_followup == match submitted(step, response) {
            OpView::ExecApproval { decision, .. } => if decision == ReviewDecisionView::Abort
                || decision == ReviewDecisionView::TimedOut {
                Some(trimmed(guidance))
            } else {
                None
            },
            OpView::PatchApproval { decision, .. } => if decision == ReviewDecisionView::Abort
                || decision == ReviewDecisionView::TimedOut {
                Some(trimmed(guidance))
            } else {
                None
            },
            _ => None,
        },
{
}

/// The guidance of the chosen option counts where the answer itself gives none, and without any
/// guidance nothing follows.
pub proof fn guidance_of_the_option_counts_second(
    step: (PromptStateView, Seq<EffectView>),
    option_id: Seq<char>,
    meta: Seq<(Seq<char>, JsonView)>,
)
    ensures
        answered(
            step,
            PermissionResponseView {
                outcome: PermissionOutcomeView::Selected { option_id, meta: Some(meta) },
                meta: None,
            },
        ) == answered(
            step,
            PermissionResponseView {
                outcome: PermissionOutcomeView::Selected { option_id, meta: None },
                meta: Some(meta),
            },
        ),
        answered(step, choosing(option_id)) matches PermissionResolutionView::Resolved {
            followup,
            ..
        } ==> followup is None,
{
}

/// Whatever is asked of the client waits under a key of its own that names what it is about, with a
/// number that the next request does not have; nothing else in the turn changes.
pub proof fn requests_wait_under_their_keys(
    s: PromptStateView,
    client: Option<Seq<(Seq<char>, JsonView)>>,
    call_id: Seq<char>,
    changes: PatchSummaryView,
    reason: Option<Seq<char>>,
    permissions: PermissionProfileRequestView,
    raw: JsonView,
    request: ExecApprovalRequestView,
)
    requires
        permissions_text(request.additional_permissions) is Ok,
    ensures
        ({
            let patch = prompt_step(
                s,
                client,
                EventMsgView::ApplyPatchApprovalRequest { call_id, changes, reason, raw },
            );
            let asked = patch.1.last()->RequestPermission_0;
            let wanted = prompt_step(
                s,
                client,
                EventMsgView::RequestPermissions { call_id, reason, permissions, raw },
            );
            let command = prompt_step(s, client, EventMsgView::ExecApprovalRequest(request));
            let next: int = if s.next_permission_interaction_id == u64::MAX {
                0
            } else {
                s.next_permission_interaction_id + 1
            };
            &&& asked.request_key == "patch:"@ + call_id
            &&& asked.interaction_id == s.next_permission_interaction_id
            &&& patch.0.next_permission_interaction_id == next
            &&& patch.0.pending_permission_interactions.contains_key(asked.request_key)
            &&& patch.0.pending_permission_interactions.remove(asked.request_key)
                == s.pending_permission_interactions.remove(asked.request_key)
            &&& patch.0.active_commands == s.active_commands
            &&& asked.meta is None
            &&& wanted.1.last()->RequestPermission_0.request_key == "permissions:"@ + call_id
            &&& wanted.0.next_permission_interaction_id == next
            &&& wanted.1.last()->RequestPermission_0.interaction_id
                == s.next_permission_interaction_id
            &&& command.1.last()->RequestPermission_0.request_key == "exec:"@ + request.call_id
            &&& command.0.next_permission_interaction_id == next
            &&& command.1.last()->RequestPermission_0.interaction_id
                == s.next_permission_interaction_id
        }),
{
    let patch = prompt_step(
        s,
        client,
        EventMsgView::ApplyPatchApprovalRequest { call_id, changes, reason, raw },
    );
    let key = "patch:"@ + call_id;
    assert(patch.0.pending_permission_interactions.remove(key)
        =~= s.pending_permission_interactions.remove(key));
}

/// A question to the user waits under the turn and the call that ask, and an elicitation under the
/// server and the request.
pub proof fn questions_wait_under_their_keys(
    s: PromptStateView,
    client: Option<Seq<(Seq<char>, JsonView)>>,
    request: UserInputRequestView,
    server_name: Seq<char>,
    text: Seq<char>,
    number: i64,
    message: Seq<char>,
    meta: Seq<(Seq<char>, JsonView)>,
    raw: JsonView,
)
    requires
        text_field(meta, "codex_approval_kind"@) == Some("mcp_tool_call"@),
    ensures
        ({
            let question = prompt_step(s, client, EventMsgView::RequestUserInput(request));
            let elicited = |id: RequestIdView|
                prompt_step(
                    s,
                    client,
                    EventMsgView::ElicitationRequest {
                        server_name,
                        id,
                        request: ElicitationRequestView::Form {
                            meta: Some(JsonView::Object(meta)),
                            message,
                        },
                        raw,
                    },
                ).1.last()->RequestPermission_0.request_key;
            &&& question.1.last() is RequestPermission
                ==> question.1.last()->RequestPermission_0.request_key == "user-input:"@ + (
            if trimmed(request.turn_id).len() == 0 {
                s.submission_id
            } else {
                request.turn_id
            }) + ":"@ + request.call_id
            &&& elicited(RequestIdView::Text(text)) == "mcp-elicitation:"@ + server_name + ":"@
                + text
            &&& elicited(RequestIdView::Integer(number)) == "mcp-elicitation:"@ + server_name
                + ":"@ + decimal_text(number as int)
        }),
{
}

} // verus!
