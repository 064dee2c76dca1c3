//! The options of a command approval.
use crate::collections::{StringMap, add_item, empty};
use crate::events::NetworkApprovalContext;
use crate::json::Json;
use crate::permissions::{ExecPermissionOption, ExecPermissionOptionView};
use crate::protocol::{
    NetworkPolicyRuleAction, PermissionOption, PermissionOptionKind, PermissionOptionView,
    ReviewDecision, ReviewDecisionView,
};
use crate::text::{concat3, contains_char, copy_texts, join, joined};
use vstd::prelude::*;

verus! {

impl ReviewDecision {
    /// A copy of the decision.
    pub fn duplicate(&self) -> (copy: ReviewDecision)
        ensures
            copy.deep_view() == self.deep_view(),
    {
        match self {
            ReviewDecision::Approved => ReviewDecision::Approved,
            ReviewDecision::ApprovedExecpolicyAmendment { command } => {
                ReviewDecision::ApprovedExecpolicyAmendment { command: copy_texts(command) }
            },
            ReviewDecision::ApprovedForSession => ReviewDecision::ApprovedForSession,
            ReviewDecision::NetworkPolicyAmendment { host, action } => {
                ReviewDecision::NetworkPolicyAmendment { host: host.clone(), action: *action }
            },
            ReviewDecision::Denied => ReviewDecision::Denied,
            ReviewDecision::Abort => ReviewDecision::Abort,
            ReviewDecision::TimedOut => ReviewDecision::TimedOut,
        }
    }
}

pub open spec fn permission_option(
    id: Seq<char>,
    name: Seq<char>,
    kind: PermissionOptionKind,
) -> PermissionOptionView {
    PermissionOptionView { option_id: id, name, kind }
}

pub fn new_permission_option(id: &str, name: &str, kind: PermissionOptionKind) -> (option:
    PermissionOption)
    ensures
        option.deep_view() == permission_option(id@, name@, kind),
{
    PermissionOption { option_id: id.to_owned(), name: name.to_owned(), kind }
}

/// What is offered for remembering a command: the command itself, where it fits on a line.
pub open spec fn amendment_label(command: Seq<Seq<char>>) -> Seq<char> {
    let prefix = joined(command, " "@);
    if prefix.contains('\n') || prefix.contains('\r') || prefix.len() == 0 {
        "Yes, and remember this command pattern"@
    } else {
        "Yes, and don't ask again for commands that start with `"@ + prefix + "`"@
    }
}

/// The option that stands for a decision: its identifier, its label and what it allows.
pub open spec fn exec_option(
    decision: ReviewDecisionView,
    network: bool,
    permissions: bool,
) -> ExecPermissionOptionView {
    let option = match decision {
        ReviewDecisionView::Approved => permission_option(
            "approved"@,
            if network {
                "Yes, just this once"@
            } else {
                "Yes, proceed"@
            },
            PermissionOptionKind::AllowOnce,
        ),
        ReviewDecisionView::ApprovedExecpolicyAmendment { command } => permission_option(
            "approved-execpolicy-amendment"@,
            amendment_label(command),
            PermissionOptionKind::AllowAlways,
        ),
        ReviewDecisionView::ApprovedForSession => permission_option(
            "approved-for-session"@,
            if network {
                "Yes, and allow this host for this session"@
            } else if permissions {
                "Yes, and allow these permissions for this session"@
            } else {
                "Yes, and don't ask again for this command in this session"@
            },
            PermissionOptionKind::AllowAlways,
        ),
        ReviewDecisionView::NetworkPolicyAmendment { action: NetworkPolicyRuleAction::Allow, .. } =>
            permission_option(
                "network-policy-amendment-allow"@,
                "Yes, and allow this host in the future"@,
                PermissionOptionKind::AllowAlways,
            ),
        ReviewDecisionView::NetworkPolicyAmendment { action: NetworkPolicyRuleAction::Deny, .. } =>
            permission_option(
                "network-policy-amendment-deny"@,
                "No, and block this host in the future"@,
                PermissionOptionKind::RejectAlways,
            ),
        ReviewDecisionView::Denied => permission_option(
            "denied"@,
            "No, continue without running it"@,
            PermissionOptionKind::RejectOnce,
        ),
        ReviewDecisionView::Abort => permission_option(
            "abort"@,
            "No, and tell Codex what to do differently"@,
            PermissionOptionKind::RejectOnce,
        ),
        ReviewDecisionView::TimedOut => permission_option(
            "timed_out"@,
            "Time out, tell Codex what to do differently"@,
            PermissionOptionKind::RejectOnce,
        ),
    };
    ExecPermissionOptionView { option_id: option.option_id, permission_option: option, decision }
}

/// One option for each decision, in their order.
pub open spec fn exec_options(
    decisions: Seq<ReviewDecisionView>,
    network: bool,
    permissions: bool,
) -> Seq<ExecPermissionOptionView> {
    decisions.map_values(|d: ReviewDecisionView| exec_option(d, network, permissions))
}

fn exec_permission_option(decision: &ReviewDecision, network: bool, permissions: bool) -> (option:
    ExecPermissionOption)
    ensures
        option.deep_view() == exec_option(decision.deep_view(), network, permissions),
{
    let permission_option = match decision {
        ReviewDecision::Approved => new_permission_option(
            "approved",
            if network {
                "Yes, just this once"
            } else {
                "Yes, proceed"
            },
            PermissionOptionKind::AllowOnce,
        ),
        ReviewDecision::ApprovedExecpolicyAmendment { command } => {
            let command_prefix = join(command, " ");
            let label = if contains_char(command_prefix.as_str(), '\n') || contains_char(
                command_prefix.as_str(),
                '\r',
            ) || command_prefix.as_str().is_empty() {
                "Yes, and remember this command pattern".to_owned()
            } else {
                concat3(
                    "Yes, and don't ask again for commands that start with `",
                    command_prefix.as_str(),
                    "`",
                )
            };
            new_permission_option(
                "approved-execpolicy-amendment",
                label.as_str(),
                PermissionOptionKind::AllowAlways,
            )
        },
        ReviewDecision::ApprovedForSession => new_permission_option(
            "approved-for-session",
            if network {
                "Yes, and allow this host for this session"
            } else if permissions {
                "Yes, and allow these permissions for this session"
            } else {
                "Yes, and don't ask again for this command in this session"
            },
            PermissionOptionKind::AllowAlways,
        ),
        ReviewDecision::NetworkPolicyAmendment { action, .. } => match action {
            NetworkPolicyRuleAction::Allow => new_permission_option(
                "network-policy-amendment-allow",
                "Yes, and allow this host in the future",
                PermissionOptionKind::AllowAlways,
            ),
            NetworkPolicyRuleAction::Deny => new_permission_option(
                "network-policy-amendment-deny",
                "No, and block this host in the future",
                PermissionOptionKind::RejectAlways,
            ),
        },
        ReviewDecision::Denied => new_permission_option(
            "denied",
            "No, continue without running it",
            PermissionOptionKind::RejectOnce,
        ),
        ReviewDecision::Abort => new_permission_option(
            "abort",
            "No, and tell Codex what to do differently",
            PermissionOptionKind::RejectOnce,
        ),
        ReviewDecision::TimedOut => new_permission_option(
            "timed_out",
            "Time out, tell Codex what to do differently",
            PermissionOptionKind::RejectOnce,
        ),
    };
    ExecPermissionOption {
        option_id: permission_option.option_id.clone(),
        permission_option,
        decision: decision.duplicate(),
    }
}

pub fn build_exec_permission_options(
    available_decisions: &Vec<ReviewDecision>,
    network_approval_context: Option<&NetworkApprovalContext>,
    additional_permissions: Option<&Json>,
) -> (options: Vec<ExecPermissionOption>)
    ensures
        options.deep_view() == exec_options(
            available_decisions.deep_view(),
            network_approval_context is Some,
            additional_permissions is Some,
        ),
{
    let network = network_approval_context.is_some();
    let permissions = additional_permissions.is_some();
    let mut options: Vec<ExecPermissionOption> = empty();
    let ghost decisions = available_decisions.deep_view();
    for i in 0..available_decisions.len()
        invariant
            decisions == available_decisions.deep_view(),
            options.deep_view() == exec_options(decisions.take(i as int), network, permissions),
    {
        assert(exec_options(decisions.take(i + 1), network, permissions) =~= exec_options(
            decisions.take(i as int),
            network,
            permissions,
        ).push(exec_option(decisions[i as int], network, permissions)));
        add_item(
            &mut options,
            exec_permission_option(&available_decisions[i], network, permissions),
        );
    }
    assert(decisions.take(decisions.len() as int) =~= decisions);
    options
}

/// What each option of a command approval means: where an identifier occurs twice, the later
/// option counts.
pub open spec fn exec_option_map(options: Seq<ExecPermissionOptionView>) -> Map<
    Seq<char>,
    ReviewDecisionView,
>
    decreases options.len(),
{
    if options.len() == 0 {
        Map::empty()
    } else {
        exec_option_map(options.drop_last()).insert(
            options.last().option_id,
            options.last().decision,
        )
    }
}

pub fn exec_decisions(options: &Vec<ExecPermissionOption>) -> (option_map: StringMap<
    ReviewDecision,
>)
    ensures
        option_map.deep_view() == exec_option_map(options.deep_view()),
{
    let mut option_map: StringMap<ReviewDecision> = StringMap::new();
    let ghost all = options.deep_view();
    for i in 0..options.len()
        invariant
            all == options.deep_view(),
            option_map.deep_view() == exec_option_map(all.take(i as int)),
    {
        assert(all.take(i + 1).drop_last() =~= all.take(i as int));
        option_map.insert(options[i].option_id.clone(), options[i].decision.duplicate());
    }
    assert(all.take(all.len() as int) =~= all);
    option_map
}

/// What the client is offered for a command approval.
pub open spec fn offered_options(options: Seq<ExecPermissionOptionView>) -> Seq<
    PermissionOptionView,
> {
    options.map_values(|option: ExecPermissionOptionView| option.permission_option)
}

pub fn exec_offer(options: Vec<ExecPermissionOption>) -> (offer: Vec<PermissionOption>)
    ensures
        offer.deep_view() == offered_options(options.deep_view()),
{
    let mut offer: Vec<PermissionOption> = empty();
    let ghost all = options.deep_view();
    for i in 0..options.len()
        invariant
            all == options.deep_view(),
            offer.deep_view() == offered_options(all.take(i as int)),
    {
        assert(offered_options(all.take(i + 1)) =~= offered_options(all.take(i as int)).push(
            all[i as int].permission_option,
        ));
        let option = &options[i].permission_option;
        add_item(
            &mut offer,
            new_permission_option(option.option_id.as_str(), option.name.as_str(), option.kind),
        );
    }
    assert(all.take(all.len() as int) =~= all);
    offer
}

/// What is offered for a command is exactly what is understood: every option that is offered has
/// a decision, and every decision has an option.
pub proof fn exec_options_are_understood(options: Seq<ExecPermissionOptionView>)
    ensures
        forall|i: int|
            0 <= i < options.len() ==> exec_option_map(options).contains_key(
                (#[trigger] options[i]).option_id,
            ),
        forall|id: Seq<char>| #[trigger]
            exec_option_map(options).contains_key(id) ==> exists|i: int|
                0 <= i < options.len() && (#[trigger] options[i]).option_id == id
                    && options[i].decision == exec_option_map(options)[id],
    decreases options.len(),
{
    if options.len() > 0 {
        let init = options.drop_last();
        exec_options_are_understood(init);
        assert forall|i: int| 0 <= i < options.len() implies exec_option_map(options).contains_key(
            (#[trigger] options[i]).option_id,
        ) by {
            if i < init.len() {
                assert(init[i] == options[i]);
            }
        }
        assert forall|id: Seq<char>| #[trigger]
            exec_option_map(options).contains_key(id) implies exists|i: int|
            0 <= i < options.len() && (#[trigger] options[i]).option_id == id && options[i].decision
                == exec_option_map(options)[id] by {
            if id == options.last().option_id {
                assert(options[options.len() - 1].option_id == id);
            } else {
                assert(exec_option_map(init).contains_key(id));
                let i = choose|i: int|
                    0 <= i < init.len() && (#[trigger] init[i]).option_id == id && init[i].decision
                        == exec_option_map(init)[id];
                assert(options[i] == init[i]);
            }
        }
    }
}

/// Each option that is offered for a command stands for its own decision, where no two of them
/// share an identifier.
pub proof fn exec_option_means_its_decision(
    decisions: Seq<ReviewDecisionView>,
    network: bool,
    permissions: bool,
    chosen: int,
)
    requires
        0 <= chosen < decisions.len(),
        forall|i: int|
            0 <= i < decisions.len() && exec_option(
                #[trigger] decisions[i],
                network,
                permissions,
            ).option_id == exec_option(decisions[chosen], network, permissions).option_id ==> i
                == chosen,
    ensures
        ({
            let options = exec_options(decisions, network, permissions);
            let id = offered_options(options)[chosen].option_id;
            exec_option_map(options).contains_key(id) && exec_option_map(options)[id]
                == decisions[chosen]
        }),
{
    let options = exec_options(decisions, network, permissions);
    exec_options_are_understood(options);
    let id = options[chosen].option_id;
    assert(offered_options(options)[chosen] == options[chosen].permission_option);
    assert(exec_option_map(options).contains_key(id));
    let i = choose|i: int|
        0 <= i < options.len() && (#[trigger] options[i]).option_id == id && options[i].decision
            == exec_option_map(options)[id];
    assert(options[i] == exec_option(decisions[i], network, permissions));
    assert(options[chosen] == exec_option(decisions[chosen], network, permissions));
}

} // verus!
