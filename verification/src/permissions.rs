//! Permission requests that wait for the client, and the keys that tell them apart.
pub mod commands;
pub mod exec_options;
pub mod answers;
pub mod questions;
pub mod elicitation;

use crate::collections::StringMap;
use crate::json::{Json, JsonView};
use crate::protocol::{
    ElicitationAction, PermissionOption, PermissionOptionView, RequestId, RequestIdView,
    ReviewDecision, ReviewDecisionView, ThreadGoalStatus, ToolCallUpdate, ToolCallUpdateView,
    ToolKind,
};
use crate::text::{
    concat2, concat4, contains_char, decimal_text, lemma_marked_parts, signed_decimal, trim,
    trimmed,
};
use vstd::prelude::*;

verus! {

/// How an elicitation is resolved when its option is chosen.
#[derive(Debug, PartialEq)]
pub struct ResolvedMcpElicitation {
    pub action: ElicitationAction,
    pub content: Option<Json>,
    pub meta: Option<Json>,
}

#[verifier::ext_equal]
pub struct ResolvedMcpElicitationView {
    pub action: ElicitationAction,
    pub content: Option<JsonView>,
    pub meta: Option<JsonView>,
}

impl DeepView for ResolvedMcpElicitation {
    type V = ResolvedMcpElicitationView;

    open spec fn deep_view(&self) -> ResolvedMcpElicitationView {
        ResolvedMcpElicitationView {
            action: self.action.deep_view(),
            content: self.content.deep_view(),
            meta: self.meta.deep_view(),
        }
    }
}

/// How a question is answered when its option is chosen.
#[derive(Debug, PartialEq)]
pub struct ResolvedUserInputAnswer {
    pub question_id: String,
    pub answer: Option<String>,
    pub use_guidance: bool,
}

#[verifier::ext_equal]
pub struct ResolvedUserInputAnswerView {
    pub question_id: Seq<char>,
    pub answer: Option<Seq<char>>,
    pub use_guidance: bool,
}

impl DeepView for ResolvedUserInputAnswer {
    type V = ResolvedUserInputAnswerView;

    open spec fn deep_view(&self) -> ResolvedUserInputAnswerView {
        ResolvedUserInputAnswerView {
            question_id: self.question_id.deep_view(),
            answer: self.answer.deep_view(),
            use_guidance: self.use_guidance.deep_view(),
        }
    }
}

/// What a permission request that waits for the client stands for. An option map tells what
/// each option means.
#[allow(inconsistent_fields)]
#[derive(Debug)]
pub enum PendingPermissionRequest {
    Exec { approval_id: String, turn_id: String, option_map: StringMap<ReviewDecision> },
    Patch { call_id: String, option_map: StringMap<ReviewDecision> },
    RequestPermissions { call_id: String, permissions: Json },
    McpElicitation {
        server_name: String,
        request_id: RequestId,
        option_map: StringMap<ResolvedMcpElicitation>,
    },
    UserInput { id: String, option_map: StringMap<ResolvedUserInputAnswer> },
}

#[allow(inconsistent_fields)]
#[verifier::ext_equal]
pub enum PendingPermissionRequestView {
    Exec {
        approval_id: Seq<char>,
        turn_id: Seq<char>,
        option_map: Map<Seq<char>, ReviewDecisionView>,
    },
    Patch { call_id: Seq<char>, option_map: Map<Seq<char>, ReviewDecisionView> },
    RequestPermissions { call_id: Seq<char>, permissions: JsonView },
    McpElicitation {
        server_name: Seq<char>,
        request_id: RequestIdView,
        option_map: Map<Seq<char>, ResolvedMcpElicitationView>,
    },
    UserInput { id: Seq<char>, option_map: Map<Seq<char>, ResolvedUserInputAnswerView> },
}

impl DeepView for PendingPermissionRequest {
    type V = PendingPermissionRequestView;

    open spec fn deep_view(&self) -> PendingPermissionRequestView {
        match self {
            PendingPermissionRequest::Exec {
                approval_id,
                turn_id,
                option_map,
            } => PendingPermissionRequestView::Exec {
                approval_id: approval_id.deep_view(),
                turn_id: turn_id.deep_view(),
                option_map: option_map.deep_view(),
            },
            PendingPermissionRequest::Patch {
                call_id,
                option_map,
            } => PendingPermissionRequestView::Patch {
                call_id: call_id.deep_view(),
                option_map: option_map.deep_view(),
            },
            PendingPermissionRequest::RequestPermissions {
                call_id,
                permissions,
            } => PendingPermissionRequestView::RequestPermissions {
                call_id: call_id.deep_view(),
                permissions: permissions.deep_view(),
            },
            PendingPermissionRequest::McpElicitation {
                server_name,
                request_id,
                option_map,
            } => PendingPermissionRequestView::McpElicitation {
                server_name: server_name.deep_view(),
                request_id: request_id.deep_view(),
                option_map: option_map.deep_view(),
            },
            PendingPermissionRequest::UserInput {
                id,
                option_map,
            } => PendingPermissionRequestView::UserInput {
                id: id.deep_view(),
                option_map: option_map.deep_view(),
            },
        }
    }
}

/// A permission request that waits for the client, with the number of its interaction.
#[derive(Debug)]
pub struct PendingPermissionInteraction {
    pub id: u64,
    pub request: PendingPermissionRequest,
}

#[verifier::ext_equal]
pub struct PendingPermissionInteractionView {
    pub id: u64,
    pub request: PendingPermissionRequestView,
}

impl DeepView for PendingPermissionInteraction {
    type V = PendingPermissionInteractionView;

    open spec fn deep_view(&self) -> PendingPermissionInteractionView {
        PendingPermissionInteractionView {
            id: self.id.deep_view(),
            request: self.request.deep_view(),
        }
    }
}

/// What the client chose.
#[derive(Debug, PartialEq)]
pub enum PermissionOutcome {
    Selected { option_id: String, meta: Option<Vec<(String, Json)>> },
    Cancelled,
}

#[verifier::ext_equal]
pub enum PermissionOutcomeView {
    Selected { option_id: Seq<char>, meta: Option<Seq<(Seq<char>, JsonView)>> },
    Cancelled,
}

impl DeepView for PermissionOutcome {
    type V = PermissionOutcomeView;

    open spec fn deep_view(&self) -> PermissionOutcomeView {
        match self {
            PermissionOutcome::Selected { option_id, meta } => PermissionOutcomeView::Selected {
                option_id: option_id.deep_view(),
                meta: meta.deep_view(),
            },
            PermissionOutcome::Cancelled => PermissionOutcomeView::Cancelled,
        }
    }
}

/// The client's answer to a permission request.
#[derive(Debug, PartialEq)]
pub struct PermissionResponse {
    pub outcome: PermissionOutcome,
    pub meta: Option<Vec<(String, Json)>>,
}

#[verifier::ext_equal]
pub struct PermissionResponseView {
    pub outcome: PermissionOutcomeView,
    pub meta: Option<Seq<(Seq<char>, JsonView)>>,
}

impl DeepView for PermissionResponse {
    type V = PermissionResponseView;

    open spec fn deep_view(&self) -> PermissionResponseView {
        PermissionResponseView {
            outcome: self.outcome.deep_view(),
            meta: self.meta.deep_view(),
        }
    }
}

/// An elicitation that is put to the client as a permission request.
#[derive(Debug)]
pub struct SupportedMcpElicitationPermissionRequest {
    pub request_key: String,
    pub tool_call: ToolCallUpdate,
    pub options: Vec<PermissionOption>,
    pub option_map: StringMap<ResolvedMcpElicitation>,
}

#[verifier::ext_equal]
pub struct SupportedMcpElicitationPermissionRequestView {
    pub request_key: Seq<char>,
    pub tool_call: ToolCallUpdateView,
    pub options: Seq<PermissionOptionView>,
    pub option_map: Map<Seq<char>, ResolvedMcpElicitationView>,
}

impl DeepView for SupportedMcpElicitationPermissionRequest {
    type V = SupportedMcpElicitationPermissionRequestView;

    open spec fn deep_view(&self) -> SupportedMcpElicitationPermissionRequestView {
        SupportedMcpElicitationPermissionRequestView {
            request_key: self.request_key.deep_view(),
            tool_call: self.tool_call.deep_view(),
            options: self.options.deep_view(),
            option_map: self.option_map.deep_view(),
        }
    }
}

/// An option of a command approval, with the decision that it stands for.
#[derive(Debug, PartialEq)]
pub struct ExecPermissionOption {
    pub option_id: String,
    pub permission_option: PermissionOption,
    pub decision: ReviewDecision,
}

#[verifier::ext_equal]
pub struct ExecPermissionOptionView {
    pub option_id: Seq<char>,
    pub permission_option: PermissionOptionView,
    pub decision: ReviewDecisionView,
}

impl DeepView for ExecPermissionOption {
    type V = ExecPermissionOptionView;

    open spec fn deep_view(&self) -> ExecPermissionOptionView {
        ExecPermissionOptionView {
            option_id: self.option_id.deep_view(),
            permission_option: self.permission_option.deep_view(),
            decision: self.decision.deep_view(),
        }
    }
}

/// How a parsed command is shown.
#[derive(Debug, PartialEq)]
pub struct ParseCommandToolCall {
    pub title: String,
    pub file_extension: Option<String>,
    pub terminal_output: bool,
    pub locations: Vec<String>,
    pub kind: ToolKind,
}

#[verifier::ext_equal]
pub struct ParseCommandToolCallView {
    pub title: Seq<char>,
    pub file_extension: Option<Seq<char>>,
    pub terminal_output: bool,
    pub locations: Seq<Seq<char>>,
    pub kind: ToolKind,
}

impl DeepView for ParseCommandToolCall {
    type V = ParseCommandToolCallView;

    open spec fn deep_view(&self) -> ParseCommandToolCallView {
        ParseCommandToolCallView {
            title: self.title.deep_view(),
            file_extension: self.file_extension.deep_view(),
            terminal_output: self.terminal_output.deep_view(),
            locations: self.locations.deep_view(),
            kind: self.kind.deep_view(),
        }
    }
}

pub open spec fn exec_key(call_id: Seq<char>) -> Seq<char> {
    "exec:"@ + call_id
}

pub fn exec_request_key(call_id: &str) -> (key: String)
    ensures
        key@ == exec_key(call_id@),
{
    concat2("exec:", call_id)
}

pub open spec fn patch_key(call_id: Seq<char>) -> Seq<char> {
    "patch:"@ + call_id
}

pub fn patch_request_key(call_id: &str) -> (key: String)
    ensures
        key@ == patch_key(call_id@),
{
    concat2("patch:", call_id)
}

pub open spec fn permissions_key(call_id: Seq<char>) -> Seq<char> {
    "permissions:"@ + call_id
}

pub fn permissions_request_key(call_id: &str) -> (key: String)
    ensures
        key@ == permissions_key(call_id@),
{
    concat2("permissions:", call_id)
}

/// The text of a request identifier.
pub open spec fn request_id_text(id: RequestIdView) -> Seq<char> {
    match id {
        RequestIdView::Text(value) => value,
        RequestIdView::Integer(value) => decimal_text(value as int),
    }
}

pub fn request_id_string(id: &RequestId) -> (text: String)
    ensures
        text@ == request_id_text(id.deep_view()),
{
    match id {
        RequestId::Text(value) => value.clone(),
        RequestId::Integer(value) => signed_decimal(*value),
    }
}

pub open spec fn elicitation_key(server_name: Seq<char>, id: RequestIdView) -> Seq<char> {
    "mcp-elicitation:"@ + server_name + ":"@ + request_id_text(id)
}

pub fn mcp_elicitation_request_key(server_name: &str, request_id: &RequestId) -> (key: String)
    ensures
        key@ == elicitation_key(server_name@, request_id.deep_view()),
{
    let id = request_id_string(request_id);
    concat4("mcp-elicitation:", server_name, ":", id.as_str())
}

pub open spec fn user_input_key(id: Seq<char>, call_id: Seq<char>) -> Seq<char> {
    "user-input:"@ + id + ":"@ + call_id
}

pub fn user_input_request_key(id: &str, call_id: &str) -> (key: String)
    ensures
        key@ == user_input_key(id@, call_id@),
{
    concat4("user-input:", id, ":", call_id)
}

pub open spec fn goal_status_text(status: ThreadGoalStatus) -> Seq<char> {
    match status {
        ThreadGoalStatus::Active => "active"@,
        ThreadGoalStatus::Paused => "paused"@,
        ThreadGoalStatus::BudgetLimited => "budget limited"@,
        ThreadGoalStatus::Blocked => "blocked"@,
        ThreadGoalStatus::UsageLimited => "usage limited"@,
        ThreadGoalStatus::Complete => "complete"@,
    }
}

/// How a goal update is told to the user: an objective of several lines starts on its own line.
pub open spec fn goal_update_text(objective: Seq<char>, status: ThreadGoalStatus) -> Seq<char> {
    let goal = trimmed(objective);
    if goal.contains('\n') {
        "Goal updated ("@ + goal_status_text(status) + "):\n"@ + goal
    } else {
        "Goal updated ("@ + goal_status_text(status) + "): "@ + goal
    }
}

pub fn format_thread_goal_update(objective: &str, status: ThreadGoalStatus) -> (text: String)
    ensures
        text@ == goal_update_text(objective@, status),
{
    let status_text = match status {
        ThreadGoalStatus::Active => "active",
        ThreadGoalStatus::Paused => "paused",
        ThreadGoalStatus::BudgetLimited => "budget limited",
        ThreadGoalStatus::Blocked => "blocked",
        ThreadGoalStatus::UsageLimited => "usage limited",
        ThreadGoalStatus::Complete => "complete",
    };
    let goal = trim(objective);
    if contains_char(goal, '\n') {
        concat4("Goal updated (", status_text, "):\n", goal)
    } else {
        concat4("Goal updated (", status_text, "): ", goal)
    }
}

proof fn lemma_key_starts()
    ensures
        "exec:"@.len() > 1 && "exec:"@[0] == 'e',
        "patch:"@.len() > 1 && "patch:"@[0] == 'p' && "patch:"@[1] == 'a',
        "permissions:"@.len() > 1 && "permissions:"@[0] == 'p' && "permissions:"@[1] == 'e',
        "mcp-elicitation:"@.len() > 1 && "mcp-elicitation:"@[0] == 'm',
        "user-input:"@.len() > 1 && "user-input:"@[0] == 'u',
{
    reveal_strlit("exec:");
    reveal_strlit("patch:");
    reveal_strlit("permissions:");
    reveal_strlit("mcp-elicitation:");
    reveal_strlit("user-input:");
}

/// Requests of different kinds never share a key.
pub proof fn keys_tell_kinds_apart(
    exec: Seq<char>,
    patch: Seq<char>,
    permissions: Seq<char>,
    server_name: Seq<char>,
    request_id: RequestIdView,
    turn_id: Seq<char>,
    call_id: Seq<char>,
)
    ensures
        exec_key(exec) != patch_key(patch),
        exec_key(exec) != permissions_key(permissions),
        exec_key(exec) != elicitation_key(server_name, request_id),
        exec_key(exec) != user_input_key(turn_id, call_id),
        patch_key(patch) != permissions_key(permissions),
        patch_key(patch) != elicitation_key(server_name, request_id),
        patch_key(patch) != user_input_key(turn_id, call_id),
        permissions_key(permissions) != elicitation_key(server_name, request_id),
        permissions_key(permissions) != user_input_key(turn_id, call_id),
        elicitation_key(server_name, request_id) != user_input_key(turn_id, call_id),
{
    lemma_key_starts();
    assert(exec_key(exec)[0] == 'e');
    assert(patch_key(patch)[0] == 'p' && patch_key(patch)[1] == 'a');
    assert(permissions_key(permissions)[0] == 'p' && permissions_key(permissions)[1] == 'e');
    assert(elicitation_key(server_name, request_id)[0] == 'm');
    assert(user_input_key(turn_id, call_id)[0] == 'u');
}

proof fn lemma_same_prefix(prefix: Seq<char>, a: Seq<char>, b: Seq<char>)
    requires
        prefix + a == prefix + b,
    ensures
        a == b,
{
    assert(a =~= (prefix + a).skip(prefix.len() as int));
    assert(b =~= (prefix + b).skip(prefix.len() as int));
}

/// Approvals of different calls never share a key.
pub proof fn keys_tell_calls_apart(a: Seq<char>, b: Seq<char>)
    requires
        exec_key(a) == exec_key(b) || patch_key(a) == patch_key(b) || permissions_key(a)
            == permissions_key(b),
    ensures
        a == b,
{
    if exec_key(a) == exec_key(b) {
        lemma_same_prefix("exec:"@, a, b);
    } else if patch_key(a) == patch_key(b) {
        lemma_same_prefix("patch:"@, a, b);
    } else {
        lemma_same_prefix("permissions:"@, a, b);
    }
}

/// Questions of different turns or calls never share a key, as long as the turns are named
/// without a colon.
pub proof fn user_input_keys_tell_apart(
    turn: Seq<char>,
    call: Seq<char>,
    other_turn: Seq<char>,
    other_call: Seq<char>,
)
    requires
        !turn.contains(':'),
        !other_turn.contains(':'),
        user_input_key(turn, call) == user_input_key(other_turn, other_call),
    ensures
        turn == other_turn,
        call == other_call,
{
    reveal_strlit(":");
    assert(":"@ =~= seq![':']);
    let a = turn + seq![':'] + call;
    let b = other_turn + seq![':'] + other_call;
    assert(user_input_key(turn, call) =~= "user-input:"@ + a);
    assert(user_input_key(other_turn, other_call) =~= "user-input:"@ + b);
    lemma_same_prefix("user-input:"@, a, b);
    lemma_marked_parts(turn, call, other_turn, other_call, ':');
}

} // verus!
