//! The events of a thread, each type with its view.
use crate::json::{Json, JsonView};
use crate::protocol::{
    GuardianAssessmentStatus, MessagePhase, NetworkPolicyRuleAction, PermissionProfileRequest,
    PermissionProfileRequestView, PlanItem, PlanItemView, RequestId, RequestIdView,
    ReviewDecision, ReviewDecisionView, RunStatus, ThreadGoalStatus, ToolCallContent,
    ToolCallContentView, ToolCallStatus,
};
use vstd::prelude::*;

verus! {

/// The tokens of a request, or of a whole session.
#[derive(Debug, PartialEq)]
pub struct TokenUsage {
    pub input_tokens: i64,
    pub cached_input_tokens: i64,
    pub output_tokens: i64,
    pub reasoning_output_tokens: i64,
    pub total_tokens: i64,
}

#[verifier::ext_equal]
pub struct TokenUsageView {
    pub input_tokens: i64,
    pub cached_input_tokens: i64,
    pub output_tokens: i64,
    pub reasoning_output_tokens: i64,
    pub total_tokens: i64,
}

impl DeepView for TokenUsage {
    type V = TokenUsageView;

    open spec fn deep_view(&self) -> TokenUsageView {
        TokenUsageView {
            input_tokens: self.input_tokens.deep_view(),
            cached_input_tokens: self.cached_input_tokens.deep_view(),
            output_tokens: self.output_tokens.deep_view(),
            reasoning_output_tokens: self.reasoning_output_tokens.deep_view(),
            total_tokens: self.total_tokens.deep_view(),
        }
    }
}

/// The token usage that a turn reports.
#[derive(Debug, PartialEq)]
pub struct TokenInfo {
    pub last: TokenUsage,
    pub total: TokenUsage,
    pub model_context_window: Option<i64>,
}

#[verifier::ext_equal]
pub struct TokenInfoView {
    pub last: TokenUsageView,
    pub total: TokenUsageView,
    pub model_context_window: Option<i64>,
}

impl DeepView for TokenInfo {
    type V = TokenInfoView;

    open spec fn deep_view(&self) -> TokenInfoView {
        TokenInfoView {
            last: self.last.deep_view(),
            total: self.total.deep_view(),
            model_context_window: self.model_context_window.deep_view(),
        }
    }
}

/// A command as the shell parser understands it. Paths are texts in the Unix form.
#[allow(inconsistent_fields)]
#[derive(Debug, PartialEq)]
pub enum ParsedCommand {
    Read { cmd: String, name: String, path: String },
    ListFiles { cmd: String, path: Option<String> },
    Search { cmd: String, query: Option<String>, path: Option<String> },
    Unknown { cmd: String },
}

#[allow(inconsistent_fields)]
#[verifier::ext_equal]
pub enum ParsedCommandView {
    Read { cmd: Seq<char>, name: Seq<char>, path: Seq<char> },
    ListFiles { cmd: Seq<char>, path: Option<Seq<char>> },
    Search { cmd: Seq<char>, query: Option<Seq<char>>, path: Option<Seq<char>> },
    Unknown { cmd: Seq<char> },
}

impl DeepView for ParsedCommand {
    type V = ParsedCommandView;

    open spec fn deep_view(&self) -> ParsedCommandView {
        match self {
            ParsedCommand::Read { cmd, name, path } => ParsedCommandView::Read {
                cmd: cmd.deep_view(),
                name: name.deep_view(),
                path: path.deep_view(),
            },
            ParsedCommand::ListFiles { cmd, path } => ParsedCommandView::ListFiles {
                cmd: cmd.deep_view(),
                path: path.deep_view(),
            },
            ParsedCommand::Search { cmd, query, path } => ParsedCommandView::Search {
                cmd: cmd.deep_view(),
                query: query.deep_view(),
                path: path.deep_view(),
            },
            ParsedCommand::Unknown { cmd } => ParsedCommandView::Unknown {
                cmd: cmd.deep_view(),
            },
        }
    }
}

/// The host that a command wants to reach. `protocol` is the protocol's name.
#[derive(Debug, PartialEq)]
pub struct NetworkApprovalContext {
    pub host: String,
    pub protocol: String,
}

#[verifier::ext_equal]
pub struct NetworkApprovalContextView {
    pub host: Seq<char>,
    pub protocol: Seq<char>,
}

impl DeepView for NetworkApprovalContext {
    type V = NetworkApprovalContextView;

    open spec fn deep_view(&self) -> NetworkApprovalContextView {
        NetworkApprovalContextView {
            host: self.host.deep_view(),
            protocol: self.protocol.deep_view(),
        }
    }
}

/// A proposed rule about a host.
#[derive(Debug, PartialEq)]
pub struct NetworkPolicyAmendment {
    pub host: String,
    pub action: NetworkPolicyRuleAction,
}

#[verifier::ext_equal]
pub struct NetworkPolicyAmendmentView {
    pub host: Seq<char>,
    pub action: NetworkPolicyRuleAction,
}

impl DeepView for NetworkPolicyAmendment {
    type V = NetworkPolicyAmendmentView;

    open spec fn deep_view(&self) -> NetworkPolicyAmendmentView {
        NetworkPolicyAmendmentView {
            host: self.host.deep_view(),
            action: self.action.deep_view(),
        }
    }
}

/// A command waits for approval. `available_decisions` are those that the request allows in
/// effect, and `raw` is the whole event.
#[derive(Debug, PartialEq)]
pub struct ExecApprovalRequest {
    pub call_id: String,
    pub turn_id: String,
    pub approval_id: Option<String>,
    pub cwd: String,
    pub reason: Option<String>,
    pub parsed_cmd: Vec<ParsedCommand>,
    pub proposed_execpolicy_amendment: Option<Vec<String>>,
    pub network_approval_context: Option<NetworkApprovalContext>,
    pub additional_permissions: Option<Json>,
    pub available_decisions: Vec<ReviewDecision>,
    pub proposed_network_policy_amendments: Option<Vec<NetworkPolicyAmendment>>,
    pub raw: Json,
}

#[verifier::ext_equal]
pub struct ExecApprovalRequestView {
    pub call_id: Seq<char>,
    pub turn_id: Seq<char>,
    pub approval_id: Option<Seq<char>>,
    pub cwd: Seq<char>,
    pub reason: Option<Seq<char>>,
    pub parsed_cmd: Seq<ParsedCommandView>,
    pub proposed_execpolicy_amendment: Option<Seq<Seq<char>>>,
    pub network_approval_context: Option<NetworkApprovalContextView>,
    pub additional_permissions: Option<JsonView>,
    pub available_decisions: Seq<ReviewDecisionView>,
    pub proposed_network_policy_amendments: Option<Seq<NetworkPolicyAmendmentView>>,
    pub raw: JsonView,
}

impl DeepView for ExecApprovalRequest {
    type V = ExecApprovalRequestView;

    open spec fn deep_view(&self) -> ExecApprovalRequestView {
        ExecApprovalRequestView {
            call_id: self.call_id.deep_view(),
            turn_id: self.turn_id.deep_view(),
            approval_id: self.approval_id.deep_view(),
            cwd: self.cwd.deep_view(),
            reason: self.reason.deep_view(),
            parsed_cmd: self.parsed_cmd.deep_view(),
            proposed_execpolicy_amendment: self.proposed_execpolicy_amendment.deep_view(),
            network_approval_context: self.network_approval_context.deep_view(),
            additional_permissions: self.additional_permissions.deep_view(),
            available_decisions: self.available_decisions.deep_view(),
            proposed_network_policy_amendments: self.proposed_network_policy_amendments.deep_view(),
            raw: self.raw.deep_view(),
        }
    }
}

/// The files that a patch changes: how many there are, and how they are shown.
#[derive(Debug, PartialEq)]
pub struct PatchSummary {
    pub change_count: usize,
    pub title: String,
    pub locations: Vec<String>,
    pub content: Vec<ToolCallContent>,
}

#[verifier::ext_equal]
pub struct PatchSummaryView {
    pub change_count: usize,
    pub title: Seq<char>,
    pub locations: Seq<Seq<char>>,
    pub content: Seq<ToolCallContentView>,
}

impl DeepView for PatchSummary {
    type V = PatchSummaryView;

    open spec fn deep_view(&self) -> PatchSummaryView {
        PatchSummaryView {
            change_count: self.change_count.deep_view(),
            title: self.title.deep_view(),
            locations: self.locations.deep_view(),
            content: self.content.deep_view(),
        }
    }
}

/// A web search step.
#[derive(Debug, PartialEq)]
pub enum WebSearchAction {
    Search { query: Option<String>, queries: Option<Vec<String>> },
    OpenPage { url: Option<String> },
    FindInPage { pattern: Option<String>, url: Option<String> },
    Other,
}

#[verifier::ext_equal]
pub enum WebSearchActionView {
    Search { query: Option<Seq<char>>, queries: Option<Seq<Seq<char>>> },
    OpenPage { url: Option<Seq<char>> },
    FindInPage { pattern: Option<Seq<char>>, url: Option<Seq<char>> },
    Other,
}

impl DeepView for WebSearchAction {
    type V = WebSearchActionView;

    open spec fn deep_view(&self) -> WebSearchActionView {
        match self {
            WebSearchAction::Search { query, queries } => WebSearchActionView::Search {
                query: query.deep_view(),
                queries: queries.deep_view(),
            },
            WebSearchAction::OpenPage { url } => WebSearchActionView::OpenPage {
                url: url.deep_view(),
            },
            WebSearchAction::FindInPage { pattern, url } => WebSearchActionView::FindInPage {
                pattern: pattern.deep_view(),
                url: url.deep_view(),
            },
            WebSearchAction::Other => WebSearchActionView::Other,
        }
    }
}

/// What a dynamic tool returned.
#[derive(Debug, PartialEq)]
pub enum DynamicToolContent {
    Text(String),
    Image(String),
}

#[verifier::ext_equal]
pub enum DynamicToolContentView {
    Text(Seq<char>),
    Image(Seq<char>),
}

impl DeepView for DynamicToolContent {
    type V = DynamicToolContentView;

    open spec fn deep_view(&self) -> DynamicToolContentView {
        match self {
            DynamicToolContent::Text(value) => DynamicToolContentView::Text(value.deep_view()),
            DynamicToolContent::Image(value) => DynamicToolContentView::Image(value.deep_view()),
        }
    }
}

/// What an MCP tool returned. The items of its content are as the tool wrote them.
#[derive(Debug, PartialEq)]
pub enum McpToolResult {
    Returned { is_error: Option<bool>, content: Vec<Json>, raw: Json },
    Failed { message: String },
}

#[verifier::ext_equal]
pub enum McpToolResultView {
    Returned { is_error: Option<bool>, content: Seq<JsonView>, raw: JsonView },
    Failed { message: Seq<char> },
}

impl DeepView for McpToolResult {
    type V = McpToolResultView;

    open spec fn deep_view(&self) -> McpToolResultView {
        match self {
            McpToolResult::Returned { is_error, content, raw } => McpToolResultView::Returned {
                is_error: is_error.deep_view(),
                content: content.deep_view(),
                raw: raw.deep_view(),
            },
            McpToolResult::Failed { message } => McpToolResultView::Failed {
                message: message.deep_view(),
            },
        }
    }
}

/// The result of a review. `findings_block` is the text of its findings.
#[derive(Debug, PartialEq)]
pub struct ReviewOutput {
    pub finding_count: usize,
    pub findings_block: String,
    pub overall_explanation: String,
}

#[verifier::ext_equal]
pub struct ReviewOutputView {
    pub finding_count: usize,
    pub findings_block: Seq<char>,
    pub overall_explanation: Seq<char>,
}

impl DeepView for ReviewOutput {
    type V = ReviewOutputView;

    open spec fn deep_view(&self) -> ReviewOutputView {
        ReviewOutputView {
            finding_count: self.finding_count.deep_view(),
            findings_block: self.findings_block.deep_view(),
            overall_explanation: self.overall_explanation.deep_view(),
        }
    }
}

/// What an MCP server asks for.
#[derive(Debug, PartialEq)]
pub enum ElicitationRequest {
    Form { meta: Option<Json>, message: String },
    Url,
}

#[verifier::ext_equal]
pub enum ElicitationRequestView {
    Form { meta: Option<JsonView>, message: Seq<char> },
    Url,
}

impl DeepView for ElicitationRequest {
    type V = ElicitationRequestView;

    open spec fn deep_view(&self) -> ElicitationRequestView {
        match self {
            ElicitationRequest::Form { meta, message } => ElicitationRequestView::Form {
                meta: meta.deep_view(),
                message: message.deep_view(),
            },
            ElicitationRequest::Url => ElicitationRequestView::Url,
        }
    }
}

/// A choice of a question.
#[derive(Debug, PartialEq)]
pub struct QuestionOption {
    pub label: String,
    pub description: String,
}

#[verifier::ext_equal]
pub struct QuestionOptionView {
    pub label: Seq<char>,
    pub description: Seq<char>,
}

impl DeepView for QuestionOption {
    type V = QuestionOptionView;

    open spec fn deep_view(&self) -> QuestionOptionView {
        QuestionOptionView {
            label: self.label.deep_view(),
            description: self.description.deep_view(),
        }
    }
}

/// A question to the user. `raw` is the whole question.
#[derive(Debug, PartialEq)]
pub struct Question {
    pub id: String,
    pub header: String,
    pub question: String,
    pub is_other: bool,
    pub options: Option<Vec<QuestionOption>>,
    pub raw: Json,
}

#[verifier::ext_equal]
pub struct QuestionView {
    pub id: Seq<char>,
    pub header: Seq<char>,
    pub question: Seq<char>,
    pub is_other: bool,
    pub options: Option<Seq<QuestionOptionView>>,
    pub raw: JsonView,
}

impl DeepView for Question {
    type V = QuestionView;

    open spec fn deep_view(&self) -> QuestionView {
        QuestionView {
            id: self.id.deep_view(),
            header: self.header.deep_view(),
            question: self.question.deep_view(),
            is_other: self.is_other.deep_view(),
            options: self.options.deep_view(),
            raw: self.raw.deep_view(),
        }
    }
}

/// The agent's questions to the user. `raw` is the whole event.
#[derive(Debug, PartialEq)]
pub struct UserInputRequest {
    pub call_id: String,
    pub turn_id: String,
    pub questions: Vec<Question>,
    pub raw: Json,
}

#[verifier::ext_equal]
pub struct UserInputRequestView {
    pub call_id: Seq<char>,
    pub turn_id: Seq<char>,
    pub questions: Seq<QuestionView>,
    pub raw: JsonView,
}

impl DeepView for UserInputRequest {
    type V = UserInputRequestView;

    open spec fn deep_view(&self) -> UserInputRequestView {
        UserInputRequestView {
            call_id: self.call_id.deep_view(),
            turn_id: self.turn_id.deep_view(),
            questions: self.questions.deep_view(),
            raw: self.raw.deep_view(),
        }
    }
}

/// A guardian review, with what is shown of it. `raw` is the whole event.
#[derive(Debug, PartialEq)]
pub struct GuardianAssessment {
    pub id: String,
    pub tool_call_id: String,
    pub status: GuardianAssessmentStatus,
    pub tool_status: ToolCallStatus,
    pub content: Vec<ToolCallContent>,
    pub raw: Json,
}

#[verifier::ext_equal]
pub struct GuardianAssessmentView {
    pub id: Seq<char>,
    pub tool_call_id: Seq<char>,
    pub status: GuardianAssessmentStatus,
    pub tool_status: ToolCallStatus,
    pub content: Seq<ToolCallContentView>,
    pub raw: JsonView,
}

impl DeepView for GuardianAssessment {
    type V = GuardianAssessmentView;

    open spec fn deep_view(&self) -> GuardianAssessmentView {
        GuardianAssessmentView {
            id: self.id.deep_view(),
            tool_call_id: self.tool_call_id.deep_view(),
            status: self.status.deep_view(),
            tool_status: self.tool_status.deep_view(),
            content: self.content.deep_view(),
            raw: self.raw.deep_view(),
        }
    }
}

/// An event of the thread. A field named `raw` holds the whole event.
#[allow(inconsistent_fields)]
#[derive(Debug, PartialEq)]
pub enum EventMsg {
    TurnStarted,
    TokenCount(Option<TokenInfo>),
    AgentItemStarted { item_id: String, phase: Option<MessagePhase> },
    UserMessage { message: String },
    AgentMessageContentDelta { item_id: String, delta: String },
    ReasoningContentDelta { delta: String },
    ReasoningRawContentDelta { delta: String },
    AgentReasoningSectionBreak,
    AgentMessage { message: String, phase: Option<MessagePhase> },
    AgentReasoning { text: String },
    AgentReasoningRawContent { text: String },
    ThreadGoalUpdated { objective: String, status: ThreadGoalStatus },
    PlanUpdate { plan: Vec<PlanItem> },
    WebSearchBegin { call_id: String },
    WebSearchEnd { call_id: String, query: String, action: WebSearchAction, raw_action: Json },
    ImageGenerationBegin { call_id: String, raw: Json },
    ImageGenerationEnd {
        call_id: String,
        status: ToolCallStatus,
        revised_prompt: Option<String>,
        result: String,
        saved_path: Option<String>,
        raw: Json,
    },
    ExecApprovalRequest(ExecApprovalRequest),
    ExecCommandBegin { call_id: String, cwd: String, parsed_cmd: Vec<ParsedCommand>, raw: Json },
    ExecCommandOutputDelta { call_id: String, chunk: Vec<u8> },
    ExecCommandEnd { call_id: String, exit_code: i32, status: RunStatus, raw: Json },
    TerminalInteraction { call_id: String, stdin: String },
    DynamicToolCallRequest { call_id: String, tool: String, arguments: Json },
    DynamicToolCallResponse {
        call_id: String,
        success: bool,
        content_items: Vec<DynamicToolContent>,
        error: Option<String>,
        raw: Json,
    },
    McpToolCallBegin { call_id: String, server: String, tool: String, raw_invocation: Json },
    McpToolCallEnd { call_id: String, result: McpToolResult },
    ApplyPatchApprovalRequest {
        call_id: String,
        changes: PatchSummary,
        reason: Option<String>,
        raw: Json,
    },
    PatchApplyBegin { call_id: String, changes: PatchSummary, raw: Json },
    PatchApplyUpdated { call_id: String, changes: PatchSummary, raw: Json },
    PatchApplyEnd {
        call_id: String,
        success: bool,
        status: RunStatus,
        changes: PatchSummary,
        raw: Json,
    },
    ItemCompleted,
    TurnComplete { last_agent_message: Option<String> },
    StreamError { message: String },
    Error { message: String, codex_error_info: Json },
    TurnAborted,
    TurnDiff,
    ShutdownComplete,
    ViewImageToolCall { call_id: String, path: String },
    EnteredReviewMode,
    ExitedReviewMode(Option<ReviewOutput>),
    Warning { message: String },
    GuardianWarning { message: String },
    ElicitationRequest {
        server_name: String,
        id: RequestId,
        request: ElicitationRequest,
        raw: Json,
    },
    ContextCompacted,
    RequestPermissions {
        call_id: String,
        reason: Option<String>,
        permissions: PermissionProfileRequest,
        raw: Json,
    },
    RequestUserInput(UserInputRequest),
    GuardianAssessment(GuardianAssessment),
    ThreadRolledBack,
    SessionConfigured { thread_name: Option<String> },
    Other,
}

#[allow(inconsistent_fields)]
#[verifier::ext_equal]
pub enum EventMsgView {
    TurnStarted,
    TokenCount(Option<TokenInfoView>),
    AgentItemStarted { item_id: Seq<char>, phase: Option<MessagePhase> },
    UserMessage { message: Seq<char> },
    AgentMessageContentDelta { item_id: Seq<char>, delta: Seq<char> },
    ReasoningContentDelta { delta: Seq<char> },
    ReasoningRawContentDelta { delta: Seq<char> },
    AgentReasoningSectionBreak,
    AgentMessage { message: Seq<char>, phase: Option<MessagePhase> },
    AgentReasoning { text: Seq<char> },
    AgentReasoningRawContent { text: Seq<char> },
    ThreadGoalUpdated { objective: Seq<char>, status: ThreadGoalStatus },
    PlanUpdate { plan: Seq<PlanItemView> },
    WebSearchBegin { call_id: Seq<char> },
    WebSearchEnd {
        call_id: Seq<char>,
        query: Seq<char>,
        action: WebSearchActionView,
        raw_action: JsonView,
    },
    ImageGenerationBegin { call_id: Seq<char>, raw: JsonView },
    ImageGenerationEnd {
        call_id: Seq<char>,
        status: ToolCallStatus,
        revised_prompt: Option<Seq<char>>,
        result: Seq<char>,
        saved_path: Option<Seq<char>>,
        raw: JsonView,
    },
    ExecApprovalRequest(ExecApprovalRequestView),
    ExecCommandBegin {
        call_id: Seq<char>,
        cwd: Seq<char>,
        parsed_cmd: Seq<ParsedCommandView>,
        raw: JsonView,
    },
    ExecCommandOutputDelta { call_id: Seq<char>, chunk: Seq<u8> },
    ExecCommandEnd { call_id: Seq<char>, exit_code: i32, status: RunStatus, raw: JsonView },
    TerminalInteraction { call_id: Seq<char>, stdin: Seq<char> },
    DynamicToolCallRequest { call_id: Seq<char>, tool: Seq<char>, arguments: JsonView },
    DynamicToolCallResponse {
        call_id: Seq<char>,
        success: bool,
        content_items: Seq<DynamicToolContentView>,
        error: Option<Seq<char>>,
        raw: JsonView,
    },
    McpToolCallBegin {
        call_id: Seq<char>,
        server: Seq<char>,
        tool: Seq<char>,
        raw_invocation: JsonView,
    },
    McpToolCallEnd { call_id: Seq<char>, result: McpToolResultView },
    ApplyPatchApprovalRequest {
        call_id: Seq<char>,
        changes: PatchSummaryView,
        reason: Option<Seq<char>>,
        raw: JsonView,
    },
    PatchApplyBegin { call_id: Seq<char>, changes: PatchSummaryView, raw: JsonView },
    PatchApplyUpdated { call_id: Seq<char>, changes: PatchSummaryView, raw: JsonView },
    PatchApplyEnd {
        call_id: Seq<char>,
        success: bool,
        status: RunStatus,
        changes: PatchSummaryView,
        raw: JsonView,
    },
    ItemCompleted,
    TurnComplete { last_agent_message: Option<Seq<char>> },
    StreamError { message: Seq<char> },
    Error { message: Seq<char>, codex_error_info: JsonView },
    TurnAborted,
    TurnDiff,
    ShutdownComplete,
    ViewImageToolCall { call_id: Seq<char>, path: Seq<char> },
    EnteredReviewMode,
    ExitedReviewMode(Option<ReviewOutputView>),
    Warning { message: Seq<char> },
    GuardianWarning { message: Seq<char> },
    ElicitationRequest {
        server_name: Seq<char>,
        id: RequestIdView,
        request: ElicitationRequestView,
        raw: JsonView,
    },
    ContextCompacted,
    RequestPermissions {
        call_id: Seq<char>,
        reason: Option<Seq<char>>,
        permissions: PermissionProfileRequestView,
        raw: JsonView,
    },
    RequestUserInput(UserInputRequestView),
    GuardianAssessment(GuardianAssessmentView),
    ThreadRolledBack,
    SessionConfigured { thread_name: Option<Seq<char>> },
    Other,
}

impl DeepView for EventMsg {
    type V = EventMsgView;

    open spec fn deep_view(&self) -> EventMsgView {
        match self {
            EventMsg::TurnStarted => EventMsgView::TurnStarted,
            EventMsg::TokenCount(value) => EventMsgView::TokenCount(value.deep_view()),
            EventMsg::AgentItemStarted { item_id, phase } => EventMsgView::AgentItemStarted {
                item_id: item_id.deep_view(),
                phase: phase.deep_view(),
            },
            EventMsg::UserMessage { message } => EventMsgView::UserMessage {
                message: message.deep_view(),
            },
            EventMsg::AgentMessageContentDelta {
                item_id,
                delta,
            } => EventMsgView::AgentMessageContentDelta {
                item_id: item_id.deep_view(),
                delta: delta.deep_view(),
            },
            EventMsg::ReasoningContentDelta { delta } => EventMsgView::ReasoningContentDelta {
                delta: delta.deep_view(),
            },
            EventMsg::ReasoningRawContentDelta { delta } => EventMsgView::ReasoningRawContentDelta {
                delta: delta.deep_view(),
            },
            EventMsg::AgentReasoningSectionBreak => EventMsgView::AgentReasoningSectionBreak,
            EventMsg::AgentMessage { message, phase } => EventMsgView::AgentMessage {
                message: message.deep_view(),
                phase: phase.deep_view(),
            },
            EventMsg::AgentReasoning { text } => EventMsgView::AgentReasoning {
                text: text.deep_view(),
            },
            EventMsg::AgentReasoningRawContent { text } => EventMsgView::AgentReasoningRawContent {
                text: text.deep_view(),
            },
            EventMsg::ThreadGoalUpdated { objective, status } => EventMsgView::ThreadGoalUpdated {
                objective: objective.deep_view(),
                status: status.deep_view(),
            },
            EventMsg::PlanUpdate { plan } => EventMsgView::PlanUpdate {
                plan: plan.deep_view(),
            },
            EventMsg::WebSearchBegin { call_id } => EventMsgView::WebSearchBegin {
                call_id: call_id.deep_view(),
            },
            EventMsg::WebSearchEnd {
                call_id,
                query,
                action,
                raw_action,
            } => EventMsgView::WebSearchEnd {
                call_id: call_id.deep_view(),
                query: query.deep_view(),
                action: action.deep_view(),
                raw_action: raw_action.deep_view(),
            },
            EventMsg::ImageGenerationBegin { call_id, raw } => EventMsgView::ImageGenerationBegin {
                call_id: call_id.deep_view(),
                raw: raw.deep_view(),
            },
            EventMsg::ImageGenerationEnd {
                call_id,
                status,
                revised_prompt,
                result,
                saved_path,
                raw,
            } => EventMsgView::ImageGenerationEnd {
                call_id: call_id.deep_view(),
                status: status.deep_view(),
                revised_prompt: revised_prompt.deep_view(),
                result: result.deep_view(),
                saved_path: saved_path.deep_view(),
                raw: raw.deep_view(),
            },
            EventMsg::ExecApprovalRequest(value) => EventMsgView::ExecApprovalRequest(
                value.deep_view(),
            ),
            EventMsg::ExecCommandBegin {
                call_id,
                cwd,
                parsed_cmd,
                raw,
            } => EventMsgView::ExecCommandBegin {
                call_id: call_id.deep_view(),
                cwd: cwd.deep_view(),
                parsed_cmd: parsed_cmd.deep_view(),
                raw: raw.deep_view(),
            },
            EventMsg::ExecCommandOutputDelta {
                call_id,
                chunk,
            } => EventMsgView::ExecCommandOutputDelta {
                call_id: call_id.deep_view(),
                chunk: chunk.deep_view(),
            },
            EventMsg::ExecCommandEnd {
                call_id,
                exit_code,
                status,
                raw,
            } => EventMsgView::ExecCommandEnd {
                call_id: call_id.deep_view(),
                exit_code: exit_code.deep_view(),
                status: status.deep_view(),
                raw: raw.deep_view(),
            },
            EventMsg::TerminalInteraction { call_id, stdin } => EventMsgView::TerminalInteraction {
                call_id: call_id.deep_view(),
                stdin: stdin.deep_view(),
            },
            EventMsg::DynamicToolCallRequest {
                call_id,
                tool,
                arguments,
            } => EventMsgView::DynamicToolCallRequest {
                call_id: call_id.deep_view(),
                tool: tool.deep_view(),
                arguments: arguments.deep_view(),
            },
            EventMsg::DynamicToolCallResponse {
                call_id,
                success,
                content_items,
                error,
                raw,
            } => EventMsgView::DynamicToolCallResponse {
                call_id: call_id.deep_view(),
                success: success.deep_view(),
                content_items: content_items.deep_view(),
                error: error.deep_view(),
                raw: raw.deep_view(),
            },
            EventMsg::McpToolCallBegin {
                call_id,
                server,
                tool,
                raw_invocation,
            } => EventMsgView::McpToolCallBegin {
                call_id: call_id.deep_view(),
                server: server.deep_view(),
                tool: tool.deep_view(),
                raw_invocation: raw_invocation.deep_view(),
            },
            EventMsg::McpToolCallEnd { call_id, result } => EventMsgView::McpToolCallEnd {
                call_id: call_id.deep_view(),
                result: result.deep_view(),
            },
            EventMsg::ApplyPatchApprovalRequest {
                call_id,
                changes,
                reason,
                raw,
            } => EventMsgView::ApplyPatchApprovalRequest {
                call_id: call_id.deep_view(),
                changes: changes.deep_view(),
                reason: reason.deep_view(),
                raw: raw.deep_view(),
            },
            EventMsg::PatchApplyBegin { call_id, changes, raw } => EventMsgView::PatchApplyBegin {
                call_id: call_id.deep_view(),
                changes: changes.deep_view(),
                raw: raw.deep_view(),
            },
            EventMsg::PatchApplyUpdated {
                call_id,
                changes,
                raw,
            } => EventMsgView::PatchApplyUpdated {
                call_id: call_id.deep_view(),
                changes: changes.deep_view(),
                raw: raw.deep_view(),
            },
            EventMsg::PatchApplyEnd {
                call_id,
                success,
                status,
                changes,
                raw,
            } => EventMsgView::PatchApplyEnd {
                call_id: call_id.deep_view(),
                success: success.deep_view(),
                status: status.deep_view(),
                changes: changes.deep_view(),
                raw: raw.deep_view(),
            },
            EventMsg::ItemCompleted => EventMsgView::ItemCompleted,
            EventMsg::TurnComplete { last_agent_message } => EventMsgView::TurnComplete {
                last_agent_message: last_agent_message.deep_view(),
            },
            EventMsg::StreamError { message } => EventMsgView::StreamError {
                message: message.deep_view(),
            },
            EventMsg::Error { message, codex_error_info } => EventMsgView::Error {
                message: message.deep_view(),
                codex_error_info: codex_error_info.deep_view(),
            },
            EventMsg::TurnAborted => EventMsgView::TurnAborted,
            EventMsg::TurnDiff => EventMsgView::TurnDiff,
            EventMsg::ShutdownComplete => EventMsgView::ShutdownComplete,
            EventMsg::ViewImageToolCall { call_id, path } => EventMsgView::ViewImageToolCall {
                call_id: call_id.deep_view(),
                path: path.deep_view(),
            },
            EventMsg::EnteredReviewMode => EventMsgView::EnteredReviewMode,
            EventMsg::ExitedReviewMode(value) => EventMsgView::ExitedReviewMode(value.deep_view()),
            EventMsg::Warning { message } => EventMsgView::Warning {
                message: message.deep_view(),
            },
            EventMsg::GuardianWarning { message } => EventMsgView::GuardianWarning {
                message: message.deep_view(),
            },
            EventMsg::ElicitationRequest {
                server_name,
                id,
                request,
                raw,
            } => EventMsgView::ElicitationRequest {
                server_name: server_name.deep_view(),
                id: id.deep_view(),
                request: request.deep_view(),
                raw: raw.deep_view(),
            },
            EventMsg::ContextCompacted => EventMsgView::ContextCompacted,
            EventMsg::RequestPermissions {
                call_id,
                reason,
                permissions,
                raw,
            } => EventMsgView::RequestPermissions {
                call_id: call_id.deep_view(),
                reason: reason.deep_view(),
                permissions: permissions.deep_view(),
                raw: raw.deep_view(),
            },
            EventMsg::RequestUserInput(value) => EventMsgView::RequestUserInput(value.deep_view()),
            EventMsg::GuardianAssessment(value) => EventMsgView::GuardianAssessment(
                value.deep_view(),
            ),
            EventMsg::ThreadRolledBack => EventMsgView::ThreadRolledBack,
            EventMsg::SessionConfigured { thread_name } => EventMsgView::SessionConfigured {
                thread_name: thread_name.deep_view(),
            },
            EventMsg::Other => EventMsgView::Other,
        }
    }
}

} // verus!
