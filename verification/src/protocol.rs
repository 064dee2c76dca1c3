//! What the client, the thread and the library exchange, each type with its view.
use crate::collections::StringMap;
use crate::json::{Json, JsonView};
use vstd::prelude::*;

verus! {

/// What a tool does, as shown to the user.
#[derive(Debug, Clone, Copy, PartialEq, Eq, Structural)]
pub enum ToolKind {
    Read,
    Edit,
    Search,
    Execute,
    Think,
    Fetch,
    Other,
}

impl DeepView for ToolKind {
    type V = ToolKind;

    open spec fn deep_view(&self) -> ToolKind {
        *self
    }
}

/// How far a tool call has come.
#[derive(Debug, Clone, Copy, PartialEq, Eq, Structural)]
pub enum ToolCallStatus {
    Pending,
    InProgress,
    Completed,
    Failed,
}

impl DeepView for ToolCallStatus {
    type V = ToolCallStatus;

    open spec fn deep_view(&self) -> ToolCallStatus {
        *self
    }
}

/// The effect of choosing a permission option.
#[derive(Debug, Clone, Copy, PartialEq, Eq, Structural)]
pub enum PermissionOptionKind {
    AllowOnce,
    AllowAlways,
    RejectOnce,
    RejectAlways,
}

impl DeepView for PermissionOptionKind {
    type V = PermissionOptionKind;

    open spec fn deep_view(&self) -> PermissionOptionKind {
        *self
    }
}

/// Why a prompt turn ended.
#[derive(Debug, Clone, Copy, PartialEq, Eq, Structural)]
pub enum StopReason {
    EndTurn,
    Cancelled,
}

impl DeepView for StopReason {
    type V = StopReason;

    open spec fn deep_view(&self) -> StopReason {
        *self
    }
}

/// The answer to an elicitation of an MCP server.
#[derive(Debug, Clone, Copy, PartialEq, Eq, Structural)]
pub enum ElicitationAction {
    Accept,
    Decline,
    Cancel,
}

impl DeepView for ElicitationAction {
    type V = ElicitationAction;

    open spec fn deep_view(&self) -> ElicitationAction {
        *self
    }
}

/// Whether a network rule lets a host through.
#[derive(Debug, Clone, Copy, PartialEq, Eq, Structural)]
pub enum NetworkPolicyRuleAction {
    Allow,
    Deny,
}

impl DeepView for NetworkPolicyRuleAction {
    type V = NetworkPolicyRuleAction;

    open spec fn deep_view(&self) -> NetworkPolicyRuleAction {
        *self
    }
}

/// How long granted permissions last.
#[derive(Debug, Clone, Copy, PartialEq, Eq, Structural)]
pub enum PermissionGrantScope {
    Turn,
    Session,
}

impl DeepView for PermissionGrantScope {
    type V = PermissionGrantScope;

    open spec fn deep_view(&self) -> PermissionGrantScope {
        *self
    }
}

/// How a command or a patch ended.
#[derive(Debug, Clone, Copy, PartialEq, Eq, Structural)]
pub enum RunStatus {
    Completed,
    Failed,
    Declined,
}

impl DeepView for RunStatus {
    type V = RunStatus;

    open spec fn deep_view(&self) -> RunStatus {
        *self
    }
}

/// How far a guardian review has come.
#[derive(Debug, Clone, Copy, PartialEq, Eq, Structural)]
pub enum GuardianAssessmentStatus {
    InProgress,
    TimedOut,
    Approved,
    Denied,
    Aborted,
}

impl DeepView for GuardianAssessmentStatus {
    type V = GuardianAssessmentStatus;

    open spec fn deep_view(&self) -> GuardianAssessmentStatus {
        *self
    }
}

/// The state of a thread goal.
#[derive(Debug, Clone, Copy, PartialEq, Eq, Structural)]
pub enum ThreadGoalStatus {
    Active,
    Paused,
    BudgetLimited,
    Blocked,
    UsageLimited,
    Complete,
}

impl DeepView for ThreadGoalStatus {
    type V = ThreadGoalStatus;

    open spec fn deep_view(&self) -> ThreadGoalStatus {
        *self
    }
}

/// How far a step of a plan has come.
#[derive(Debug, Clone, Copy, PartialEq, Eq, Structural)]
pub enum StepStatus {
    Pending,
    InProgress,
    Completed,
}

impl DeepView for StepStatus {
    type V = StepStatus;

    open spec fn deep_view(&self) -> StepStatus {
        *self
    }
}

/// How urgent a plan entry is.
#[derive(Debug, Clone, Copy, PartialEq, Eq, Structural)]
pub enum PlanEntryPriority {
    High,
    Medium,
    Low,
}

impl DeepView for PlanEntryPriority {
    type V = PlanEntryPriority;

    open spec fn deep_view(&self) -> PlanEntryPriority {
        *self
    }
}

/// What a file system entry grants.
#[derive(Debug, Clone, Copy, PartialEq, Eq, Structural)]
pub enum FileSystemAccessMode {
    Read,
    Write,
    Deny,
}

impl DeepView for FileSystemAccessMode {
    type V = FileSystemAccessMode;

    open spec fn deep_view(&self) -> FileSystemAccessMode {
        *self
    }
}

/// Whether an agent message is commentary or the final answer.
#[derive(Debug, Clone, Copy, PartialEq, Eq, Structural)]
pub enum MessagePhase {
    Commentary,
    FinalAnswer,
}

impl DeepView for MessagePhase {
    type V = MessagePhase;

    open spec fn deep_view(&self) -> MessagePhase {
        *self
    }
}

/// How far a local shell call of the history had come.
#[derive(Debug, Clone, Copy, PartialEq, Eq, Structural)]
pub enum LocalShellStatus {
    Completed,
    InProgress,
    Incomplete,
}

impl DeepView for LocalShellStatus {
    type V = LocalShellStatus;

    open spec fn deep_view(&self) -> LocalShellStatus {
        *self
    }
}

/// How much the model reasons.
#[derive(Debug, Clone, Copy, PartialEq, Eq, Structural)]
pub enum ReasoningEffort {
    Off,
    Minimal,
    Low,
    Medium,
    High,
    XHigh,
}

impl DeepView for ReasoningEffort {
    type V = ReasoningEffort;

    open spec fn deep_view(&self) -> ReasoningEffort {
        *self
    }
}

/// Whether the agent plans or works.
#[derive(Debug, Clone, Copy, PartialEq, Eq, Structural)]
pub enum ModeKind {
    Plan,
    Default,
}

impl DeepView for ModeKind {
    type V = ModeKind;

    open spec fn deep_view(&self) -> ModeKind {
        *self
    }
}

/// The category of a configuration option.
#[derive(Debug, Clone, Copy, PartialEq, Eq, Structural)]
pub enum ConfigCategory {
    Mode,
    Model,
    ThoughtLevel,
}

impl DeepView for ConfigCategory {
    type V = ConfigCategory;

    open spec fn deep_view(&self) -> ConfigCategory {
        *self
    }
}

/// The kind of a protocol error. One that came from the client keeps its code and its message.
#[derive(Debug, PartialEq)]
pub enum ErrorKind {
    InternalError,
    InvalidParams,
    AuthRequired,
    FromClient { code: i32, message: String },
}

#[verifier::ext_equal]
pub enum ErrorKindView {
    InternalError,
    InvalidParams,
    AuthRequired,
    FromClient { code: i32, message: Seq<char> },
}

impl DeepView for ErrorKind {
    type V = ErrorKindView;

    open spec fn deep_view(&self) -> ErrorKindView {
        match self {
            ErrorKind::InternalError => ErrorKindView::InternalError,
            ErrorKind::InvalidParams => ErrorKindView::InvalidParams,
            ErrorKind::AuthRequired => ErrorKindView::AuthRequired,
            ErrorKind::FromClient { code, message } => ErrorKindView::FromClient {
                code: code.deep_view(),
                message: message.deep_view(),
            },
        }
    }
}

/// A piece of content shown with a tool call.
#[allow(inconsistent_fields)]
#[derive(Debug, PartialEq)]
pub enum ToolCallContent {
    Text(String),
    ResourceLink { name: String, uri: String },
    Image { data: String, mime_type: String, uri: Option<String> },
    Terminal(String),
    Diff { path: String, old_text: Option<String>, new_text: String },
    Block(Json),
}

#[allow(inconsistent_fields)]
#[verifier::ext_equal]
pub enum ToolCallContentView {
    Text(Seq<char>),
    ResourceLink { name: Seq<char>, uri: Seq<char> },
    Image { data: Seq<char>, mime_type: Seq<char>, uri: Option<Seq<char>> },
    Terminal(Seq<char>),
    Diff { path: Seq<char>, old_text: Option<Seq<char>>, new_text: Seq<char> },
    Block(JsonView),
}

impl DeepView for ToolCallContent {
    type V = ToolCallContentView;

    open spec fn deep_view(&self) -> ToolCallContentView {
        match self {
            ToolCallContent::Text(value) => ToolCallContentView::Text(value.deep_view()),
            ToolCallContent::ResourceLink { name, uri } => ToolCallContentView::ResourceLink {
                name: name.deep_view(),
                uri: uri.deep_view(),
            },
            ToolCallContent::Image { data, mime_type, uri } => ToolCallContentView::Image {
                data: data.deep_view(),
                mime_type: mime_type.deep_view(),
                uri: uri.deep_view(),
            },
            ToolCallContent::Terminal(value) => ToolCallContentView::Terminal(value.deep_view()),
            ToolCallContent::Diff { path, old_text, new_text } => ToolCallContentView::Diff {
                path: path.deep_view(),
                old_text: old_text.deep_view(),
                new_text: new_text.deep_view(),
            },
            ToolCallContent::Block(value) => ToolCallContentView::Block(value.deep_view()),
        }
    }
}

/// A tool call that is shown to the client.
#[derive(Debug, PartialEq)]
pub struct ToolCall {
    pub id: String,
    pub title: String,
    pub kind: ToolKind,
    pub status: ToolCallStatus,
    pub content: Vec<ToolCallContent>,
    pub locations: Vec<String>,
    pub raw_input: Option<Json>,
    pub raw_output: Option<Json>,
    pub meta: Option<Vec<(String, Json)>>,
}

#[verifier::ext_equal]
pub struct ToolCallView {
    pub id: Seq<char>,
    pub title: Seq<char>,
    pub kind: ToolKind,
    pub status: ToolCallStatus,
    pub content: Seq<ToolCallContentView>,
    pub locations: Seq<Seq<char>>,
    pub raw_input: Option<JsonView>,
    pub raw_output: Option<JsonView>,
    pub meta: Option<Seq<(Seq<char>, JsonView)>>,
}

impl DeepView for ToolCall {
    type V = ToolCallView;

    open spec fn deep_view(&self) -> ToolCallView {
        ToolCallView {
            id: self.id.deep_view(),
            title: self.title.deep_view(),
            kind: self.kind.deep_view(),
            status: self.status.deep_view(),
            content: self.content.deep_view(),
            locations: self.locations.deep_view(),
            raw_input: self.raw_input.deep_view(),
            raw_output: self.raw_output.deep_view(),
            meta: self.meta.deep_view(),
        }
    }
}

/// Changes to a tool call: a field that is absent stays as it was.
#[derive(Debug, PartialEq)]
pub struct ToolCallUpdate {
    pub id: String,
    pub kind: Option<ToolKind>,
    pub status: Option<ToolCallStatus>,
    pub title: Option<String>,
    pub content: Option<Vec<ToolCallContent>>,
    pub locations: Option<Vec<String>>,
    pub raw_input: Option<Json>,
    pub raw_output: Option<Json>,
    pub meta: Option<Vec<(String, Json)>>,
}

#[verifier::ext_equal]
pub struct ToolCallUpdateView {
    pub id: Seq<char>,
    pub kind: Option<ToolKind>,
    pub status: Option<ToolCallStatus>,
    pub title: Option<Seq<char>>,
    pub content: Option<Seq<ToolCallContentView>>,
    pub locations: Option<Seq<Seq<char>>>,
    pub raw_input: Option<JsonView>,
    pub raw_output: Option<JsonView>,
    pub meta: Option<Seq<(Seq<char>, JsonView)>>,
}

impl DeepView for ToolCallUpdate {
    type V = ToolCallUpdateView;

    open spec fn deep_view(&self) -> ToolCallUpdateView {
        ToolCallUpdateView {
            id: self.id.deep_view(),
            kind: self.kind.deep_view(),
            status: self.status.deep_view(),
            title: self.title.deep_view(),
            content: self.content.deep_view(),
            locations: self.locations.deep_view(),
            raw_input: self.raw_input.deep_view(),
            raw_output: self.raw_output.deep_view(),
            meta: self.meta.deep_view(),
        }
    }
}

/// A choice offered in a permission request.
#[derive(Debug, PartialEq)]
pub struct PermissionOption {
    pub option_id: String,
    pub name: String,
    pub kind: PermissionOptionKind,
}

#[verifier::ext_equal]
pub struct PermissionOptionView {
    pub option_id: Seq<char>,
    pub name: Seq<char>,
    pub kind: PermissionOptionKind,
}

impl DeepView for PermissionOption {
    type V = PermissionOptionView;

    open spec fn deep_view(&self) -> PermissionOptionView {
        PermissionOptionView {
            option_id: self.option_id.deep_view(),
            name: self.name.deep_view(),
            kind: self.kind.deep_view(),
        }
    }
}

/// An entry of the plan shown to the client.
#[derive(Debug, PartialEq)]
pub struct PlanEntry {
    pub content: String,
    pub priority: PlanEntryPriority,
    pub status: StepStatus,
}

#[verifier::ext_equal]
pub struct PlanEntryView {
    pub content: Seq<char>,
    pub priority: PlanEntryPriority,
    pub status: StepStatus,
}

impl DeepView for PlanEntry {
    type V = PlanEntryView;

    open spec fn deep_view(&self) -> PlanEntryView {
        PlanEntryView {
            content: self.content.deep_view(),
            priority: self.priority.deep_view(),
            status: self.status.deep_view(),
        }
    }
}

/// A step of the plan as the agent reports it.
#[derive(Debug, PartialEq)]
pub struct PlanItem {
    pub step: String,
    pub status: StepStatus,
}

#[verifier::ext_equal]
pub struct PlanItemView {
    pub step: Seq<char>,
    pub status: StepStatus,
}

impl DeepView for PlanItem {
    type V = PlanItemView;

    open spec fn deep_view(&self) -> PlanItemView {
        PlanItemView {
            step: self.step.deep_view(),
            status: self.status.deep_view(),
        }
    }
}

/// A slash command offered to the client.
#[derive(Debug, PartialEq)]
pub struct AvailableCommand {
    pub name: String,
    pub description: String,
    pub input_hint: Option<String>,
}

#[verifier::ext_equal]
pub struct AvailableCommandView {
    pub name: Seq<char>,
    pub description: Seq<char>,
    pub input_hint: Option<Seq<char>>,
}

impl DeepView for AvailableCommand {
    type V = AvailableCommandView;

    open spec fn deep_view(&self) -> AvailableCommandView {
        AvailableCommandView {
            name: self.name.deep_view(),
            description: self.description.deep_view(),
            input_hint: self.input_hint.deep_view(),
        }
    }
}

/// A choice of a configuration option. A model's choice tells its provider in its metadata.
#[derive(Debug, PartialEq)]
pub struct SelectOption {
    pub value: String,
    pub name: String,
    pub description: Option<String>,
    pub provider: Option<String>,
}

#[verifier::ext_equal]
pub struct SelectOptionView {
    pub value: Seq<char>,
    pub name: Seq<char>,
    pub description: Option<Seq<char>>,
    pub provider: Option<Seq<char>>,
}

impl DeepView for SelectOption {
    type V = SelectOptionView;

    open spec fn deep_view(&self) -> SelectOptionView {
        SelectOptionView {
            value: self.value.deep_view(),
            name: self.name.deep_view(),
            description: self.description.deep_view(),
            provider: self.provider.deep_view(),
        }
    }
}

/// A configuration option with its current value.
#[derive(Debug, PartialEq)]
pub struct ConfigOption {
    pub id: String,
    pub name: String,
    pub description: String,
    pub category: ConfigCategory,
    pub current_value: String,
    pub options: Vec<SelectOption>,
}

#[verifier::ext_equal]
pub struct ConfigOptionView {
    pub id: Seq<char>,
    pub name: Seq<char>,
    pub description: Seq<char>,
    pub category: ConfigCategory,
    pub current_value: Seq<char>,
    pub options: Seq<SelectOptionView>,
}

impl DeepView for ConfigOption {
    type V = ConfigOptionView;

    open spec fn deep_view(&self) -> ConfigOptionView {
        ConfigOptionView {
            id: self.id.deep_view(),
            name: self.name.deep_view(),
            description: self.description.deep_view(),
            category: self.category.deep_view(),
            current_value: self.current_value.deep_view(),
            options: self.options.deep_view(),
        }
    }
}

/// What a session notification tells the client.
#[derive(Debug, PartialEq)]
pub enum SessionUpdate {
    UserMessage(String),
    AgentText(String),
    AgentThought(String),
    SessionInfo { title: Option<String> },
    ToolCall(ToolCall),
    ToolCallUpdate(ToolCallUpdate),
    Plan(Vec<PlanEntry>),
    Usage { used: u64, size: u64 },
    AvailableCommands(Vec<AvailableCommand>),
    ConfigOptions(Vec<ConfigOption>),
}

#[verifier::ext_equal]
pub enum SessionUpdateView {
    UserMessage(Seq<char>),
    AgentText(Seq<char>),
    AgentThought(Seq<char>),
    SessionInfo { title: Option<Seq<char>> },
    ToolCall(ToolCallView),
    ToolCallUpdate(ToolCallUpdateView),
    Plan(Seq<PlanEntryView>),
    Usage { used: u64, size: u64 },
    AvailableCommands(Seq<AvailableCommandView>),
    ConfigOptions(Seq<ConfigOptionView>),
}

impl DeepView for SessionUpdate {
    type V = SessionUpdateView;

    open spec fn deep_view(&self) -> SessionUpdateView {
        match self {
            SessionUpdate::UserMessage(value) => SessionUpdateView::UserMessage(value.deep_view()),
            SessionUpdate::AgentText(value) => SessionUpdateView::AgentText(value.deep_view()),
            SessionUpdate::AgentThought(value) => SessionUpdateView::AgentThought(
                value.deep_view(),
            ),
            SessionUpdate::SessionInfo { title } => SessionUpdateView::SessionInfo {
                title: title.deep_view(),
            },
            SessionUpdate::ToolCall(value) => SessionUpdateView::ToolCall(value.deep_view()),
            SessionUpdate::ToolCallUpdate(value) => SessionUpdateView::ToolCallUpdate(
                value.deep_view(),
            ),
            SessionUpdate::Plan(value) => SessionUpdateView::Plan(value.deep_view()),
            SessionUpdate::Usage { used, size } => SessionUpdateView::Usage {
                used: used.deep_view(),
                size: size.deep_view(),
            },
            SessionUpdate::AvailableCommands(value) => SessionUpdateView::AvailableCommands(
                value.deep_view(),
            ),
            SessionUpdate::ConfigOptions(value) => SessionUpdateView::ConfigOptions(
                value.deep_view(),
            ),
        }
    }
}

/// A session notification.
#[derive(Debug, PartialEq)]
pub struct Notification {
    pub update: SessionUpdate,
    pub meta: Option<Vec<(String, Json)>>,
}

#[verifier::ext_equal]
pub struct NotificationView {
    pub update: SessionUpdateView,
    pub meta: Option<Seq<(Seq<char>, JsonView)>>,
}

impl DeepView for Notification {
    type V = NotificationView;

    open spec fn deep_view(&self) -> NotificationView {
        NotificationView {
            update: self.update.deep_view(),
            meta: self.meta.deep_view(),
        }
    }
}

/// A protocol error.
#[derive(Debug, PartialEq)]
pub struct Error {
    pub kind: ErrorKind,
    pub data: Option<Json>,
}

#[verifier::ext_equal]
pub struct ErrorView {
    pub kind: ErrorKindView,
    pub data: Option<JsonView>,
}

impl DeepView for Error {
    type V = ErrorView;

    open spec fn deep_view(&self) -> ErrorView {
        ErrorView {
            kind: self.kind.deep_view(),
            data: self.data.deep_view(),
        }
    }
}

/// How a prompt turn is answered.
#[derive(Debug, PartialEq)]
pub enum PromptResult {
    Stopped(StopReason),
    Failed(Error),
}

#[verifier::ext_equal]
pub enum PromptResultView {
    Stopped(StopReason),
    Failed(ErrorView),
}

impl DeepView for PromptResult {
    type V = PromptResultView;

    open spec fn deep_view(&self) -> PromptResultView {
        match self {
            PromptResult::Stopped(value) => PromptResultView::Stopped(value.deep_view()),
            PromptResult::Failed(value) => PromptResultView::Failed(value.deep_view()),
        }
    }
}

/// The decision on a command or a patch.
#[derive(Debug, PartialEq)]
pub enum ReviewDecision {
    Approved,
    ApprovedExecpolicyAmendment { command: Vec<String> },
    ApprovedForSession,
    NetworkPolicyAmendment { host: String, action: NetworkPolicyRuleAction },
    Denied,
    Abort,
    TimedOut,
}

#[verifier::ext_equal]
pub enum ReviewDecisionView {
    Approved,
    ApprovedExecpolicyAmendment { command: Seq<Seq<char>> },
    ApprovedForSession,
    NetworkPolicyAmendment { host: Seq<char>, action: NetworkPolicyRuleAction },
    Denied,
    Abort,
    TimedOut,
}

impl DeepView for ReviewDecision {
    type V = ReviewDecisionView;

    open spec fn deep_view(&self) -> ReviewDecisionView {
        match self {
            ReviewDecision::Approved => ReviewDecisionView::Approved,
            ReviewDecision::ApprovedExecpolicyAmendment {
                command,
            } => ReviewDecisionView::ApprovedExecpolicyAmendment {
                command: command.deep_view(),
            },
            ReviewDecision::ApprovedForSession => ReviewDecisionView::ApprovedForSession,
            ReviewDecision::NetworkPolicyAmendment {
                host,
                action,
            } => ReviewDecisionView::NetworkPolicyAmendment {
                host: host.deep_view(),
                action: action.deep_view(),
            },
            ReviewDecision::Denied => ReviewDecisionView::Denied,
            ReviewDecision::Abort => ReviewDecisionView::Abort,
            ReviewDecision::TimedOut => ReviewDecisionView::TimedOut,
        }
    }
}

/// A part of what the user submits. What is no text is carried as it came.
#[derive(Debug, PartialEq)]
pub enum UserInput {
    Text(String),
    Other(Json),
}

#[verifier::ext_equal]
pub enum UserInputView {
    Text(Seq<char>),
    Other(JsonView),
}

impl DeepView for UserInput {
    type V = UserInputView;

    open spec fn deep_view(&self) -> UserInputView {
        match self {
            UserInput::Text(value) => UserInputView::Text(value.deep_view()),
            UserInput::Other(value) => UserInputView::Other(value.deep_view()),
        }
    }
}

/// What a review looks at.
#[derive(Debug, PartialEq)]
pub enum ReviewTarget {
    UncommittedChanges,
    BaseBranch { branch: String },
    Commit { sha: String, title: Option<String> },
    Custom { instructions: String },
}

#[verifier::ext_equal]
pub enum ReviewTargetView {
    UncommittedChanges,
    BaseBranch { branch: Seq<char> },
    Commit { sha: Seq<char>, title: Option<Seq<char>> },
    Custom { instructions: Seq<char> },
}

impl DeepView for ReviewTarget {
    type V = ReviewTargetView;

    open spec fn deep_view(&self) -> ReviewTargetView {
        match self {
            ReviewTarget::UncommittedChanges => ReviewTargetView::UncommittedChanges,
            ReviewTarget::BaseBranch { branch } => ReviewTargetView::BaseBranch {
                branch: branch.deep_view(),
            },
            ReviewTarget::Commit { sha, title } => ReviewTargetView::Commit {
                sha: sha.deep_view(),
                title: title.deep_view(),
            },
            ReviewTarget::Custom { instructions } => ReviewTargetView::Custom {
                instructions: instructions.deep_view(),
            },
        }
    }
}

/// The identifier of a request of an MCP server.
#[derive(Debug, PartialEq)]
pub enum RequestId {
    Text(String),
    Integer(i64),
}

#[verifier::ext_equal]
pub enum RequestIdView {
    Text(Seq<char>),
    Integer(i64),
}

impl DeepView for RequestId {
    type V = RequestIdView;

    open spec fn deep_view(&self) -> RequestIdView {
        match self {
            RequestId::Text(value) => RequestIdView::Text(value.deep_view()),
            RequestId::Integer(value) => RequestIdView::Integer(value.deep_view()),
        }
    }
}

/// A rule about a path, with the text that names the path.
#[derive(Debug, PartialEq)]
pub struct FileSystemEntry {
    pub access: FileSystemAccessMode,
    pub label: String,
}

#[verifier::ext_equal]
pub struct FileSystemEntryView {
    pub access: FileSystemAccessMode,
    pub label: Seq<char>,
}

impl DeepView for FileSystemEntry {
    type V = FileSystemEntryView;

    open spec fn deep_view(&self) -> FileSystemEntryView {
        FileSystemEntryView {
            access: self.access.deep_view(),
            label: self.label.deep_view(),
        }
    }
}

/// The permissions that are asked for. `profile` is the whole request, carried as it came.
#[derive(Debug, PartialEq)]
pub struct PermissionProfileRequest {
    pub file_system: Option<Vec<FileSystemEntry>>,
    pub network_enabled: Option<bool>,
    pub profile: Json,
}

#[verifier::ext_equal]
pub struct PermissionProfileRequestView {
    pub file_system: Option<Seq<FileSystemEntryView>>,
    pub network_enabled: Option<bool>,
    pub profile: JsonView,
}

impl DeepView for PermissionProfileRequest {
    type V = PermissionProfileRequestView;

    open spec fn deep_view(&self) -> PermissionProfileRequestView {
        PermissionProfileRequestView {
            file_system: self.file_system.deep_view(),
            network_enabled: self.network_enabled.deep_view(),
            profile: self.profile.deep_view(),
        }
    }
}

/// What a permissions request grants.
#[derive(Debug, PartialEq)]
pub enum GrantedPermissions {
    Requested(Json),
    Nothing,
}

#[verifier::ext_equal]
pub enum GrantedPermissionsView {
    Requested(JsonView),
    Nothing,
}

impl DeepView for GrantedPermissions {
    type V = GrantedPermissionsView;

    open spec fn deep_view(&self) -> GrantedPermissionsView {
        match self {
            GrantedPermissions::Requested(value) => GrantedPermissionsView::Requested(
                value.deep_view(),
            ),
            GrantedPermissions::Nothing => GrantedPermissionsView::Nothing,
        }
    }
}

/// The answer to a permissions request.
#[derive(Debug, PartialEq)]
pub struct PermissionsResponse {
    pub permissions: GrantedPermissions,
    pub scope: PermissionGrantScope,
    pub strict_auto_review: bool,
}

#[verifier::ext_equal]
pub struct PermissionsResponseView {
    pub permissions: GrantedPermissionsView,
    pub scope: PermissionGrantScope,
    pub strict_auto_review: bool,
}

impl DeepView for PermissionsResponse {
    type V = PermissionsResponseView;

    open spec fn deep_view(&self) -> PermissionsResponseView {
        PermissionsResponseView {
            permissions: self.permissions.deep_view(),
            scope: self.scope.deep_view(),
            strict_auto_review: self.strict_auto_review.deep_view(),
        }
    }
}

/// When the agent asks before it acts.
#[derive(Debug, Clone, Copy, PartialEq, Eq, Structural)]
pub enum ApprovalPolicy {
    UnlessTrusted,
    OnFailure,
    OnRequest,
    Granular,
    Never,
}

impl DeepView for ApprovalPolicy {
    type V = ApprovalPolicy;

    open spec fn deep_view(&self) -> ApprovalPolicy {
        *self
    }
}

/// Whether sandboxed commands reach the network.
#[derive(Debug, Clone, Copy, PartialEq, Eq, Structural)]
pub enum NetworkSandboxPolicy {
    Restricted,
    Enabled,
}

impl DeepView for NetworkSandboxPolicy {
    type V = NetworkSandboxPolicy;

    open spec fn deep_view(&self) -> NetworkSandboxPolicy {
        *self
    }
}

/// Who confines what the agent runs.
#[derive(Debug, Clone, Copy, PartialEq, Eq, Structural)]
pub enum ProfileKind {
    Managed,
    Disabled,
    External,
}

impl DeepView for ProfileKind {
    type V = ProfileKind;

    open spec fn deep_view(&self) -> ProfileKind {
        *self
    }
}

/// What a permission profile lets the agent do. Two profiles are the same exactly when their
/// identities are.
#[derive(Debug, PartialEq)]
pub struct PermissionProfile {
    pub identity: String,
    pub kind: ProfileKind,
    pub network: NetworkSandboxPolicy,
    pub full_disk_read: bool,
    pub full_disk_write: bool,
    pub writes_working_directory: bool,
}

#[verifier::ext_equal]
pub struct PermissionProfileView {
    pub identity: Seq<char>,
    pub kind: ProfileKind,
    pub network: NetworkSandboxPolicy,
    pub full_disk_read: bool,
    pub full_disk_write: bool,
    pub writes_working_directory: bool,
}

impl DeepView for PermissionProfile {
    type V = PermissionProfileView;

    open spec fn deep_view(&self) -> PermissionProfileView {
        PermissionProfileView {
            identity: self.identity.deep_view(),
            kind: self.kind.deep_view(),
            network: self.network.deep_view(),
            full_disk_read: self.full_disk_read.deep_view(),
            full_disk_write: self.full_disk_write.deep_view(),
            writes_working_directory: self.writes_working_directory.deep_view(),
        }
    }
}

/// The mode the agent works in, and with which model.
#[derive(Debug, PartialEq)]
pub struct CollaborationMode {
    pub mode: ModeKind,
    pub model: String,
    pub reasoning_effort: Option<ReasoningEffort>,
}

#[verifier::ext_equal]
pub struct CollaborationModeView {
    pub mode: ModeKind,
    pub model: Seq<char>,
    pub reasoning_effort: Option<ReasoningEffort>,
}

impl DeepView for CollaborationMode {
    type V = CollaborationModeView;

    open spec fn deep_view(&self) -> CollaborationModeView {
        CollaborationModeView {
            mode: self.mode.deep_view(),
            model: self.model.deep_view(),
            reasoning_effort: self.reasoning_effort.deep_view(),
        }
    }
}

/// Changes to the settings of a thread: a field that is absent stays as it was.
#[derive(Debug, PartialEq)]
pub struct ThreadSettings {
    pub approval_policy: Option<ApprovalPolicy>,
    pub permission_profile: Option<PermissionProfile>,
    pub active_permission_profile: Option<String>,
    pub collaboration_mode: Option<CollaborationMode>,
    pub model: Option<String>,
    pub effort: Option<Option<ReasoningEffort>>,
}

#[verifier::ext_equal]
pub struct ThreadSettingsView {
    pub approval_policy: Option<ApprovalPolicy>,
    pub permission_profile: Option<PermissionProfileView>,
    pub active_permission_profile: Option<Seq<char>>,
    pub collaboration_mode: Option<CollaborationModeView>,
    pub model: Option<Seq<char>>,
    pub effort: Option<Option<ReasoningEffort>>,
}

impl DeepView for ThreadSettings {
    type V = ThreadSettingsView;

    open spec fn deep_view(&self) -> ThreadSettingsView {
        ThreadSettingsView {
            approval_policy: self.approval_policy.deep_view(),
            permission_profile: self.permission_profile.deep_view(),
            active_permission_profile: self.active_permission_profile.deep_view(),
            collaboration_mode: self.collaboration_mode.deep_view(),
            model: self.model.deep_view(),
            effort: self.effort.deep_view(),
        }
    }
}

/// An operation submitted to the thread.
#[allow(inconsistent_fields)]
#[derive(Debug)]
pub enum Op {
    Compact,
    UserInput { items: Vec<UserInput> },
    Review { target: ReviewTarget },
    ThreadSettings(ThreadSettings),
    Interrupt,
    Shutdown,
    ThreadRollback { num_turns: u32 },
    ExecApproval { id: String, turn_id: Option<String>, decision: ReviewDecision },
    PatchApproval { id: String, decision: ReviewDecision },
    RequestPermissionsResponse { id: String, response: PermissionsResponse },
    ResolveElicitation {
        server_name: String,
        request_id: RequestId,
        decision: ElicitationAction,
        content: Option<Json>,
        meta: Option<Json>,
    },
    UserInputAnswer { id: String, answers: StringMap<Vec<String>> },
}

#[allow(inconsistent_fields)]
#[verifier::ext_equal]
pub enum OpView {
    Compact,
    UserInput { items: Seq<UserInputView> },
    Review { target: ReviewTargetView },
    ThreadSettings(ThreadSettingsView),
    Interrupt,
    Shutdown,
    ThreadRollback { num_turns: u32 },
    ExecApproval { id: Seq<char>, turn_id: Option<Seq<char>>, decision: ReviewDecisionView },
    PatchApproval { id: Seq<char>, decision: ReviewDecisionView },
    RequestPermissionsResponse { id: Seq<char>, response: PermissionsResponseView },
    ResolveElicitation {
        server_name: Seq<char>,
        request_id: RequestIdView,
        decision: ElicitationAction,
        content: Option<JsonView>,
        meta: Option<JsonView>,
    },
    UserInputAnswer { id: Seq<char>, answers: Map<Seq<char>, Seq<Seq<char>>> },
}

impl DeepView for Op {
    type V = OpView;

    open spec fn deep_view(&self) -> OpView {
        match self {
            Op::Compact => OpView::Compact,
            Op::UserInput { items } => OpView::UserInput {
                items: items.deep_view(),
            },
            Op::Review { target } => OpView::Review {
                target: target.deep_view(),
            },
            Op::ThreadSettings(value) => OpView::ThreadSettings(value.deep_view()),
            Op::Interrupt => OpView::Interrupt,
            Op::Shutdown => OpView::Shutdown,
            Op::ThreadRollback { num_turns } => OpView::ThreadRollback {
                num_turns: num_turns.deep_view(),
            },
            Op::ExecApproval { id, turn_id, decision } => OpView::ExecApproval {
                id: id.deep_view(),
                turn_id: turn_id.deep_view(),
                decision: decision.deep_view(),
            },
            Op::PatchApproval { id, decision } => OpView::PatchApproval {
                id: id.deep_view(),
                decision: decision.deep_view(),
            },
            Op::RequestPermissionsResponse { id, response } => OpView::RequestPermissionsResponse {
                id: id.deep_view(),
                response: response.deep_view(),
            },
            Op::ResolveElicitation {
                server_name,
                request_id,
                decision,
                content,
                meta,
            } => OpView::ResolveElicitation {
                server_name: server_name.deep_view(),
                request_id: request_id.deep_view(),
                decision: decision.deep_view(),
                content: content.deep_view(),
                meta: meta.deep_view(),
            },
            Op::UserInputAnswer { id, answers } => OpView::UserInputAnswer {
                id: id.deep_view(),
                answers: answers.deep_view(),
            },
        }
    }
}

} // verus!
