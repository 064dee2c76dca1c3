//! How a session comes to its title.
use crate::backend::{CodexThreadImpl, Event, EventView, ModelsManagerImpl};
use crate::client::{plain, session_title};
use crate::collections::{one, result_view};
use crate::events::{EventMsg, EventMsgView};
use crate::protocol::{
    Notification, NotificationView, Op, OpView, SessionUpdateView, UserInput, UserInputView,
};
use crate::session_config::Config;
use crate::text::{concat2, copy_option, is_some_text, same, trim, trimmed};
use crate::title::{
    ThreadTitleState, ThreadTitleStateView, build_session_title_prompt, normalize_session_title,
    normalized_title, title_prompt,
};
use vstd::prelude::*;
use vstd::string::*;

verus! {

/// What is done about the title of a session when a turn is complete.
#[derive(Debug, PartialEq)]
pub enum TitleDecision {
    Nothing,
    Publish(String),
    Generate { prompt_text: String },
}

#[verifier::ext_equal]
pub enum TitleDecisionView {
    Nothing,
    Publish(Seq<char>),
    Generate { prompt_text: Seq<char> },
}

impl DeepView for TitleDecision {
    type V = TitleDecisionView;

    open spec fn deep_view(&self) -> TitleDecisionView {
        match self {
            TitleDecision::Nothing => TitleDecisionView::Nothing,
            TitleDecision::Publish(value) => TitleDecisionView::Publish(value.deep_view()),
            TitleDecision::Generate { prompt_text } => TitleDecisionView::Generate {
                prompt_text: prompt_text.deep_view(),
            },
        }
    }
}

/// What a title generator came back with. A generator that takes too long has failed.
#[derive(Debug, PartialEq)]
pub enum GeneratorOutcome {
    Title(Option<String>),
    Failed,
}

#[verifier::ext_equal]
pub enum GeneratorOutcomeView {
    Title(Option<Seq<char>>),
    Failed,
}

impl DeepView for GeneratorOutcome {
    type V = GeneratorOutcomeView;

    open spec fn deep_view(&self) -> GeneratorOutcomeView {
        match self {
            GeneratorOutcome::Title(value) => GeneratorOutcomeView::Title(value.deep_view()),
            GeneratorOutcome::Failed => GeneratorOutcomeView::Failed,
        }
    }
}

/// What follows from what the generator came back with.
#[derive(Debug, PartialEq)]
pub enum TitleStep {
    Nothing,
    Publish(String),
    HiddenTurn,
}

#[verifier::ext_equal]
pub enum TitleStepView {
    Nothing,
    Publish(Seq<char>),
    HiddenTurn,
}

impl DeepView for TitleStep {
    type V = TitleStepView;

    open spec fn deep_view(&self) -> TitleStepView {
        match self {
            TitleStep::Nothing => TitleStepView::Nothing,
            TitleStep::Publish(value) => TitleStepView::Publish(value.deep_view()),
            TitleStep::HiddenTurn => TitleStepView::HiddenTurn,
        }
    }
}

/// A hidden turn that asks the agent itself for a title.
#[derive(Debug, PartialEq)]
pub struct HiddenTitleTurn {
    pub submission_id: String,
    pub prompt_text: String,
    pub title: String,
}

#[verifier::ext_equal]
pub struct HiddenTitleTurnView {
    pub submission_id: Seq<char>,
    pub prompt_text: Seq<char>,
    pub title: Seq<char>,
}

impl DeepView for HiddenTitleTurn {
    type V = HiddenTitleTurnView;

    open spec fn deep_view(&self) -> HiddenTitleTurnView {
        HiddenTitleTurnView {
            submission_id: self.submission_id.deep_view(),
            prompt_text: self.prompt_text.deep_view(),
            title: self.title.deep_view(),
        }
    }
}

/// How a hidden turn goes on after an event.
#[derive(Debug, PartialEq)]
pub enum HiddenTurnStep {
    Continue,
    Finished(Option<String>),
    Interrupt,
    Failed(String),
}

#[verifier::ext_equal]
pub enum HiddenTurnStepView {
    Continue,
    Finished(Option<Seq<char>>),
    Interrupt,
    Failed(Seq<char>),
}

impl DeepView for HiddenTurnStep {
    type V = HiddenTurnStepView;

    open spec fn deep_view(&self) -> HiddenTurnStepView {
        match self {
            HiddenTurnStep::Continue => HiddenTurnStepView::Continue,
            HiddenTurnStep::Finished(value) => HiddenTurnStepView::Finished(value.deep_view()),
            HiddenTurnStep::Interrupt => HiddenTurnStepView::Interrupt,
            HiddenTurnStep::Failed(value) => HiddenTurnStepView::Failed(value.deep_view()),
        }
    }
}

/// How a hidden turn came to its end.
#[derive(Debug, PartialEq)]
pub enum HiddenTurnOutcome {
    Finished(Option<String>),
    ToolRequested,
    Failed(String),
    TimedOut,
}

#[verifier::ext_equal]
pub enum HiddenTurnOutcomeView {
    Finished(Option<Seq<char>>),
    ToolRequested,
    Failed(Seq<char>),
    TimedOut,
}

impl DeepView for HiddenTurnOutcome {
    type V = HiddenTurnOutcomeView;

    open spec fn deep_view(&self) -> HiddenTurnOutcomeView {
        match self {
            HiddenTurnOutcome::Finished(value) => HiddenTurnOutcomeView::Finished(
                value.deep_view(),
            ),
            HiddenTurnOutcome::ToolRequested => HiddenTurnOutcomeView::ToolRequested,
            HiddenTurnOutcome::Failed(value) => HiddenTurnOutcomeView::Failed(value.deep_view()),
            HiddenTurnOutcome::TimedOut => HiddenTurnOutcomeView::TimedOut,
        }
    }
}

/// What is done about a hidden turn that came to its end: whether it is interrupted, whether it is
/// taken back after that, and the title that comes out, whether or not it could be taken back.
#[derive(Debug, PartialEq)]
pub struct HiddenTurnAction {
    pub interrupt: bool,
    pub roll_back: bool,
    pub title: Option<String>,
}

#[verifier::ext_equal]
pub struct HiddenTurnActionView {
    pub interrupt: bool,
    pub roll_back: bool,
    pub title: Option<Seq<char>>,
}

impl DeepView for HiddenTurnAction {
    type V = HiddenTurnActionView;

    open spec fn deep_view(&self) -> HiddenTurnActionView {
        HiddenTurnActionView {
            interrupt: self.interrupt,
            roll_back: self.roll_back,
            title: self.title.deep_view(),
        }
    }
}

/// An event of the model's response to a request for a title.
#[derive(Debug, PartialEq)]
pub enum TitleStreamEvent {
    TextDelta(String),
    MessageDone(Vec<String>),
    Completed,
    Other,
}

#[verifier::ext_equal]
pub enum TitleStreamEventView {
    TextDelta(Seq<char>),
    MessageDone(Seq<Seq<char>>),
    Completed,
    Other,
}

impl DeepView for TitleStreamEvent {
    type V = TitleStreamEventView;

    open spec fn deep_view(&self) -> TitleStreamEventView {
        match self {
            TitleStreamEvent::TextDelta(value) => TitleStreamEventView::TextDelta(
                value.deep_view(),
            ),
            TitleStreamEvent::MessageDone(value) => TitleStreamEventView::MessageDone(
                value.deep_view(),
            ),
            TitleStreamEvent::Completed => TitleStreamEventView::Completed,
            TitleStreamEvent::Other => TitleStreamEventView::Other,
        }
    }
}

/// A request for a title: the model that is asked, and what it is asked.
#[derive(Debug, PartialEq)]
pub struct TitleRequest {
    pub model: String,
    pub prompt: String,
}

#[verifier::ext_equal]
pub struct TitleRequestView {
    pub model: Seq<char>,
    pub prompt: Seq<char>,
}

impl DeepView for TitleRequest {
    type V = TitleRequestView;

    open spec fn deep_view(&self) -> TitleRequestView {
        TitleRequestView {
            model: self.model.deep_view(),
            prompt: self.prompt.deep_view(),
        }
    }
}

/// Publishes a title, unless it is the one shown already.
pub open spec fn title_published(current: Option<Seq<char>>, title: Seq<char>) -> (
    Option<Seq<char>>,
    Option<NotificationView>,
) {
    if current == Some(title) {
        (current, None)
    } else {
        (
            Some(title),
            Some(plain(SessionUpdateView::SessionInfo { title: Some(title) })),
        )
    }
}

pub fn publish_session_title(current_title: &mut Option<String>, title: String) -> (message: Option<
    Notification,
>)
    ensures
        (final(current_title).deep_view(), message.deep_view()) == title_published(
            old(current_title).deep_view(),
            title@,
        ),
{
    if is_some_text(&*current_title, title.as_str()) {
        return None;
    }
    *current_title = Some(title.clone());
    Some(session_title(title))
}

/// What a title is made from: the first message of the thread, else the prompt of the turn.
pub open spec fn title_source(
    prompt_text: Option<Seq<char>>,
    stored: Option<ThreadTitleStateView>,
) -> Option<Seq<char>> {
    match stored {
        Some(stored) => match stored.first_user_message {
            Some(message) => Some(message),
            None => prompt_text,
        },
        None => prompt_text,
    }
}

/// The title that the thread has stored, if it is one.
pub open spec fn stored_title(stored: Option<ThreadTitleStateView>) -> Option<Seq<char>> {
    match stored {
        Some(stored) => match stored.name {
            Some(name) => normalized_title(name, stored.first_user_message),
            None => None,
        },
        None => None,
    }
}

/// What is done about the title: nothing where one is shown; else the stored one is published;
/// else one is generated, where there is a generator and something to generate it from. `stored`
/// is absent where it could not be read.
pub open spec fn title_decision(
    shown: Option<Seq<char>>,
    prompt_text: Option<Seq<char>>,
    stored: Option<ThreadTitleStateView>,
    has_generator: bool,
) -> TitleDecisionView {
    if shown is Some {
        TitleDecisionView::Nothing
    } else {
        match stored_title(stored) {
            Some(title) => TitleDecisionView::Publish(title),
            None => match title_source(prompt_text, stored) {
                Some(text) => if has_generator && trimmed(text).len() > 0 {
                    TitleDecisionView::Generate { prompt_text: text }
                } else {
                    TitleDecisionView::Nothing
                },
                None => TitleDecisionView::Nothing,
            },
        }
    }
}

pub fn decide_title(
    shown: &Option<String>,
    prompt_text: &Option<String>,
    stored: Option<ThreadTitleState>,
    has_generator: bool,
) -> (decision: TitleDecision)
    ensures
        decision.deep_view() == title_decision(
            shown.deep_view(),
            prompt_text.deep_view(),
            stored.deep_view(),
            has_generator,
        ),
{
    if shown.is_some() {
        return TitleDecision::Nothing;
    }
    let mut source = copy_option(prompt_text);
    if let Some(stored) = stored {
        if let Some(name) = &stored.name {
            let first = match &stored.first_user_message {
                Some(message) => Some(message.as_str()),
                None => None,
            };
            if let Some(title) = normalize_session_title(name.as_str(), first) {
                return TitleDecision::Publish(title);
            }
        }
        if stored.first_user_message.is_some() {
            source = stored.first_user_message;
        }
    }
    match source {
        Some(text) => if has_generator && !trim(text.as_str()).is_empty() {
            TitleDecision::Generate { prompt_text: text }
        } else {
            TitleDecision::Nothing
        },
        None => TitleDecision::Nothing,
    }
}

/// Reads what the thread has stored and decides about the title.
pub fn maybe_publish_session_title<T: CodexThreadImpl>(
    thread: &T,
    shown: &Option<String>,
    prompt_text: &Option<String>,
    has_generator: bool,
) -> (decision: TitleDecision)
    ensures
        shown is Some ==> decision.deep_view() == TitleDecisionView::Nothing,
        shown is None ==> exists|read: Result<ThreadTitleState, String>| #[trigger]
            call_ensures(T::read_thread_title_state, (thread,), read) && decision.deep_view()
                == title_decision(
                shown.deep_view(),
                prompt_text.deep_view(),
                result_view(read).ok(),
                has_generator,
            ),
{
    if shown.is_some() {
        return TitleDecision::Nothing;
    }
    let read = thread.read_thread_title_state();
    assert(call_ensures(T::read_thread_title_state, (thread,), read));
    let stored = match read {
        Ok(state) => Some(state),
        Err(_) => None,
    };
    decide_title(shown, prompt_text, stored, has_generator)
}

/// What follows from what the generator came back with: the agent itself is asked only where the
/// generator failed.
pub open spec fn after_generator(outcome: GeneratorOutcomeView) -> TitleStepView {
    match outcome {
        GeneratorOutcomeView::Title(Some(title)) => TitleStepView::Publish(title),
        GeneratorOutcomeView::Title(None) => TitleStepView::Nothing,
        GeneratorOutcomeView::Failed => TitleStepView::HiddenTurn,
    }
}

pub fn title_step(outcome: GeneratorOutcome) -> (step: TitleStep)
    ensures
        step.deep_view() == after_generator(outcome.deep_view()),
{
    match outcome {
        GeneratorOutcome::Title(title) => match title {
            Some(title) => TitleStep::Publish(title),
            None => TitleStep::Nothing,
        },
        GeneratorOutcome::Failed => TitleStep::HiddenTurn,
    }
}

/// Stores a generated title with the thread and publishes it. A title that cannot be stored is
/// published all the same.
pub fn store_session_title<T: CodexThreadImpl>(
    thread: &T,
    current_title: &mut Option<String>,
    title: String,
) -> (message: Option<Notification>)
    ensures
        exists|name: String, stored: Result<(), String>| #[trigger]
            call_ensures(T::set_thread_name, (thread, name), stored) && name@ == title@,
        (final(current_title).deep_view(), message.deep_view()) == title_published(
            old(current_title).deep_view(),
            title@,
        ),
{
    let name = title.clone();
    let ghost wanted = name;
    let stored = thread.set_thread_name(name);
    assert(call_ensures(T::set_thread_name, (thread, wanted), stored));
    publish_session_title(current_title, title)
}

/// The prompt of a hidden turn.
pub open spec fn hidden_prompt(prompt: Seq<char>, response: Option<Seq<char>>) -> OpView {
    OpView::UserInput { items: seq![UserInputView::Text(title_prompt(prompt, response))] }
}

pub fn hidden_title_prompt(prompt_text: &str, response_text: Option<&str>) -> (op: Op)
    ensures
        op.deep_view() == hidden_prompt(prompt_text@, response_text.deep_view()),
{
    Op::UserInput {
        items: one(UserInput::Text(build_session_title_prompt(prompt_text, response_text))),
    }
}

/// A hidden turn that was just submitted, or why it was not.
pub open spec fn hidden_turn(
    prompt: Seq<char>,
    submitted: Result<Seq<char>, Seq<char>>,
) -> Result<HiddenTitleTurnView, Seq<char>> {
    match submitted {
        Ok(submission_id) => Ok(
            HiddenTitleTurnView { submission_id, prompt_text: prompt, title: Seq::empty() },
        ),
        Err(message) => Err(message),
    }
}

/// Starts a hidden turn: what is submitted is the prompt for a title.
pub fn generate_session_title_via_hidden_turn<T: CodexThreadImpl>(
    thread: &T,
    prompt_text: String,
    response_text: Option<&str>,
) -> (turn: Result<HiddenTitleTurn, String>)
    ensures
        exists|op: Op, submitted: Result<String, String>| #[trigger]
            call_ensures(T::submit, (thread, op), submitted) && op.deep_view() == hidden_prompt(
                prompt_text@,
                response_text.deep_view(),
            ) && result_view(turn) == hidden_turn(prompt_text@, result_view(submitted)),
{
    let op = hidden_title_prompt(prompt_text.as_str(), response_text);
    let ghost asked = op;
    let submitted = thread.submit(op);
    assert(call_ensures(T::submit, (thread, asked), submitted));
    match submitted {
        Ok(submission_id) => Ok(
            HiddenTitleTurn { submission_id, prompt_text, title: String::new() },
        ),
        Err(message) => Err(message),
    }
}

/// `title` with `text` behind it, if it is blank so far.
pub open spec fn filled(title: Seq<char>, text: Seq<char>) -> Seq<char> {
    if trimmed(title).len() == 0 {
        title + text
    } else {
        title
    }
}

fn fill(title: &str, text: &str) -> (whole: String)
    ensures
        whole@ == filled(title@, text@),
{
    if trim(title).is_empty() {
        concat2(title, text)
    } else {
        title.to_owned()
    }
}

/// The events by which the agent asks for a tool or for a permission.
pub open spec fn asks_for_tool(msg: EventMsgView) -> bool {
    match msg {
        EventMsgView::ExecApprovalRequest(_) => true,
        EventMsgView::RequestPermissions { .. } => true,
        EventMsgView::DynamicToolCallRequest { .. } => true,
        EventMsgView::McpToolCallBegin { .. } => true,
        EventMsgView::ApplyPatchApprovalRequest { .. } => true,
        EventMsgView::PatchApplyBegin { .. } => true,
        _ => false,
    }
}

/// The title that a hidden turn has gathered after an event of its own.
pub open spec fn gathered_title(title: Seq<char>, msg: EventMsgView) -> Seq<char> {
    match msg {
        EventMsgView::AgentMessageContentDelta { delta, .. } => title + delta,
        EventMsgView::AgentMessage { message, .. } => filled(title, message),
        EventMsgView::TurnComplete { last_agent_message: Some(message) } => filled(title, message),
        _ => title,
    }
}

/// How a hidden turn goes on after an event of its own. It ends without a title where it is
/// aborted, and is interrupted where it asks for a tool.
pub open spec fn hidden_turn_step(
    turn: HiddenTitleTurnView,
    msg: EventMsgView,
) -> HiddenTurnStepView {
    match msg {
        EventMsgView::TurnComplete { .. } => HiddenTurnStepView::Finished(
            normalized_title(gathered_title(turn.title, msg), Some(turn.prompt_text)),
        ),
        EventMsgView::TurnAborted => HiddenTurnStepView::Finished(None),
        EventMsgView::Error { message, .. } => HiddenTurnStepView::Failed(
            "hidden title turn failed: "@ + message,
        ),
        EventMsgView::StreamError { message } => HiddenTurnStepView::Failed(
            "hidden title turn stream failed: "@ + message,
        ),
        _ => if asks_for_tool(msg) {
            HiddenTurnStepView::Interrupt
        } else {
            HiddenTurnStepView::Continue
        },
    }
}

impl HiddenTitleTurn {
    /// Takes an event. One of another submission is ignored.
    pub fn collect_hidden_title_turn(&mut self, event: Event) -> (step: HiddenTurnStep)
        ensures
            event.id@ == old(self).submission_id@ ==> {
                &&& step.deep_view() == hidden_turn_step(
                    old(self).deep_view(),
                    event.msg.deep_view(),
                )
                &&& final(self).deep_view() == (HiddenTitleTurnView {
                    title: gathered_title(old(self).deep_view().title, event.msg.deep_view()),
                    ..old(self).deep_view()
                })
            },
            event.id@ != old(self).submission_id@ ==> {
                &&& step.deep_view() == HiddenTurnStepView::Continue
                &&& final(self).deep_view() == old(self).deep_view()
            },
    {
        if !same(event.id.as_str(), self.submission_id.as_str()) {
            return HiddenTurnStep::Continue;
        }
        match event.msg {
            EventMsg::AgentMessageContentDelta { delta, .. } => {
                let title = concat2(self.title.as_str(), delta.as_str());
                self.title = title;
                HiddenTurnStep::Continue
            },
            EventMsg::AgentMessage { message, .. } => {
                let title = fill(self.title.as_str(), message.as_str());
                self.title = title;
                HiddenTurnStep::Continue
            },
            EventMsg::TurnComplete { last_agent_message } => {
                if let Some(message) = last_agent_message {
                    let title = fill(self.title.as_str(), message.as_str());
                    self.title = title;
                }
                HiddenTurnStep::Finished(
                    normalize_session_title(
                        self.title.as_str(),
                        Some(self.prompt_text.as_str()),
                    ),
                )
            },
            EventMsg::TurnAborted => HiddenTurnStep::Finished(None),
            EventMsg::Error { message, .. } => HiddenTurnStep::Failed(
                concat2("hidden title turn failed: ", message.as_str()),
            ),
            EventMsg::StreamError { message } => HiddenTurnStep::Failed(
                concat2("hidden title turn stream failed: ", message.as_str()),
            ),
            EventMsg::ExecApprovalRequest(_) => HiddenTurnStep::Interrupt,
            EventMsg::RequestPermissions { .. } => HiddenTurnStep::Interrupt,
            EventMsg::DynamicToolCallRequest { .. } => HiddenTurnStep::Interrupt,
            EventMsg::McpToolCallBegin { .. } => HiddenTurnStep::Interrupt,
            EventMsg::ApplyPatchApprovalRequest { .. } => HiddenTurnStep::Interrupt,
            EventMsg::PatchApplyBegin { .. } => HiddenTurnStep::Interrupt,
            _ => HiddenTurnStep::Continue,
        }
    }
}

/// What follows a hidden turn. One that finished or asked for a tool is taken back; one that asked
/// for a tool or took too long is interrupted. A title comes only out of one that finished.
pub open spec fn hidden_turn_follow_up(outcome: HiddenTurnOutcomeView) -> HiddenTurnActionView {
    match outcome {
        HiddenTurnOutcomeView::Finished(title) => HiddenTurnActionView {
            interrupt: false,
            roll_back: true,
            title,
        },
        HiddenTurnOutcomeView::ToolRequested => HiddenTurnActionView {
            interrupt: true,
            roll_back: true,
            title: None,
        },
        HiddenTurnOutcomeView::Failed(_) => HiddenTurnActionView {
            interrupt: false,
            roll_back: false,
            title: None,
        },
        HiddenTurnOutcomeView::TimedOut => HiddenTurnActionView {
            interrupt: true,
            roll_back: false,
            title: None,
        },
    }
}

/// Decides what follows a hidden turn.
pub fn hidden_turn_next(outcome: HiddenTurnOutcome) -> (next: HiddenTurnAction)
    ensures
        next.deep_view() == hidden_turn_follow_up(outcome.deep_view()),
{
    match outcome {
        HiddenTurnOutcome::Finished(title) => HiddenTurnAction {
            interrupt: false,
            roll_back: true,
            title,
        },
        HiddenTurnOutcome::ToolRequested => HiddenTurnAction {
            interrupt: true,
            roll_back: true,
            title: None,
        },
        HiddenTurnOutcome::Failed(_) => HiddenTurnAction {
            interrupt: false,
            roll_back: false,
            title: None,
        },
        HiddenTurnOutcome::TimedOut => HiddenTurnAction {
            interrupt: true,
            roll_back: false,
            title: None,
        },
    }
}

/// Whether the hidden turn was taken back, once an event tells.
pub open spec fn rollback_step(rollback_id: Seq<char>, event: EventView) -> Option<bool> {
    if event.id != rollback_id {
        None
    } else {
        match event.msg {
            EventMsgView::ThreadRolledBack => Some(true),
            EventMsgView::Error { .. } => Some(false),
            EventMsgView::StreamError { .. } => Some(false),
            _ => None,
        }
    }
}

/// The operation that takes a hidden turn back.
pub fn hidden_turn_rollback() -> (op: Op)
    ensures
        op.deep_view() == (OpView::ThreadRollback { num_turns: 1 }),
{
    Op::ThreadRollback { num_turns: 1 }
}

/// Takes an event while a hidden turn is taken back.
pub fn rollback_hidden_title_turn(rollback_id: &str, event: &Event) -> (rolled_back: Option<bool>)
    ensures
        rolled_back == rollback_step(rollback_id@, event.deep_view()),
{
    if !same(event.id.as_str(), rollback_id) {
        return None;
    }
    match &event.msg {
        EventMsg::ThreadRolledBack => Some(true),
        EventMsg::Error { .. } => Some(false),
        EventMsg::StreamError { .. } => Some(false),
        _ => None,
    }
}

/// Asks a model for titles.
pub struct ModelSessionTitleGenerator<A, M> {
    pub auth: A,
    pub models_manager: M,
    pub config: Config,
}

impl<A, M: ModelsManagerImpl> ModelSessionTitleGenerator<A, M> {
    pub fn new(auth: A, models_manager: M, config: Config) -> (generator: Self)
        ensures
            generator.auth == auth,
            generator.models_manager == models_manager,
            generator.config == config,
    {
        ModelSessionTitleGenerator { auth, models_manager, config }
    }

    /// The request for a title. The model that is asked is the one to use where that of the
    /// configuration is configured.
    pub fn title_request(&self, prompt_text: &str, response_text: Option<&str>) -> (request:
        TitleRequest)
        ensures
            exists|model: String| #[trigger]
                call_ensures(
                    M::get_model,
                    (&self.models_manager, &self.config.model),
                    model,
                ) && request.deep_view() == (TitleRequestView {
                    model: model@,
                    prompt: title_prompt(prompt_text@, response_text.deep_view()),
                }),
    {
        let model = self.models_manager.get_model(&self.config.model);
        assert(call_ensures(M::get_model, (&self.models_manager, &self.config.model), model));
        TitleRequest { model, prompt: build_session_title_prompt(prompt_text, response_text) }
    }
}

/// A title as a model writes it.
#[derive(Debug, PartialEq)]
pub struct TitleStream {
    pub title: String,
}

/// All the texts, one after the other.
pub open spec fn all_texts(texts: Seq<Seq<char>>) -> Seq<char>
    decreases texts.len(),
{
    if texts.len() == 0 {
        Seq::empty()
    } else {
        all_texts(texts.drop_last()) + texts.last()
    }
}

/// The title after an event. A finished message counts only where nothing was streamed.
pub open spec fn streamed_title(title: Seq<char>, event: TitleStreamEventView) -> Seq<char> {
    match event {
        TitleStreamEventView::TextDelta(delta) => title + delta,
        TitleStreamEventView::MessageDone(texts) => filled(title, all_texts(texts)),
        _ => title,
    }
}

impl TitleStream {
    pub fn new() -> (stream: Self)
        ensures
            stream.title@ == Seq::<char>::empty(),
    {
        TitleStream { title: String::new() }
    }

    /// Takes an event; tells whether the response is complete.
    pub fn take(&mut self, event: TitleStreamEvent) -> (complete: bool)
        ensures
            final(self).title@ == streamed_title(old(self).title@, event.deep_view()),
            complete == (event is Completed),
    {
        match event {
            TitleStreamEvent::TextDelta(delta) => {
                let title = concat2(self.title.as_str(), delta.as_str());
                self.title = title;
                false
            },
            TitleStreamEvent::MessageDone(texts) => {
                if trim(self.title.as_str()).is_empty() {
                    let ghost start = self.title@;
                    let ghost all = texts.deep_view();
                    let mut title = self.title.clone();
                    assert(all_texts(all.take(0)) =~= Seq::<char>::empty());
                    for i in 0..texts.len()
                        invariant
                            all == texts.deep_view(),
                            title@ == start + all_texts(all.take(i as int)),
                    {
                        assert(all.take(i + 1).drop_last() =~= all.take(i as int));
                        assert(all.take(i + 1).last() == texts@[i as int]@);
                        title.append(texts[i].as_str());
                        assert(title@ =~= start + all_texts(all.take(i + 1)));
                    }
                    assert(all.take(all.len() as int) =~= all);
                    self.title = title;
                }
                false
            },
            TitleStreamEvent::Completed => true,
            TitleStreamEvent::Other => false,
        }
    }

    /// The title that the model wrote, if it is one.
    pub fn generate_title(&self, prompt_text: &str) -> (title: Option<String>)
        ensures
            title.deep_view() == normalized_title(self.title@, Some(prompt_text@)),
    {
        normalize_session_title(self.title.as_str(), Some(prompt_text))
    }
}

/// A title is told exactly when it is not the one that is shown: telling it again says nothing.
pub proof fn title_is_told_once(current: Option<Seq<char>>, title: Seq<char>)
    ensures
        title_published(current, title).0 == Some(title),
        title_published(current, title).1 is None <==> current == Some(title),
        title_published(title_published(current, title).0, title) == (
            Some(title),
            None::<NotificationView>,
        ),
{
}

/// A title that is shown is never replaced when a turn is complete, and one that is stored is
/// never generated anew.
pub proof fn title_is_not_replaced(
    shown: Option<Seq<char>>,
    prompt_text: Option<Seq<char>>,
    stored: Option<ThreadTitleStateView>,
    has_generator: bool,
)
    ensures
        shown is Some ==> title_decision(shown, prompt_text, stored, has_generator)
            == TitleDecisionView::Nothing,
        title_decision(shown, prompt_text, stored, has_generator) is Generate ==> has_generator
            && stored_title(stored) is None,
        title_decision(shown, prompt_text, stored, has_generator) matches
            TitleDecisionView::Generate { prompt_text } ==> trimmed(prompt_text).len() > 0,
{
}

/// A hidden turn that asks for a tool or a permission, is aborted or fails gives no title.
pub proof fn hidden_turn_gives_title_only_when_complete(
    turn: HiddenTitleTurnView,
    msg: EventMsgView,
)
    ensures
        hidden_turn_step(turn, msg) matches HiddenTurnStepView::Finished(Some(_)) ==> msg
            is TurnComplete,
        asks_for_tool(msg) <==> hidden_turn_step(turn, msg) is Interrupt,
{
}

/// A title comes only out of a hidden turn that ran to its end without an interruption, and such a
/// turn is always taken back.
pub proof fn title_comes_from_a_turn_taken_back(outcome: HiddenTurnOutcomeView)
    ensures
        hidden_turn_follow_up(outcome).title is Some ==> outcome is Finished
            && hidden_turn_follow_up(outcome).roll_back && !hidden_turn_follow_up(
            outcome,
        ).interrupt,
        outcome is Finished ==> hidden_turn_follow_up(outcome).title
            == outcome->Finished_0 && hidden_turn_follow_up(outcome).roll_back,
{
}

/// A hidden turn gives what was streamed, and what the agent said last only where nothing was.
pub proof fn streamed_title_comes_first(turn: HiddenTitleTurnView, message: Option<Seq<char>>)
    requires
        trimmed(turn.title).len() > 0,
    ensures
        hidden_turn_step(turn, EventMsgView::TurnComplete { last_agent_message: message })
            == HiddenTurnStepView::Finished(normalized_title(turn.title, Some(turn.prompt_text))),
{
}

} // verus!
