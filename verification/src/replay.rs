//! The history of a session, told again to the client.
use crate::client::{
    agent_text, agent_thought, completed_call, completed_tool_call, completed_update, new_call,
    new_tool_call, plain, tool_call, tool_call_completed, user_message,
};
use crate::collections::{add_item, empty, one, three};
use crate::events::{EventMsg, EventMsgView, ParsedCommand, ParsedCommandView};
use crate::json::{Json, JsonView, parse, parsed};
use crate::paths::{join_path, path_joined};
use crate::permissions::{
    ParseCommandToolCall, ParseCommandToolCallView, format_thread_goal_update, goal_update_text,
};
use crate::permissions::commands::{command_tool_call, parse_command_tool_call};
use crate::prompt_events::{is_commentary, is_commentary_phase, prompt_step, told};
use crate::prompt_state::{EffectView, PromptStateView};
use crate::protocol::{
    LocalShellStatus, MessagePhase, Notification, NotificationView, SessionUpdateView,
    ToolCallContent, ToolCallContentView, ToolCallStatus, ToolCallView, ToolKind,
};
use crate::text::{concat2, join, joined, same};
use crate::tool_events::{image_content, image_generation_content};
use vstd::prelude::*;

verus! {

/// The lines that a piece of a patch takes out and puts in.
#[derive(Debug, PartialEq)]
pub struct PatchChunk {
    pub old_lines: Vec<String>,
    pub new_lines: Vec<String>,
}

#[verifier::ext_equal]
pub struct PatchChunkView {
    pub old_lines: Seq<Seq<char>>,
    pub new_lines: Seq<Seq<char>>,
}

impl DeepView for PatchChunk {
    type V = PatchChunkView;

    open spec fn deep_view(&self) -> PatchChunkView {
        PatchChunkView {
            old_lines: self.old_lines.deep_view(),
            new_lines: self.new_lines.deep_view(),
        }
    }
}

/// A file of a patch.
#[derive(Debug)]
pub enum PatchHunk {
    AddFile { path: String, contents: String },
    DeleteFile { path: String },
    UpdateFile { path: String, move_path: Option<String>, chunks: Vec<PatchChunk> },
}

#[verifier::ext_equal]
pub enum PatchHunkView {
    AddFile { path: Seq<char>, contents: Seq<char> },
    DeleteFile { path: Seq<char> },
    UpdateFile { path: Seq<char>, move_path: Option<Seq<char>>, chunks: Seq<PatchChunkView> },
}

impl DeepView for PatchHunk {
    type V = PatchHunkView;

    open spec fn deep_view(&self) -> PatchHunkView {
        match self {
            PatchHunk::AddFile { path, contents } => PatchHunkView::AddFile {
                path: path.deep_view(),
                contents: contents.deep_view(),
            },
            PatchHunk::DeleteFile { path } => PatchHunkView::DeleteFile {
                path: path.deep_view(),
            },
            PatchHunk::UpdateFile { path, move_path, chunks } => PatchHunkView::UpdateFile {
                path: path.deep_view(),
                move_path: move_path.deep_view(),
                chunks: chunks.deep_view(),
            },
        }
    }
}

/// A shell call of the history: its commands as parsed, and where it ran.
#[derive(Debug)]
pub struct ShellCall {
    pub parsed_cmd: Vec<ParsedCommand>,
    pub workdir: Option<String>,
}

#[verifier::ext_equal]
pub struct ShellCallView {
    pub parsed_cmd: Seq<ParsedCommandView>,
    pub workdir: Option<Seq<char>>,
}

impl DeepView for ShellCall {
    type V = ShellCallView;

    open spec fn deep_view(&self) -> ShellCallView {
        ShellCallView {
            parsed_cmd: self.parsed_cmd.deep_view(),
            workdir: self.workdir.deep_view(),
        }
    }
}

/// The arguments of a shell call: a script, or the words of a command.
#[allow(inconsistent_fields)]
#[derive(Debug)]
pub enum ShellArguments {
    Script { command: String, workdir: Option<String> },
    Words { command: Vec<String>, workdir: Option<String> },
}

#[allow(inconsistent_fields)]
#[verifier::ext_equal]
pub enum ShellArgumentsView {
    Script { command: Seq<char>, workdir: Option<Seq<char>> },
    Words { command: Seq<Seq<char>>, workdir: Option<Seq<char>> },
}

impl DeepView for ShellArguments {
    type V = ShellArgumentsView;

    open spec fn deep_view(&self) -> ShellArgumentsView {
        match self {
            ShellArguments::Script { command, workdir } => ShellArgumentsView::Script {
                command: command.deep_view(),
                workdir: workdir.deep_view(),
            },
            ShellArguments::Words { command, workdir } => ShellArgumentsView::Words {
                command: command.deep_view(),
                workdir: workdir.deep_view(),
            },
        }
    }
}

/// How a web search of the history is shown.
#[derive(Debug, PartialEq)]
pub struct WebSearchShown {
    pub title: String,
    pub call_id: String,
}

#[verifier::ext_equal]
pub struct WebSearchShownView {
    pub title: Seq<char>,
    pub call_id: Seq<char>,
}

impl DeepView for WebSearchShown {
    type V = WebSearchShownView;

    open spec fn deep_view(&self) -> WebSearchShownView {
        WebSearchShownView {
            title: self.title.deep_view(),
            call_id: self.call_id.deep_view(),
        }
    }
}

/// A response item of the history. The arguments and the input of a call are its text; `shell` and
/// `patch` are what they hold where they are understood.
#[allow(inconsistent_fields)]
#[derive(Debug)]
pub enum ResponseItem {
    FunctionCall { name: String, call_id: String, arguments: String, shell: Option<ShellCall> },
    FunctionCallOutput { call_id: String, output: Option<Json> },
    LocalShellCall { call_id: Option<String>, shell: ShellCall, status: LocalShellStatus },
    CustomToolCall { name: String, call_id: String, input: String, patch: Option<Vec<PatchHunk>> },
    CustomToolCallOutput { call_id: String, output: Json },
    WebSearchCall { shown: Option<WebSearchShown>, fallback_id: String },
    ImageGenerationCall {
        id: String,
        status_text: String,
        status: ToolCallStatus,
        revised_prompt: Option<String>,
        result: String,
    },
    Other,
}

#[allow(inconsistent_fields)]
#[verifier::ext_equal]
pub enum ResponseItemView {
    FunctionCall {
        name: Seq<char>,
        call_id: Seq<char>,
        arguments: Seq<char>,
        shell: Option<ShellCallView>,
    },
    FunctionCallOutput { call_id: Seq<char>, output: Option<JsonView> },
    LocalShellCall { call_id: Option<Seq<char>>, shell: ShellCallView, status: LocalShellStatus },
    CustomToolCall {
        name: Seq<char>,
        call_id: Seq<char>,
        input: Seq<char>,
        patch: Option<Seq<PatchHunkView>>,
    },
    CustomToolCallOutput { call_id: Seq<char>, output: JsonView },
    WebSearchCall { shown: Option<WebSearchShownView>, fallback_id: Seq<char> },
    ImageGenerationCall {
        id: Seq<char>,
        status_text: Seq<char>,
        status: ToolCallStatus,
        revised_prompt: Option<Seq<char>>,
        result: Seq<char>,
    },
    Other,
}

impl DeepView for ResponseItem {
    type V = ResponseItemView;

    open spec fn deep_view(&self) -> ResponseItemView {
        match self {
            ResponseItem::FunctionCall {
                name,
                call_id,
                arguments,
                shell,
            } => ResponseItemView::FunctionCall {
                name: name.deep_view(),
                call_id: call_id.deep_view(),
                arguments: arguments.deep_view(),
                shell: shell.deep_view(),
            },
            ResponseItem::FunctionCallOutput {
                call_id,
                output,
            } => ResponseItemView::FunctionCallOutput {
                call_id: call_id.deep_view(),
                output: output.deep_view(),
            },
            ResponseItem::LocalShellCall {
                call_id,
                shell,
                status,
            } => ResponseItemView::LocalShellCall {
                call_id: call_id.deep_view(),
                shell: shell.deep_view(),
                status: status.deep_view(),
            },
            ResponseItem::CustomToolCall {
                name,
                call_id,
                input,
                patch,
            } => ResponseItemView::CustomToolCall {
                name: name.deep_view(),
                call_id: call_id.deep_view(),
                input: input.deep_view(),
                patch: patch.deep_view(),
            },
            ResponseItem::CustomToolCallOutput {
                call_id,
                output,
            } => ResponseItemView::CustomToolCallOutput {
                call_id: call_id.deep_view(),
                output: output.deep_view(),
            },
            ResponseItem::WebSearchCall { shown, fallback_id } => ResponseItemView::WebSearchCall {
                shown: shown.deep_view(),
                fallback_id: fallback_id.deep_view(),
            },
            ResponseItem::ImageGenerationCall {
                id,
                status_text,
                status,
                revised_prompt,
                result,
            } => ResponseItemView::ImageGenerationCall {
                id: id.deep_view(),
                status_text: status_text.deep_view(),
                status: status.deep_view(),
                revised_prompt: revised_prompt.deep_view(),
                result: result.deep_view(),
            },
            ResponseItem::Other => ResponseItemView::Other,
        }
    }
}

/// An item of the history.
#[derive(Debug)]
pub enum RolloutItem {
    Event(EventMsg),
    Response(ResponseItem),
    Other,
}

#[verifier::ext_equal]
pub enum RolloutItemView {
    Event(EventMsgView),
    Response(ResponseItemView),
    Other,
}

impl DeepView for RolloutItem {
    type V = RolloutItemView;

    open spec fn deep_view(&self) -> RolloutItemView {
        match self {
            RolloutItem::Event(value) => RolloutItemView::Event(value.deep_view()),
            RolloutItem::Response(value) => RolloutItemView::Response(value.deep_view()),
            RolloutItem::Other => RolloutItemView::Other,
        }
    }
}

/// A patch as it is shown.
#[derive(Debug, PartialEq)]
pub struct PatchShown {
    pub title: String,
    pub locations: Vec<String>,
    pub content: Vec<ToolCallContent>,
}

#[verifier::ext_equal]
pub struct PatchShownView {
    pub title: Seq<char>,
    pub locations: Seq<Seq<char>>,
    pub content: Seq<ToolCallContentView>,
}

impl DeepView for PatchShown {
    type V = PatchShownView;

    open spec fn deep_view(&self) -> PatchShownView {
        PatchShownView {
            title: self.title.deep_view(),
            locations: self.locations.deep_view(),
            content: self.content.deep_view(),
        }
    }
}

/// What is told again of an event: messages but no commentary, thoughts and goals.
pub open spec fn event_replayed(msg: EventMsgView) -> Seq<NotificationView> {
    match msg {
        EventMsgView::UserMessage { message } => seq![
            plain(SessionUpdateView::UserMessage(message)),
        ],
        EventMsgView::AgentMessage { message, phase } => if is_commentary(phase) {
            seq![]
        } else {
            seq![plain(SessionUpdateView::AgentText(message))]
        },
        EventMsgView::AgentReasoning { text } => seq![
            plain(SessionUpdateView::AgentThought(text)),
        ],
        EventMsgView::AgentReasoningRawContent { text } => seq![
            plain(SessionUpdateView::AgentThought(text)),
        ],
        EventMsgView::ThreadGoalUpdated { objective, status } => seq![
            plain(SessionUpdateView::AgentText(goal_update_text(objective, status))),
        ],
        _ => seq![],
    }
}

pub fn replay_event_msg(msg: EventMsg) -> (messages: Vec<Notification>)
    ensures
        messages.deep_view() == event_replayed(msg.deep_view()),
{
    match msg {
        EventMsg::UserMessage { message } => one(user_message(message)),
        EventMsg::AgentMessage { message, phase } => if is_commentary_phase(phase) {
            empty()
        } else {
            one(agent_text(message))
        },
        EventMsg::AgentReasoning { text } => one(agent_thought(text)),
        EventMsg::AgentReasoningRawContent { text } => one(agent_thought(text)),
        EventMsg::ThreadGoalUpdated { objective, status } => one(
            agent_text(format_thread_goal_update(objective.as_str(), status)),
        ),
        _ => empty(),
    }
}

/// The lines that the pieces of a patch take out, or put in, one after the other.
pub open spec fn all_chunk_lines(chunks: Seq<PatchChunkView>, old_side: bool) -> Seq<Seq<char>>
    decreases chunks.len(),
{
    if chunks.len() == 0 {
        seq![]
    } else {
        all_chunk_lines(chunks.drop_last(), old_side) + if old_side {
            chunks.last().old_lines
        } else {
            chunks.last().new_lines
        }
    }
}

pub open spec fn hunk_path(hunk: PatchHunkView) -> Seq<char> {
    match hunk {
        PatchHunkView::AddFile { path, .. } => path,
        PatchHunkView::DeleteFile { path } => path,
        PatchHunkView::UpdateFile { path, .. } => path,
    }
}

/// Where the file of a hunk is once the patch is applied.
pub open spec fn hunk_location(hunk: PatchHunkView, cwd: Seq<char>) -> Seq<char> {
    match hunk {
        PatchHunkView::UpdateFile { move_path: Some(target), .. } => path_joined(cwd, target),
        _ => path_joined(cwd, hunk_path(hunk)),
    }
}

pub open spec fn hunk_diff(hunk: PatchHunkView, cwd: Seq<char>) -> ToolCallContentView {
    match hunk {
        PatchHunkView::AddFile { contents, .. } => ToolCallContentView::Diff {
            path: hunk_location(hunk, cwd),
            old_text: None,
            new_text: contents,
        },
        PatchHunkView::DeleteFile { .. } => ToolCallContentView::Diff {
            path: hunk_location(hunk, cwd),
            old_text: Some("[file deleted]"@),
            new_text: Seq::empty(),
        },
        PatchHunkView::UpdateFile { chunks, .. } => ToolCallContentView::Diff {
            path: hunk_location(hunk, cwd),
            old_text: Some(joined(all_chunk_lines(chunks, true), "\n"@)),
            new_text: joined(all_chunk_lines(chunks, false), "\n"@),
        },
    }
}

pub open spec fn hunk_paths(hunks: Seq<PatchHunkView>) -> Seq<Seq<char>> {
    hunks.map_values(|hunk: PatchHunkView| hunk_path(hunk))
}

pub open spec fn hunk_locations(hunks: Seq<PatchHunkView>, cwd: Seq<char>) -> Seq<Seq<char>> {
    hunks.map_values(|hunk: PatchHunkView| hunk_location(hunk, cwd))
}

pub open spec fn hunk_diffs(hunks: Seq<PatchHunkView>, cwd: Seq<char>) -> Seq<ToolCallContentView> {
    hunks.map_values(|hunk: PatchHunkView| hunk_diff(hunk, cwd))
}

/// How a patch of the history is shown.
pub open spec fn patch_shown(hunks: Seq<PatchHunkView>, cwd: Seq<char>) -> PatchShownView {
    PatchShownView {
        title: if hunks.len() == 0 {
            "Apply patch"@
        } else {
            "Edit "@ + joined(hunk_paths(hunks), ", "@)
        },
        locations: hunk_locations(hunks, cwd),
        content: hunk_diffs(hunks, cwd),
    }
}

fn add_lines(lines: &mut Vec<String>, more: &Vec<String>)
    ensures
        final(lines).deep_view() == old(lines).deep_view() + more.deep_view(),
{
    let ghost start = lines.deep_view();
    let ghost all = more.deep_view();
    assert(start + all.take(0) =~= start);
    for i in 0..more.len()
        invariant
            all == more.deep_view(),
            lines.deep_view() == start + all.take(i as int),
    {
        assert(start + all.take(i + 1) =~= (start + all.take(i as int)).push(all[i as int]));
        add_item(lines, more[i].clone());
    }
    assert(all.take(all.len() as int) =~= all);
}

fn chunk_lines(chunks: &Vec<PatchChunk>, old_side: bool) -> (lines: Vec<String>)
    ensures
        lines.deep_view() == all_chunk_lines(chunks.deep_view(), old_side),
{
    let mut lines: Vec<String> = empty();
    let ghost all = chunks.deep_view();
    for i in 0..chunks.len()
        invariant
            all == chunks.deep_view(),
            lines.deep_view() == all_chunk_lines(all.take(i as int), old_side),
    {
        assert(all.take(i + 1).drop_last() =~= all.take(i as int));
        if old_side {
            add_lines(&mut lines, &chunks[i].old_lines);
        } else {
            add_lines(&mut lines, &chunks[i].new_lines);
        }
    }
    assert(all.take(all.len() as int) =~= all);
    lines
}

pub fn parse_apply_patch_call(hunks: &Vec<PatchHunk>, cwd: &str) -> (shown: PatchShown)
    ensures
        shown.deep_view() == patch_shown(hunks.deep_view(), cwd@),
{
    let mut file_names: Vec<String> = empty();
    let mut locations: Vec<String> = empty();
    let mut content: Vec<ToolCallContent> = empty();
    let ghost all = hunks.deep_view();
    for i in 0..hunks.len()
        invariant
            all == hunks.deep_view(),
            file_names@.len() == i,
            file_names.deep_view() == hunk_paths(all.take(i as int)),
            locations.deep_view() == hunk_locations(all.take(i as int), cwd@),
            content.deep_view() == hunk_diffs(all.take(i as int), cwd@),
    {
        proof {
            let done = all.take(i as int);
            assert(hunk_paths(all.take(i + 1)) =~= hunk_paths(done).push(
                hunk_path(all[i as int]),
            ));
            assert(hunk_locations(all.take(i + 1), cwd@) =~= hunk_locations(done, cwd@).push(
                hunk_location(all[i as int], cwd@),
            ));
            assert(hunk_diffs(all.take(i + 1), cwd@) =~= hunk_diffs(done, cwd@).push(
                hunk_diff(all[i as int], cwd@),
            ));
        }
        match &hunks[i] {
            PatchHunk::AddFile { path, contents } => {
                let full_path = join_path(cwd, path.as_str());
                add_item(&mut file_names, path.clone());
                add_item(&mut locations, full_path.clone());
                add_item(
                    &mut content,
                    ToolCallContent::Diff {
                        path: full_path,
                        old_text: None,
                        new_text: contents.clone(),
                    },
                );
            },
            PatchHunk::DeleteFile { path } => {
                let full_path = join_path(cwd, path.as_str());
                add_item(&mut file_names, path.clone());
                add_item(&mut locations, full_path.clone());
                add_item(
                    &mut content,
                    ToolCallContent::Diff {
                        path: full_path,
                        old_text: Some("[file deleted]".to_owned()),
                        new_text: String::new(),
                    },
                );
            },
            PatchHunk::UpdateFile { path, move_path, chunks } => {
                let dest_path = match move_path {
                    Some(target) => join_path(cwd, target.as_str()),
                    None => join_path(cwd, path.as_str()),
                };
                add_item(&mut file_names, path.clone());
                add_item(&mut locations, dest_path.clone());
                let old_lines = chunk_lines(chunks, true);
                let new_lines = chunk_lines(chunks, false);
                add_item(
                    &mut content,
                    ToolCallContent::Diff {
                        path: dest_path,
                        old_text: Some(join(&old_lines, "\n")),
                        new_text: join(&new_lines, "\n"),
                    },
                );
            },
        }
    }
    assert(all.take(all.len() as int) =~= all);
    let title = if file_names.len() == 0 {
        "Apply patch".to_owned()
    } else {
        let names = join(&file_names, ", ");
        concat2("Edit ", names.as_str())
    };
    PatchShown { title, locations, content }
}

/// The names of the tools that run a shell.
pub open spec fn is_shell_tool(name: Seq<char>) -> bool {
    name == "shell"@ || name == "container.exec"@ || name == "shell_command"@
}

fn names_shell_tool(name: &str) -> (shell: bool)
    ensures
        shell == is_shell_tool(name@),
{
    same(name, "shell") || same(name, "container.exec") || same(name, "shell_command")
}

/// Whether the arguments of a tool hold a script rather than the words of a command.
pub fn takes_script(name: &str) -> (script: bool)
    ensures
        script == (name@ == "shell_command"@),
{
    same(name, "shell_command")
}

/// The words of a shell call: a script is handed to a login shell.
pub open spec fn shell_words(arguments: ShellArgumentsView) -> Seq<Seq<char>> {
    match arguments {
        ShellArgumentsView::Script { command, .. } => seq!["bash"@, "-lc"@, command],
        ShellArgumentsView::Words { command, .. } => command,
    }
}

/// The command of a shell call, word for word, and where it ran.
pub fn shell_command_words(arguments: ShellArguments) -> (call: (Vec<String>, Option<String>))
    ensures
        call.0.deep_view() == shell_words(arguments.deep_view()),
        call.1.deep_view() == match arguments.deep_view() {
            ShellArgumentsView::Script { workdir, .. } => workdir,
            ShellArgumentsView::Words { workdir, .. } => workdir,
        },
{
    match arguments {
        ShellArguments::Script { command, workdir } => (
            three("bash".to_owned(), "-lc".to_owned(), command),
            workdir,
        ),
        ShellArguments::Words { command, workdir } => (command, workdir),
    }
}

/// How a shell call is shown: where it names no directory it ran in that of the session.
pub open spec fn shell_shown(shell: ShellCallView, cwd: Seq<char>) -> ParseCommandToolCallView {
    command_tool_call(
        shell.parsed_cmd,
        match shell.workdir {
            Some(dir) => dir,
            None => cwd,
        },
    )
}

pub fn parse_shell_function_call(shell: ShellCall, cwd: &str) -> (shown: ParseCommandToolCall)
    ensures
        shown.deep_view() == shell_shown(shell.deep_view(), cwd@),
{
    match &shell.workdir {
        Some(dir) => parse_command_tool_call(shell.parsed_cmd, dir.as_str()),
        None => parse_command_tool_call(shell.parsed_cmd, cwd),
    }
}

pub open spec fn local_shell_status(status: LocalShellStatus) -> ToolCallStatus {
    match status {
        LocalShellStatus::Completed => ToolCallStatus::Completed,
        LocalShellStatus::InProgress => ToolCallStatus::Failed,
        LocalShellStatus::Incomplete => ToolCallStatus::Failed,
    }
}

pub open spec fn shell_call_shown(
    call_id: Seq<char>,
    shell: ShellCallView,
    cwd: Seq<char>,
    status: ToolCallStatus,
    raw_input: Option<JsonView>,
) -> ToolCallView {
    let shown = shell_shown(shell, cwd);
    ToolCallView {
        locations: shown.locations,
        raw_input,
        ..new_call(call_id, shown.title, shown.kind, status)
    }
}

pub open spec fn image_call_output(
    status: Seq<char>,
    revised_prompt: Option<Seq<char>>,
    result: Seq<char>,
) -> JsonView {
    JsonView::Object(
        seq![
            ("status"@, JsonView::Text(status)),
            (
                "revised_prompt"@,
                match revised_prompt {
                    Some(prompt) => JsonView::Text(prompt),
                    None => JsonView::Null,
                },
            ),
            ("result"@, JsonView::Text(result)),
        ],
    )
}

/// What is told again of a response item: the tool calls of the history, as completed.
pub open spec fn item_replayed(item: ResponseItemView, cwd: Seq<char>) -> Seq<NotificationView> {
    match item {
        ResponseItemView::FunctionCall { name, call_id, arguments, shell } => seq![
            plain(
                SessionUpdateView::ToolCall(
                    if is_shell_tool(name) && shell is Some {
                        shell_call_shown(
                            call_id,
                            shell->Some_0,
                            cwd,
                            ToolCallStatus::Completed,
                            parsed(arguments),
                        )
                    } else {
                        completed_call(call_id, name, ToolKind::Other, parsed(arguments))
                    },
                ),
            ),
        ],
        ResponseItemView::FunctionCallOutput { call_id, output } => seq![
            plain(SessionUpdateView::ToolCallUpdate(completed_update(call_id, output))),
        ],
        ResponseItemView::LocalShellCall { call_id: Some(call_id), shell, status } => seq![
            plain(
                SessionUpdateView::ToolCall(
                    shell_call_shown(call_id, shell, cwd, local_shell_status(status), None),
                ),
            ),
        ],
        ResponseItemView::LocalShellCall { call_id: None, .. } => seq![],
        ResponseItemView::CustomToolCall { name, call_id, input, patch } => seq![
            plain(
                SessionUpdateView::ToolCall(
                    if name == "apply_patch"@ && patch is Some {
                        let shown = patch_shown(patch->Some_0, cwd);
                        ToolCallView {
                            content: shown.content,
                            locations: shown.locations,
                            raw_input: parsed(input),
                            ..new_call(
                                call_id,
                                shown.title,
                                ToolKind::Edit,
                                ToolCallStatus::Completed,
                            )
                        }
                    } else {
                        completed_call(call_id, name, ToolKind::Other, parsed(input))
                    },
                ),
            ),
        ],
        ResponseItemView::CustomToolCallOutput { call_id, output } => seq![
            plain(SessionUpdateView::ToolCallUpdate(completed_update(call_id, Some(output)))),
        ],
        ResponseItemView::WebSearchCall { shown, fallback_id } => seq![
            plain(
                SessionUpdateView::ToolCall(
                    match shown {
                        Some(shown) => new_call(
                            shown.call_id,
                            shown.title,
                            ToolKind::Search,
                            ToolCallStatus::Completed,
                        ),
                        None => new_call(
                            fallback_id,
                            "Web Search"@,
                            ToolKind::Search,
                            ToolCallStatus::Completed,
                        ),
                    },
                ),
            ),
        ],
        ResponseItemView::ImageGenerationCall {
            id,
            status_text,
            status,
            revised_prompt,
            result,
        } => seq![
            plain(
                SessionUpdateView::ToolCall(
                    ToolCallView {
                        content: image_content(revised_prompt, result, None),
                        raw_output: Some(image_call_output(status_text, revised_prompt, result)),
                        ..new_call(id, "Image generation"@, ToolKind::Other, status)
                    },
                ),
            ),
        ],
        ResponseItemView::Other => seq![],
    }
}

fn replay_shell_call(
    call_id: String,
    shell: ShellCall,
    cwd: &str,
    status: ToolCallStatus,
    raw_input: Option<Json>,
) -> (messages: Vec<Notification>)
    ensures
        messages.deep_view() == seq![
            plain(
                SessionUpdateView::ToolCall(
                    shell_call_shown(
                        call_id@,
                        shell.deep_view(),
                        cwd@,
                        status,
                        raw_input.deep_view(),
                    ),
                ),
            ),
        ],
{
    let shown = parse_shell_function_call(shell, cwd);
    let mut call = new_tool_call(call_id, shown.title, shown.kind, status);
    call.locations = shown.locations;
    call.raw_input = raw_input;
    one(tool_call(call))
}

fn replay_function_call(
    name: String,
    call_id: String,
    arguments: String,
    shell: Option<ShellCall>,
    cwd: &str,
) -> (messages: Vec<Notification>)
    ensures
        messages.deep_view() == item_replayed(
            ResponseItemView::FunctionCall {
                name: name@,
                call_id: call_id@,
                arguments: arguments@,
                shell: shell.deep_view(),
            },
            cwd@,
        ),
{
    let runs_shell = names_shell_tool(name.as_str());
    let raw_input = parse(arguments.as_str());
    match shell {
        Some(shell) => if runs_shell {
            replay_shell_call(call_id, shell, cwd, ToolCallStatus::Completed, raw_input)
        } else {
            one(completed_tool_call(call_id, name, ToolKind::Other, raw_input))
        },
        None => one(completed_tool_call(call_id, name, ToolKind::Other, raw_input)),
    }
}

fn replay_image_call(
    id: String,
    status_text: String,
    status: ToolCallStatus,
    revised_prompt: Option<String>,
    result: String,
) -> (messages: Vec<Notification>)
    ensures
        messages.deep_view() == item_replayed(
            ResponseItemView::ImageGenerationCall {
                id: id@,
                status_text: status_text@,
                status,
                revised_prompt: revised_prompt.deep_view(),
                result: result@,
            },
            Seq::empty(),
        ),
{
    broadcast use crate::json::lemma_tree;

    let prompt = match &revised_prompt {
        Some(prompt) => Json::Text(prompt.clone()),
        None => Json::Null,
    };
    assert(prompt.deep_view() == match revised_prompt.deep_view() {
        Some(prompt) => JsonView::Text(prompt),
        None => JsonView::Null,
    });
    let output = Json::Object(
        three(
            ("status".to_owned(), Json::Text(status_text)),
            ("revised_prompt".to_owned(), prompt),
            ("result".to_owned(), Json::Text(result.clone())),
        ),
    );
    let ghost fields = output->Object_0.deep_view();
    assert(fields =~= image_call_output(
        status_text@,
        revised_prompt.deep_view(),
        result@,
    )->Object_0);
    let mut call = new_tool_call(id, "Image generation".to_owned(), ToolKind::Other, status);
    call.content = image_generation_content(revised_prompt, result, None);
    call.raw_output = Some(output);
    one(tool_call(call))
}

pub fn replay_response_item(item: ResponseItem, cwd: &str) -> (messages: Vec<Notification>)
    ensures
        messages.deep_view() == item_replayed(item.deep_view(), cwd@),
{
    match item {
        ResponseItem::FunctionCall { name, call_id, arguments, shell } => {
            replay_function_call(name, call_id, arguments, shell, cwd)
        },
        ResponseItem::FunctionCallOutput { call_id, output } => one(
            tool_call_completed(call_id, output),
        ),
        ResponseItem::LocalShellCall { call_id, shell, status } => match call_id {
            Some(call_id) => {
                let shown_status = match status {
                    LocalShellStatus::Completed => ToolCallStatus::Completed,
                    LocalShellStatus::InProgress => ToolCallStatus::Failed,
                    LocalShellStatus::Incomplete => ToolCallStatus::Failed,
                };
                replay_shell_call(call_id, shell, cwd, shown_status, None)
            },
            None => empty(),
        },
        ResponseItem::CustomToolCall { name, call_id, input, patch } => {
            let raw_input = parse(input.as_str());
            if same(name.as_str(), "apply_patch") {
                if let Some(hunks) = &patch {
                    let shown = parse_apply_patch_call(hunks, cwd);
                    let mut call = new_tool_call(
                        call_id,
                        shown.title,
                        ToolKind::Edit,
                        ToolCallStatus::Completed,
                    );
                    call.locations = shown.locations;
                    call.content = shown.content;
                    call.raw_input = raw_input;
                    return one(tool_call(call));
                }
            }
            one(completed_tool_call(call_id, name, ToolKind::Other, raw_input))
        },
        ResponseItem::CustomToolCallOutput { call_id, output } => one(
            tool_call_completed(call_id, Some(output)),
        ),
        ResponseItem::WebSearchCall { shown, fallback_id } => {
            let (title, call_id) = match shown {
                Some(shown) => (shown.title, shown.call_id),
                None => ("Web Search".to_owned(), fallback_id),
            };
            one(
                tool_call(
                    new_tool_call(call_id, title, ToolKind::Search, ToolCallStatus::Completed),
                ),
            )
        },
        ResponseItem::ImageGenerationCall { id, status_text, status, revised_prompt, result } => {
            replay_image_call(id, status_text, status, revised_prompt, result)
        },
        ResponseItem::Other => empty(),
    }
}

pub open spec fn rollout_replayed(item: RolloutItemView, cwd: Seq<char>) -> Seq<NotificationView> {
    match item {
        RolloutItemView::Event(msg) => event_replayed(msg),
        RolloutItemView::Response(item) => item_replayed(item, cwd),
        RolloutItemView::Other => seq![],
    }
}

/// The history told again, item by item.
pub open spec fn history_replayed(history: Seq<RolloutItemView>, cwd: Seq<char>) -> Seq<
    NotificationView,
>
    decreases history.len(),
{
    if history.len() == 0 {
        seq![]
    } else {
        history_replayed(history.drop_last(), cwd) + rollout_replayed(history.last(), cwd)
    }
}

pub fn handle_replay_history(history: Vec<RolloutItem>, cwd: &str) -> (messages: Vec<Notification>)
    ensures
        messages.deep_view() == history_replayed(history.deep_view(), cwd@),
{
    let mut history = history;
    let mut messages: Vec<Notification> = empty();
    let ghost all = history.deep_view();
    let n: usize = history.len();
    let mut done: usize = 0;
    assert(all.skip(0) =~= all);
    while done < n
        invariant
            n == all.len(),
            done <= n,
            history.deep_view() == all.skip(done as int),
            history@.len() == n - done,
            messages.deep_view() == history_replayed(all.take(done as int), cwd@),
        decreases n - done,
    {
        let ghost rest = history.deep_view();
        let item = history.remove(0);
        let ghost told = messages.deep_view();
        proof {
            assert(history.deep_view() =~= rest.drop_first());
            assert(all.skip(done as int).drop_first() =~= all.skip(done + 1));
            assert(all.take(done + 1).drop_last() =~= all.take(done as int));
            assert(item.deep_view() == rest[0]);
        }
        let mut more = match item {
            RolloutItem::Event(msg) => replay_event_msg(msg),
            RolloutItem::Response(item) => replay_response_item(item, cwd),
            RolloutItem::Other => empty(),
        };
        let ghost added = more.deep_view();
        messages.append(&mut more);
        assert(messages.deep_view() =~= told + added);
        done += 1;
    }
    assert(all.take(n as int) =~= all);
    messages
}

/// A history is told item by item: two histories one after the other are told one after the
/// other.
pub proof fn histories_are_told_in_order(
    first: Seq<RolloutItemView>,
    second: Seq<RolloutItemView>,
    cwd: Seq<char>,
)
    ensures
        history_replayed(first + second, cwd) == history_replayed(first, cwd) + history_replayed(
            second,
            cwd,
        ),
    decreases second.len(),
{
    if second.len() == 0 {
        assert(first + second =~= first);
        assert(history_replayed(first, cwd) + Seq::<NotificationView>::empty()
            =~= history_replayed(first, cwd));
    } else {
        let init = second.drop_last();
        histories_are_told_in_order(first, init, cwd);
        assert((first + second).drop_last() =~= first + init);
        assert(history_replayed(first, cwd) + (history_replayed(init, cwd) + rollout_replayed(
            second.last(),
            cwd,
        )) =~= history_replayed(first, cwd) + history_replayed(init, cwd) + rollout_replayed(
            second.last(),
            cwd,
        ));
    }
}

/// Every item of a history is told by at most one message.
pub proof fn items_are_told_once(item: RolloutItemView, cwd: Seq<char>)
    ensures
        rollout_replayed(item, cwd).len() <= 1,
{
}

/// What is told again of a message is what was told of it as it came, except for commentary,
/// which is told only as it comes.
pub proof fn replay_tells_what_was_told(
    s: PromptStateView,
    client: Option<Seq<(Seq<char>, JsonView)>>,
    message: Seq<char>,
    phase: Option<MessagePhase>,
)
    requires
        !s.seen_final_message_deltas,
        !s.seen_commentary_message_deltas,
    ensures
        ({
            let live = prompt_step(s, client, EventMsgView::AgentMessage { message, phase }).1;
            let again = event_replayed(EventMsgView::AgentMessage { message, phase });
            &&& live == told(message)
            &&& again == if is_commentary(phase) {
                seq![]
            } else {
                seq![live[0]->Notify_0]
            }
        }),
{
    assert(Seq::<EffectView>::empty() + told(message) =~= told(message));
}

} // verus!
