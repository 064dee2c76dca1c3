//! What the client is told of the history of a session.
use crate::events::EventMsgView;
use crate::json::{JsonView, field, parsed};
use crate::paths::path_joined;
use crate::permissions::commands::command_tool_call;
use crate::prompt_events::prompt_step;
use crate::prompt_state::{EffectView, PromptStateView};
use crate::protocol::{
    LocalShellStatus, MessagePhase, NotificationView, SessionUpdateView, ThreadGoalStatus,
    ToolCallContentView, ToolCallStatus, ToolCallView, ToolKind,
};
use crate::replay::{
    PatchChunkView, PatchHunkView, ResponseItemView, RolloutItemView, ShellArgumentsView,
    ShellCallView, all_chunk_lines, event_replayed, hunk_diff, hunk_paths, item_replayed,
    patch_shown, rollout_replayed, shell_words,
};
use crate::text::joined;
use vstd::prelude::*;

verus! {

/// The lines that the pieces of a patch take out, piece by piece.
pub open spec fn lines_removed(chunks: Seq<PatchChunkView>) -> Seq<Seq<char>> {
    chunks.map_values(|chunk: PatchChunkView| chunk.old_lines).flatten()
}

/// The lines that the pieces of a patch put in, piece by piece.
pub open spec fn lines_added(chunks: Seq<PatchChunkView>) -> Seq<Seq<char>> {
    chunks.map_values(|chunk: PatchChunkView| chunk.new_lines).flatten()
}

proof fn lemma_chunk_lines(chunks: Seq<PatchChunkView>)
    ensures
        all_chunk_lines(chunks, true) == lines_removed(chunks),
        all_chunk_lines(chunks, false) == lines_added(chunks),
    decreases chunks.len(),
{
    let old_lines = |chunk: PatchChunkView| chunk.old_lines;
    let new_lines = |chunk: PatchChunkView| chunk.new_lines;
    if chunks.len() > 0 {
        let before = chunks.drop_last();
        lemma_chunk_lines(before);
        assert(chunks.map_values(old_lines) =~= before.map_values(old_lines).push(
            chunks.last().old_lines,
        ));
        assert(chunks.map_values(new_lines) =~= before.map_values(new_lines).push(
            chunks.last().new_lines,
        ));
        before.map_values(old_lines).lemma_flatten_push(chunks.last().old_lines);
        before.map_values(new_lines).lemma_flatten_push(chunks.last().new_lines);
    } else {
        assert(chunks.map_values(old_lines) =~= Seq::empty());
        assert(chunks.map_values(new_lines) =~= Seq::empty());
    }
}

/// An update of a file is shown with the lines that it takes out as the old text and those that it
/// puts in as the new text, in their order and one to a line. A move changes the path of the diff
/// and neither text.
pub proof fn update_is_shown_by_its_lines(
    path: Seq<char>,
    target: Option<Seq<char>>,
    other: Option<Seq<char>>,
    chunks: Seq<PatchChunkView>,
    cwd: Seq<char>,
)
    ensures
        ({
            let shown = hunk_diff(
                PatchHunkView::UpdateFile { path, move_path: target, chunks },
                cwd,
            );
            let elsewhere = hunk_diff(
                PatchHunkView::UpdateFile { path, move_path: other, chunks },
                cwd,
            );
            &&& shown == ToolCallContentView::Diff {
                path: path_joined(
                    cwd,
                    match target {
                        Some(target) => target,
                        None => path,
                    },
                ),
                old_text: Some(joined(lines_removed(chunks), "\n"@)),
                new_text: joined(lines_added(chunks), "\n"@),
            }
            &&& elsewhere matches ToolCallContentView::Diff { path: _, old_text, new_text }
                && old_text == shown->old_text && new_text == shown->new_text
        }),
{
    lemma_chunk_lines(chunks);
}

/// A patch whose pieces only put lines in shows no old lines, one whose pieces only take lines out
/// shows no new ones, and one that is turned round shows the two texts in each other's place.
pub proof fn turned_patch_is_shown_turned(
    path: Seq<char>,
    target: Option<Seq<char>>,
    chunks: Seq<PatchChunkView>,
    turned: Seq<PatchChunkView>,
    cwd: Seq<char>,
)
    requires
        chunks.len() == turned.len(),
        forall|i: int|
            0 <= i < chunks.len() ==> (#[trigger] chunks[i]).old_lines == turned[i].new_lines
                && chunks[i].new_lines == turned[i].old_lines,
    ensures
        ({
            let shown = hunk_diff(
                PatchHunkView::UpdateFile { path, move_path: target, chunks },
                cwd,
            );
            let back = hunk_diff(
                PatchHunkView::UpdateFile { path, move_path: target, chunks: turned },
                cwd,
            );
            &&& shown->old_text == Some(back->new_text)
            &&& back->old_text == Some(shown->new_text)
            &&& (forall|i: int|
                0 <= i < chunks.len() ==> (#[trigger] chunks[i]).old_lines.len() == 0)
                ==> shown->old_text == Some(Seq::<char>::empty())
            &&& (forall|i: int|
                0 <= i < chunks.len() ==> (#[trigger] chunks[i]).new_lines.len() == 0)
                ==> shown->new_text == Seq::<char>::empty()
        }),
{
    lemma_turned(chunks, turned);
    if forall|i: int| 0 <= i < chunks.len() ==> (#[trigger] chunks[i]).old_lines.len() == 0 {
        lemma_no_lines(chunks, true);
    }
    if forall|i: int| 0 <= i < chunks.len() ==> (#[trigger] chunks[i]).new_lines.len() == 0 {
        lemma_no_lines(chunks, false);
    }
}

proof fn lemma_turned(chunks: Seq<PatchChunkView>, turned: Seq<PatchChunkView>)
    requires
        chunks.len() == turned.len(),
        forall|i: int|
            0 <= i < chunks.len() ==> (#[trigger] chunks[i]).old_lines == turned[i].new_lines
                && chunks[i].new_lines == turned[i].old_lines,
    ensures
        all_chunk_lines(chunks, true) == all_chunk_lines(turned, false),
        all_chunk_lines(chunks, false) == all_chunk_lines(turned, true),
    decreases chunks.len(),
{
    if chunks.len() > 0 {
        lemma_turned(chunks.drop_last(), turned.drop_last());
        assert(chunks[chunks.len() - 1] == chunks.last());
    }
}

proof fn lemma_no_lines(chunks: Seq<PatchChunkView>, old_side: bool)
    requires
        forall|i: int|
            0 <= i < chunks.len() ==> if old_side {
                (#[trigger] chunks[i]).old_lines.len() == 0
            } else {
                chunks[i].new_lines.len() == 0
            },
    ensures
        all_chunk_lines(chunks, old_side).len() == 0,
    decreases chunks.len(),
{
    if chunks.len() > 0 {
        lemma_no_lines(chunks.drop_last(), old_side);
        assert(chunks[chunks.len() - 1] == chunks.last());
    }
}

/// A patch of the history is shown hunk for hunk: an added file by its contents, a deleted one as
/// deleted, an updated one by the lines that come and go; each at the place where the file is once
/// the patch is applied. Its title names the files as the patch does.
pub proof fn patch_is_shown_hunk_for_hunk(hunks: Seq<PatchHunkView>, cwd: Seq<char>)
    ensures
        ({
            let shown = patch_shown(hunks, cwd);
            &&& shown.content.len() == hunks.len()
            &&& shown.locations.len() == hunks.len()
            &&& hunks.len() == 0 ==> shown.title == "Apply patch"@
            &&& hunks.len() > 0 ==> shown.title == "Edit "@ + joined(
                Seq::new(
                    hunks.len(),
                    |i: int|
                        match hunks[i] {
                            PatchHunkView::AddFile { path, .. } => path,
                            PatchHunkView::DeleteFile { path } => path,
                            PatchHunkView::UpdateFile { path, .. } => path,
                        },
                ),
                ", "@,
            )
            &&& forall|i: int|
                0 <= i < hunks.len() ==> match #[trigger] hunks[i] {
                    PatchHunkView::AddFile { path, contents } => shown.locations[i] == path_joined(
                        cwd,
                        path,
                    ) && shown.content[i] == ToolCallContentView::Diff {
                        path: path_joined(cwd, path),
                        old_text: None,
                        new_text: contents,
                    },
                    PatchHunkView::DeleteFile { path } => shown.locations[i] == path_joined(
                        cwd,
                        path,
                    ) && shown.content[i] == ToolCallContentView::Diff {
                        path: path_joined(cwd, path),
                        old_text: Some("[file deleted]"@),
                        new_text: Seq::empty(),
                    },
                    PatchHunkView::UpdateFile { path, move_path, chunks } => {
                        let place = path_joined(
                            cwd,
                            if move_path is Some {
                                move_path->Some_0
                            } else {
                                path
                            },
                        );
                        shown.locations[i] == place && shown.content[i]
                            == ToolCallContentView::Diff {
                            path: place,
                            old_text: Some(joined(lines_removed(chunks), "\n"@)),
                            new_text: joined(lines_added(chunks), "\n"@),
                        }
                    },
                }
        }),
{
    let shown = patch_shown(hunks, cwd);
    let paths = Seq::new(
        hunks.len(),
        |i: int|
            match hunks[i] {
                PatchHunkView::AddFile { path, .. } => path,
                PatchHunkView::DeleteFile { path } => path,
                PatchHunkView::UpdateFile { path, .. } => path,
            },
    );
    assert(hunk_paths(hunks) =~= paths);
    assert forall|i: int| 0 <= i < hunks.len() && (#[trigger] hunks[i]) is UpdateFile implies ({
        let chunks = hunks[i]->chunks;
        shown.content[i]->old_text == Some(joined(lines_removed(chunks), "\n"@))
            && shown.content[i]->new_text == joined(lines_added(chunks), "\n"@)
    }) by {
        lemma_chunk_lines(hunks[i]->chunks);
    }
}

/// The call that is told of an item of the history.
pub open spec fn call_told(told: Seq<NotificationView>) -> ToolCallView {
    told[0].update->ToolCall_0
}

/// Exactly one thing is told of an item, a tool call, and nothing besides it.
pub open spec fn tells_a_call(told: Seq<NotificationView>) -> bool {
    told.len() == 1 && told[0].meta is None && told[0].update is ToolCall
}

/// Exactly one thing is told of an item, the end of a tool call, and nothing besides it.
pub open spec fn tells_an_end(told: Seq<NotificationView>) -> bool {
    told.len() == 1 && told[0].meta is None && told[0].update is ToolCallUpdate
}

/// A patch of the history is told as a completed edit, shown as the patch is; a custom tool that is
/// no patch, or whose patch cannot be read, is told by its name.
pub proof fn custom_tool_is_told(
    name: Seq<char>,
    call_id: Seq<char>,
    input: Seq<char>,
    patch: Option<Seq<PatchHunkView>>,
    cwd: Seq<char>,
)
    ensures
        ({
            let told = item_replayed(
                ResponseItemView::CustomToolCall { name, call_id, input, patch },
                cwd,
            );
            let call = call_told(told);
            &&& tells_a_call(told)
            &&& call.id == call_id
            &&& call.status == ToolCallStatus::Completed
            &&& call.raw_input == parsed(input)
            &&& call.raw_output is None
            &&& name == "apply_patch"@ && patch is Some ==> {
                let shown = patch_shown(patch->Some_0, cwd);
                &&& call.kind == ToolKind::Edit
                &&& call.title == shown.title
                &&& call.locations == shown.locations
                &&& call.content == shown.content
            }
            &&& name != "apply_patch"@ || patch is None ==> call.kind == ToolKind::Other
                && call.title == name && call.content.len() == 0 && call.locations.len() == 0
        }),
{
}

/// A shell call of the history is told as its commands are shown, in its own directory where it
/// names one; any other function by its name.
pub proof fn function_call_is_told(
    name: Seq<char>,
    call_id: Seq<char>,
    arguments: Seq<char>,
    shell: Option<ShellCallView>,
    cwd: Seq<char>,
)
    ensures
        ({
            let told = item_replayed(
                ResponseItemView::FunctionCall { name, call_id, arguments, shell },
                cwd,
            );
            let call = call_told(told);
            let runs_shell = (name == "shell"@ || name == "container.exec"@ || name
                == "shell_command"@) && shell is Some;
            &&& tells_a_call(told)
            &&& call.id == call_id
            &&& call.status == ToolCallStatus::Completed
            &&& call.raw_input == parsed(arguments)
            &&& call.raw_output is None
            &&& call.content.len() == 0
            &&& !runs_shell ==> call.title == name && call.kind == ToolKind::Other
                && call.locations.len() == 0
            &&& runs_shell ==> {
                let dir = match shell->Some_0.workdir {
                    Some(dir) => dir,
                    None => cwd,
                };
                let shown = command_tool_call(shell->Some_0.parsed_cmd, dir);
                &&& call.title == shown.title
                &&& call.kind == shown.kind
                &&& call.locations == shown.locations
            }
        }),
{
}

/// A local shell call of the history is told as completed exactly where it was completed; one
/// without an identifier is not told.
pub proof fn local_shell_call_is_told(
    call_id: Option<Seq<char>>,
    shell: ShellCallView,
    status: LocalShellStatus,
    cwd: Seq<char>,
)
    ensures
        ({
            let told = item_replayed(
                ResponseItemView::LocalShellCall { call_id, shell, status },
                cwd,
            );
            let call = call_told(told);
            let dir = match shell.workdir {
                Some(dir) => dir,
                None => cwd,
            };
            let shown = command_tool_call(shell.parsed_cmd, dir);
            &&& call_id is None ==> told.len() == 0
            &&& call_id is Some ==> {
                &&& tells_a_call(told)
                &&& Some(call.id) == call_id
                &&& call.title == shown.title
                &&& call.kind == shown.kind
                &&& call.locations == shown.locations
                &&& call.raw_input is None
                &&& status == LocalShellStatus::Completed ==> call.status
                    == ToolCallStatus::Completed
                &&& status != LocalShellStatus::Completed ==> call.status == ToolCallStatus::Failed
            }
        }),
{
}

/// The output of a call of the history is told under the call's identifier, as its end.
pub proof fn outputs_are_told(
    call_id: Seq<char>,
    output: Option<JsonView>,
    custom: JsonView,
    cwd: Seq<char>,
)
    ensures
        ({
            let told = item_replayed(
                ResponseItemView::FunctionCallOutput { call_id, output },
                cwd,
            );
            let other = item_replayed(
                ResponseItemView::CustomToolCallOutput { call_id, output: custom },
                cwd,
            );
            let update = told[0].update->ToolCallUpdate_0;
            let custom_update = other[0].update->ToolCallUpdate_0;
            &&& tells_an_end(told)
            &&& update.id == call_id
            &&& update.status == Some(ToolCallStatus::Completed)
            &&& update.raw_output == output
            &&& update.content is None && update.title is None
            &&& tells_an_end(other)
            &&& custom_update.id == call_id
            &&& custom_update.status == Some(ToolCallStatus::Completed)
            &&& custom_update.raw_output == Some(custom)
            &&& custom_update.content is None && custom_update.title is None
        }),
{
}

/// A web search of the history is told as a completed search, under the identifier and the title
/// that it was shown with, where there are such.
pub proof fn web_search_is_told(item: ResponseItemView, cwd: Seq<char>)
    requires
        item is WebSearchCall,
    ensures
        ({
            let told = item_replayed(item, cwd);
            let call = call_told(told);
            &&& tells_a_call(told)
            &&& call.kind == ToolKind::Search
            &&& call.status == ToolCallStatus::Completed
            &&& item->shown matches Some(shown) ==> call.id == shown.call_id && call.title
                == shown.title
            &&& item->shown is None ==> call.id == item->fallback_id && call.title == "Web Search"@
        }),
{
}

/// A generated image of the history is told with its revised prompt and the image, and with what
/// was reported of it.
pub proof fn image_is_told(
    id: Seq<char>,
    status_text: Seq<char>,
    status: ToolCallStatus,
    revised_prompt: Option<Seq<char>>,
    result: Seq<char>,
    cwd: Seq<char>,
)
    ensures
        ({
            let told = item_replayed(
                ResponseItemView::ImageGenerationCall {
                    id,
                    status_text,
                    status,
                    revised_prompt,
                    result,
                },
                cwd,
            );
            let call = call_told(told);
            let output = call.raw_output->Some_0->Object_0;
            &&& tells_a_call(told)
            &&& call.id == id
            &&& call.title == "Image generation"@
            &&& call.kind == ToolKind::Other
            &&& call.status == status
            &&& call.raw_output matches Some(JsonView::Object(_))
            &&& field(output, "status"@) == Some(JsonView::Text(status_text))
            &&& field(output, "result"@) == Some(JsonView::Text(result))
            &&& revised_prompt is None ==> field(output, "revised_prompt"@) == Some(JsonView::Null)
            &&& revised_prompt matches Some(prompt) ==> field(output, "revised_prompt"@) == Some(
                JsonView::Text(prompt),
            ) && call.content.len() > 0 && call.content[0] == ToolCallContentView::Text(
                "Revised prompt: "@ + prompt,
            )
            &&& result.len() > 0 ==> call.content.len() > 0 && call.content.last()
                == ToolCallContentView::Image { data: result, mime_type: "image/png"@, uri: None }
            &&& call.content.len() == (if result.len() > 0 {
                1int
            } else {
                0
            }) + (if revised_prompt is Some {
                1int
            } else {
                0
            })
        }),
{
    reveal_with_fuel(field, 4);
    reveal_strlit("status");
    reveal_strlit("revised_prompt");
    reveal_strlit("result");
    assert("status"@[0] == 's' && "revised_prompt"@.len() == 14 && "result"@[0] == 'r');
    assert("status"@.len() == 6 && "result"@.len() == 6);
}

/// Messages, thoughts and goals of the history are told by whom they came from, word for word;
/// commentary and every other event are passed over.
pub proof fn words_are_told_again(
    text: Seq<char>,
    phase: Option<MessagePhase>,
    status: ThreadGoalStatus,
    cwd: Seq<char>,
)
    ensures
        ({
            let told = |msg: EventMsgView| rollout_replayed(RolloutItemView::Event(msg), cwd);
            let user = told(EventMsgView::UserMessage { message: text });
            let agent = told(EventMsgView::AgentMessage { message: text, phase });
            let thought = told(EventMsgView::AgentReasoning { text });
            let raw = told(EventMsgView::AgentReasoningRawContent { text });
            &&& user.len() == 1 && user[0].update == SessionUpdateView::UserMessage(text)
                && user[0].meta is None
            &&& phase == Some(MessagePhase::Commentary) ==> agent.len() == 0
            &&& phase != Some(MessagePhase::Commentary) ==> agent.len() == 1 && agent[0].update
                == SessionUpdateView::AgentText(text) && agent[0].meta is None
            &&& thought.len() == 1 && thought[0].update == SessionUpdateView::AgentThought(text)
                && thought[0].meta is None
            &&& raw == thought
            &&& told(EventMsgView::TurnAborted).len() == 0
            &&& told(EventMsgView::TurnStarted).len() == 0
            &&& told(EventMsgView::Warning { message: text }).len() == 0
        }),
{
}

/// A goal of the history is told as it was told when it was set.
pub proof fn goal_is_told_again(
    s: PromptStateView,
    client: Option<Seq<(Seq<char>, JsonView)>>,
    objective: Seq<char>,
    status: ThreadGoalStatus,
)
    ensures
        ({
            let event = EventMsgView::ThreadGoalUpdated { objective, status };
            let live = prompt_step(s, client, event).1;
            let again = event_replayed(event);
            &&& again.len() == 1
            &&& live.len() == 1
            &&& live[0] == EffectView::Notify(again[0])
        }),
{
}

/// A shell call of the history is understood by its words as they are; a script is what a login
/// shell is given.
pub proof fn shell_call_has_its_words(arguments: ShellArgumentsView)
    ensures
        arguments matches ShellArgumentsView::Script { command, .. } ==> ({
            let words = shell_words(arguments);
            words.len() == 3 && words[0] == "bash"@ && words[1] == "-lc"@ && words[2] == command
        }),
        arguments matches ShellArgumentsView::Words { command, .. } ==> shell_words(arguments)
            == command,
{
}

} // verus!
