//! What the client is told of the events of a turn.
use crate::client::{merged_meta_holds_both, tool_stop_meta};
use crate::command_events::terminal_info;
use crate::events::{
    DynamicToolContentView, EventMsgView, GuardianAssessmentView, McpToolResultView,
    ParsedCommandView, PatchSummaryView, ReviewOutputView, TokenInfoView, WebSearchActionView,
};
use crate::json::{JsonView, field, value_from, whole_number};
use crate::permissions::commands::command_tool_call;
use crate::prompt_events::{ends_web_search, prompt_step, web_search_is_closed};
use crate::prompt_state::{EffectView, PromptStateView};
use crate::protocol::{
    ErrorKindView, GuardianAssessmentStatus, MessagePhase, NotificationView, PlanEntryPriority,
    PlanItemView, PromptResultView, RunStatus, SessionUpdateView, StopReason, ThreadGoalStatus,
    ToolCallContentView, ToolCallStatus, ToolCallUpdateView, ToolCallView, ToolKind,
};
use crate::text::{CharClass, joined, lossy_text, trimmed, without_trailing};
use crate::tool_events::{is_block, kept_blocks, readable_block, shown_blocks};
use vstd::prelude::*;

verus! {

/// The notification that a step ends with.
pub open spec fn told_at_last(effects: Seq<EffectView>) -> NotificationView {
    effects.last()->Notify_0
}

/// Whether a step ends with a notification that carries nothing besides its update.
pub open spec fn ends_with_update(effects: Seq<EffectView>) -> bool {
    effects.len() > 0 && effects.last() is Notify && told_at_last(effects).meta is None
}

/// The tool call that a step ends with.
pub open spec fn call_at_last(effects: Seq<EffectView>) -> ToolCallView {
    told_at_last(effects).update->ToolCall_0
}

/// The update of a tool call that a step ends with.
pub open spec fn update_at_last(effects: Seq<EffectView>) -> ToolCallUpdateView {
    told_at_last(effects).update->ToolCallUpdate_0
}

pub open spec fn ends_with_call(effects: Seq<EffectView>) -> bool {
    ends_with_update(effects) && told_at_last(effects).update is ToolCall
}

pub open spec fn ends_with_call_update(effects: Seq<EffectView>) -> bool {
    ends_with_update(effects) && told_at_last(effects).update is ToolCallUpdate
}

/// An event tells at most what it is about, behind the end of a web search.
pub open spec fn tells_one_thing(
    s: PromptStateView,
    event: EventMsgView,
    effects: Seq<EffectView>,
) -> bool {
    effects.len() == (if ends_web_search(event) && s.active_web_search is Some {
        2int
    } else {
        1
    })
}

/// A plan is told step by step: each entry has the text and the status of its step.
pub proof fn plan_is_told_as_it_is(
    s: PromptStateView,
    client: Option<Seq<(Seq<char>, JsonView)>>,
    plan: Seq<PlanItemView>,
)
    ensures
        ({
            let (after, effects) = prompt_step(s, client, EventMsgView::PlanUpdate { plan });
            let entries = told_at_last(effects).update->Plan_0;
            &&& after == s
            &&& effects.len() == 1
            &&& ends_with_update(effects)
            &&& told_at_last(effects).update is Plan
            &&& entries.len() == plan.len()
            &&& forall|i: int|
                0 <= i < plan.len() ==> {
                    &&& (#[trigger] entries[i]).content == plan[i].step
                    &&& entries[i].status == plan[i].status
                    &&& entries[i].priority == PlanEntryPriority::Medium
                }
        }),
{
}

/// The usage that is told is that of the last request, within the window of the model; with it go
/// the counts of the session and, apart from them, those of the last request.
pub proof fn usage_is_told_as_counted(
    s: PromptStateView,
    client: Option<Seq<(Seq<char>, JsonView)>>,
    info: TokenInfoView,
)
    ensures
        ({
            let (after, effects) = prompt_step(s, client, EventMsgView::TokenCount(Some(info)));
            let meta = told_at_last(effects).meta->Some_0;
            let session = field(meta, "kodex.ai/usage"@)->Some_0->Object_0;
            let turn = field(session, "turn_delta"@)->Some_0->Object_0;
            &&& after == s
            &&& info.model_context_window is None ==> effects.len() == 0
            &&& info.model_context_window matches Some(size) ==> {
                &&& effects.len() == 1 && effects[0] is Notify
                &&& told_at_last(effects).update matches SessionUpdateView::Usage {
                    used,
                    size: told,
                } && told == size as u64 && used as int == if info.last.total_tokens < 0 {
                    0
                } else {
                    info.last.total_tokens as int
                }
                &&& told_at_last(effects).meta is Some
                &&& field(session, "input_tokens"@) == Some(whole_number(info.total.input_tokens))
                &&& field(session, "cache_read_tokens"@) == Some(
                    whole_number(info.total.cached_input_tokens),
                )
                &&& field(session, "output_tokens"@) == Some(
                    whole_number(info.total.output_tokens),
                )
                &&& field(session, "reasoning_tokens"@) == Some(
                    whole_number(info.total.reasoning_output_tokens),
                )
                &&& field(session, "total_tokens"@) == Some(whole_number(info.total.total_tokens))
                &&& field(session, "cache_write_tokens"@) == Some(JsonView::Null)
                &&& field(session, "scope"@) == Some(JsonView::Text("session_total"@))
                &&& field(session, "agent_cli"@) == Some(JsonView::Text("codex-acp"@))
                &&& field(session, "provider"@) == Some(JsonView::Text("openai"@))
                &&& field(session, "model"@) == Some(JsonView::Null)
                &&& field(turn, "cache_write_tokens"@) == Some(JsonView::Null)
                &&& field(turn, "input_tokens"@) == Some(whole_number(info.last.input_tokens))
                &&& field(turn, "cache_read_tokens"@) == Some(
                    whole_number(info.last.cached_input_tokens),
                )
                &&& field(turn, "output_tokens"@) == Some(whole_number(info.last.output_tokens))
                &&& field(turn, "reasoning_tokens"@) == Some(
                    whole_number(info.last.reasoning_output_tokens),
                )
                &&& field(turn, "total_tokens"@) == Some(whole_number(info.last.total_tokens))
            }
        }),
{
    reveal_with_fuel(field, 12);
    reveal_strlit("scope");
    reveal_strlit("agent_cli");
    reveal_strlit("provider");
    reveal_strlit("model");
    reveal_strlit("input_tokens");
    reveal_strlit("cache_read_tokens");
    reveal_strlit("output_tokens");
    reveal_strlit("reasoning_tokens");
    reveal_strlit("total_tokens");
    reveal_strlit("cache_write_tokens");
    reveal_strlit("turn_delta");
    assert("input_tokens"@[0] == 'i' && "cache_read_tokens"@[6] == 'r' && "output_tokens"@[0] == 'o'
        && "reasoning_tokens"@[0] == 'r' && "total_tokens"@[1] == 'o' && "cache_write_tokens"@[6]
        == 'w' && "turn_delta"@[1] == 'u' && "scope"@[0] == 's' && "agent_cli"@[0] == 'a'
        && "provider"@[0] == 'p' && "model"@[0] == 'm');
    if info.model_context_window is Some {
        let (after, effects) = prompt_step(s, client, EventMsgView::TokenCount(Some(info)));
        let meta = told_at_last(effects).meta->Some_0;
        let session = field(meta, "kodex.ai/usage"@)->Some_0->Object_0;
        assert(session.len() == 11);
    }
}

/// What the agent writes is told as text and what it thinks as thought, word for word.
pub proof fn words_are_told_as_they_come(
    s: PromptStateView,
    client: Option<Seq<(Seq<char>, JsonView)>>,
    item_id: Seq<char>,
    text: Seq<char>,
)
    ensures
        ({
            let message = prompt_step(
                s,
                client,
                EventMsgView::AgentMessageContentDelta { item_id, delta: text },
            ).1;
            let reasoning = prompt_step(
                s,
                client,
                EventMsgView::ReasoningContentDelta { delta: text },
            ).1;
            let raw = prompt_step(
                s,
                client,
                EventMsgView::ReasoningRawContentDelta { delta: text },
            ).1;
            let gap = prompt_step(s, client, EventMsgView::AgentReasoningSectionBreak).1;
            let warning = prompt_step(s, client, EventMsgView::Warning { message: text }).1;
            let guardian = prompt_step(
                s,
                client,
                EventMsgView::GuardianWarning { message: text },
            ).1;
            &&& message.len() == 1 && ends_with_update(message)
            &&& told_at_last(message).update == SessionUpdateView::AgentText(text)
            &&& reasoning.len() == 1 && ends_with_update(reasoning)
            &&& told_at_last(reasoning).update == SessionUpdateView::AgentThought(text)
            &&& raw.len() == 1 && ends_with_update(raw)
            &&& told_at_last(raw).update == SessionUpdateView::AgentThought(text)
            &&& gap.len() == 1 && ends_with_update(gap)
            &&& told_at_last(gap).update == SessionUpdateView::AgentThought("\n\n"@)
            &&& warning.len() == 1 && ends_with_update(warning)
            &&& told_at_last(warning).update == SessionUpdateView::AgentText(text)
            &&& guardian.len() == 1 && ends_with_update(guardian)
            &&& told_at_last(guardian).update == SessionUpdateView::AgentText(text)
        }),
{
}

/// A message that was not streamed is told whole, whatever it is; a thought likewise.
pub proof fn whole_words_are_told(
    s: PromptStateView,
    client: Option<Seq<(Seq<char>, JsonView)>>,
    text: Seq<char>,
    phase: Option<MessagePhase>,
)
    ensures
        ({
            let (after, message) = prompt_step(
                s,
                client,
                EventMsgView::AgentMessage { message: text, phase },
            );
            let streamed = if phase == Some(MessagePhase::Commentary) {
                s.seen_commentary_message_deltas
            } else {
                s.seen_final_message_deltas
            };
            let thought = prompt_step(s, client, EventMsgView::AgentReasoning { text }).1;
            &&& streamed ==> message.len() == 0
            &&& !streamed ==> message.len() == 1 && ends_with_update(message) && told_at_last(
                message,
            ).update == SessionUpdateView::AgentText(text)
            &&& !s.seen_reasoning_deltas ==> thought.len() == 1 && ends_with_update(thought)
                && told_at_last(thought).update == SessionUpdateView::AgentThought(text)
            &&& s.seen_reasoning_deltas ==> thought.len() == 0
            // commentary is never kept as the answer, and an answer is kept where there is none
            &&& phase == Some(MessagePhase::Commentary) ==> after.agent_message_text
                == s.agent_message_text
            &&& phase != Some(MessagePhase::Commentary) && !streamed && s.agent_message_text.len()
                == 0 ==> after.agent_message_text == text
            &&& phase == Some(MessagePhase::Commentary) ==> !after.seen_commentary_message_deltas
                && after.seen_final_message_deltas == s.seen_final_message_deltas
            &&& phase != Some(MessagePhase::Commentary) ==> !after.seen_final_message_deltas
                && after.seen_commentary_message_deltas == s.seen_commentary_message_deltas
        }),
{
}

/// The answer of a turn is gathered from its pieces in their order; the pieces of an item that is
/// marked as commentary are not part of it.
pub proof fn answer_is_gathered_in_order(
    s: PromptStateView,
    client: Option<Seq<(Seq<char>, JsonView)>>,
    item_id: Seq<char>,
    phase: Option<MessagePhase>,
    delta: Seq<char>,
)
    ensures
        ({
            let marked = prompt_step(
                s,
                client,
                EventMsgView::AgentItemStarted { item_id, phase },
            ).0;
            let after = prompt_step(
                marked,
                client,
                EventMsgView::AgentMessageContentDelta { item_id, delta },
            ).0;
            &&& phase == Some(MessagePhase::Commentary) ==> after.agent_message_text
                == s.agent_message_text && after.seen_commentary_message_deltas
            &&& phase != Some(MessagePhase::Commentary) && !s.commentary_message_item_ids.contains(
                item_id,
            ) ==> after.agent_message_text == s.agent_message_text + delta
                && after.seen_final_message_deltas
        }),
{
}

/// How the state of a goal is named.
pub open spec fn goal_state(status: ThreadGoalStatus) -> Seq<char> {
    match status {
        ThreadGoalStatus::Active => "active"@,
        ThreadGoalStatus::Paused => "paused"@,
        ThreadGoalStatus::Blocked => "blocked"@,
        ThreadGoalStatus::UsageLimited => "usage limited"@,
        ThreadGoalStatus::BudgetLimited => "budget limited"@,
        ThreadGoalStatus::Complete => "complete"@,
    }
}

/// A goal is told with its state and its objective, the objective without white space around it
/// and, where it has several lines, on lines of its own.
pub proof fn goal_is_told_with_its_state(
    s: PromptStateView,
    client: Option<Seq<(Seq<char>, JsonView)>>,
    objective: Seq<char>,
    status: ThreadGoalStatus,
)
    ensures
        ({
            let (after, effects) = prompt_step(
                s,
                client,
                EventMsgView::ThreadGoalUpdated { objective, status },
            );
            let text = told_at_last(effects).update->AgentText_0;
            let head = "Goal updated ("@ + goal_state(status) + "):"@;
            &&& after == s
            &&& effects.len() == 1 && ends_with_update(effects)
            &&& told_at_last(effects).update is AgentText
            &&& text.len() == head.len() + 1 + trimmed(objective).len()
            &&& text.take(head.len() as int) == head
            &&& text[head.len() as int] == (if trimmed(objective).contains('\n') {
                '\n'
            } else {
                ' '
            })
            &&& text.skip(head.len() as int + 1) == trimmed(objective)
        }),
{
    reveal_strlit("): ");
    reveal_strlit("):\n");
    reveal_strlit("):");
    let text = told_at_last(
        prompt_step(s, client, EventMsgView::ThreadGoalUpdated { objective, status }).1,
    ).update->AgentText_0;
    let start = "Goal updated ("@ + goal_state(status);
    let head = start + "):"@;
    assert("): "@ =~= "):"@ + seq![' ']);
    assert("):\n"@ =~= "):"@ + seq!['\n']);
    let gap = if trimmed(objective).contains('\n') {
        seq!['\n']
    } else {
        seq![' ']
    };
    assert(text =~= head + gap + trimmed(objective));
    assert(text.take(head.len() as int) =~= head);
    assert(text.skip(head.len() as int + 1) =~= trimmed(objective));
}

/// A command that begins is shown as running, under its own identifier, with what stops it; a
/// terminal is shown exactly where the client has them and some part of the command is not
/// understood.
pub proof fn command_is_shown_when_it_begins(
    s: PromptStateView,
    client: Option<Seq<(Seq<char>, JsonView)>>,
    call_id: Seq<char>,
    cwd: Seq<char>,
    parsed_cmd: Seq<ParsedCommandView>,
    raw: JsonView,
)
    ensures
        ({
            let event = EventMsgView::ExecCommandBegin { call_id, cwd, parsed_cmd, raw };
            let (after, effects) = prompt_step(s, client, event);
            let call = call_at_last(effects);
            let strange = exists|i: int| 0 <= i < parsed_cmd.len() && parsed_cmd[i] is Unknown;
            let terminal = strange && client is Some && field(
                client->Some_0,
                "terminal_output"@,
            ) == Some(JsonView::Bool(true));
            let meta = call.meta->Some_0;
            &&& tells_one_thing(s, event, effects)
            &&& ends_with_call(effects)
            &&& call.id == call_id
            &&& call.status == ToolCallStatus::InProgress
            &&& call.title == command_tool_call(parsed_cmd, cwd).title
            &&& call.kind == command_tool_call(parsed_cmd, cwd).kind
            &&& call.locations == command_tool_call(parsed_cmd, cwd).locations
            &&& call.raw_input == Some(raw)
            &&& call.raw_output is None
            &&& call.meta is Some
            &&& field(meta, "kodex.ai/toolStop"@) == Some(
                JsonView::Object(
                    seq![
                        ("toolCallId"@, JsonView::Text(call_id)),
                        ("stopKind"@, JsonView::Text("agent_owned"@)),
                    ],
                ),
            )
            &&& field(meta, "terminal_info"@) == if terminal {
                Some(
                    JsonView::Object(
                        seq![
                            ("terminal_id"@, JsonView::Text(call_id)),
                            ("cwd"@, JsonView::Text(cwd)),
                        ],
                    ),
                )
            } else {
                None
            }
            &&& terminal ==> call.content.len() == 1 && call.content[0]
                == ToolCallContentView::Terminal(call_id)
            &&& !terminal ==> call.content.len() == 0
            &&& after.active_commands.contains_key(call_id)
            &&& after.active_commands[call_id].tool_call_id == call_id
            &&& after.active_commands[call_id].output.len() == 0
            &&& after.active_commands[call_id].terminal_output == strange
            &&& after.active_commands[call_id].file_extension == command_tool_call(
                parsed_cmd,
                cwd,
            ).file_extension
            &&& after.active_commands.remove(call_id) == s.active_commands.remove(call_id)
        }),
{
    reveal_with_fuel(field, 3);
    reveal_strlit("kodex.ai/toolStop");
    reveal_strlit("terminal_info");
    assert("kodex.ai/toolStop"@.len() == 17 && "terminal_info"@.len() == 13);
    let event = EventMsgView::ExecCommandBegin { call_id, cwd, parsed_cmd, raw };
    let (after, effects) = prompt_step(s, client, event);
    let none: Seq<(Seq<char>, JsonView)> = seq![];
    merged_meta_holds_both(
        tool_stop_meta(call_id),
        terminal_info(call_id, cwd),
        "kodex.ai/toolStop"@,
    );
    merged_meta_holds_both(
        tool_stop_meta(call_id),
        terminal_info(call_id, cwd),
        "terminal_info"@,
    );
    merged_meta_holds_both(tool_stop_meta(call_id), none, "kodex.ai/toolStop"@);
    merged_meta_holds_both(tool_stop_meta(call_id), none, "terminal_info"@);
    assert(after.active_commands.remove(call_id) =~= s.active_commands.remove(call_id));
}

/// The output of a command reaches the client exactly once: at once in the command's own terminal
/// where it has one, else with the end of the command, as far as it was written by then.
pub proof fn command_output_reaches_the_client(
    s: PromptStateView,
    client: Option<Seq<(Seq<char>, JsonView)>>,
    call_id: Seq<char>,
    chunk: Seq<u8>,
    stdin: Seq<char>,
)
    requires
        s.active_commands.contains_key(call_id),
    ensures
        ({
            let command = s.active_commands[call_id];
            let terminal = command.terminal_output && client is Some && field(
                client->Some_0,
                "terminal_output"@,
            ) == Some(JsonView::Bool(true));
            let event = EventMsgView::ExecCommandOutputDelta { call_id, chunk };
            let (after, effects) = prompt_step(s, client, event);
            let (typed, echoed) = prompt_step(
                s,
                client,
                EventMsgView::TerminalInteraction { call_id, stdin },
            );
            let shown = |data: Seq<char>|
                Some(
                    seq![
                        (
                            "terminal_output"@,
                            JsonView::Object(
                                seq![
                                    ("terminal_id"@, JsonView::Text(call_id)),
                                    ("data"@, JsonView::Text(data)),
                                ],
                            ),
                        ),
                    ],
                );
            &&& terminal ==> {
                &&& ends_with_call_update(effects) && update_at_last(effects).id
                    == command.tool_call_id
                &&& update_at_last(effects).meta == shown(lossy_text(chunk))
                &&& update_at_last(effects).status is None
                &&& after.active_commands == s.active_commands
                &&& ends_with_call_update(echoed) && update_at_last(echoed).meta == shown(
                    "\n"@ + stdin + "\n"@,
                )
                &&& typed.active_commands == s.active_commands
            }
            &&& !terminal ==> {
                &&& effects.len() == (if s.active_web_search is Some {
                    1int
                } else {
                    0
                })
                &&& echoed.len() == 0
                &&& after.active_commands[call_id].output == command.output + lossy_text(chunk)
                &&& typed.active_commands[call_id].output == command.output + ("\n"@ + stdin
                    + "\n"@)
            }
        }),
{
}

/// A command that ends is completed exactly where it succeeded, by its status or its exit code;
/// its kept output is shown with its end, in the words it was written in.
pub proof fn command_ends_as_it_went(
    s: PromptStateView,
    client: Option<Seq<(Seq<char>, JsonView)>>,
    call_id: Seq<char>,
    exit_code: i32,
    status: RunStatus,
    raw: JsonView,
)
    requires
        s.active_commands.contains_key(call_id),
    ensures
        ({
            let command = s.active_commands[call_id];
            let terminal = command.terminal_output && client is Some && field(
                client->Some_0,
                "terminal_output"@,
            ) == Some(JsonView::Bool(true));
            let event = EventMsgView::ExecCommandEnd { call_id, exit_code, status, raw };
            let (after, effects) = prompt_step(s, client, event);
            let update = update_at_last(effects);
            let text = update.content->Some_0[0]->Text_0;
            &&& tells_one_thing(s, event, effects)
            &&& ends_with_call_update(effects)
            &&& update.id == command.tool_call_id
            &&& update.raw_output == Some(raw)
            &&& update.status == Some(ToolCallStatus::Completed) <==> status
                == RunStatus::Completed || exit_code == 0
            &&& update.status == Some(ToolCallStatus::Failed) <==> status != RunStatus::Completed
                && exit_code != 0
            &&& terminal ==> update.meta == Some(
                seq![
                    (
                        "terminal_exit"@,
                        JsonView::Object(
                            seq![
                                ("terminal_id"@, JsonView::Text(call_id)),
                                ("exit_code"@, whole_number(exit_code as i64)),
                                ("signal"@, JsonView::Null),
                            ],
                        ),
                    ),
                ],
            ) && update.content is None
            &&& !terminal ==> update.meta is None
            &&& !terminal && command.output.len() == 0 ==> update.content is None
            &&& !terminal && command.output.len() > 0 ==> {
                &&& update.content->Some_0.len() == 1 && update.content->Some_0[0] is Text
                &&& command.file_extension == Some("md"@) ==> text == command.output
                &&& command.file_extension != Some("md"@) ==> text == "```"@ + (
                match command.file_extension {
                    Some(extension) => extension,
                    None => "sh"@,
                }) + "\n"@ + without_trailing(command.output, CharClass::LineFeed) + "\n```\n"@
            }
            &&& !after.active_commands.contains_key(call_id)
            &&& after.active_commands == s.active_commands.remove(call_id)
        }),
{
    reveal_strlit("```sh\n");
    reveal_strlit("```");
    reveal_strlit("sh");
    reveal_strlit("\n");
    assert("```sh\n"@ =~= "```"@ + "sh"@ + "\n"@);
}

/// Output and ends of a command that does not run say nothing.
pub proof fn unknown_command_says_nothing(
    s: PromptStateView,
    client: Option<Seq<(Seq<char>, JsonView)>>,
    call_id: Seq<char>,
    stdin: Seq<char>,
    chunk: Seq<u8>,
    exit_code: i32,
    status: RunStatus,
    raw: JsonView,
)
    requires
        !s.active_commands.contains_key(call_id),
    ensures
        s.active_web_search is None ==> prompt_step(
            s,
            client,
            EventMsgView::ExecCommandOutputDelta { call_id, chunk },
        ) == (s, Seq::<EffectView>::empty()),
        s.active_web_search is None ==> prompt_step(
            s,
            client,
            EventMsgView::ExecCommandEnd { call_id, exit_code, status, raw },
        ) == (s, Seq::<EffectView>::empty()),
        prompt_step(s, client, EventMsgView::TerminalInteraction { call_id, stdin }) == (
            s,
            Seq::<EffectView>::empty(),
        ),
{
    assert(Seq::<EffectView>::empty() + Seq::<EffectView>::empty() =~= Seq::<EffectView>::empty());
}

/// A patch is shown with its title, files and changes when it begins and as it changes; it ends as
/// completed exactly where it succeeded. Nothing is shown of changes that are none.
pub proof fn patch_is_shown_as_it_goes(
    s: PromptStateView,
    client: Option<Seq<(Seq<char>, JsonView)>>,
    call_id: Seq<char>,
    changes: PatchSummaryView,
    raw: JsonView,
    success: bool,
    status: RunStatus,
)
    ensures
        ({
            let begin = EventMsgView::PatchApplyBegin { call_id, changes, raw };
            let begun = prompt_step(s, client, begin).1;
            let changed = prompt_step(
                s,
                client,
                EventMsgView::PatchApplyUpdated { call_id, changes, raw },
            ).1;
            let end = EventMsgView::PatchApplyEnd { call_id, success, status, changes, raw };
            let ended = prompt_step(s, client, end).1;
            &&& tells_one_thing(s, begin, begun) && ends_with_call(begun)
            &&& call_at_last(begun).id == call_id && call_at_last(begun).title == changes.title
            &&& call_at_last(begun).kind == ToolKind::Edit && call_at_last(begun).status
                == ToolCallStatus::InProgress
            &&& call_at_last(begun).locations == changes.locations && call_at_last(begun).content
                == changes.content && call_at_last(begun).raw_input == Some(raw)
            &&& changes.change_count == 0 ==> changed.len() == 0
            &&& changes.change_count > 0 ==> {
                let update = update_at_last(changed);
                &&& changed.len() == 1 && ends_with_call_update(changed)
                &&& update.id == call_id && update.kind == Some(ToolKind::Edit) && update.status
                    == Some(ToolCallStatus::InProgress)
                &&& update.title == Some(changes.title) && update.locations == Some(
                    changes.locations,
                ) && update.content == Some(changes.content) && update.raw_input == Some(raw)
            }
            &&& tells_one_thing(s, end, ended) && ends_with_call_update(ended)
            &&& update_at_last(ended).id == call_id && update_at_last(ended).raw_output == Some(raw)
            &&& update_at_last(ended).status == Some(
                if success || status == RunStatus::Completed {
                    ToolCallStatus::Completed
                } else {
                    ToolCallStatus::Failed
                },
            )
            &&& changes.change_count == 0 ==> update_at_last(ended).title is None
                && update_at_last(ended).locations is None && update_at_last(ended).content is None
            &&& changes.change_count > 0 ==> update_at_last(ended).title == Some(changes.title)
                && update_at_last(ended).locations == Some(changes.locations) && update_at_last(
                ended,
            ).content == Some(changes.content)
        }),
{
}

/// A web search is shown as pending, then with what it looks for, and as completed when something
/// else begins.
pub proof fn web_search_is_shown_as_it_goes(
    s: PromptStateView,
    client: Option<Seq<(Seq<char>, JsonView)>>,
    call_id: Seq<char>,
    query: Seq<char>,
    action: WebSearchActionView,
    raw_action: JsonView,
)
    ensures
        ({
            let begin = EventMsgView::WebSearchBegin { call_id };
            let (searching, begun) = prompt_step(s, client, begin);
            let (still, queried) = prompt_step(
                searching,
                client,
                EventMsgView::WebSearchEnd { call_id, query, action, raw_action },
            );
            let (over, closed) = prompt_step(still, client, EventMsgView::TurnStarted);
            let call = call_at_last(begun);
            let asked = update_at_last(queried);
            &&& tells_one_thing(s, begin, begun) && ends_with_call(begun)
            &&& call.id == call_id && call.title == "Searching the Web"@ && call.kind
                == ToolKind::Fetch && call.status == ToolCallStatus::Pending
            &&& queried.len() == 1 && ends_with_call_update(queried)
            &&& asked.id == call_id && asked.status == Some(ToolCallStatus::InProgress)
            &&& asked.raw_input == Some(
                JsonView::Object(seq![("query"@, JsonView::Text(query)), ("action"@, raw_action)]),
            )
            &&& asked.title is Some
            &&& action matches WebSearchActionView::Search { query: Some(text), queries: None }
                ==> asked.title == Some("Searching for: "@ + text)
            &&& action matches WebSearchActionView::Search { queries: Some(texts), .. }
                ==> asked.title == Some("Searching for: "@ + joined(texts, ", "@))
            &&& action matches WebSearchActionView::OpenPage { url: Some(url) } ==> asked.title
                == Some("Opening: "@ + url)
            &&& action matches WebSearchActionView::FindInPage {
                pattern: Some(pattern),
                url: Some(url),
            } ==> asked.title == Some("Finding: "@ + pattern + " in "@ + url)
            &&& action matches WebSearchActionView::FindInPage {
                pattern: Some(pattern),
                url: None,
            } ==> asked.title == Some("Finding: "@ + pattern)
            &&& action matches WebSearchActionView::FindInPage { pattern: None, url: Some(url) }
                ==> asked.title == Some("Find in page: "@ + url)
            &&& action is Other ==> asked.title == Some("Web search"@)
            &&& action matches WebSearchActionView::Search { query: None, queries: None }
                ==> asked.title == Some("Web search"@)
            &&& action matches WebSearchActionView::OpenPage { url: None } ==> asked.title == Some(
                "Open page"@,
            )
            &&& action matches WebSearchActionView::FindInPage { pattern: None, url: None }
                ==> asked.title == Some("Find in page"@)
            &&& closed.len() == 1 && ends_with_call_update(closed) && update_at_last(closed).id
                == call_id && update_at_last(closed).status == Some(ToolCallStatus::Completed)
            &&& over == PromptStateView { active_web_search: None, ..s }
        }),
{
}

/// An image is shown from its beginning to its end: its revised prompt, and the image as it was
/// made. An end without a beginning is shown as a whole call.
pub proof fn image_is_shown_as_it_was_made(
    s: PromptStateView,
    client: Option<Seq<(Seq<char>, JsonView)>>,
    call_id: Seq<char>,
    status: ToolCallStatus,
    revised_prompt: Option<Seq<char>>,
    result: Seq<char>,
    saved_path: Option<Seq<char>>,
    raw: JsonView,
)
    ensures
        ({
            let begin = EventMsgView::ImageGenerationBegin { call_id, raw };
            let (making, begun) = prompt_step(s, client, begin);
            let end = EventMsgView::ImageGenerationEnd {
                call_id,
                status,
                revised_prompt,
                result,
                saved_path,
                raw,
            };
            let (made, ended) = prompt_step(making, client, end);
            let (bare, whole) = prompt_step(made, client, end);
            let shown = update_at_last(ended).content->Some_0;
            let image = ToolCallContentView::Image {
                data: result,
                mime_type: "image/png"@,
                uri: saved_path,
            };
            &&& ends_with_call(begun) && call_at_last(begun).id == call_id
            &&& call_at_last(begun).title == "Image generation"@ && call_at_last(begun).kind
                == ToolKind::Other && call_at_last(begun).status == ToolCallStatus::InProgress
                && call_at_last(begun).raw_input == Some(raw)
            &&& ends_with_call_update(ended) && update_at_last(ended).id == call_id
            &&& update_at_last(ended).status == Some(status) && update_at_last(ended).raw_output
                == Some(raw) && update_at_last(ended).content is Some
            &&& result.len() > 0 ==> shown.len() > 0 && shown.last() == image
            &&& revised_prompt matches Some(prompt) ==> shown.len() > 0 && shown[0]
                == ToolCallContentView::Text("Revised prompt: "@ + prompt)
            &&& shown.len() == (if result.len() > 0 {
                1int
            } else {
                0
            }) + (if revised_prompt is Some {
                1int
            } else {
                0
            })
            &&& !made.active_image_generations.contains(call_id)
            &&& ends_with_call(whole) && call_at_last(whole).id == call_id && call_at_last(
                whole,
            ).status == status && call_at_last(whole).content == shown && call_at_last(
                whole,
            ).raw_output == Some(raw)
        }),
{
}

/// A tool of the session is shown by its name with its arguments; its result is completed exactly
/// where it succeeded, with its items in their order and the error behind them.
pub proof fn dynamic_tool_is_shown_as_it_went(
    s: PromptStateView,
    client: Option<Seq<(Seq<char>, JsonView)>>,
    call_id: Seq<char>,
    tool: Seq<char>,
    arguments: JsonView,
    success: bool,
    content_items: Seq<DynamicToolContentView>,
    error: Option<Seq<char>>,
    raw: JsonView,
)
    ensures
        ({
            let begun = prompt_step(
                s,
                client,
                EventMsgView::DynamicToolCallRequest { call_id, tool, arguments },
            ).1;
            let ended = prompt_step(
                s,
                client,
                EventMsgView::DynamicToolCallResponse {
                    call_id,
                    success,
                    content_items,
                    error,
                    raw,
                },
            ).1;
            let update = update_at_last(ended);
            let shown = update.content->Some_0;
            &&& begun.len() == 1 && ends_with_call(begun)
            &&& call_at_last(begun).id == call_id && call_at_last(begun).title == "Tool: "@ + tool
            &&& call_at_last(begun).raw_input == Some(arguments) && call_at_last(begun).status
                == ToolCallStatus::InProgress
            &&& ended.len() == 1 && ends_with_call_update(ended)
            &&& update.id == call_id && update.raw_output == Some(raw) && update.content is Some
            &&& success ==> update.status == Some(ToolCallStatus::Completed)
            &&& !success ==> update.status == Some(ToolCallStatus::Failed)
            &&& shown.len() == content_items.len() + (if error is Some {
                1int
            } else {
                0
            })
            &&& forall|i: int|
                0 <= i < content_items.len() ==> #[trigger] shown[i] == match content_items[i] {
                    DynamicToolContentView::Text(text) => ToolCallContentView::Text(text),
                    DynamicToolContentView::Image(url) => ToolCallContentView::ResourceLink {
                        name: url,
                        uri: url,
                    },
                }
            &&& error matches Some(error) ==> shown.last() == ToolCallContentView::Text(error)
        }),
{
}

/// A tool of a server is shown by the names of both; its result fails exactly where it is marked
/// as an error or never came, and shows nothing that is no content block.
pub proof fn mcp_tool_is_shown_as_it_went(
    s: PromptStateView,
    client: Option<Seq<(Seq<char>, JsonView)>>,
    call_id: Seq<char>,
    server: Seq<char>,
    tool: Seq<char>,
    raw_invocation: JsonView,
    result: McpToolResultView,
)
    ensures
        ({
            let begin = EventMsgView::McpToolCallBegin { call_id, server, tool, raw_invocation };
            let begun = prompt_step(s, client, begin).1;
            let end = EventMsgView::McpToolCallEnd { call_id, result };
            let ended = prompt_step(s, client, end).1;
            let update = update_at_last(ended);
            &&& tells_one_thing(s, begin, begun) && ends_with_call(begun)
            &&& call_at_last(begun).id == call_id && call_at_last(begun).title == "Tool: "@ + server
                + "/"@ + tool
            &&& call_at_last(begun).raw_input == Some(raw_invocation) && call_at_last(begun).status
                == ToolCallStatus::InProgress
            &&& tells_one_thing(s, end, ended) && ends_with_call_update(ended) && update.id
                == call_id
            &&& result matches McpToolResultView::Failed { message } ==> update.status == Some(
                ToolCallStatus::Failed,
            ) && update.raw_output == Some(JsonView::Text(message)) && update.content is None
            &&& result matches McpToolResultView::Returned { is_error, content, raw } ==> {
                &&& is_error == Some(true) ==> update.status == Some(ToolCallStatus::Failed)
                &&& is_error != Some(true) ==> update.status == Some(ToolCallStatus::Completed)
                &&& update.raw_output == Some(raw)
                &&& content.len() == 0 ==> update.content is None
                &&& content.len() > 0 ==> update.content == Some(shown_blocks(content))
            }
        }),
{
}

/// What is shown of a result are the content blocks in it: each one, in its order, and no other.
pub proof fn content_blocks_are_shown_in_order(content: Seq<JsonView>, item: JsonView)
    ensures
        ({
            let shown = shown_blocks(content);
            let more = shown_blocks(content.push(item));
            &&& content.len() == 0 ==> shown.len() == 0
            &&& readable_block(value_from(item)) ==> more == shown.push(
                ToolCallContentView::Block(item),
            )
            &&& !readable_block(value_from(item)) ==> more == shown
        }),
{
    reveal(Seq::filter);
    let chosen = |item: JsonView| is_block(item);
    assert(content.push(item).drop_last() =~= content);
    if readable_block(value_from(item)) {
        assert(content.push(item).filter(chosen) == content.filter(chosen).push(item));
        assert(shown_blocks(content.push(item))
            =~= shown_blocks(content).push(ToolCallContentView::Block(item)));
    } else {
        assert(content.push(item).filter(chosen) == content.filter(chosen));
    }
}

/// An image that is looked at is shown as read, by its path.
pub proof fn viewed_image_is_shown(
    s: PromptStateView,
    client: Option<Seq<(Seq<char>, JsonView)>>,
    call_id: Seq<char>,
    path: Seq<char>,
)
    ensures
        ({
            let (after, effects) = prompt_step(
                s,
                client,
                EventMsgView::ViewImageToolCall { call_id, path },
            );
            let call = call_at_last(effects);
            &&& after == s
            &&& effects.len() == 1 && ends_with_call(effects)
            &&& call.id == call_id && call.title == "View Image "@ + path
            &&& call.kind == ToolKind::Read && call.status == ToolCallStatus::Completed
            &&& call.content.len() == 1 && call.content[0] == ToolCallContentView::ResourceLink {
                name: path,
                uri: path,
            }
            &&& call.locations.len() == 1 && call.locations[0] == path
        }),
{
}

/// The end of a review tells its findings where it has some, else its explanation.
pub proof fn review_tells_what_it_found(
    s: PromptStateView,
    client: Option<Seq<(Seq<char>, JsonView)>>,
    output: ReviewOutputView,
)
    ensures
        ({
            let event = EventMsgView::ExitedReviewMode(Some(output));
            let effects = prompt_step(s, client, event).1;
            let text = told_at_last(effects).update->AgentText_0;
            let silent = EventMsgView::ExitedReviewMode(None);
            &&& tells_one_thing(s, event, effects)
            &&& ends_with_update(effects) && told_at_last(effects).update is AgentText
            &&& output.finding_count > 0 ==> text == output.findings_block
            &&& output.finding_count == 0 && trimmed(output.overall_explanation).len() > 0 ==> text
                == trimmed(output.overall_explanation)
            &&& text.len() == 0 ==> output.finding_count > 0 && output.findings_block.len() == 0
            &&& prompt_step(s, client, silent).1.len() == effects.len() - 1
        }),
{
    reveal_strlit("Review failed to output a response");
}

/// A guardian's assessment is shown as one tool call from its first report to its last: as a call
/// the first time, as updates of that call from then on, with the status and the words of each
/// report.
pub proof fn guardian_is_shown_as_one_call(
    s: PromptStateView,
    client: Option<Seq<(Seq<char>, JsonView)>>,
    event: GuardianAssessmentView,
)
    ensures
        ({
            let (after, effects) = prompt_step(s, client, EventMsgView::GuardianAssessment(event));
            let running = event.status == GuardianAssessmentStatus::InProgress;
            let known = s.active_guardian_assessments.contains_key(event.id);
            let call = call_at_last(effects);
            let update = update_at_last(effects);
            &&& effects.len() == 1
            &&& known ==> ends_with_call_update(effects) && update.id == event.tool_call_id
                && update.status == Some(event.tool_status) && update.content == Some(event.content)
                && update.raw_output == Some(event.raw)
            &&& !known ==> ends_with_call(effects) && call.id == event.tool_call_id && call.title
                == "Guardian Review"@ && call.kind == ToolKind::Think && call.status
                == event.tool_status && call.content == event.content && call.raw_input == Some(
                event.raw,
            )
            &&& after.active_guardian_assessments.contains_key(event.id) <==> running
            &&& running && !known ==> after.active_guardian_assessments[event.id]
                == event.tool_call_id
            &&& after.active_guardian_assessments.remove(event.id)
                == s.active_guardian_assessments.remove(event.id)
        }),
{
    let (after, effects) = prompt_step(s, client, EventMsgView::GuardianAssessment(event));
    assert(after.active_guardian_assessments.remove(event.id)
        =~= s.active_guardian_assessments.remove(event.id));
}

/// A turn that runs into an error is answered with an internal error that says what went wrong; a
/// turn that is called off, or whose thread ends, is answered as cancelled.
pub proof fn turn_is_answered_with_what_happened(
    s: PromptStateView,
    client: Option<Seq<(Seq<char>, JsonView)>>,
    message: Seq<char>,
    codex_error_info: JsonView,
    last_agent_message: Option<Seq<char>>,
)
    requires
        s.response_open,
    ensures
        ({
            let failed = prompt_step(
                s,
                client,
                EventMsgView::Error { message, codex_error_info },
            ).1.last()->Respond_0;
            let error = failed->Failed_0;
            let data = error.data->Some_0->Object_0;
            let complete = prompt_step(
                s,
                client,
                EventMsgView::TurnComplete { last_agent_message },
            ).1;
            &&& failed is Failed && error.kind == ErrorKindView::InternalError
            &&& field(data, "message"@) == Some(JsonView::Text(message))
            &&& field(data, "codex_error_info"@) == Some(codex_error_info)
            &&& prompt_step(s, client, EventMsgView::TurnAborted).1.last() == EffectView::Respond(
                PromptResultView::Stopped(StopReason::Cancelled),
            )
            &&& prompt_step(s, client, EventMsgView::ShutdownComplete).1.last()
                == EffectView::Respond(PromptResultView::Stopped(StopReason::Cancelled))
            &&& complete.last() == EffectView::Respond(
                PromptResultView::Stopped(StopReason::EndTurn),
            )
            // the title is seen to first, from the answer as it was reported, else as it was told
            &&& complete.len() >= 2
            &&& last_agent_message is Some ==> complete[complete.len() - 2]
                == EffectView::PublishTitle { response_text: last_agent_message }
            &&& last_agent_message is None && trimmed(s.agent_message_text).len() > 0
                ==> complete[complete.len() - 2] == EffectView::PublishTitle {
                response_text: Some(s.agent_message_text),
            }
            &&& last_agent_message is None && trimmed(s.agent_message_text).len() == 0
                ==> complete[complete.len() - 2] == EffectView::PublishTitle { response_text: None }
        }),
{
    reveal_with_fuel(field, 3);
    reveal_strlit("message");
    reveal_strlit("codex_error_info");
    assert("message"@.len() == 7 && "codex_error_info"@.len() == 16);
}

/// The notice of a compacted context says that it is completed.
pub proof fn compaction_is_told(s: PromptStateView, client: Option<Seq<(Seq<char>, JsonView)>>)
    ensures
        ({
            let (after, effects) = prompt_step(s, client, EventMsgView::ContextCompacted);
            let meta = told_at_last(effects).meta->Some_0;
            &&& after == s
            &&& effects.len() == 1 && effects[0] is Notify && told_at_last(effects).meta is Some
            &&& told_at_last(effects).update == SessionUpdateView::SessionInfo { title: None }
            &&& field(meta, "kodex.ai/contextCompaction"@) matches Some(
                JsonView::Object(phase),
            ) && field(phase, "phase"@) == Some(JsonView::Text("completed"@)) && field(
                phase,
                "message"@,
            ) == Some(JsonView::Text("上下文已自动压缩"@))
            &&& field(meta, "kodex.ai/contextCompacted"@) == Some(JsonView::Object(seq![]))
        }),
{
    reveal_with_fuel(field, 3);
    reveal_strlit("kodex.ai/contextCompaction");
    reveal_strlit("kodex.ai/contextCompacted");
    assert("kodex.ai/contextCompaction"@.len() == 26 && "kodex.ai/contextCompacted"@.len() == 25);
    reveal_strlit("phase");
    reveal_strlit("message");
    assert("phase"@.len() == 5 && "message"@.len() == 7);
}

/// A web search that runs is shown as completed before anything else is told, where the event
/// begins or ends something else; by no other event is it ended.
pub proof fn search_ends_before_what_comes_next(
    s: PromptStateView,
    client: Option<Seq<(Seq<char>, JsonView)>>,
    event: EventMsgView,
    call_id: Seq<char>,
)
    requires
        s.active_web_search == Some(call_id),
        !(event is WebSearchBegin),
    ensures
        ({
            let (after, effects) = prompt_step(s, client, event);
            let ends = event is Error || event is StreamError || event is UserMessage || event
                is ExecApprovalRequest || event is ImageGenerationBegin || event
                is ImageGenerationEnd || event is ExecCommandBegin || event
                is ExecCommandOutputDelta || event is ExecCommandEnd || event is McpToolCallBegin
                || event is McpToolCallEnd || event is ApplyPatchApprovalRequest || event is
                PatchApplyBegin || event is PatchApplyEnd || event is TurnStarted || event is
                TurnComplete || event is TurnDiff || event is TurnAborted || event is
                EnteredReviewMode || event is ExitedReviewMode || event is ShutdownComplete;
            let first = effects[0]->Notify_0.update->ToolCallUpdate_0;
            &&& ends ==> after.active_web_search is None && effects.len() > 0 && effects[0]
                is Notify && effects[0]->Notify_0.update is ToolCallUpdate && first.id == call_id
                && first.status == Some(ToolCallStatus::Completed)
            &&& !ends ==> after.active_web_search == Some(call_id)
        }),
{
    if ends_web_search(event) {
        web_search_is_closed(s, client, event);
    } else {
        lemma_search_goes_on(s, client, event);
    }
}

#[verifier::spinoff_prover]
#[verifier::rlimit(60)]
proof fn lemma_search_goes_on(
    s: PromptStateView,
    client: Option<Seq<(Seq<char>, JsonView)>>,
    event: EventMsgView,
)
    requires
        !ends_web_search(event),
    ensures
        prompt_step(s, client, event).0.active_web_search == s.active_web_search,
{
    match event {
        EventMsgView::RequestUserInput(request) => {},
        EventMsgView::ElicitationRequest { server_name, id, request, raw } => {},
        EventMsgView::RequestPermissions { .. } => {},
        EventMsgView::TerminalInteraction { .. } => {},
        EventMsgView::GuardianAssessment(_) => {},
        EventMsgView::AgentMessage { .. } => {},
        _ => {},
    }
}

/// What is only told changes nothing in the turn.
pub proof fn telling_changes_nothing(
    s: PromptStateView,
    client: Option<Seq<(Seq<char>, JsonView)>>,
    event: EventMsgView,
)
    ensures
        event is TokenCount || event is PlanUpdate || event is ThreadGoalUpdated || event
            is WebSearchEnd || event is DynamicToolCallRequest || event is DynamicToolCallResponse
            || event is PatchApplyUpdated || event is ViewImageToolCall || event is Warning || event
            is GuardianWarning || event is ContextCompacted || event is AgentReasoningRawContent
            || event is ItemCompleted || event is ThreadRolledBack || event is SessionConfigured
            || event is Other ==> prompt_step(s, client, event).0 == s,
        event is McpToolCallBegin || event is McpToolCallEnd || event is PatchApplyBegin || event
            is PatchApplyEnd || event is ExitedReviewMode || event is EnteredReviewMode || event
            is StreamError || event is UserMessage || event is TurnStarted || event is TurnDiff
            ==> prompt_step(s, client, event).0 == (PromptStateView {
            active_web_search: None,
            ..s
        }),
{
}

/// Events that say nothing to the client tell nothing, apart from the end of a web search.
pub proof fn silent_events_tell_nothing(
    s: PromptStateView,
    client: Option<Seq<(Seq<char>, JsonView)>>,
    event: EventMsgView,
)
    requires
        event is TurnStarted || event is UserMessage || event is StreamError || event is TurnDiff
            || event is EnteredReviewMode || event is ItemCompleted || event is AgentItemStarted
            || event is AgentReasoningRawContent || event is ThreadRolledBack || event
            is SessionConfigured || event is Other,
    ensures
        s.active_web_search is None ==> prompt_step(s, client, event).1.len() == 0,
        prompt_step(s, client, event).1.len() <= 1,
{
}

/// Streaming marks what it streams and nothing else, so that the whole is not told again.
pub proof fn streaming_is_remembered(
    s: PromptStateView,
    client: Option<Seq<(Seq<char>, JsonView)>>,
    item_id: Seq<char>,
    text: Seq<char>,
)
    ensures
        ({
            let piece = prompt_step(
                s,
                client,
                EventMsgView::AgentMessageContentDelta { item_id, delta: text },
            ).0;
            let reasoned = PromptStateView { seen_reasoning_deltas: true, ..s };
            &&& s.commentary_message_item_ids.contains(item_id) ==> piece == (PromptStateView {
                seen_commentary_message_deltas: true,
                ..s
            })
            &&& !s.commentary_message_item_ids.contains(item_id) ==> piece == (PromptStateView {
                seen_final_message_deltas: true,
                agent_message_text: s.agent_message_text + text,
                ..s
            })
            &&& prompt_step(s, client, EventMsgView::ReasoningContentDelta { delta: text }).0
                == reasoned
            &&& prompt_step(s, client, EventMsgView::ReasoningRawContentDelta { delta: text }).0
                == reasoned
            &&& prompt_step(s, client, EventMsgView::AgentReasoningSectionBreak).0 == reasoned
            &&& prompt_step(s, client, EventMsgView::AgentReasoning { text }).0 == (
            PromptStateView { seen_reasoning_deltas: false, ..s })
            &&& prompt_step(
                s,
                client,
                EventMsgView::AgentItemStarted { item_id, phase: Some(MessagePhase::Commentary) },
            ).0 == (PromptStateView {
                commentary_message_item_ids: s.commentary_message_item_ids.insert(item_id),
                ..s
            })
            &&& prompt_step(
                s,
                client,
                EventMsgView::AgentItemStarted { item_id, phase: None },
            ).0 == s
        }),
{
}

/// The end of a turn closes it: it is answered at most once, nothing waits for the client any
/// longer, and everything else stays.
pub proof fn turn_is_closed_when_it_ends(
    s: PromptStateView,
    client: Option<Seq<(Seq<char>, JsonView)>>,
    event: EventMsgView,
)
    requires
        event is TurnComplete || event is Error || event is TurnAborted || event
            is ShutdownComplete,
    ensures
        prompt_step(s, client, event).0 == (PromptStateView {
            response_open: false,
            pending_permission_interactions: Map::empty(),
            active_web_search: None,
            ..s
        }),
        !s.response_open ==> forall|i: int|
            0 <= i < prompt_step(s, client, event).1.len() ==> !(#[trigger] prompt_step(
                s,
                client,
                event,
            ).1[i] is Respond),
{
}

/// A command that writes, and one that ends, leaves the other commands as they are; so does
/// whatever concerns an image or a guardian.
pub proof fn tools_do_not_disturb_each_other(
    s: PromptStateView,
    client: Option<Seq<(Seq<char>, JsonView)>>,
    event: EventMsgView,
    call_id: Seq<char>,
    other: Seq<char>,
)
    requires
        other != call_id,
        match event {
            EventMsgView::ExecCommandBegin { call_id: id, .. } => id == call_id,
            EventMsgView::ExecCommandOutputDelta { call_id: id, .. } => id == call_id,
            EventMsgView::ExecCommandEnd { call_id: id, .. } => id == call_id,
            EventMsgView::TerminalInteraction { call_id: id, .. } => id == call_id,
            EventMsgView::ImageGenerationBegin { call_id: id, .. } => id == call_id,
            EventMsgView::ImageGenerationEnd { call_id: id, .. } => id == call_id,
            EventMsgView::GuardianAssessment(assessment) => assessment.id == call_id,
            _ => false,
        },
    ensures
        ({
            let after = prompt_step(s, client, event).0;
            &&& after.active_commands.contains_key(other) == s.active_commands.contains_key(other)
            &&& s.active_commands.contains_key(other) ==> after.active_commands[other]
                == s.active_commands[other]
            &&& after.active_image_generations.contains(other)
                == s.active_image_generations.contains(other)
            &&& after.active_guardian_assessments.contains_key(other)
                == s.active_guardian_assessments.contains_key(other)
            &&& !(event is ImageGenerationBegin) && !(event is ImageGenerationEnd)
                ==> after.active_image_generations == s.active_image_generations
            &&& event is ImageGenerationBegin ==> after.active_image_generations.contains(call_id)
            &&& event is ImageGenerationEnd ==> !after.active_image_generations.contains(call_id)
            &&& after.agent_message_text == s.agent_message_text
            &&& after.response_open == s.response_open
            &&& after.pending_permission_interactions == s.pending_permission_interactions
        }),
{
}

/// Blocks that were read are shown in their order, and what could not be read is left out.
pub proof fn kept_blocks_keep_their_order(content: Seq<Option<JsonView>>, item: Option<JsonView>)
    ensures
        ({
            let before = kept_blocks(content);
            let after = kept_blocks(content.push(item));
            &&& content.len() == 0 ==> before.len() == 0
            &&& item matches Some(block) ==> after == before.push(ToolCallContentView::Block(block))
            &&& item is None ==> after == before
        }),
{
    assert(content.push(item).drop_last() =~= content);
}

} // verus!
