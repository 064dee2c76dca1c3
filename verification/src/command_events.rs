//! How the commands and the patches of a turn are shown.
use crate::client::{
    ClientCapabilities, agent_owned_tool_stop_meta, merge_meta, merged_meta, new_call,
    new_status_update, new_tool_call, plain, shows_terminals, status_update, tool_call,
    tool_call_update, tool_stop_meta,
};
use crate::collections::{empty, one, three, two};
use crate::events::{ParsedCommand, ParsedCommandView, PatchSummary, PatchSummaryView};
use crate::json::{Json, JsonView, number, whole_number};
use crate::permissions::commands::{command_tool_call, parse_command_tool_call};
use crate::prompt_state::{
    ActiveCommand, ActiveCommandView, Effect, EffectView, PromptState, PromptStateView, notify,
};
use crate::protocol::{
    RunStatus, SessionUpdateView, ToolCall, ToolCallContent, ToolCallContentView, ToolCallStatus,
    ToolCallUpdateView, ToolCallView, ToolKind,
};
use crate::text::{
    CharClass, concat3, concat5, from_utf8_lossy, lossy_text, same, trim_end_of, without_trailing,
};
use vstd::prelude::*;

verus! {

/// The status of a command or a patch that ended: what succeeded is completed, whatever else is
/// reported.
pub open spec fn run_status(status: RunStatus, success: bool) -> ToolCallStatus {
    if status == RunStatus::Completed || success {
        ToolCallStatus::Completed
    } else {
        ToolCallStatus::Failed
    }
}

fn ended_status(status: RunStatus, success: bool) -> (ended: ToolCallStatus)
    ensures
        ended == run_status(status, success),
{
    match status {
        RunStatus::Completed => ToolCallStatus::Completed,
        RunStatus::Failed => if success {
            ToolCallStatus::Completed
        } else {
            ToolCallStatus::Failed
        },
        RunStatus::Declined => if success {
            ToolCallStatus::Completed
        } else {
            ToolCallStatus::Failed
        },
    }
}

pub open spec fn terminal_info(call_id: Seq<char>, cwd: Seq<char>) -> Seq<(Seq<char>, JsonView)> {
    seq![
        (
            "terminal_info"@,
            JsonView::Object(
                seq![("terminal_id"@, JsonView::Text(call_id)), ("cwd"@, JsonView::Text(cwd))],
            ),
        ),
    ]
}

/// A command begins: it is shown with the means to stop it, and with a terminal where its output
/// goes to one.
pub open spec fn command_begun(
    s: PromptStateView,
    client: Option<Seq<(Seq<char>, JsonView)>>,
    call_id: Seq<char>,
    cwd: Seq<char>,
    parsed_cmd: Seq<ParsedCommandView>,
    raw: JsonView,
) -> (PromptStateView, Seq<EffectView>) {
    let call = command_tool_call(parsed_cmd, cwd);
    let terminal = call.terminal_output && shows_terminals(client);
    (
        PromptStateView {
            active_commands: s.active_commands.insert(
                call_id,
                ActiveCommandView {
                    tool_call_id: call_id,
                    terminal_output: call.terminal_output,
                    output: Seq::empty(),
                    file_extension: call.file_extension,
                },
            ),
            ..s
        },
        notify(
            plain(
                SessionUpdateView::ToolCall(
                    ToolCallView {
                        id: call_id,
                        title: call.title,
                        kind: call.kind,
                        status: ToolCallStatus::InProgress,
                        content: if terminal {
                            seq![ToolCallContentView::Terminal(call_id)]
                        } else {
                            seq![]
                        },
                        locations: call.locations,
                        raw_input: Some(raw),
                        raw_output: None,
                        meta: Some(
                            merged_meta(
                                tool_stop_meta(call_id),
                                if terminal {
                                    terminal_info(call_id, cwd)
                                } else {
                                    seq![]
                                },
                            ),
                        ),
                    },
                ),
            ),
        ),
    )
}

pub open spec fn terminal_data(call_id: Seq<char>, data: Seq<char>) -> Seq<(Seq<char>, JsonView)> {
    seq![
        (
            "terminal_output"@,
            JsonView::Object(
                seq![("terminal_id"@, JsonView::Text(call_id)), ("data"@, JsonView::Text(data))],
            ),
        ),
    ]
}

/// Output of a command: it goes to the client's terminal where there is one, else it is kept
/// until the command ends.
pub open spec fn command_output(
    s: PromptStateView,
    client: Option<Seq<(Seq<char>, JsonView)>>,
    call_id: Seq<char>,
    data: Seq<char>,
) -> (PromptStateView, Seq<EffectView>) {
    if !s.active_commands.contains_key(call_id) {
        (s, seq![])
    } else {
        let command = s.active_commands[call_id];
        if command.terminal_output && shows_terminals(client) {
            (
                s,
                notify(
                    plain(
                        SessionUpdateView::ToolCallUpdate(
                            ToolCallUpdateView {
                                meta: Some(terminal_data(call_id, data)),
                                ..status_update(command.tool_call_id, None)
                            },
                        ),
                    ),
                ),
            )
        } else {
            (
                PromptStateView {
                    active_commands: s.active_commands.insert(
                        call_id,
                        ActiveCommandView { output: command.output + data, ..command },
                    ),
                    ..s
                },
                seq![],
            )
        }
    }
}

/// The kept output of a command: Markdown as it is, anything else in a fenced block.
pub open spec fn shown_output(output: Seq<char>, extension: Option<Seq<char>>) -> Seq<char> {
    let body = without_trailing(output, CharClass::LineFeed);
    match extension {
        Some(ext) => if ext == "md"@ {
            output
        } else {
            "```"@ + ext + "\n"@ + body + "\n```\n"@
        },
        None => "```sh\n"@ + body + "\n```\n"@,
    }
}

pub open spec fn terminal_exit(call_id: Seq<char>, exit_code: i32) -> Seq<(Seq<char>, JsonView)> {
    seq![
        (
            "terminal_exit"@,
            JsonView::Object(
                seq![
                    ("terminal_id"@, JsonView::Text(call_id)),
                    ("exit_code"@, whole_number(exit_code as i64)),
                    ("signal"@, JsonView::Null),
                ],
            ),
        ),
    ]
}

/// A command ends: what it wrote without a terminal is shown once, if it wrote anything.
pub open spec fn command_ended(
    s: PromptStateView,
    client: Option<Seq<(Seq<char>, JsonView)>>,
    call_id: Seq<char>,
    exit_code: i32,
    status: RunStatus,
    raw: JsonView,
) -> (PromptStateView, Seq<EffectView>) {
    if !s.active_commands.contains_key(call_id) {
        (s, seq![])
    } else {
        let command = s.active_commands[call_id];
        let terminal = command.terminal_output && shows_terminals(client);
        (
            PromptStateView { active_commands: s.active_commands.remove(call_id), ..s },
            notify(
                plain(
                    SessionUpdateView::ToolCallUpdate(
                        ToolCallUpdateView {
                            content: if !terminal && command.output.len() > 0 {
                                Some(
                                    seq![
                                        ToolCallContentView::Text(
                                            shown_output(command.output, command.file_extension),
                                        ),
                                    ],
                                )
                            } else {
                                None
                            },
                            raw_output: Some(raw),
                            meta: if terminal {
                                Some(terminal_exit(call_id, exit_code))
                            } else {
                                None
                            },
                            ..status_update(
                                command.tool_call_id,
                                Some(run_status(status, exit_code == 0)),
                            )
                        },
                    ),
                ),
            ),
        )
    }
}

fn command_content(output: &str, extension: &Option<String>) -> (content: String)
    ensures
        content@ == shown_output(output@, extension.deep_view()),
{
    let body = trim_end_of(output, CharClass::LineFeed);
    match extension {
        Some(ext) => if same(ext.as_str(), "md") {
            output.to_owned()
        } else {
            concat5("```", ext.as_str(), "\n", body, "\n```\n")
        },
        None => concat3("```sh\n", body, "\n```\n"),
    }
}

impl PromptState {
    pub fn exec_command_begin(
        &mut self,
        client: &ClientCapabilities,
        call_id: String,
        cwd: String,
        parsed_cmd: Vec<ParsedCommand>,
        raw: Json,
    ) -> (effects: Vec<Effect>)
        ensures
            (final(self).deep_view(), effects.deep_view()) == command_begun(
                old(self).deep_view(),
                client.deep_view(),
                call_id@,
                cwd@,
                parsed_cmd.deep_view(),
                raw.deep_view(),
            ),
    {
        broadcast use crate::json::lemma_tree;

        let call = parse_command_tool_call(parsed_cmd, cwd.as_str());
        let terminal = client.supports_terminal_output(call.terminal_output);
        self.active_commands.insert(
            call_id.clone(),
            ActiveCommand {
                tool_call_id: call_id.clone(),
                terminal_output: call.terminal_output,
                output: String::new(),
                file_extension: call.file_extension,
            },
        );
        let content: Vec<ToolCallContent> = if terminal {
            one(ToolCallContent::Terminal(call_id.clone()))
        } else {
            empty()
        };
        let info: Vec<(String, Json)> = if terminal {
            one(
                (
                    "terminal_info".to_owned(),
                    Json::Object(
                        two(
                            ("terminal_id".to_owned(), Json::Text(call_id.clone())),
                            ("cwd".to_owned(), Json::Text(cwd)),
                        ),
                    ),
                ),
            )
        } else {
            empty()
        };
        let meta = merge_meta(agent_owned_tool_stop_meta(call_id.as_str()), info);
        one(
            Effect::Notify(
                tool_call(
                    ToolCall {
                        id: call_id,
                        title: call.title,
                        kind: call.kind,
                        status: ToolCallStatus::InProgress,
                        content,
                        locations: call.locations,
                        raw_input: Some(raw),
                        raw_output: None,
                        meta: Some(meta),
                    },
                ),
            ),
        )
    }

    fn add_command_output(
        &mut self,
        client: &ClientCapabilities,
        call_id: String,
        data: String,
    ) -> (effects: Vec<Effect>)
        ensures
            (final(self).deep_view(), effects.deep_view()) == command_output(
                old(self).deep_view(),
                client.deep_view(),
                call_id@,
                data@,
            ),
    {
        broadcast use crate::json::lemma_tree;

        let ghost before = self.active_commands.deep_view();
        match self.active_commands.remove(call_id.as_str()) {
            Some(command) => {
                let mut command = command;
                let terminal = client.supports_terminal_output(command.terminal_output);
                if terminal {
                    let id = command.tool_call_id.clone();
                    self.active_commands.insert(call_id.clone(), command);
                    assert(self.active_commands.deep_view() =~= before);
                    let mut update = new_status_update(id, None);
                    update.meta = Some(
                        one(
                            (
                                "terminal_output".to_owned(),
                                Json::Object(
                                    two(
                                        ("terminal_id".to_owned(), Json::Text(call_id)),
                                        ("data".to_owned(), Json::Text(data)),
                                    ),
                                ),
                            ),
                        ),
                    );
                    one(Effect::Notify(tool_call_update(update)))
                } else {
                    let mut output = command.output;
                    output.append(data.as_str());
                    let kept = ActiveCommand {
                        tool_call_id: command.tool_call_id,
                        terminal_output: command.terminal_output,
                        output,
                        file_extension: command.file_extension,
                    };
                    let ghost kept_view = kept.deep_view();
                    self.active_commands.insert(call_id, kept);
                    assert(self.active_commands.deep_view() =~= before.insert(call_id@, kept_view));
                    empty()
                }
            },
            None => {
                assert(before.remove(call_id@) =~= before);
                empty()
            },
        }
    }

    pub fn exec_command_output_delta(
        &mut self,
        client: &ClientCapabilities,
        call_id: String,
        chunk: Vec<u8>,
    ) -> (effects: Vec<Effect>)
        ensures
            (final(self).deep_view(), effects.deep_view()) == command_output(
                old(self).deep_view(),
                client.deep_view(),
                call_id@,
                lossy_text(chunk@),
            ),
    {
        let data = from_utf8_lossy(&chunk);
        self.add_command_output(client, call_id, data)
    }

    pub fn terminal_interaction(
        &mut self,
        client: &ClientCapabilities,
        call_id: String,
        stdin: String,
    ) -> (effects: Vec<Effect>)
        ensures
            (final(self).deep_view(), effects.deep_view()) == command_output(
                old(self).deep_view(),
                client.deep_view(),
                call_id@,
                "\n"@ + stdin@ + "\n"@,
            ),
    {
        let data = concat3("\n", stdin.as_str(), "\n");
        self.add_command_output(client, call_id, data)
    }

    pub fn exec_command_end(
        &mut self,
        client: &ClientCapabilities,
        call_id: String,
        exit_code: i32,
        status: RunStatus,
        raw: Json,
    ) -> (effects: Vec<Effect>)
        ensures
            (final(self).deep_view(), effects.deep_view()) == command_ended(
                old(self).deep_view(),
                client.deep_view(),
                call_id@,
                exit_code,
                status,
                raw.deep_view(),
            ),
    {
        broadcast use crate::json::lemma_tree;

        let ghost before = self.active_commands.deep_view();
        match self.active_commands.remove(call_id.as_str()) {
            Some(command) => {
                let ended = ended_status(status, exit_code == 0);
                let terminal = client.supports_terminal_output(command.terminal_output);
                let mut update = new_status_update(command.tool_call_id, Some(ended));
                update.raw_output = Some(raw);
                if !terminal && !command.output.as_str().is_empty() {
                    let content = command_content(
                        command.output.as_str(),
                        &command.file_extension,
                    );
                    update.content = Some(one(ToolCallContent::Text(content)));
                }
                if terminal {
                    update.meta = Some(
                        one(
                            (
                                "terminal_exit".to_owned(),
                                Json::Object(
                                    three(
                                        ("terminal_id".to_owned(), Json::Text(call_id)),
                                        (
                                            "exit_code".to_owned(),
                                            Json::Number(number(exit_code as i64)),
                                        ),
                                        ("signal".to_owned(), Json::Null),
                                    ),
                                ),
                            ),
                        ),
                    );
                }
                one(Effect::Notify(tool_call_update(update)))
            },
            None => {
                assert(before.remove(call_id@) =~= before);
                empty()
            },
        }
    }
}

pub open spec fn patch_begun(call_id: Seq<char>, changes: PatchSummaryView, raw: JsonView) -> Seq<
    EffectView,
> {
    notify(
        plain(
            SessionUpdateView::ToolCall(
                ToolCallView {
                    content: changes.content,
                    locations: changes.locations,
                    raw_input: Some(raw),
                    ..new_call(
                        call_id,
                        changes.title,
                        ToolKind::Edit,
                        ToolCallStatus::InProgress,
                    )
                },
            ),
        ),
    )
}

pub fn start_patch_apply(call_id: String, changes: PatchSummary, raw: Json) -> (effects: Vec<
    Effect,
>)
    ensures
        effects.deep_view() == patch_begun(call_id@, changes.deep_view(), raw.deep_view()),
{
    let mut call = new_tool_call(
        call_id,
        changes.title,
        ToolKind::Edit,
        ToolCallStatus::InProgress,
    );
    call.content = changes.content;
    call.locations = changes.locations;
    call.raw_input = Some(raw);
    one(Effect::Notify(tool_call(call)))
}

/// A patch that changes: nothing is shown of one without changes.
pub open spec fn patch_updated(
    call_id: Seq<char>,
    changes: PatchSummaryView,
    raw: JsonView,
) -> Seq<EffectView> {
    if changes.change_count == 0 {
        seq![]
    } else {
        notify(
            plain(
                SessionUpdateView::ToolCallUpdate(
                    ToolCallUpdateView {
                        kind: Some(ToolKind::Edit),
                        title: Some(changes.title),
                        locations: Some(changes.locations),
                        content: Some(changes.content),
                        raw_input: Some(raw),
                        ..status_update(call_id, Some(ToolCallStatus::InProgress))
                    },
                ),
            ),
        )
    }
}

pub fn update_patch_apply(call_id: String, changes: PatchSummary, raw: Json) -> (effects: Vec<
    Effect,
>)
    ensures
        effects.deep_view() == patch_updated(call_id@, changes.deep_view(), raw.deep_view()),
{
    if changes.change_count == 0 {
        return empty();
    }
    let mut update = new_status_update(call_id, Some(ToolCallStatus::InProgress));
    update.kind = Some(ToolKind::Edit);
    update.title = Some(changes.title);
    update.locations = Some(changes.locations);
    update.content = Some(changes.content);
    update.raw_input = Some(raw);
    one(Effect::Notify(tool_call_update(update)))
}

/// A patch that has ended: its changes are shown once more, where it has some.
pub open spec fn patch_ended(
    call_id: Seq<char>,
    success: bool,
    status: RunStatus,
    changes: PatchSummaryView,
    raw: JsonView,
) -> Seq<EffectView> {
    let bare = ToolCallUpdateView {
        raw_output: Some(raw),
        ..status_update(call_id, Some(run_status(status, success)))
    };
    let update = if changes.change_count == 0 {
        bare
    } else {
        ToolCallUpdateView {
            title: Some(changes.title),
            locations: Some(changes.locations),
            content: Some(changes.content),
            ..bare
        }
    };
    notify(plain(SessionUpdateView::ToolCallUpdate(update)))
}

pub fn end_patch_apply(
    call_id: String,
    success: bool,
    status: RunStatus,
    changes: PatchSummary,
    raw: Json,
) -> (effects: Vec<Effect>)
    ensures
        effects.deep_view() == patch_ended(
            call_id@,
            success,
            status,
            changes.deep_view(),
            raw.deep_view(),
        ),
{
    let mut update = new_status_update(call_id, Some(ended_status(status, success)));
    update.raw_output = Some(raw);
    if changes.change_count != 0 {
        update.title = Some(changes.title);
        update.locations = Some(changes.locations);
        update.content = Some(changes.content);
    }
    one(Effect::Notify(tool_call_update(update)))
}

} // verus!
