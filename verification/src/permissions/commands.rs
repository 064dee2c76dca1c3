//! How parsed commands are shown.
use crate::collections::{add_item, empty};
use crate::events::{ParsedCommand, ParsedCommandView};
use crate::paths::{extension, join_path, path_extension, path_joined};
use crate::permissions::{ParseCommandToolCall, ParseCommandToolCallView};
use crate::protocol::ToolKind;
use crate::text::{concat2, concat4, join, joined};
use vstd::prelude::*;

verus! {

/// The title of one parsed command.
pub open spec fn command_title(cmd: ParsedCommandView, cwd: Seq<char>) -> Seq<char> {
    match cmd {
        ParsedCommandView::Read { name, .. } => "Read "@ + name,
        ParsedCommandView::ListFiles { path: Some(path), .. } => "List "@ + path_joined(cwd, path),
        ParsedCommandView::ListFiles { path: None, .. } => "List "@ + cwd,
        ParsedCommandView::Search { query: Some(query), path: Some(path), .. } => "Search "@ + query
            + " in "@ + path,
        ParsedCommandView::Search { query: Some(query), path: None, .. } => "Search "@ + query,
        ParsedCommandView::Search { cmd, query: None, .. } => "Search "@ + cmd,
        ParsedCommandView::Unknown { cmd } => cmd,
    }
}

/// The path that one parsed command points at, if it points at one.
pub open spec fn command_location(cmd: ParsedCommandView, cwd: Seq<char>) -> Seq<Seq<char>> {
    match cmd {
        ParsedCommandView::Read { path, .. } => seq![path_joined(cwd, path)],
        ParsedCommandView::ListFiles { path: Some(path), .. } => seq![path_joined(cwd, path)],
        _ => seq![],
    }
}

pub open spec fn command_titles(cmds: Seq<ParsedCommandView>, cwd: Seq<char>) -> Seq<Seq<char>> {
    cmds.map_values(|cmd: ParsedCommandView| command_title(cmd, cwd))
}

pub open spec fn command_locations(cmds: Seq<ParsedCommandView>, cwd: Seq<char>) -> Seq<Seq<char>>
    decreases cmds.len(),
{
    if cmds.len() == 0 {
        seq![]
    } else {
        command_locations(cmds.drop_last(), cwd) + command_location(cmds.last(), cwd)
    }
}

/// The kind of the last command that is understood.
pub open spec fn commands_kind(cmds: Seq<ParsedCommandView>) -> ToolKind
    decreases cmds.len(),
{
    if cmds.len() == 0 {
        ToolKind::Execute
    } else {
        match cmds.last() {
            ParsedCommandView::Read { .. } => ToolKind::Read,
            ParsedCommandView::ListFiles { .. } => ToolKind::Search,
            ParsedCommandView::Search { .. } => ToolKind::Search,
            ParsedCommandView::Unknown { .. } => commands_kind(cmds.drop_last()),
        }
    }
}

/// The extension of the last file that is read.
pub open spec fn commands_extension(cmds: Seq<ParsedCommandView>) -> Option<Seq<char>>
    decreases cmds.len(),
{
    if cmds.len() == 0 {
        None
    } else {
        match cmds.last() {
            ParsedCommandView::Read { path, .. } => path_extension(path),
            _ => commands_extension(cmds.drop_last()),
        }
    }
}

/// How a list of parsed commands is shown: one title, the paths they point at, and a terminal
/// as soon as one of them is not understood.
pub open spec fn command_tool_call(
    cmds: Seq<ParsedCommandView>,
    cwd: Seq<char>,
) -> ParseCommandToolCallView {
    ParseCommandToolCallView {
        title: joined(command_titles(cmds, cwd), ", "@),
        file_extension: commands_extension(cmds),
        terminal_output: exists|i: int| 0 <= i < cmds.len() && cmds[i] is Unknown,
        locations: command_locations(cmds, cwd),
        kind: commands_kind(cmds),
    }
}

fn command_title_text(cmd: &ParsedCommand, cwd: &str) -> (title: String)
    ensures
        title@ == command_title(cmd.deep_view(), cwd@),
{
    match cmd {
        ParsedCommand::Read { name, .. } => concat2("Read ", name.as_str()),
        ParsedCommand::ListFiles { path, .. } => match path {
            Some(path) => {
                let dir = join_path(cwd, path.as_str());
                concat2("List ", dir.as_str())
            },
            None => concat2("List ", cwd),
        },
        ParsedCommand::Search { cmd, query, path } => match query {
            Some(query) => match path {
                Some(path) => concat4("Search ", query.as_str(), " in ", path.as_str()),
                None => concat2("Search ", query.as_str()),
            },
            None => concat2("Search ", cmd.as_str()),
        },
        ParsedCommand::Unknown { cmd } => cmd.clone(),
    }
}

pub fn parse_command_tool_call(parsed_cmd: Vec<ParsedCommand>, cwd: &str) -> (call:
    ParseCommandToolCall)
    ensures
        call.deep_view() == command_tool_call(parsed_cmd.deep_view(), cwd@),
{
    let mut titles: Vec<String> = empty();
    let mut locations: Vec<String> = empty();
    let mut file_extension: Option<String> = None;
    let mut terminal_output = false;
    let mut kind = ToolKind::Execute;
    let ghost cmds = parsed_cmd.deep_view();

    assert(cmds.take(0) =~= Seq::<ParsedCommandView>::empty());
    assert(command_titles(cmds.take(0), cwd@) =~= Seq::<Seq<char>>::empty());
    for i in 0..parsed_cmd.len()
        invariant
            cmds == parsed_cmd.deep_view(),
            titles.deep_view() == command_titles(cmds.take(i as int), cwd@),
            locations.deep_view() == command_locations(cmds.take(i as int), cwd@),
            file_extension.deep_view() == commands_extension(cmds.take(i as int)),
            terminal_output == exists|k: int| 0 <= k < i && cmds[k] is Unknown,
            kind == commands_kind(cmds.take(i as int)),
    {
        let ghost done = cmds.take(i as int);
        proof {
            assert(cmds.take(i + 1) =~= done.push(cmds[i as int]));
            assert(cmds.take(i + 1).drop_last() =~= done);
            assert(command_titles(cmds.take(i + 1), cwd@) =~= command_titles(done, cwd@).push(
                command_title(cmds[i as int], cwd@),
            ));
        }
        let cmd = &parsed_cmd[i];
        add_item(&mut titles, command_title_text(cmd, cwd));
        match cmd {
            ParsedCommand::Read { path, .. } => {
                file_extension =
                match extension(path.as_str()) {
                    Some(ext) => Some(ext.to_owned()),
                    None => None,
                };
                add_item(&mut locations, join_path(cwd, path.as_str()));
                kind = ToolKind::Read;
            },
            ParsedCommand::ListFiles { path, .. } => {
                if let Some(path) = path {
                    add_item(&mut locations, join_path(cwd, path.as_str()));
                }
                kind = ToolKind::Search;
            },
            ParsedCommand::Search { .. } => {
                kind = ToolKind::Search;
            },
            ParsedCommand::Unknown { .. } => {
                assert(cmds[i as int] is Unknown);
                terminal_output = true;
            },
        }
        assert(locations.deep_view() =~= command_locations(cmds.take(i + 1), cwd@));
    }
    assert(cmds.take(cmds.len() as int) =~= cmds);
    ParseCommandToolCall {
        title: join(&titles, ", "),
        file_extension,
        terminal_output,
        locations,
        kind,
    }
}

} // verus!
