//! How commands are shown, and which of them are taken for dangerous.
use crate::command_safety::{
    DangerousCommand, after_ascii_space, bare_word, base_name, danger, file_write, forces_removal,
    git_option_holds_value, git_option_takes_value, git_subcommand, git_subcommand_index,
    is_ascii_space, is_inline_script_flag, is_word_char, lowered, mutates_files, redirection_target,
    redirects_from, runs_inline_script, script_forces_removal, stands_alone, target_is_file,
    token_from,
};
use crate::events::ParsedCommandView;
use crate::paths::{
    last_position, lemma_last_position, path_extension, path_file_name, path_joined,
};
use crate::permissions::commands::{
    command_location, command_title, command_titles, command_tool_call,
};
use crate::protocol::ToolKind;
use crate::text::{
    CharClass, before_char, is_white, is_word, joined, lemma_before_char, starts_with, trimmed,
    without_leading, without_trailing,
};
use vstd::prelude::*;

verus! {

/// A command is shown by what it does: what is read by its name, what is listed by its place, what
/// is searched by what is looked for and where, and what is not understood as it is.
pub proof fn command_is_shown_by_what_it_does(cmd: ParsedCommandView, cwd: Seq<char>)
    ensures
        ({
            let shown = command_tool_call(seq![cmd], cwd);
            match cmd {
                ParsedCommandView::Read { name, path, .. } => {
                    &&& shown.title == "Read "@ + name
                    &&& shown.kind == ToolKind::Read
                    &&& shown.locations == seq![path_joined(cwd, path)]
                    &&& shown.file_extension == path_extension(path)
                    &&& !shown.terminal_output
                },
                ParsedCommandView::ListFiles { path, .. } => {
                    &&& shown.title == "List "@ + (match path {
                        Some(path) => path_joined(cwd, path),
                        None => cwd,
                    })
                    &&& shown.kind == ToolKind::Search
                    &&& path is None ==> shown.locations.len() == 0
                    &&& path is Some ==> shown.locations == seq![path_joined(cwd, path->Some_0)]
                    &&& shown.file_extension is None
                    &&& !shown.terminal_output
                },
                ParsedCommandView::Search { cmd: text, query, path } => {
                    &&& query is None ==> shown.title == "Search "@ + text
                    &&& query is Some && path is None ==> shown.title == "Search "@ + query->Some_0
                    &&& query is Some && path is Some ==> shown.title == "Search "@ + query->Some_0
                        + " in "@ + path->Some_0
                    &&& shown.kind == ToolKind::Search
                    &&& shown.locations.len() == 0
                    &&& shown.file_extension is None
                    &&& !shown.terminal_output
                },
                ParsedCommandView::Unknown { cmd: text } => {
                    &&& shown.title == text
                    &&& shown.kind == ToolKind::Execute
                    &&& shown.locations.len() == 0
                    &&& shown.file_extension is None
                    &&& shown.terminal_output
                },
            }
        }),
{
    let cmds = seq![cmd];
    let none: Seq<ParsedCommandView> = seq![];
    assert(cmds.drop_last() =~= none);
    assert(none.push(cmd) =~= cmds);
    commands_are_shown_in_order(none, cmd, cwd);
}

/// Commands are shown in their order: each adds its title behind the others and the path it points
/// at; the last that is understood decides the kind, the last file that is read the extension, and
/// one that is not understood is enough for a terminal.
pub proof fn commands_are_shown_in_order(
    cmds: Seq<ParsedCommandView>,
    cmd: ParsedCommandView,
    cwd: Seq<char>,
)
    ensures
        ({
            let before = command_tool_call(cmds, cwd);
            let after = command_tool_call(cmds.push(cmd), cwd);
            let title = match cmd {
                ParsedCommandView::Read { name, .. } => "Read "@ + name,
                ParsedCommandView::ListFiles { path: Some(path), .. } => "List "@ + path_joined(
                    cwd,
                    path,
                ),
                ParsedCommandView::ListFiles { path: None, .. } => "List "@ + cwd,
                ParsedCommandView::Search { query: Some(query), path: Some(path), .. } => "Search "@
                    + query + " in "@ + path,
                ParsedCommandView::Search { query: Some(query), path: None, .. } => "Search "@
                    + query,
                ParsedCommandView::Search { cmd: text, query: None, .. } => "Search "@ + text,
                ParsedCommandView::Unknown { cmd: text } => text,
            };
            &&& cmds.len() == 0 ==> after.title == title
            &&& cmds.len() > 0 ==> after.title == before.title + ", "@ + title
            &&& after.terminal_output == (before.terminal_output || cmd is Unknown)
            &&& cmd is Unknown ==> after.kind == before.kind
            &&& cmd is Read ==> after.kind == ToolKind::Read
            &&& cmd is ListFiles || cmd is Search ==> after.kind == ToolKind::Search
            &&& cmd matches ParsedCommandView::Read { path, .. } ==> after.file_extension
                == path_extension(path) && after.locations == before.locations.push(
                path_joined(cwd, path),
            )
            &&& !(cmd is Read) ==> after.file_extension == before.file_extension
            &&& cmd matches ParsedCommandView::ListFiles { path: Some(path), .. }
                ==> after.locations == before.locations.push(path_joined(cwd, path))
            &&& cmd is Unknown || cmd is Search ==> after.locations == before.locations
            &&& cmd matches ParsedCommandView::ListFiles { path: None, .. } ==> after.locations
                == before.locations
            &&& cmds.len() == 0 ==> before.title.len() == 0 && before.locations.len() == 0
                && before.kind == ToolKind::Execute && before.file_extension is None
                && !before.terminal_output
        }),
{
    let more = cmds.push(cmd);
    let titles = command_titles(cmds, cwd);
    assert(more.drop_last() =~= cmds);
    assert(command_titles(more, cwd) =~= titles.push(
        command_title(cmd, cwd),
    ));
    assert(titles.push(command_title(cmd, cwd)).drop_last() =~= titles);
    let before = command_tool_call(cmds, cwd);
    let after = command_tool_call(more, cwd);
    assert(after.locations =~= before.locations + command_location(cmd, cwd));
    assert(more[cmds.len() as int] == cmd);
    if before.terminal_output {
        let i = choose|i: int| 0 <= i < cmds.len() && cmds[i] is Unknown;
        assert(more[i] is Unknown);
    }
    if after.terminal_output && !(cmd is Unknown) {
        let i = choose|i: int| 0 <= i < more.len() && more[i] is Unknown;
        assert(cmds[i] is Unknown);
    }
}

/// A removal is forced exactly where `rm`, behind any number of `sudo` and nothing else, is given
/// one of the two flags for it as its first argument.
pub proof fn forced_removal_is_rm_with_force(command: Seq<Seq<char>>)
    ensures
        forces_removal(command) <==> exists|k: int| removes_at(command, k),
    decreases command.len(),
{
    reveal_strlit("rm");
    reveal_strlit("sudo");
    assert("rm"@.len() == 2 && "sudo"@.len() == 4);
    if command.len() > 0 {
        let rest = command.drop_first();
        forced_removal_is_rm_with_force(rest);
        if command[0] == "rm"@ {
            if forces_removal(command) {
                assert(removes_at(command, 0));
            }
            if exists|k: int| removes_at(command, k) {
                let k = choose|k: int| removes_at(command, k);
                if k > 0 {
                    assert(command[0] == "sudo"@);
                }
            }
        } else if command[0] == "sudo"@ {
            if forces_removal(rest) {
                let k = choose|k: int| removes_at(rest, k);
                assert forall|i: int| 0 <= i < k + 1 implies #[trigger] command[i] == "sudo"@ by {
                    if i > 0 {
                        assert(rest[i - 1] == command[i]);
                    }
                }
                assert(rest[k] == command[k + 1] && rest[k + 1] == command[k + 2]);
                assert(removes_at(command, k + 1));
            }
            if exists|k: int| removes_at(command, k) {
                let k = choose|k: int| removes_at(command, k);
                assert forall|i: int| 0 <= i < k - 1 implies #[trigger] rest[i] == "sudo"@ by {
                    assert(rest[i] == command[i + 1]);
                }
                assert(rest[k - 1] == command[k] && rest[k] == command[k + 1]);
                assert(removes_at(rest, k - 1));
            }
        } else {
            if exists|k: int| removes_at(command, k) {
                let k = choose|k: int| removes_at(command, k);
                if k > 0 {
                    assert(command[0] == "sudo"@);
                }
            }
        }
    }
}

/// The word at `k` is `rm`, everything before it is `sudo`, and a flag that forces follows it.
pub open spec fn removes_at(command: Seq<Seq<char>>, k: int) -> bool {
    &&& 0 <= k && k + 1 < command.len()
    &&& forall|i: int| 0 <= i < k ==> #[trigger] command[i] == "sudo"@
    &&& command[k] == "rm"@
    &&& command[k + 1] == "-f"@ || command[k + 1] == "-rf"@
}

/// A program is known by what follows the last slash or backslash of its path.
pub proof fn program_is_known_by_its_name(dir: Seq<char>, name: Seq<char>)
    requires
        !name.contains('/'),
        !name.contains('\\'),
    ensures
        base_name(name) == name,
        base_name(dir.push('/') + name) == name,
        base_name(dir.push('\\') + name) == name,
{
    lemma_last_position(name, '/');
    lemma_last_position(name, '\\');
    assert(last_position(name, '/') == -1) by {
        if last_position(name, '/') >= 0 {
            assert(name.contains('/'));
        }
    }
    assert(last_position(name, '\\') == -1) by {
        if last_position(name, '\\') >= 0 {
            assert(name.contains('\\'));
        }
    }
    assert(name.skip(0) =~= name);
    let slashed = dir.push('/') + name;
    lemma_mark_before_name(dir, '/', '\\', name);
    assert(slashed.skip(dir.len() as int + 1) =~= name);
    let backslashed = dir.push('\\') + name;
    lemma_mark_before_name(dir, '\\', '/', name);
    assert(backslashed.skip(dir.len() as int + 1) =~= name);
}

proof fn lemma_mark_before_name(dir: Seq<char>, mark: char, other: char, name: Seq<char>)
    requires
        !name.contains(mark),
        !name.contains(other),
        mark != other,
    ensures
        last_position(dir.push(mark) + name, mark) == dir.len(),
        last_position(dir.push(mark) + name, other) < dir.len(),
{
    let path = dir.push(mark) + name;
    lemma_last_position(path, mark);
    lemma_last_position(path, other);
    assert(path[dir.len() as int] == mark);
    let at = last_position(path, mark);
    if at > dir.len() {
        assert(name[at - dir.len() - 1] == mark);
    }
    let beside = last_position(path, other);
    if beside > dir.len() {
        assert(name[beside - dir.len() - 1] == other);
    }
}

/// The programs that change files, by name: those that exist for it, and the two editors where
/// they are told to edit in place; with or without `sudo` before them.
pub proof fn file_tools_change_files(program: Seq<char>, args: Seq<Seq<char>>, k: int)
    ensures
        ({
            let command = seq![program] + args;
            let name = base_name(program);
            let tool = name == "tee"@ || name == "truncate"@ || name == "touch"@ || name == "rm"@
                || name == "mv"@ || name == "cp"@ || name == "dd"@ || name == "install"@;
            &&& tool && program != "sudo"@ ==> mutates_files(command)
            &&& tool ==> mutates_files(seq!["sudo"@] + command)
            &&& name == "sed"@ && 0 <= k < args.len() && starts_with(args[k], "-i"@)
                ==> mutates_files(command)
            &&& name == "perl"@ && 0 <= k < args.len() && starts_with(args[k], "-pi"@)
                ==> mutates_files(command)
            &&& !tool && program != "sudo"@ && name != "sed"@ && name != "perl"@ ==> !mutates_files(
                command,
            )
            &&& (forall|i: int|
                0 <= i < command.len() ==> !starts_with(#[trigger] command[i], "-i"@)
                    && !starts_with(command[i], "-p"@)) && !tool && program != "sudo"@
                ==> !mutates_files(command)
        }),
{
    let command = seq![program] + args;
    reveal_strlit("sudo");
    reveal_strlit("sed");
    reveal_strlit("perl");
    reveal_strlit("-p");
    reveal_strlit("-pi");
    reveal_strlit("-pie");
    assert("sudo"@[1] == 'u' && "sed"@[1] == 'e' && "perl"@[0] == 'p' && "sudo"@[0] == 's');
    let run = seq!["sudo"@] + command;
    assert(run[1] == program);
    if program == "sudo"@ {
        lemma_plain_name_of_sudo();
    }
    if 0 <= k < args.len() {
        assert(command[k + 1] == args[k]);
    }
    assert forall|i: int|
        0 <= i < command.len() && (starts_with(#[trigger] command[i], "-pi"@) || starts_with(
            command[i],
            "-pie"@,
        )) implies starts_with(command[i], "-p"@) by {
        assert(command[i][0] == '-') by {
            if starts_with(command[i], "-pi"@) {
                assert(command[i].take("-pi"@.len() as int)[0] == "-pi"@[0]);
            } else {
                assert(command[i].take("-pie"@.len() as int)[0] == "-pie"@[0]);
            }
        }
        assert(command[i][1] == 'p') by {
            if starts_with(command[i], "-pi"@) {
                assert(command[i].take("-pi"@.len() as int)[1] == "-pi"@[1]);
            } else {
                assert(command[i].take("-pie"@.len() as int)[1] == "-pie"@[1]);
            }
        }
        assert(command[i].take(2) =~= "-p"@);
    }
}

proof fn lemma_plain_name_of_sudo()
    ensures
        base_name("sudo"@) == "sudo"@,
{
    reveal_strlit("sudo");
    lemma_last_position("sudo"@, '/');
    lemma_last_position("sudo"@, '\\');
    assert("sudo"@.len() == 4);
    assert("sudo"@[0] == 's' && "sudo"@[1] == 'u' && "sudo"@[2] == 'd' && "sudo"@[3] == 'o');
    assert("sudo"@.skip(0) =~= "sudo"@);
}

/// An interpreter runs a script that it is handed inline exactly where one of its arguments is a
/// flag for it; other programs never do.
pub proof fn inline_scripts_are_handed_by_flag(program: Seq<char>, args: Seq<Seq<char>>, k: int)
    ensures
        ({
            let name = base_name(program);
            let interpreter = name == "python"@ || name == "python3"@ || name == "python2"@ || name
                == "py"@ || name == "node"@ || name == "node.exe"@ || name == "ruby"@ || name
                == "perl"@ || name == "php"@;
            let command = seq![program] + args;
            &&& runs_inline_script(command) ==> interpreter
            &&& interpreter && 0 <= k < args.len() && (args[k] == "-"@ || args[k] == "-c"@
                || args[k] == "-e"@ || args[k] == "--eval"@) ==> runs_inline_script(command)
            &&& (forall|i: int|
                0 <= i < args.len() ==> (#[trigger] args[i]) != "-"@ && args[i] != "-c"@ && args[i]
                    != "-e"@ && args[i] != "--eval"@) ==> !runs_inline_script(command)
        }),
{
    let command = seq![program] + args;
    if 0 <= k < args.len() {
        assert(command[k + 1] == args[k]);
    }
    if runs_inline_script(command) {
        let i = choose|i: int|
            1 <= i < command.len() && is_inline_script_flag(
                #[trigger] command[i],
            );
        assert(command[i] == args[i - 1]);
    }
}

proof fn lemma_no_sign(s: Seq<char>, i: int, n: int)
    requires
        0 <= i <= n <= s.len(),
        forall|k: int| i <= k < n ==> s[k] != '>',
    ensures
        redirects_from(s, i) == redirects_from(s, n),
    decreases n - i,
{
    if i < n {
        assert(s[i] != '>');
        lemma_no_sign(s, i + 1, n);
    }
}

/// Without its sign nothing is redirected, and behind a digit the sign redirects another stream.
pub proof fn nothing_is_redirected_without_the_sign(s: Seq<char>)
    requires
        forall|i: int|
            0 <= i < s.len() && (#[trigger] s[i]) == '>' ==> i > 0 && '0' <= s[i - 1] <= '9',
    ensures
        !redirects_from(s, 0),
{
    lemma_no_counting_sign(s, 0);
}

proof fn lemma_no_counting_sign(s: Seq<char>, i: int)
    requires
        0 <= i <= s.len(),
        forall|k: int|
            0 <= k < s.len() && (#[trigger] s[k]) == '>' ==> k > 0 && '0' <= s[k - 1] <= '9',
    ensures
        !redirects_from(s, i),
    decreases s.len() - i,
{
    if i < s.len() {
        lemma_no_counting_sign(s, i + 1);
    }
}

/// The names of what swallows what is written to it, in whatever case.
pub open spec fn swallows(target: Seq<char>) -> bool {
    lowered(target) == "/dev/null"@ || lowered(target) == "$null"@ || lowered(target) == "nul"@
        || lowered(target) == "null"@
}

/// A word that output is redirected to, with one sign or two, is written, unless it swallows what
/// is written to it or stands for another stream.
pub proof fn redirection_writes_its_target(head: Seq<char>, twice: bool, word: Seq<char>)
    requires
        forall|i: int| 0 <= i < head.len() ==> (#[trigger] head[i]) != '>',
        head.len() == 0 || !('0' <= head.last() <= '9'),
        is_word(word),
        forall|i: int|
            0 <= i < word.len() ==> (#[trigger] word[i]) != '>' && word[i] != ';' && word[i] != '|',
        word[0] != '"' && word[0] != '\'',
    ensures
        ({
            let sign = if twice {
                seq!['>', '>']
            } else {
                seq!['>']
            };
            let spaced = head + sign + seq![' '] + word;
            &&& redirects_from(spaced, 0) <==> !swallows(word) && word[0] != '&'
            &&& redirects_from(head + sign + word, 0) <==> !swallows(word) && word[0] != '&'
        }),
{
    let sign = if twice {
        seq!['>', '>']
    } else {
        seq!['>']
    };
    let spaced = head + sign + seq![' '] + word;
    lemma_word_is_target(word);
    lemma_redirection(head, twice, seq![' '] + word);
    assert(head + sign + (seq![' '] + word) =~= spaced);
    assert((seq![' '] + word).drop_first() =~= word);
    assert(after_ascii_space(seq![' '] + word) == after_ascii_space(word));
    lemma_redirection(head, twice, word);
    reveal_strlit("&");
    assert("&"@ =~= seq!['&']);
    if word[0] == '&' {
        assert(word.take(1) =~= seq!['&']);
    } else if starts_with(word, "&"@) {
        assert(word.take(1)[0] == '&');
    }
}

/// A target in quotes is what stands between them.
pub proof fn quoted_target_stands_between_quotes(
    head: Seq<char>,
    inner: Seq<char>,
    quote: char,
    rest: Seq<char>,
)
    requires
        forall|i: int| 0 <= i < head.len() ==> (#[trigger] head[i]) != '>',
        head.len() == 0 || !('0' <= head.last() <= '9'),
        is_word(inner),
        quote == '"' || quote == '\'',
        !inner.contains(quote),
        forall|i: int| 0 <= i < inner.len() ==> (#[trigger] inner[i]) != '>',
        forall|i: int| 0 <= i < rest.len() ==> (#[trigger] rest[i]) != '>',
    ensures
        redirects_from(head.push('>') + seq![' ', quote] + inner + seq![quote] + rest, 0)
            <==> !swallows(inner) && inner[0] != '&',
{
    let tail = seq![' ', quote] + inner + seq![quote] + rest;
    let whole = head.push('>') + seq![' ', quote] + inner + seq![quote] + rest;
    assert(whole =~= head + seq!['>'] + tail);
    lemma_redirection(head, false, tail);
    let quoted = seq![quote] + inner + seq![quote] + rest;
    assert(tail.drop_first() =~= quoted);
    assert(quoted.first() == quote);
    assert(after_ascii_space(tail) == after_ascii_space(quoted));
    assert(after_ascii_space(quoted) == quoted);
    let behind = quoted.drop_first();
    assert(behind =~= inner + (seq![quote] + rest));
    lemma_before_char(behind, quote);
    let found = before_char(behind, quote);
    assert(behind[inner.len() as int] == quote);
    assert(found =~= inner) by {
        if found.len() < inner.len() {
            assert(inner[found.len() as int] == quote);
        }
        if found.len() > inner.len() {
            assert(found[inner.len() as int] == quote);
        }
        assert(behind.take(inner.len() as int) =~= inner);
    }
    lemma_word_is_trimmed(inner);
    reveal_strlit("&");
    assert("&"@ =~= seq!['&']);
    if inner[0] == '&' {
        assert(inner.take(1) =~= seq!['&']);
    } else if starts_with(inner, "&"@) {
        assert(inner.take(1)[0] == '&');
    }
}

proof fn lemma_redirection(head: Seq<char>, twice: bool, tail: Seq<char>)
    requires
        forall|i: int| 0 <= i < head.len() ==> (#[trigger] head[i]) != '>',
        head.len() == 0 || !('0' <= head.last() <= '9'),
        forall|i: int| 0 <= i < tail.len() ==> (#[trigger] tail[i]) != '>',
    ensures
        redirects_from(
            head + (if twice {
                seq!['>', '>']
            } else {
                seq!['>']
            }) + tail,
            0,
        ) == target_is_file(redirection_target(tail)),
{
    let sign = if twice {
        seq!['>', '>']
    } else {
        seq!['>']
    };
    let s = head + sign + tail;
    let n = head.len() as int;
    let next = n + sign.len();
    lemma_no_sign(s, 0, n);
    assert forall|k: int| next <= k < s.len() implies s[k] != '>' by {
        assert(s[k] == tail[k - next]);
    }
    lemma_no_sign(s, next, s.len() as int);
    assert(s[n] == '>');
    if n > 0 {
        assert(s[n - 1] == head.last());
    }
    assert(s.skip(next) =~= tail);
    if !twice && n + 1 < s.len() {
        assert(s[n + 1] == tail[0]);
    }
}

proof fn lemma_word_is_trimmed(word: Seq<char>)
    requires
        is_word(word),
    ensures
        trimmed(word) == word,
{
    assert(!is_white(word[0]));
    assert(!is_white(word[word.len() - 1]));
    assert(without_leading(word, CharClass::White) == word);
    assert(without_trailing(word, CharClass::White) == word);
}

proof fn lemma_word_is_target(word: Seq<char>)
    requires
        is_word(word),
        forall|i: int| 0 <= i < word.len() ==> (#[trigger] word[i]) != ';' && word[i] != '|',
        word[0] != '"' && word[0] != '\'',
    ensures
        after_ascii_space(word) == word,
        redirection_target(word) == Some(word),
        trimmed(word) == word,
{
    assert(!is_white(word[0]));
    lemma_bare_word(word);
    lemma_word_is_trimmed(word);
}

proof fn lemma_bare_word(word: Seq<char>)
    requires
        forall|i: int|
            0 <= i < word.len() ==> !is_white(#[trigger] word[i]) && word[i] != ';' && word[i]
                != '|',
    ensures
        bare_word(word) == word,
    decreases word.len(),
{
    if word.len() > 0 {
        let rest = word.drop_first();
        assert forall|i: int| 0 <= i < rest.len() implies !is_white(#[trigger] rest[i]) && rest[i]
            != ';' && rest[i] != '|' by {
            assert(rest[i] == word[i + 1]);
        }
        assert(!is_white(word[0]));
        lemma_bare_word(rest);
        assert(seq![word[0]] + rest =~= word);
    } else {
        assert(bare_word(word) =~= word);
    }
}

/// Lower case changes capitals of the Latin alphabet, each to its small letter, and nothing else.
pub proof fn lower_case_changes_capitals_only(s: Seq<char>, i: int)
    requires
        0 <= i < s.len(),
    ensures
        lowered(s).len() == s.len(),
        !('A' <= s[i] <= 'Z') ==> lowered(s)[i] == s[i],
        'A' <= s[i] <= 'Z' ==> lowered(s)[i] as int - 'a' as int == s[i] as int - 'A' as int,
{
    let c = s[i];
    if 'A' <= c <= 'Z' {
        assert((c as int + 32) as char as int == c as int + 32);
    }
}

/// The first reason that holds is told: a forced removal before a redirection, a redirection before
/// an inline script, a script before a tool that changes files.
pub proof fn first_reason_is_told(command: Seq<Seq<char>>)
    ensures
        ({
            let text = joined(command, " "@);
            let patched = token_from(lowered(text), "apply_patch"@, 0);
            &&& forces_removal(command) ==> danger(command) == Some(DangerousCommand::ForcedRemoval)
            &&& !forces_removal(command) ==> danger(command) == file_write(command)
            &&& patched ==> file_write(command) is None
            &&& !patched && redirects_from(text, 0) ==> file_write(command) == Some(
                DangerousCommand::Redirection,
            )
            &&& !patched && !redirects_from(text, 0) && runs_inline_script(command) ==> file_write(
                command,
            ) == Some(DangerousCommand::ScriptedInterpreter)
            &&& !patched && !redirects_from(text, 0) && !runs_inline_script(command)
                && mutates_files(command) ==> file_write(command) == Some(
                DangerousCommand::FileMutation,
            )
            &&& !patched && !redirects_from(text, 0) && !runs_inline_script(command)
                && !mutates_files(command) ==> file_write(command) is None
        }),
{
}

/// A script removes with force exactly where one of its commands does; one that is not understood
/// does not.
pub proof fn script_removes_where_a_command_does(
    commands: Seq<Seq<Seq<char>>>,
    command: Seq<Seq<char>>,
)
    ensures
        !script_forces_removal(None),
        commands.len() == 0 ==> !script_forces_removal(Some(commands)),
        script_forces_removal(Some(commands.push(command))) == (script_forces_removal(
            Some(commands),
        ) || forces_removal(command)),
{
    let more = commands.push(command);
    let fewer_given = Some(commands);
    let more_given = Some(more);
    assert(more_given->Some_0[commands.len() as int] == command);
    if script_forces_removal(Some(commands)) {
        let i = choose|i: int| 0 <= i < commands.len() && forces_removal(#[trigger] commands[i]);
        assert(more_given->Some_0[i] == commands[i]);
    }
    if script_forces_removal(Some(more)) && !forces_removal(command) {
        let i = choose|i: int| 0 <= i < more.len() && forces_removal(#[trigger] more[i]);
        assert(fewer_given->Some_0[i] == more[i]);
    }
}

/// An option of git that takes its value from the next word.
pub open spec fn takes_next_word(word: Seq<char>) -> bool {
    word == "-C"@ || word == "-c"@ || word == "--config-env"@ || word == "--exec-path"@ || word
        == "--git-dir"@ || word == "--namespace"@ || word == "--super-prefix"@ || word
        == "--work-tree"@
}

/// Git's subcommand is the first word that is no option and no value of one: an option that takes a
/// value from the next word is passed over with that word, any other option alone.
pub proof fn git_options_are_passed_over(
    git: Seq<char>,
    option: Seq<char>,
    value: Seq<char>,
    name: Seq<char>,
    rest: Seq<Seq<char>>,
    subcommands: Seq<Seq<char>>,
)
    requires
        path_file_name(git) == Some("git"@),
        name.len() > 0 && name[0] != '-',
        option.len() > 0 && option[0] == '-',
    ensures
        ({
            let direct = git_subcommand(seq![git, name] + rest, subcommands);
            let behind = git_subcommand(seq![git, option, name] + rest, subcommands);
            let valued = git_subcommand(seq![git, option, value, name] + rest, subcommands);
            &&& subcommands.contains(name) ==> direct == Some((1int, name))
            &&& !subcommands.contains(name) ==> direct is None
            &&& subcommands.contains(name) && !takes_next_word(option) ==> behind == Some(
                (2int, name),
            )
            &&& subcommands.contains(name) && takes_next_word(option) ==> valued == Some(
                (3int, name),
            )
        }),
{
    reveal_with_fuel(git_subcommand_index, 3);
    let direct = seq![git, name] + rest;
    let behind = seq![git, option, name] + rest;
    let valued = seq![git, option, value, name] + rest;
    assert(direct[0] == git && direct[1] == name);
    assert(behind[0] == git && behind[1] == option && behind[2] == name);
    assert(valued[0] == git && valued[1] == option && valued[2] == value && valued[3] == name);
    lemma_plain_word(name);
    reveal_strlit("-");
    assert("-"@ =~= seq!['-']);
    assert(option.take(1) =~= seq!['-']);
    if takes_next_word(option) {
        lemma_bare_options(option);
    }
}

proof fn lemma_plain_word(name: Seq<char>)
    requires
        name.len() > 0 && name[0] != '-',
    ensures
        !git_option_holds_value(name),
        !git_option_takes_value(name),
        !starts_with(name, "-"@),
{
    reveal_strlit("--config-env=");
    reveal_strlit("--exec-path=");
    reveal_strlit("--git-dir=");
    reveal_strlit("--namespace=");
    reveal_strlit("--super-prefix=");
    reveal_strlit("--work-tree=");
    reveal_strlit("-C");
    reveal_strlit("-c");
    reveal_strlit("-");
    reveal_strlit("--config-env");
    reveal_strlit("--exec-path");
    reveal_strlit("--git-dir");
    reveal_strlit("--namespace");
    reveal_strlit("--super-prefix");
    reveal_strlit("--work-tree");
    assert forall|prefix: Seq<char>|
        prefix.len() > 0 && prefix[0] == '-' implies !#[trigger] starts_with(name, prefix) by {
        if starts_with(name, prefix) {
            assert(name.take(prefix.len() as int)[0] == prefix[0]);
        }
    }
    assert("-C"@[0] == '-' && "-c"@[0] == '-' && "--config-env"@[0] == '-');
    assert("--exec-path"@[0] == '-' && "--git-dir"@[0] == '-' && "--namespace"@[0] == '-');
    assert("--super-prefix"@[0] == '-' && "--work-tree"@[0] == '-');
}

proof fn lemma_bare_options(option: Seq<char>)
    requires
        takes_next_word(option),
    ensures
        !git_option_holds_value(option),
        git_option_takes_value(option),
{
    reveal_strlit("--config-env=");
    reveal_strlit("--exec-path=");
    reveal_strlit("--git-dir=");
    reveal_strlit("--namespace=");
    reveal_strlit("--super-prefix=");
    reveal_strlit("--work-tree=");
    reveal_strlit("-C");
    reveal_strlit("-c");
    reveal_strlit("--config-env");
    reveal_strlit("--exec-path");
    reveal_strlit("--git-dir");
    reveal_strlit("--namespace");
    reveal_strlit("--super-prefix");
    reveal_strlit("--work-tree");
    assert forall|prefix: Seq<char>|
        prefix.len() > 0 && prefix.last() == '=' implies !#[trigger] starts_with(
        option,
        prefix,
    ) by {
        if starts_with(option, prefix) {
            let at = prefix.len() - 1;
            assert(option.take(prefix.len() as int)[at] == prefix[at]);
            assert(option[at] == '=');
        }
    }
    assert forall|prefix: Seq<char>|
        prefix.len() == 2 && prefix[1] != '-' && option.len() > 2 implies !#[trigger] starts_with(
        option,
        prefix,
    ) by {
        if starts_with(option, prefix) {
            assert(option.take(2)[1] == prefix[1]);
        }
    }
}

/// The characters of command words are the Latin letters, the digits, the underscore and the
/// hyphen; `apply_patch` stands alone where none of them is beside it.
pub proof fn command_words_are_known(text: Seq<char>, before: char, behind: char, c: char)
    requires
        before == ' ' || before == ';' || before == '/' || before == '(' || before == '"',
        behind == ' ' || behind == ';' || behind == '<' || behind == ')' || behind == '"',
    ensures
        is_word_char(c) <==> 'a' <= c <= 'z' || 'A' <= c <= 'Z' || '0' <= c <= '9' || c == '_' || c
            == '-',
        is_ascii_space(c) <==> c == ' ' || c == '\t' || c == '\n' || c == '\u{c}' || c == '\r',
        stands_alone(seq![before] + text + seq![behind], text, 1),
        stands_alone(text, text, 0),
        is_word_char(c) ==> !stands_alone(seq![c] + text, text, 1) && !stands_alone(
            text + seq![c],
            text,
            0,
        ),
{
    let whole = seq![before] + text + seq![behind];
    assert(whole[0] == before && whole.last() == behind);
    let led = seq![c] + text;
    assert(led[0] == c);
    let followed = text + seq![c];
    assert(followed[text.len() as int] == c);
}

} // verus!
