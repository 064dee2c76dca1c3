//! Which commands are put to the host's permission broker before they run.
use crate::paths::{after_last, file_name, last_position, lemma_last_position, path_file_name};
use crate::text::{
    before_char, chars_of, join, joined, same, starts_with, strip_prefix, take_until, trim,
    trimmed,
};
use vstd::prelude::*;
use vstd::string::*;

verus! {

/// Why a command is put to the host's permission broker.
#[derive(Debug, Clone, Copy, PartialEq, Eq, Structural)]
pub enum DangerousCommand {
    /// `rm` with force, also behind `sudo`.
    ForcedRemoval,
    /// Output redirected into a file.
    Redirection,
    /// An interpreter that runs an inline script or one from standard input.
    ScriptedInterpreter,
    /// A command that exists to change files.
    FileMutation,
}

pub open spec fn is_ascii_space(c: char) -> bool {
    c == ' ' || c == '\t' || c == '\n' || c == '\u{c}' || c == '\r'
}

pub open spec fn is_ascii_digit(c: char) -> bool {
    '0' <= c <= '9'
}

/// The characters of a command word.
pub open spec fn is_word_char(c: char) -> bool {
    'a' <= c <= 'z' || 'A' <= c <= 'Z' || '0' <= c <= '9' || c == '_' || c == '-'
}

pub fn is_command_word_char(value: char) -> (word: bool)
    ensures
        word == is_word_char(value),
{
    ('a' <= value && value <= 'z') || ('A' <= value && value <= 'Z') || ('0' <= value && value
        <= '9') || value == '_' || value == '-'
}

pub open spec fn ascii_lower(c: char) -> char {
    if 'A' <= c <= 'Z' {
        (c as int + 32) as char
    } else {
        c
    }
}

/// `s` with its ASCII capitals in lower case.
pub open spec fn lowered(s: Seq<char>) -> Seq<char> {
    s.map_values(|c: char| ascii_lower(c))
}

/// `text` with its ASCII capitals in lower case.
pub fn to_ascii_lowercase(text: &str) -> (lower: String)
    ensures
        lower@ == lowered(text@),
{
    let chars = chars_of(text);
    let mut lower = String::new();
    for i in 0..chars.len()
        invariant
            chars@ == text@,
            lower@ == lowered(text@.take(i as int)),
    {
        let c = chars[i];
        let mapped: char = if 'A' <= c && c <= 'Z' {
            ((c as u8) + 32) as char
        } else {
            c
        };
        assert(lowered(text@.take(i + 1)) =~= lowered(text@.take(i as int)).push(
            ascii_lower(text@[i as int]),
        ));
        lower.push(mapped);
    }
    assert(text@.take(text@.len() as int) =~= text@);
    lower
}

/// Whether `token` stands in `text` at position `i`.
pub open spec fn occurs_at(text: Seq<char>, token: Seq<char>, i: int) -> bool {
    0 <= i && i + token.len() <= text.len() && text.subrange(i, i + token.len()) == token
}

/// Whether the characters before and after the token at position `i` end a word.
pub open spec fn stands_alone(text: Seq<char>, token: Seq<char>, i: int) -> bool {
    &&& (i == 0 || !is_word_char(text[i - 1]))
    &&& (i + token.len() == text.len() || !is_word_char(text[i + token.len()]))
}

/// Whether `token` stands in `text` as a word of its own, looking from position `i` on at
/// occurrences that do not overlap.
pub open spec fn token_from(text: Seq<char>, token: Seq<char>, i: int) -> bool
    decreases text.len() - i,
{
    if i < 0 || token.len() == 0 || i + token.len() > text.len() {
        false
    } else if occurs_at(text, token, i) {
        stands_alone(text, token, i) || token_from(text, token, i + token.len())
    } else {
        token_from(text, token, i + 1)
    }
}

/// Whether `token` stands in `text` as a word of its own.
pub fn contains_command_token(text: &str, token: &str) -> (found: bool)
    requires
        token@.len() > 0,
    ensures
        found == token_from(text@, token@, 0),
{
    let n: usize = text.unicode_len();
    let m: usize = token.unicode_len();
    let chars = chars_of(text);
    let mut i: usize = 0;
    while i <= n && m <= n - i
        invariant
            n == text@.len(),
            m == token@.len(),
            m > 0,
            chars@ == text@,
            i <= n,
            token_from(text@, token@, 0) == token_from(text@, token@, i as int),
        decreases n - i,
    {
        let here = text.substring_char(i, i + m);
        if same(here, token) {
            assert(occurs_at(text@, token@, i as int));
            let before = i > 0 && is_command_word_char(chars[i - 1]);
            let after = i + m < n && is_command_word_char(chars[i + m]);
            if !before && !after {
                return true;
            }
            i += m;
        } else {
            i += 1;
        }
    }
    false
}

/// What is left of `s` after ASCII white space.
pub open spec fn after_ascii_space(s: Seq<char>) -> Seq<char>
    decreases s.len(),
{
    if s.len() > 0 && is_ascii_space(s.first()) {
        after_ascii_space(s.drop_first())
    } else {
        s
    }
}

/// The part of `s` before ASCII white space, a semicolon or a bar.
pub open spec fn bare_word(s: Seq<char>) -> Seq<char>
    decreases s.len(),
{
    if s.len() == 0 || is_ascii_space(s.first()) || s.first() == ';' || s.first() == '|' {
        Seq::empty()
    } else {
        seq![s.first()] + bare_word(s.drop_first())
    }
}

/// The target of a redirection, given what follows its sign.
pub open spec fn redirection_target(rest: Seq<char>) -> Option<Seq<char>> {
    let rest = after_ascii_space(rest);
    if rest.len() == 0 {
        None
    } else if rest.first() == '\'' || rest.first() == '"' {
        Some(trimmed(before_char(rest.drop_first(), rest.first())))
    } else if trimmed(bare_word(rest)).len() > 0 {
        Some(trimmed(bare_word(rest)))
    } else {
        None
    }
}

/// The targets that swallow what is written to them.
pub open spec fn is_null_target(target: Seq<char>) -> bool {
    let name = lowered(trimmed(target));
    name == "/dev/null"@ || name == "$null"@ || name == "nul"@ || name == "null"@
}

/// Whether a redirection with this target writes a file.
pub open spec fn target_is_file(target: Option<Seq<char>>) -> bool {
    match target {
        Some(target) => !is_null_target(target) && !starts_with(target, "&"@),
        None => false,
    }
}

/// Whether output is redirected into a file at or after position `i`. A sign behind a digit
/// redirects another stream and does not count; a doubled sign is one sign.
pub open spec fn redirects_from(s: Seq<char>, i: int) -> bool
    decreases s.len() - i,
{
    if i < 0 || i >= s.len() {
        false
    } else if s[i] != '>' || (i > 0 && is_ascii_digit(s[i - 1])) {
        redirects_from(s, i + 1)
    } else {
        let next = if i + 1 < s.len() && s[i + 1] == '>' {
            i + 2
        } else {
            i + 1
        };
        target_is_file(redirection_target(s.skip(next))) || redirects_from(s, next)
    }
}

fn skip_ascii_space<'a>(text: &'a str) -> (rest: &'a str)
    ensures
        rest@ == after_ascii_space(text@),
{
    let chars = chars_of(text);
    let mut i: usize = 0;
    assert(text@.skip(0) =~= text@);
    while i < chars.len() && (chars[i] == ' ' || chars[i] == '\t' || chars[i] == '\n' || chars[i]
        == '\u{c}' || chars[i] == '\r')
        invariant
            i <= chars@.len(),
            chars@ == text@,
            after_ascii_space(text@.skip(i as int)) == after_ascii_space(text@),
        decreases chars@.len() - i,
    {
        assert(text@.skip(i as int).drop_first() =~= text@.skip(i + 1));
        i += 1;
    }
    assert(text@.subrange(i as int, text@.len() as int) =~= text@.skip(i as int));
    text.substring_char(i, chars.len())
}

fn take_bare_word<'a>(text: &'a str) -> (word: &'a str)
    ensures
        word@ == bare_word(text@),
{
    let chars = chars_of(text);
    let mut i: usize = 0;
    assert(text@.skip(0) =~= text@);
    while i < chars.len() && !(chars[i] == ' ' || chars[i] == '\t' || chars[i] == '\n' || chars[i]
        == '\u{c}' || chars[i] == '\r' || chars[i] == ';' || chars[i] == '|')
        invariant
            i <= chars@.len(),
            chars@ == text@,
            bare_word(text@) == text@.take(i as int) + bare_word(text@.skip(i as int)),
        decreases chars@.len() - i,
    {
        assert(text@.skip(i as int).drop_first() =~= text@.skip(i + 1));
        assert(text@.take(i + 1) + bare_word(text@.skip(i + 1)) =~= text@.take(i as int) + (
        seq![text@[i as int]] + bare_word(text@.skip(i + 1))));
        i += 1;
    }
    assert(bare_word(text@.skip(i as int)) =~= Seq::<char>::empty());
    assert(text@.subrange(0, i as int) =~= text@.take(i as int) + Seq::<char>::empty());
    text.substring_char(0, i)
}

/// The target of a redirection whose sign ends before position `start`.
pub fn shell_redirection_target(command: &str, start: usize) -> (target: Option<String>)
    requires
        start <= command@.len(),
    ensures
        target.deep_view() == redirection_target(command@.skip(start as int)),
{
    let n: usize = command.unicode_len();
    assert(command@.subrange(start as int, n as int) =~= command@.skip(start as int));
    let rest = skip_ascii_space(command.substring_char(start, n));
    let left: usize = rest.unicode_len();
    if left == 0 {
        return None;
    }
    let quote = rest.get_char(0);
    if quote == '\'' || quote == '"' {
        let inner = rest.substring_char(1, left);
        assert(inner@ =~= rest@.drop_first());
        return Some(trim(take_until(inner, quote)).to_owned());
    }
    let target = trim(take_bare_word(rest));
    if target.is_empty() {
        None
    } else {
        Some(target.to_owned())
    }
}

pub fn is_null_redirection_target(target: &str) -> (null: bool)
    ensures
        null == is_null_target(target@),
{
    let name = to_ascii_lowercase(trim(target));
    same(name.as_str(), "/dev/null") || same(name.as_str(), "$null") || same(name.as_str(), "nul")
        || same(name.as_str(), "null")
}

/// Detects output redirected into a file: not another stream's (`2>`), not into a descriptor
/// (`>&`), not into nothing.
pub fn shell_redirection_writes_file(joined: &str) -> (writes: bool)
    ensures
        writes == redirects_from(joined@, 0),
{
    let chars = chars_of(joined);
    let n: usize = chars.len();
    let mut i: usize = 0;
    while i < n
        invariant
            n == chars@.len(),
            chars@ == joined@,
            i <= n,
            redirects_from(joined@, 0) == redirects_from(joined@, i as int),
        decreases n - i,
    {
        if chars[i] != '>' {
            i += 1;
            continue ;
        }
        if i > 0 && '0' <= chars[i - 1] && chars[i - 1] <= '9' {
            i += 1;
            continue ;
        }
        let mut next: usize = i + 1;
        if next < n && chars[next] == '>' {
            next += 1;
        }
        if let Some(target) = shell_redirection_target(joined, next) {
            if !is_null_redirection_target(target.as_str()) && strip_prefix(
                target.as_str(),
                "&",
            ).is_none() {
                return true;
            }
        }
        i = next;
    }
    false
}

/// What follows the last slash or backslash.
pub open spec fn base_name(s: Seq<char>) -> Seq<char> {
    let slash = last_position(s, '/');
    let backslash = last_position(s, '\\');
    if slash > backslash {
        s.skip(slash + 1)
    } else {
        s.skip(backslash + 1)
    }
}

fn command_base_name<'a>(text: &'a str) -> (name: &'a str)
    ensures
        name@ == base_name(text@),
{
    proof {
        lemma_last_position(text@, '/');
        lemma_last_position(text@, '\\');
    }
    let slash: usize = after_last(text, '/');
    let backslash: usize = after_last(text, '\\');
    let start: usize = if slash > backslash {
        slash
    } else {
        backslash
    };
    let n: usize = text.unicode_len();
    assert(text@.subrange(start as int, n as int) =~= text@.skip(start as int));
    text.substring_char(start, n)
}

pub open spec fn is_interpreter(name: Seq<char>) -> bool {
    name == "python"@ || name == "python3"@ || name == "python2"@ || name == "py"@ || name
        == "node"@ || name == "node.exe"@ || name == "ruby"@ || name == "perl"@ || name == "php"@
}

pub open spec fn is_inline_script_flag(arg: Seq<char>) -> bool {
    arg == "-"@ || arg == "-c"@ || arg == "-e"@ || arg == "--eval"@
}

/// An interpreter that is handed its script on the command line or on standard input.
pub open spec fn runs_inline_script(command: Seq<Seq<char>>) -> bool {
    command.len() > 0 && is_interpreter(base_name(command[0])) && exists|i: int|
        1 <= i < command.len() && is_inline_script_flag(#[trigger] command[i])
}

pub fn command_is_scripted_interpreter_writer(command: &Vec<String>) -> (runs: bool)
    ensures
        runs == runs_inline_script(command.deep_view()),
{
    let ghost view = command.deep_view();
    if command.len() == 0 {
        return false;
    }
    let name = command_base_name(command[0].as_str());
    if !(same(name, "python") || same(name, "python3") || same(name, "python2") || same(name, "py")
        || same(name, "node") || same(name, "node.exe") || same(name, "ruby") || same(name, "perl")
        || same(name, "php")) {
        return false;
    }
    for i in 1..command.len()
        invariant
            view == command.deep_view(),
            is_interpreter(base_name(view[0])),
            command@.len() > 0,
            forall|k: int| 1 <= k < i ==> !is_inline_script_flag(#[trigger] view[k]),
    {
        let arg = command[i].as_str();
        if same(arg, "-") || same(arg, "-c") || same(arg, "-e") || same(arg, "--eval") {
            assert(is_inline_script_flag(view[i as int]));
            return true;
        }
    }
    false
}

/// Whether some word of the command begins with `prefix`.
pub open spec fn some_word_starts(command: Seq<Seq<char>>, prefix: Seq<char>) -> bool {
    exists|i: int| 0 <= i < command.len() && starts_with(#[trigger] command[i], prefix)
}

fn any_starts_with(command: &Vec<String>, prefix: &str) -> (found: bool)
    ensures
        found == some_word_starts(command.deep_view(), prefix@),
{
    let ghost view = command.deep_view();
    for i in 0..command.len()
        invariant
            view == command.deep_view(),
            forall|k: int| 0 <= k < i ==> !starts_with(#[trigger] view[k], prefix@),
    {
        if strip_prefix(command[i].as_str(), prefix).is_some() {
            assert(starts_with(view[i as int], prefix@));
            return true;
        }
    }
    false
}

/// The word that names the program, behind `sudo` where something follows it.
pub open spec fn program_index(command: Seq<Seq<char>>) -> int {
    if command.len() > 1 && command[0] == "sudo"@ {
        1
    } else {
        0
    }
}

pub open spec fn is_file_tool(name: Seq<char>) -> bool {
    name == "tee"@ || name == "truncate"@ || name == "touch"@ || name == "rm"@ || name == "mv"@
        || name == "cp"@ || name == "dd"@ || name == "install"@
}

/// A program that exists to change files, or one that edits them in place.
pub open spec fn mutates_files(command: Seq<Seq<char>>) -> bool {
    let i = program_index(command);
    i < command.len() && {
        let name = base_name(command[i]);
        ||| is_file_tool(name)
        ||| name == "sed"@ && some_word_starts(command, "-i"@)
        ||| name == "perl"@ && (some_word_starts(command, "-pi"@) || some_word_starts(
            command,
            "-pie"@,
        ))
    }
}

pub fn command_uses_file_mutation_primitive(command: &Vec<String>) -> (uses: bool)
    ensures
        uses == mutates_files(command.deep_view()),
{
    let mut start: usize = 0;
    if command.len() > 1 && same(command[0].as_str(), "sudo") {
        start = 1;
    }
    if start >= command.len() {
        return false;
    }
    let name = command_base_name(command[start].as_str());
    if same(name, "tee") || same(name, "truncate") || same(name, "touch") || same(name, "rm")
        || same(name, "mv") || same(name, "cp") || same(name, "dd") || same(name, "install") {
        return true;
    }
    proof {
        reveal_strlit("sed");
        reveal_strlit("perl");
    }
    if same(name, "sed") {
        assert("sed"@.len() != "perl"@.len());
        return any_starts_with(command, "-i");
    }
    if same(name, "perl") {
        return any_starts_with(command, "-pi") || any_starts_with(command, "-pie");
    }
    false
}

/// Why a command is routed to the broker as one that writes files: never where it is, or holds,
/// a call of `apply_patch`.
pub open spec fn file_write(command: Seq<Seq<char>>) -> Option<DangerousCommand> {
    let text = joined(command, " "@);
    if token_from(lowered(text), "apply_patch"@, 0) {
        None
    } else if redirects_from(text, 0) {
        Some(DangerousCommand::Redirection)
    } else if runs_inline_script(command) {
        Some(DangerousCommand::ScriptedInterpreter)
    } else if mutates_files(command) {
        Some(DangerousCommand::FileMutation)
    } else {
        None
    }
}

pub fn command_routes_shell_file_write_to_broker(command: &Vec<String>) -> (reason: Option<
    DangerousCommand,
>)
    ensures
        reason == file_write(command.deep_view()),
{
    let text = join(command, " ");
    let lower = to_ascii_lowercase(text.as_str());
    proof {
        reveal_strlit("apply_patch");
    }
    if contains_command_token(lower.as_str(), "apply_patch") {
        return None;
    }
    if shell_redirection_writes_file(text.as_str()) {
        return Some(DangerousCommand::Redirection);
    }
    if command_is_scripted_interpreter_writer(command) {
        return Some(DangerousCommand::ScriptedInterpreter);
    }
    if command_uses_file_mutation_primitive(command) {
        return Some(DangerousCommand::FileMutation);
    }
    None
}

/// `rm` with force, behind any number of `sudo`.
pub open spec fn forces_removal(command: Seq<Seq<char>>) -> bool
    decreases command.len(),
{
    if command.len() == 0 {
        false
    } else if command[0] == "rm"@ {
        command.len() > 1 && (command[1] == "-f"@ || command[1] == "-rf"@)
    } else if command[0] == "sudo"@ {
        forces_removal(command.drop_first())
    } else {
        false
    }
}

pub fn is_dangerous_to_call_with_exec(command: &Vec<String>) -> (dangerous: bool)
    ensures
        dangerous == forces_removal(command.deep_view()),
{
    let ghost view = command.deep_view();
    let mut i: usize = 0;
    assert(view.skip(0) =~= view);
    while i < command.len()
        invariant
            view == command.deep_view(),
            i <= command@.len(),
            forces_removal(view.skip(i as int)) == forces_removal(view),
        decreases command@.len() - i,
    {
        assert(view.skip(i as int)[0] == view[i as int]);
        if same(command[i].as_str(), "rm") {
            assert(i + 1 < view.len() ==> view.skip(i as int)[1] == view[i + 1]);
            return i + 1 < command.len() && (same(command[i + 1].as_str(), "-f") || same(
                command[i + 1].as_str(),
                "-rf",
            ));
        }
        if !same(command[i].as_str(), "sudo") {
            return false;
        }
        assert(view.skip(i as int).drop_first() =~= view.skip(i + 1));
        i += 1;
    }
    false
}

/// Why a command is dangerous by its own words.
pub open spec fn danger(command: Seq<Seq<char>>) -> Option<DangerousCommand> {
    if forces_removal(command) {
        Some(DangerousCommand::ForcedRemoval)
    } else {
        file_write(command)
    }
}

pub fn dangerous_command_match(command: &Vec<String>) -> (reason: Option<DangerousCommand>)
    ensures
        reason == danger(command.deep_view()),
{
    if is_dangerous_to_call_with_exec(command) {
        return Some(DangerousCommand::ForcedRemoval);
    }
    command_routes_shell_file_write_to_broker(command)
}

/// Whether one of the commands of a script removes with force.
pub open spec fn script_forces_removal(script_commands: Option<Seq<Seq<Seq<char>>>>) -> bool {
    script_commands is Some && exists|i: int|
        0 <= i < script_commands->Some_0.len() && forces_removal(
            #[trigger] script_commands->Some_0[i],
        )
}

/// Whether a command might be dangerous, given the plain commands of the script that it hands to
/// a shell, where it hands one that can be taken apart.
pub fn command_might_be_dangerous(
    command: &Vec<String>,
    script_commands: &Option<Vec<Vec<String>>>,
) -> (dangerous: bool)
    ensures
        dangerous == (danger(command.deep_view()) is Some || script_forces_removal(
            script_commands.deep_view(),
        )),
{
    if is_dangerous_to_call_with_exec(command) {
        return true;
    }
    if let Some(commands) = script_commands {
        let ghost view: Seq<Seq<Seq<char>>> = commands.deep_view();
        for i in 0..commands.len()
            invariant
                view == commands.deep_view(),
                script_commands.deep_view() == Some(view),
                forall|k: int| 0 <= k < i ==> !forces_removal(#[trigger] view[k]),
        {
            if is_dangerous_to_call_with_exec(&commands[i]) {
                assert(forces_removal(view[i as int]));
                assert(forces_removal(script_commands.deep_view()->Some_0[i as int]));
                return true;
            }
        }
    }
    command_routes_shell_file_write_to_broker(command).is_some()
}

/// Already split PowerShell words are judged on Windows only.
pub fn is_dangerous_powershell_words(command: &Vec<String>) -> (dangerous: bool)
    ensures
        !dangerous,
{
    let _ = command;
    false
}

pub open spec fn git_option_takes_value(arg: Seq<char>) -> bool {
    arg == "-C"@ || arg == "-c"@ || arg == "--config-env"@ || arg == "--exec-path"@ || arg
        == "--git-dir"@ || arg == "--namespace"@ || arg == "--super-prefix"@ || arg
        == "--work-tree"@
}

pub fn is_git_global_option_with_value(arg: &str) -> (takes: bool)
    ensures
        takes == git_option_takes_value(arg@),
{
    same(arg, "-C") || same(arg, "-c") || same(arg, "--config-env") || same(arg, "--exec-path")
        || same(arg, "--git-dir") || same(arg, "--namespace") || same(arg, "--super-prefix")
        || same(arg, "--work-tree")
}

pub open spec fn git_option_holds_value(arg: Seq<char>) -> bool {
    ||| starts_with(arg, "--config-env="@)
    ||| starts_with(arg, "--exec-path="@)
    ||| starts_with(arg, "--git-dir="@)
    ||| starts_with(arg, "--namespace="@)
    ||| starts_with(arg, "--super-prefix="@)
    ||| starts_with(arg, "--work-tree="@)
    ||| (starts_with(arg, "-C"@) || starts_with(arg, "-c"@)) && arg.len() > 2
}

pub fn is_git_global_option_with_inline_value(arg: &str) -> (holds: bool)
    ensures
        holds == git_option_holds_value(arg@),
{
    strip_prefix(arg, "--config-env=").is_some() || strip_prefix(arg, "--exec-path=").is_some()
        || strip_prefix(arg, "--git-dir=").is_some() || strip_prefix(arg, "--namespace=").is_some()
        || strip_prefix(arg, "--super-prefix=").is_some() || strip_prefix(
        arg,
        "--work-tree=",
    ).is_some() || ((strip_prefix(arg, "-C").is_some() || strip_prefix(arg, "-c").is_some())
        && arg.unicode_len() > 2)
}

/// The name by which an executable is looked up: the file name of its path.
pub fn executable_name_lookup_key(raw: &str) -> (key: Option<String>)
    ensures
        key.deep_view() == path_file_name(raw@),
{
    match file_name(raw) {
        Some(name) => Some(name.to_owned()),
        None => None,
    }
}

/// The position of git's subcommand at or after position `i`: the first word that is neither an
/// option nor an option's value.
pub open spec fn git_subcommand_index(command: Seq<Seq<char>>, i: int) -> Option<int>
    decreases command.len() + 1 - i,
{
    if i < 0 || i >= command.len() {
        None
    } else if git_option_holds_value(command[i]) {
        git_subcommand_index(command, i + 1)
    } else if git_option_takes_value(command[i]) {
        git_subcommand_index(command, i + 2)
    } else if starts_with(command[i], "-"@) {
        git_subcommand_index(command, i + 1)
    } else {
        Some(i)
    }
}

/// Git's subcommand with its position, if it is one of those looked for.
pub open spec fn git_subcommand(command: Seq<Seq<char>>, subcommands: Seq<Seq<char>>) -> Option<
    (int, Seq<char>),
> {
    if command.len() > 0 && path_file_name(command[0]) == Some("git"@) {
        match git_subcommand_index(command, 1) {
            Some(i) => if subcommands.contains(command[i]) {
                Some((i, command[i]))
            } else {
                None
            },
            None => None,
        }
    } else {
        None
    }
}

pub fn find_git_subcommand<'a>(command: &'a Vec<String>, subcommands: &Vec<String>) -> (found:
    Option<(usize, &'a str)>)
    ensures
        match found {
            Some((i, name)) => git_subcommand(command.deep_view(), subcommands.deep_view()) == Some(
                (i as int, name@),
            ),
            None => git_subcommand(command.deep_view(), subcommands.deep_view()) is None,
        },
{
    let ghost view = command.deep_view();
    let ghost wanted = subcommands.deep_view();
    if command.len() == 0 {
        return None;
    }
    match file_name(command[0].as_str()) {
        Some(name) => if !same(name, "git") {
            return None;
        },
        None => return None,
    }
    let n: usize = command.len();
    let mut i: usize = 1;
    while i < n
        invariant
            n == command@.len(),
            view == command.deep_view(),
            wanted == subcommands.deep_view(),
            view.len() > 0,
            path_file_name(view[0]) == Some("git"@),
            git_subcommand_index(view, 1) == git_subcommand_index(view, i as int),
        decreases n - i,
    {
        let arg = command[i].as_str();
        if is_git_global_option_with_inline_value(arg) {
            i += 1;
            continue ;
        }
        if is_git_global_option_with_value(arg) {
            if i + 1 >= n {
                assert(git_subcommand_index(view, i + 2) is None);
                return None;
            }
            i += 2;
            continue ;
        }
        if strip_prefix(arg, "-").is_some() {
            i += 1;
            continue ;
        }
        for k in 0..subcommands.len()
            invariant
                i < command@.len(),
                arg@ == command@[i as int]@,
                view == command.deep_view(),
                wanted == subcommands.deep_view(),
                view.len() > 0,
                path_file_name(view[0]) == Some("git"@),
                git_subcommand_index(view, 1) == Some(i as int),
                forall|j: int| 0 <= j < k ==> wanted[j] != view[i as int],
        {
            if same(subcommands[k].as_str(), arg) {
                assert(wanted[k as int] == view[i as int]);
                return Some((i, arg));
            }
            assert(wanted[k as int] != view[i as int]);
        }
        return None;
    }
    None
}

/// A token is made of the characters of command words.
pub open spec fn is_command_token(token: Seq<char>) -> bool {
    token.len() > 0 && forall|i: int| 0 <= i < token.len() ==> is_word_char(#[trigger] token[i])
}

proof fn lemma_token_from(text: Seq<char>, token: Seq<char>, i: int)
    requires
        is_command_token(token),
        0 <= i,
    ensures
        token_from(text, token, i) <==> exists|k: int|
            i <= k && #[trigger] occurs_at(text, token, k) && stands_alone(text, token, k),
    decreases text.len() - i,
{
    if i + token.len() > text.len() {
        assert forall|k: int| i <= k implies !#[trigger] occurs_at(text, token, k) by {}
    } else if occurs_at(text, token, i) {
        let next = i + token.len();
        lemma_token_from(text, token, next);
        if !stands_alone(text, token, i) {
            assert forall|k: int|
                i <= k < next && #[trigger] occurs_at(text, token, k) implies !stands_alone(
                text,
                token,
                k,
            ) by {
                if k > i {
                    assert(text.subrange(i, next)[k - 1 - i] == text[k - 1]);
                    assert(is_word_char(token[k - 1 - i]));
                }
            }
        }
        if token_from(text, token, i) && !stands_alone(text, token, i) {
            let k = choose|k: int|
                next <= k && #[trigger] occurs_at(text, token, k) && stands_alone(text, token, k);
            assert(i <= k && occurs_at(text, token, k));
        }
        if exists|k: int|
            i <= k && #[trigger] occurs_at(text, token, k) && stands_alone(text, token, k) {
            let k = choose|k: int|
                i <= k && #[trigger] occurs_at(text, token, k) && stands_alone(text, token, k);
            if !stands_alone(text, token, i) {
                assert(next <= k && occurs_at(text, token, k));
            }
        }
    } else {
        lemma_token_from(text, token, i + 1);
        if token_from(text, token, i) {
            let k = choose|k: int|
                i + 1 <= k && #[trigger] occurs_at(text, token, k) && stands_alone(text, token, k);
            assert(i <= k && occurs_at(text, token, k));
        }
        if exists|k: int|
            i <= k && #[trigger] occurs_at(text, token, k) && stands_alone(text, token, k) {
            let k = choose|k: int|
                i <= k && #[trigger] occurs_at(text, token, k) && stands_alone(text, token, k);
            assert(i + 1 <= k && occurs_at(text, token, k));
        }
    }
}

/// A token is found exactly where it stands somewhere as a word of its own.
pub proof fn token_is_found_where_it_stands_alone(text: Seq<char>, token: Seq<char>)
    requires
        is_command_token(token),
    ensures
        token_from(text, token, 0) <==> exists|k: int| #[trigger]
            occurs_at(text, token, k) && stands_alone(text, token, k),
{
    lemma_token_from(text, token, 0);
    if exists|k: int| #[trigger] occurs_at(text, token, k) && stands_alone(text, token, k) {
        let k = choose|k: int| #[trigger]
            occurs_at(text, token, k) && stands_alone(text, token, k);
        assert(0 <= k && occurs_at(text, token, k));
    }
}

/// A command that holds `apply_patch` as a word of its own, in whatever case, is never taken for
/// one that writes files.
pub proof fn apply_patch_is_never_a_file_write(command: Seq<Seq<char>>, k: int)
    requires
        occurs_at(lowered(joined(command, " "@)), "apply_patch"@, k),
        stands_alone(lowered(joined(command, " "@)), "apply_patch"@, k),
    ensures
        file_write(command) is None,
        danger(command) is Some ==> forces_removal(command),
{
    reveal_strlit("apply_patch");
    assert(is_command_token("apply_patch"@));
    token_is_found_where_it_stands_alone(lowered(joined(command, " "@)), "apply_patch"@);
}

/// A command is dangerous exactly where it forces a removal, or where it writes files by
/// redirection, by an inline script or by a tool for it, without `apply_patch` in it.
pub proof fn danger_is_what_it_says(command: Seq<Seq<char>>)
    ensures
        danger(command) is Some <==> forces_removal(command) || !token_from(
            lowered(joined(command, " "@)),
            "apply_patch"@,
            0,
        ) && (redirects_from(joined(command, " "@), 0) || runs_inline_script(command)
            || mutates_files(command)),
        danger(command) == Some(DangerousCommand::ForcedRemoval) <==> forces_removal(command),
{
}

/// Running a command as another user does not make it less dangerous.
pub proof fn sudo_does_not_hide_removal(command: Seq<Seq<char>>)
    ensures
        forces_removal(seq!["sudo"@] + command) == forces_removal(command),
{
    reveal_strlit("sudo");
    reveal_strlit("rm");
    assert("sudo"@.len() == 4 && "rm"@.len() == 2);
    assert((seq!["sudo"@] + command).drop_first() =~= command);
}

proof fn lemma_git_subcommand_index(command: Seq<Seq<char>>, i: int)
    requires
        0 <= i,
    ensures
        git_subcommand_index(command, i) matches Some(k) ==> {
            &&& i <= k < command.len()
            &&& !git_option_holds_value(command[k])
            &&& !git_option_takes_value(command[k])
            &&& !starts_with(command[k], "-"@)
        },
    decreases command.len() + 1 - i,
{
    if i < command.len() {
        lemma_git_subcommand_index(command, i + 1);
        lemma_git_subcommand_index(command, i + 2);
    }
}

/// What is found as git's subcommand is one of those looked for, stands behind `git`, and is no
/// option.
pub proof fn git_subcommand_is_no_option(command: Seq<Seq<char>>, subcommands: Seq<Seq<char>>)
    ensures
        git_subcommand(command, subcommands) matches Some((i, name)) ==> {
            &&& 1 <= i < command.len()
            &&& command[i] == name
            &&& subcommands.contains(name)
            &&& !starts_with(name, "-"@)
        },
{
    lemma_git_subcommand_index(command, 1);
}

} // verus!
