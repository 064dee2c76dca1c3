use codex_acp::command_safety::{
    command_might_be_dangerous, contains_command_token, dangerous_command_match,
    executable_name_lookup_key, find_git_subcommand, is_dangerous_powershell_words,
    is_null_redirection_target, shell_redirection_target, shell_redirection_writes_file,
    DangerousCommand,
};

fn argv(items: &[&str]) -> Vec<String> {
    items.iter().map(|item| item.to_string()).collect()
}

#[test]
fn python_stdin_heredoc_routes_to_broker() {
    assert!(dangerous_command_match(&argv(&["python3", "-"])).is_some());
    assert!(dangerous_command_match(&argv(&["python", "-"])).is_some());
}

#[test]
fn python_inline_script_routes_to_broker() {
    assert!(dangerous_command_match(&argv(&["python3", "-c", "print(1)"])).is_some());
    assert!(dangerous_command_match(&argv(&["node", "-e", "console.log(1)"])).is_some());
}

#[test]
fn python_running_a_script_file_is_not_routed() {
    assert!(dangerous_command_match(&argv(&["python3", "scripts/build.py"])).is_none());
}

#[test]
fn shell_redirection_routes_to_broker() {
    assert!(dangerous_command_match(&argv(&[
        "/bin/zsh",
        "-lc",
        "echo hi > src/main.rs"
    ]))
    .is_some());
    assert!(dangerous_command_match(&argv(&["ls", "2>", "/dev/null"])).is_none());
}

#[test]
fn file_mutation_primitives_route_to_broker() {
    assert!(dangerous_command_match(&argv(&["tee", "file.txt"])).is_some());
    assert!(dangerous_command_match(&argv(&["sed", "-i", "s/a/b/", "file.rs"])).is_some());
    assert!(dangerous_command_match(&argv(&["sed", "s/a/b/", "file.rs"])).is_none());
}

#[test]
fn apply_patch_and_benign_commands_are_not_routed() {
    assert!(dangerous_command_match(&argv(&[
        "apply_patch",
        "<<'PATCH'",
        "*** Begin Patch",
        "*** End Patch",
        "PATCH"
    ]))
    .is_none());
    assert!(dangerous_command_match(&argv(&["cargo", "build"])).is_none());
    assert!(dangerous_command_match(&argv(&["rg", "foo", "src"])).is_none());
    assert!(dangerous_command_match(&argv(&["git", "status"])).is_none());
}

#[test]
fn rm_rf_is_dangerous() {
    assert!(command_might_be_dangerous(&argv(&["rm", "-rf", "/"]), &None));
}

#[test]
fn rm_f_is_dangerous() {
    assert!(command_might_be_dangerous(&argv(&["rm", "-f", "/"]), &None));
}

#[test]
fn direct_powershell_words_reuse_windows_dangerous_detection() {
    let command = argv(&["Remove-Item", "test", "-Force"]);
    assert!(!is_dangerous_powershell_words(&command));
}

#[test]
fn sudo_does_not_hide_removal() {
    assert_eq!(
        dangerous_command_match(&argv(&["sudo", "rm", "-f", "x"])),
        Some(DangerousCommand::ForcedRemoval)
    );
    assert_eq!(
        dangerous_command_match(&argv(&["rm", "x"])),
        Some(DangerousCommand::FileMutation)
    );
    assert!(!command_might_be_dangerous(&argv(&["sudo"]), &None));
    assert!(!command_might_be_dangerous(&argv(&[]), &None));
}

#[test]
fn script_is_dangerous_where_one_of_its_commands_is() {
    let shell = argv(&["bash", "-lc", "ls && rm -rf x"]);
    let commands = Some(vec![argv(&["ls"]), argv(&["rm", "-rf", "x"])]);
    assert!(command_might_be_dangerous(&shell, &commands));
    let commands = Some(vec![argv(&["ls"])]);
    assert!(!command_might_be_dangerous(&shell, &commands));
}

#[test]
fn danger_has_a_reason() {
    let reason = |items: &[&str]| dangerous_command_match(&argv(items));
    assert_eq!(reason(&["sh", "-c", "echo x >> log"]), Some(DangerousCommand::Redirection));
    assert_eq!(
        reason(&["/usr/bin/python3", "-c", "1"]),
        Some(DangerousCommand::ScriptedInterpreter)
    );
    assert_eq!(reason(&["sudo", "tee", "f"]), Some(DangerousCommand::FileMutation));
    assert_eq!(
        reason(&["perl", "-pi", "-e", "s/a/b/"]),
        Some(DangerousCommand::ScriptedInterpreter)
    );
    assert_eq!(reason(&["perl", "-pie", "s/a/b/", "f"]), Some(DangerousCommand::FileMutation));
    assert_eq!(reason(&["echo", "a", ">", "&2"]), None);
}

#[test]
fn redirection_names_its_target() {
    assert_eq!(shell_redirection_target("a > b c", 3).as_deref(), Some("b"));
    assert_eq!(shell_redirection_target("a > 'b c'", 3).as_deref(), Some("b c"));
    assert_eq!(shell_redirection_target("a >  ", 3), None);
    assert!(is_null_redirection_target(" /DEV/NULL "));
    assert!(!is_null_redirection_target("null.txt"));
    assert!(shell_redirection_writes_file("a > b"));
    assert!(!shell_redirection_writes_file("a 2> b"));
    assert!(!shell_redirection_writes_file("a > /dev/null"));
    assert!(shell_redirection_writes_file("a > /dev/null > b"));
}

#[test]
fn token_is_found_where_it_stands_alone() {
    assert!(contains_command_token("cd x; apply_patch <<P", "apply_patch"));
    assert!(!contains_command_token("my_apply_patch_helper", "apply_patch"));
    assert!(contains_command_token("my_apply_patch apply_patch", "apply_patch"));
    assert!(!contains_command_token("", "apply_patch"));
}

#[test]
fn git_subcommand_is_no_option() {
    let wanted = argv(&["push", "branch"]);
    let command = argv(&["/usr/bin/git", "-C", "push", "--git-dir=x", "-v", "push", "origin"]);
    assert_eq!(find_git_subcommand(&command, &wanted), Some((5, "push")));
    assert_eq!(find_git_subcommand(&argv(&["git", "status", "push"]), &wanted), None);
    assert_eq!(find_git_subcommand(&argv(&["hg", "push"]), &wanted), None);
    assert_eq!(find_git_subcommand(&argv(&["git", "-c"]), &wanted), None);
    assert_eq!(executable_name_lookup_key("/usr/bin/git").as_deref(), Some("git"));
    assert_eq!(executable_name_lookup_key("/"), None);
}
