use vshell::command::Command;
use vshell::executor::{
    cd_error_message, execute, expand_tilde, get_type_output, not_found_message,
    open_failure_message, should_continue, spawn_allowed, spawn_failure_message,
    stderr_open_failure_message, type_output_with, Action,
};
use vshell::redirect::{create_empty_stderr_file, write_output, WriteAction};

#[test]
fn exit_stops_the_loop() {
    let action = execute(Command::ExitCommand);
    assert_eq!(action, Action::Stop);
    assert!(!should_continue(&action));
}

#[test]
fn other_commands_continue_the_loop() {
    let action = execute(Command::CommandNotFound { input: "x".to_string() });
    assert!(should_continue(&action));
}

#[test]
fn unresolved_line_is_reported_not_found() {
    let action = execute(Command::CommandNotFound { input: "foo bar".to_string() });
    assert_eq!(action, Action::Report { line: "foo bar: command not found".to_string() });
}

#[test]
fn echo_becomes_an_emit() {
    let action = execute(Command::EchoCommand {
        display_string: "hi".to_string(),
        redirect: Some(("o".to_string(), false)),
        stderr_redirect: None,
    });
    assert_eq!(
        action,
        Action::Emit {
            text: "hi".to_string(),
            redirect: Some(("o".to_string(), false)),
            stderr_redirect: None,
        }
    );
}

#[test]
fn pwd_keeps_both_targets() {
    let action = execute(Command::PwdCommand {
        redirect: Some(("out.txt".to_string(), false)),
        stderr_redirect: Some(("err.txt".to_string(), true)),
    });
    assert_eq!(
        action,
        Action::PrintCwd {
            redirect: Some(("out.txt".to_string(), false)),
            stderr_redirect: Some(("err.txt".to_string(), true)),
        }
    );
}

#[test]
fn cd_becomes_a_directory_change() {
    let action = execute(Command::CdCommand { path: "/tmp".to_string() });
    assert_eq!(action, Action::ChangeDir { path: "/tmp".to_string() });
}

#[test]
fn cd_failure_message_names_the_path() {
    assert_eq!(
        cd_error_message("/no/such/dir"),
        "cd: /no/such/dir: No such file or directory"
    );
}

#[test]
fn type_of_builtin_names_it_as_builtin() {
    assert_eq!(get_type_output("exit"), "exit is a shell builtin");
    assert_eq!(get_type_output("cd"), "cd is a shell builtin");
}

#[test]
fn type_of_unknown_name_is_not_found() {
    assert_eq!(get_type_output("nonexistent_cmd_xyz"), "nonexistent_cmd_xyz: not found");
}

#[test]
fn type_of_resolved_name_shows_its_path() {
    assert_eq!(
        type_output_with("ls", Some("/usr/bin/ls".to_string())),
        "ls is /usr/bin/ls"
    );
}

#[test]
fn spawn_waits_for_both_streams() {
    assert!(spawn_allowed(true, true));
    assert!(!spawn_allowed(false, true));
    assert!(!spawn_allowed(true, false));
    assert!(!spawn_allowed(false, false));
}

#[test]
fn open_failure_messages_name_the_file() {
    assert_eq!(
        open_failure_message("/no/dir/f.txt", "No such file or directory (os error 2)"),
        "Failed to create file /no/dir/f.txt: No such file or directory (os error 2)"
    );
    assert_eq!(
        stderr_open_failure_message("/no/dir/e.txt", "No such file or directory (os error 2)"),
        "Failed to create stderr file /no/dir/e.txt: No such file or directory (os error 2)"
    );
}

#[test]
fn spawn_failure_message_names_the_program() {
    assert_eq!(
        spawn_failure_message("prog", "Permission denied (os error 13)"),
        "prog: execution failed: Permission denied (os error 13)"
    );
}

#[test]
fn not_found_message_carries_the_line() {
    assert_eq!(not_found_message("abc def"), "abc def: command not found");
}

#[test]
fn write_goes_to_the_inherited_stream_without_target() {
    assert_eq!(
        write_output("hello", None),
        WriteAction::ToStdout { line: "hello".to_string() }
    );
}

#[test]
fn write_goes_to_the_target_file() {
    assert_eq!(
        write_output("hello", Some(("f.txt".to_string(), true))),
        WriteAction::ToFile { path: "f.txt".to_string(), append: true, line: "hello".to_string() }
    );
}

#[test]
fn repeated_overwrite_asks_for_the_same_write() {
    let first = write_output("/home/u", Some(("out.txt".to_string(), false)));
    let second = write_output("/home/u", Some(("out.txt".to_string(), false)));
    assert_eq!(first, second);
    assert_eq!(
        first,
        WriteAction::ToFile {
            path: "out.txt".to_string(),
            append: false,
            line: "/home/u".to_string(),
        }
    );
}

#[test]
fn stderr_target_is_materialized_even_without_output() {
    assert_eq!(
        create_empty_stderr_file(Some(("e.txt".to_string(), false))),
        Some(("e.txt".to_string(), false))
    );
    assert_eq!(create_empty_stderr_file(None), None);
}

#[test]
fn tilde_expands_to_home() {
    assert_eq!(expand_tilde("~/x", Some("/home/u".to_string())), "/home/u/x");
    assert_eq!(expand_tilde("~", Some("/home/u".to_string())), "/home/u");
}

#[test]
fn tilde_stays_without_home() {
    assert_eq!(expand_tilde("~/x", None), "~/x");
}

#[test]
fn plain_path_is_kept() {
    assert_eq!(expand_tilde("/var/log", Some("/home/u".to_string())), "/var/log");
}
