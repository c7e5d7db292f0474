use vshell::command::Command;
use vshell::redirect::extract_redirection;

#[test]
fn no_redirect_returns_input_unchanged() {
    let (text, so, se) = extract_redirection("echo hello");
    assert_eq!(text, "echo hello");
    assert_eq!(so, None);
    assert_eq!(se, None);
}

#[test]
fn quoted_gt_is_not_an_operator() {
    let (text, so, se) = extract_redirection("echo 'a > b'");
    assert_eq!(text, "echo 'a > b'");
    assert_eq!(so, None);
    assert_eq!(se, None);
}

#[test]
fn double_quoted_gt_is_not_an_operator() {
    let (text, so, se) = extract_redirection("echo \"a > b\"");
    assert_eq!(text, "echo \"a > b\"");
    assert_eq!(so, None);
    assert_eq!(se, None);
}

#[test]
fn quoted_echo_parses_with_no_redirection() {
    match Command::from_input("echo 'a > b'") {
        Command::EchoCommand { display_string, redirect, stderr_redirect } => {
            assert_eq!(display_string, "a > b");
            assert_eq!(redirect, None);
            assert_eq!(stderr_redirect, None);
        }
        other => panic!("unexpected parse: {:?}", other),
    }
}

#[test]
fn digit_one_is_stdout_synonym() {
    let with_digit = extract_redirection("ls 1> out.txt");
    let bare = extract_redirection("ls > out.txt");
    assert_eq!(with_digit, ("ls".to_string(), Some(("out.txt".to_string(), false)), None));
    assert_eq!(bare, ("ls".to_string(), Some(("out.txt".to_string(), false)), None));
    assert_eq!(with_digit, bare);
}

#[test]
fn both_streams_extracted() {
    let (text, so, se) = extract_redirection("cmd > a.txt 2>> b.txt");
    assert_eq!(text, "cmd");
    assert_eq!(so, Some(("a.txt".to_string(), false)));
    assert_eq!(se, Some(("b.txt".to_string(), true)));
}

#[test]
fn append_mode_detected() {
    let (text, so, se) = extract_redirection("x >> log.txt");
    assert_eq!(text, "x");
    assert_eq!(so, Some(("log.txt".to_string(), true)));
    assert_eq!(se, None);
}

#[test]
fn stderr_redirect_extracted() {
    let (text, so, se) = extract_redirection("x 2> err.txt");
    assert_eq!(text, "x");
    assert_eq!(so, None);
    assert_eq!(se, Some(("err.txt".to_string(), false)));
}

#[test]
fn quoted_path_captured_whole() {
    let (text, so, _) = extract_redirection("x > 'a b'");
    assert_eq!(text, "x");
    assert_eq!(so, Some(("a b".to_string(), false)));
}

#[test]
fn later_operator_for_same_stream_wins() {
    let (text, so, se) = extract_redirection("x > a > b");
    assert_eq!(text, "x");
    assert_eq!(so, Some(("b".to_string(), false)));
    assert_eq!(se, None);
}

#[test]
fn trailing_gt_without_token_is_ignored() {
    let (text, so, se) = extract_redirection("echo >");
    assert_eq!(text, "echo >");
    assert_eq!(so, None);
    assert_eq!(se, None);
}

#[test]
fn unbalanced_quote_after_gt_is_ignored() {
    let (text, so, se) = extract_redirection("echo > 'unclosed");
    assert_eq!(text, "echo > 'unclosed");
    assert_eq!(so, None);
    assert_eq!(se, None);
}

#[test]
fn empty_input_is_not_found() {
    match Command::from_input("   ") {
        Command::CommandNotFound { input } => assert_eq!(input, "   "),
        other => panic!("unexpected parse: {:?}", other),
    }
}

#[test]
fn unbalanced_quote_is_not_found() {
    match Command::from_input("echo 'x") {
        Command::CommandNotFound { input } => assert_eq!(input, "echo 'x"),
        other => panic!("unexpected parse: {:?}", other),
    }
}

#[test]
fn exit_parses_and_ignores_arguments() {
    assert!(matches!(Command::from_input("exit"), Command::ExitCommand));
    assert!(matches!(Command::from_input("exit 5"), Command::ExitCommand));
}

#[test]
fn pwd_parses_with_redirect() {
    match Command::from_input("pwd > out.txt") {
        Command::PwdCommand { redirect, stderr_redirect } => {
            assert_eq!(redirect, Some(("out.txt".to_string(), false)));
            assert_eq!(stderr_redirect, None);
        }
        other => panic!("unexpected parse: {:?}", other),
    }
}

#[test]
fn cd_parses_its_path() {
    match Command::from_input("cd /tmp") {
        Command::CdCommand { path } => assert_eq!(path, "/tmp"),
        other => panic!("unexpected parse: {:?}", other),
    }
}

#[test]
fn cd_without_argument_falls_through() {
    match Command::from_input("cd") {
        Command::CommandNotFound { input } => assert_eq!(input, "cd"),
        other => panic!("unexpected parse: {:?}", other),
    }
}

#[test]
fn echo_joins_tokens_with_single_spaces() {
    match Command::from_input("echo a   b") {
        Command::EchoCommand { display_string, .. } => assert_eq!(display_string, "a b"),
        other => panic!("unexpected parse: {:?}", other),
    }
}

#[test]
fn echo_without_arguments_displays_nothing() {
    match Command::from_input("echo") {
        Command::EchoCommand { display_string, redirect, stderr_redirect } => {
            assert_eq!(display_string, "");
            assert_eq!(redirect, None);
            assert_eq!(stderr_redirect, None);
        }
        other => panic!("unexpected parse: {:?}", other),
    }
}

#[test]
fn type_parses_its_target() {
    match Command::from_input("type exit") {
        Command::TypeCommand { command_name, redirect, stderr_redirect } => {
            assert_eq!(command_name, "exit");
            assert_eq!(redirect, None);
            assert_eq!(stderr_redirect, None);
        }
        other => panic!("unexpected parse: {:?}", other),
    }
}

#[test]
fn external_command_keeps_typed_name_and_arguments() {
    match Command::from_input("ls -l /") {
        Command::ExternalCommand { program, args, redirect, stderr_redirect } => {
            assert_eq!(program, "ls");
            assert_eq!(args, vec!["-l".to_string(), "/".to_string()]);
            assert_eq!(redirect, None);
            assert_eq!(stderr_redirect, None);
        }
        other => panic!("unexpected parse: {:?}", other),
    }
}

#[test]
fn unresolved_name_is_not_found() {
    match Command::from_input("nonexistent_cmd_xyz_123 arg") {
        Command::CommandNotFound { input } => assert_eq!(input, "nonexistent_cmd_xyz_123 arg"),
        other => panic!("unexpected parse: {:?}", other),
    }
}

#[test]
fn not_found_carries_the_raw_untrimmed_line() {
    match Command::from_input("  nonexistent_cmd_xyz_123  ") {
        Command::CommandNotFound { input } => assert_eq!(input, "  nonexistent_cmd_xyz_123  "),
        other => panic!("unexpected parse: {:?}", other),
    }
}

#[test]
fn redirection_survives_into_external_command() {
    match Command::from_input("ls 1> out.txt 2>> err.txt") {
        Command::ExternalCommand { program, args, redirect, stderr_redirect } => {
            assert_eq!(program, "ls");
            assert_eq!(args, Vec::<String>::new());
            assert_eq!(redirect, Some(("out.txt".to_string(), false)));
            assert_eq!(stderr_redirect, Some(("err.txt".to_string(), true)));
        }
        other => panic!("unexpected parse: {:?}", other),
    }
}

#[test]
fn text_after_redirection_clause_is_dropped() {
    let (text, so, se) = extract_redirection("echo hi > f extra");
    assert_eq!(text, "echo hi");
    assert_eq!(so, Some(("f".to_string(), false)));
    assert_eq!(se, None);
}

#[test]
fn digit_glued_to_a_word_still_selects_the_stream() {
    let (text, so, se) = extract_redirection("ls file2> out");
    assert_eq!(text, "ls file");
    assert_eq!(so, None);
    assert_eq!(se, Some(("out".to_string(), false)));
}

#[test]
fn redirection_at_line_start_leaves_empty_command() {
    let (text, so, se) = extract_redirection(">> f");
    assert_eq!(text, "");
    assert_eq!(so, Some(("f".to_string(), true)));
    assert_eq!(se, None);
}
