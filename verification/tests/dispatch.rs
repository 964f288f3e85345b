use rshell::command::{
    builtin_of, cd_target, execute_cd, execute_echo, execute_error, execute_exit,
    execute_not_found, execute_programm, execute_pwd, execute_type, match_command, BuiltinKind,
    CommandAction, OsInput, ProcessOutput, RCommand,
};
use rshell::text::parse_i32;

fn cmd(name: &str, args: &[&str]) -> RCommand {
    RCommand {
        command: name.to_string(),
        args: args.iter().map(|a| a.to_string()).collect(),
    }
}

#[test]
fn type_reports_builtins() {
    let action = execute_type(&cmd("type", &["cd"]), None);
    assert_eq!(action, CommandAction::Type("cd is a shell builtin".to_string()));
}

#[test]
fn type_reports_unknown_names_as_not_found() {
    let action = execute_type(&cmd("type", &["nonexistent_xyz"]), None);
    assert_eq!(action, CommandAction::NotFound("nonexistent_xyz: not found".to_string()));
}

#[test]
fn type_reports_the_resolved_path() {
    let action = execute_type(&cmd("type", &["ls"]), Some("/usr/bin/ls".to_string()));
    assert_eq!(action, CommandAction::Type("ls is /usr/bin/ls".to_string()));
}

#[test]
fn type_without_argument_falls_back_to_its_own_name() {
    let action = execute_type(&cmd("type", &[]), None);
    assert_eq!(action, CommandAction::Type("type is a shell builtin".to_string()));
}

#[test]
fn cd_failure_yields_error_text() {
    let action = match_command(
        cmd("cd", &["/nonexistent/path"]),
        OsInput::ChdirOk(false),
    );
    assert_eq!(
        action,
        CommandAction::Error("cd: /nonexistent/path: No such file or directory".to_string())
    );
}

#[test]
fn cd_without_argument_is_a_recoverable_error() {
    // A missing cd target is a user-input error surfaced as one line of
    // text, not a fatal condition; the flag handed in is irrelevant
    // because no directory change is ever attempted.
    let action = execute_cd(&cmd("cd", &[]), false);
    assert_eq!(action, CommandAction::Error("cd: missing argument".to_string()));
    let via_dispatch = match_command(cmd("cd", &[]), OsInput::ChdirOk(false));
    assert_eq!(via_dispatch, CommandAction::Error("cd: missing argument".to_string()));
}

#[test]
fn cd_success_yields_no_output() {
    let action = execute_cd(&cmd("cd", &["/tmp"]), true);
    assert_eq!(action, CommandAction::NoOutput);
}

#[test]
fn cd_target_replaces_a_tilde_path_with_home() {
    let home = "/home/user".to_string();
    assert_eq!(cd_target(&"~".to_string(), &home), "/home/user");
    assert_eq!(cd_target(&"~/sub".to_string(), &home), "/home/user");
    assert_eq!(cd_target(&"/etc".to_string(), &home), "/etc");
}

#[test]
fn stderr_content_wins_and_stdout_is_discarded() {
    let action = execute_programm(
        cmd("mytool", &[]),
        Some(ProcessOutput {
            stdout: "useful output\n".to_string(),
            stderr: "warning: trouble\n".to_string(),
        }),
    );
    assert_eq!(action, CommandAction::Error("warning: trouble".to_string()));
    assert!(!matches!(action, CommandAction::Command(_)));
}

#[test]
fn empty_stderr_yields_trimmed_stdout() {
    let action = execute_programm(
        cmd("mytool", &[]),
        Some(ProcessOutput { stdout: "  result \n".to_string(), stderr: String::new() }),
    );
    assert_eq!(action, CommandAction::Command("result".to_string()));
}

#[test]
fn unresolved_command_yields_command_not_found() {
    let action = execute_programm(cmd("frobnicate", &["x"]), None);
    assert_eq!(action, CommandAction::Error("frobnicate: command not found".to_string()));
    let direct = execute_error(cmd("frobnicate", &[]));
    assert_eq!(direct, CommandAction::Error("frobnicate: command not found".to_string()));
}

#[test]
fn exit_zero_requests_termination_with_code_zero() {
    let action = match_command(cmd("exit", &["0"]), OsInput::NoInput);
    assert_eq!(action, CommandAction::Exit(0));
}

#[test]
fn exit_parses_its_code() {
    assert_eq!(execute_exit(cmd("exit", &["42"])), CommandAction::Exit(42));
    assert_eq!(execute_exit(cmd("exit", &["-7"])), CommandAction::Exit(-7));
}

#[test]
fn non_numeric_exit_arguments_are_rejected_by_the_parser() {
    // The dispatcher's contract keeps such a command out; the surrounding
    // program tests with `parse_i32` first and aborts the process on `None`.
    assert_eq!(parse_i32("abc"), None);
    assert_eq!(parse_i32(""), None);
    assert_eq!(parse_i32("12x"), None);
    assert_eq!(parse_i32("-"), None);
}

#[test]
fn parse_i32_handles_signs_zeros_and_range() {
    assert_eq!(parse_i32("0"), Some(0));
    assert_eq!(parse_i32("+7"), Some(7));
    assert_eq!(parse_i32("007"), Some(7));
    assert_eq!(parse_i32("2147483647"), Some(2147483647));
    assert_eq!(parse_i32("-2147483648"), Some(-2147483648));
    assert_eq!(parse_i32("2147483648"), None);
    assert_eq!(parse_i32("-2147483649"), None);
    assert_eq!(parse_i32("99999999999999999999"), None);
}

#[test]
fn echo_joins_arguments_with_no_separator() {
    // Reproduces the modeled shell's literal behavior: no space is
    // reinserted between arguments.
    let action = execute_echo(cmd("echo", &["hello", "world"]));
    assert_eq!(action, CommandAction::Echo("helloworld".to_string()));
}

#[test]
fn echo_via_dispatch() {
    let action = match_command(cmd("echo", &["a", "b"]), OsInput::NoInput);
    assert_eq!(action, CommandAction::Echo("ab".to_string()));
}

#[test]
fn pwd_reports_the_handed_directory() {
    let action = match_command(
        cmd("pwd", &[]),
        OsInput::Cwd("/somewhere/deep".to_string()),
    );
    assert_eq!(action, CommandAction::PWD("/somewhere/deep".to_string()));
}

#[test]
fn not_found_text_is_exact() {
    let action = execute_not_found("ghost".to_string());
    assert_eq!(action, CommandAction::NotFound("ghost: not found".to_string()));
}

#[test]
fn builtin_of_knows_exactly_the_five_builtins() {
    assert_eq!(builtin_of(&"exit".to_string()), Some(BuiltinKind::Exit));
    assert_eq!(builtin_of(&"echo".to_string()), Some(BuiltinKind::Echo));
    assert_eq!(builtin_of(&"type".to_string()), Some(BuiltinKind::Type));
    assert_eq!(builtin_of(&"pwd".to_string()), Some(BuiltinKind::Pwd));
    assert_eq!(builtin_of(&"cd".to_string()), Some(BuiltinKind::Cd));
    assert_eq!(builtin_of(&"ls".to_string()), None);
    assert_eq!(builtin_of(&"".to_string()), None);
}

#[test]
fn get_first_arg_returns_the_first_argument() {
    let command = cmd("type", &["cd", "pwd"]);
    assert_eq!(command.get_first_arg(), "cd");
}

#[test]
fn external_dispatch_goes_through_the_spawn_result() {
    let action = match_command(
        cmd("sometool", &["x"]),
        OsInput::Spawned(Some(ProcessOutput {
            stdout: "ok\n".to_string(),
            stderr: String::new(),
        })),
    );
    assert_eq!(action, CommandAction::Command("ok".to_string()));
}
