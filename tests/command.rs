use numake::command::{
    exit_code, list_command, list_report, not_found_report, parse_mode, run_args, run_report,
    Mode, GREY, INTERPRETER, LIST_HEADER, LIST_HINT, RESET,
};

fn args(parts: &[&str]) -> Vec<String> {
    parts.iter().map(|p| p.to_string()).collect()
}

#[test]
fn no_arguments_lists() {
    assert!(matches!(parse_mode(&args(&["numake"])), Mode::List));
    assert!(matches!(parse_mode(&args(&[])), Mode::List));
}

#[test]
fn list_flag_lists() {
    assert!(matches!(parse_mode(&args(&["numake", "--list"])), Mode::List));
}

#[test]
fn interactive_flag_starts_session() {
    assert!(matches!(parse_mode(&args(&["numake", "--interactive"])), Mode::Interactive));
}

#[test]
fn other_arguments_form_one_command_line() {
    match parse_mode(&args(&["numake", "test", "--verbose", "unit"])) {
        Mode::Run(c) => assert_eq!(c, "test --verbose unit"),
        _ => panic!("expected a command line"),
    }
}

#[test]
fn flags_after_the_first_argument_are_part_of_the_command() {
    match parse_mode(&args(&["numake", "build", "--list"])) {
        Mode::Run(c) => assert_eq!(c, "build --list"),
        _ => panic!("expected a command line"),
    }
}

#[test]
fn interpreter_arguments_load_file_and_evaluate_command() {
    assert_eq!(INTERPRETER, "nu");
    assert_eq!(
        run_args("/p/make.nu", "build x"),
        args(&["--env-config", "/p/make.nu", "-c", "build x"])
    );
}

#[test]
fn successful_run_prints_child_stdout_exactly() {
    let r = run_report(true, Some(0), b"hello\n".to_vec(), b"".to_vec());
    assert_eq!(r.exit_code, 0);
    assert_eq!(r.stdout, b"hello\n".to_vec());
    assert!(r.stderr.is_empty());
}

#[test]
fn successful_run_drops_child_stderr() {
    let r = run_report(true, Some(0), b"out".to_vec(), b"warning".to_vec());
    assert_eq!(r.exit_code, 0);
    assert_eq!(r.stdout, b"out".to_vec());
    assert!(r.stderr.is_empty());
}

#[test]
fn failing_run_passes_on_code_and_stderr() {
    let r = run_report(false, Some(3), b"partial".to_vec(), b"boom\n".to_vec());
    assert_eq!(r.exit_code, 3);
    assert!(r.stdout.is_empty());
    assert_eq!(r.stderr, b"boom\n".to_vec());
}

#[test]
fn run_ended_without_code_exits_one() {
    let r = run_report(false, None, b"".to_vec(), b"killed".to_vec());
    assert_eq!(r.exit_code, 1);
    assert_eq!(r.stderr, b"killed".to_vec());
}

#[test]
fn exit_code_defaults_to_one() {
    assert_eq!(exit_code(Some(42)), 42);
    assert_eq!(exit_code(Some(0)), 0);
    assert_eq!(exit_code(None), 1);
}

#[test]
fn list_command_asks_for_custom_commands() {
    let c = list_command();
    assert!(c.starts_with("help commands\n| where command_type == custom\n"));
    assert!(c.contains(&format!("| format \"    {{name}}{}{{usage}}{}\"", GREY, RESET)));
    assert!(c.ends_with("| to text\n"));
}

#[test]
fn listing_without_commands_shows_header_and_hint_only() {
    let r = list_report(true, String::new(), String::new());
    assert_eq!(r.exit_code, 0);
    assert_eq!(
        r.stdout,
        "Commands:\n\nRun '<command> --help' for more information.\n"
    );
    assert!(r.stderr.is_empty());
}

#[test]
fn listing_shows_rows_between_header_and_hint() {
    let rows = "    build\x1b[90m # Build it\x1b[0m\n    test\x1b[90m\x1b[0m".to_string();
    let r = list_report(true, rows.clone(), String::new());
    assert_eq!(r.exit_code, 0);
    assert_eq!(r.stdout, format!("{}{}\n{}", LIST_HEADER, rows, LIST_HINT));
}

#[test]
fn listing_with_error_text_fails() {
    let r = list_report(true, "    build".to_string(), "parse error".to_string());
    assert_eq!(r.exit_code, 1);
    assert!(r.stdout.is_empty());
    assert_eq!(r.stderr, "parse error");
}

#[test]
fn listing_with_failing_status_fails() {
    let r = list_report(false, String::new(), String::new());
    assert_eq!(r.exit_code, 1);
    assert!(r.stdout.is_empty());
}

#[test]
fn missing_command_file_is_reported() {
    let r = not_found_report();
    assert_eq!(r.exit_code, 1);
    assert!(r.stdout.is_empty());
    assert_eq!(r.stderr, "Could not find make.nu file\n");
}
