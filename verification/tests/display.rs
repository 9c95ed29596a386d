use tsdl::args::ConfigCommand;
use tsdl::error::{Cause, Command, ParserOp, Step};
use tsdl::format_duration;
use tsdl::relative_to_cwd;
use tsdl::sh::{exec_outcome, invocation_display, shell_invocation, CapturedOutput, Invocation,
    ProcessStatus};

#[test]
fn durations_under_a_minute_show_padded_millis() {
    assert_eq!(format_duration(5, 3), "5.03s");
    assert_eq!(format_duration(5, 45), "5.45s");
    assert_eq!(format_duration(0, 345), "0.345s");
}

#[test]
fn durations_over_a_minute_swap_places() {
    assert_eq!(format_duration(65, 0), "5mn 1s");
    assert_eq!(format_duration(60, 999), "0mn 1s");
}

#[test]
fn exit_zero_is_success() {
    let out = CapturedOutput {
        status: ProcessStatus::Exited(0),
        stdout: "fine\n".to_string(),
        stderr: String::new(),
    };
    assert!(exec_outcome("git fetch", "git", &out).is_ok());
}

#[test]
fn nonzero_exit_carries_the_display_and_trimmed_output() {
    let out = CapturedOutput {
        status: ProcessStatus::Exited(2),
        stdout: "  some stdout \n".to_string(),
        stderr: "fatal: nope\n".to_string(),
    };
    let err = exec_outcome("[repo] git fetch origin", "git", &out).expect_err("exit 2");
    assert_eq!(err.msg, "[repo] git fetch origin failed with exit status 2.");
    assert_eq!(err.stdout, "some stdout");
    assert_eq!(err.stderr, "fatal: nope");
    assert_eq!(
        err.message(),
        "[repo] git fetch origin failed with exit status 2.\nStdOut:\nsome stdout\nStdErr:\nfatal: nope"
    );
}

#[test]
fn signals_name_the_program() {
    let out = CapturedOutput {
        status: ProcessStatus::Signaled(9),
        stdout: String::new(),
        stderr: String::new(),
    };
    let err = exec_outcome("git fetch", "git", &out).expect_err("killed");
    assert_eq!(err.msg, "git interrupted by signal 9.");
}

#[test]
fn invocations_display_like_a_shell_line() {
    let inv = Invocation::new(
        "git".to_string(),
        vec!["fetch".to_string(), "origin".to_string()],
        Some("repo".to_string()),
    );
    assert_eq!(invocation_display(&inv), "[repo] git fetch origin");
    let inv = Invocation::new("git".to_string(), vec![], None);
    assert_eq!(invocation_display(&inv), "git");
}

#[test]
fn shell_invocations_pass_the_script_to_dash_c() {
    let inv = shell_invocation("sh", "make all", None);
    assert_eq!(inv.program, "sh");
    assert_eq!(inv.args, vec!["-c", "make all"]);
}

#[test]
fn step_messages_name_language_phase_and_cause() {
    let step = Step {
        name: "php".to_string(),
        kind: ParserOp::Generate { dir: "/tmp/tsdl/tree-sitter-php".to_string() },
        source: Cause::Command(Command {
            msg: "oops".to_string(),
            stderr: "e".to_string(),
            stdout: "o".to_string(),
        }),
    };
    assert_eq!(
        step.message(),
        "php: Could not generate in /tmp/tsdl/tree-sitter-php.\noops\nStdOut:\no\nStdErr:\ne"
    );
}

#[test]
fn copy_op_messages_show_both_paths() {
    let op = ParserOp::Copy { src: "/out".to_string(), dst: "/dir".to_string() };
    assert_eq!(op.message(), "Could not copy /out to /dir");
    let op = ParserOp::Build { dir: "/dir".to_string() };
    assert_eq!(op.message(), "Could not build in /dir");
    let op = ParserOp::Clone { dir: "/dir".to_string() };
    assert_eq!(op.message(), "Could not clone to /dir");
}

#[test]
fn config_subcommands_display_quoted() {
    assert_eq!(ConfigCommand::Current.display_string(), "\"current\"");
    assert_eq!(ConfigCommand::Default.display_string(), "\"default\"");
}

#[test]
fn paths_inside_the_working_directory_are_shortened() {
    assert_eq!(relative_to_cwd("src", "/work"), "src");
    assert_eq!(relative_to_cwd("/work/src", "/work"), "src");
    assert_eq!(relative_to_cwd("/elsewhere/src", "/work"), "/elsewhere/src");
    assert_eq!(relative_to_cwd("/work", "/work"), "/work");
}

#[test]
fn negative_exit_codes_render_with_a_sign() {
    let out = CapturedOutput {
        status: ProcessStatus::Exited(-1),
        stdout: String::new(),
        stderr: String::new(),
    };
    let err = exec_outcome("prog", "prog", &out).expect_err("exit -1");
    assert_eq!(err.msg, "prog failed with exit status -1.");
}

#[test]
fn indent_lines_prefixes_every_line() {
    assert_eq!(
        tsdl::config::indent_lines("a = 1\nb = 2\n", "  "),
        "  a = 1\n  b = 2\n"
    );
    assert_eq!(tsdl::config::indent_lines("", "  "), "");
}

#[test]
fn language_collection_message_lists_all_names() {
    let collection = tsdl::error::LanguageCollection {
        related: vec![
            tsdl::error::Language { name: "alpha".to_string(), source: "x".to_string() },
            tsdl::error::Language { name: "beta".to_string(), source: "y".to_string() },
        ],
    };
    assert_eq!(
        collection.message(),
        "Could not figure out all languages:\nalpha.\nx, beta.\ny"
    );
}
