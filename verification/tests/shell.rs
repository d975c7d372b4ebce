use alfalfa::shell::{
    exit_code_debug_text, first_shell_step, skills_failure_text, lf_skills_outcome, next_shell_step, shell_args_for,
    user_shell_for, ShellAttempt, ShellEvent, ShellStep,
};

#[test]
fn shell_defaults_to_bin_sh() {
    assert_eq!(user_shell_for(None), "/bin/sh");
    assert_eq!(user_shell_for(Some("/usr/bin/fish".to_string())), "/usr/bin/fish");
}

#[test]
fn shell_arguments() {
    assert_eq!(shell_args_for(ShellAttempt::InteractiveLogin, "lf skills"), vec!["-il", "-c", "lf skills"]);
    assert_eq!(shell_args_for(ShellAttempt::Login, "command -v lf"), vec!["-l", "-c", "command -v lf"]);
}

#[test]
fn probe_starts_interactive() {
    assert!(matches!(first_shell_step(), ShellStep::Run(ShellAttempt::InteractiveLogin)));
}

#[test]
fn interactive_success_finishes() {
    let s = next_shell_step(ShellAttempt::InteractiveLogin, ShellEvent::Exited { success: true }, "lf skills");
    assert!(matches!(s, ShellStep::Finish));
}

#[test]
fn interactive_failure_falls_back_to_login() {
    let s = next_shell_step(ShellAttempt::InteractiveLogin, ShellEvent::Exited { success: false }, "lf skills");
    assert!(matches!(s, ShellStep::Run(ShellAttempt::Login)));
}

#[test]
fn login_attempt_always_finishes() {
    let s = next_shell_step(ShellAttempt::Login, ShellEvent::Exited { success: false }, "lf skills");
    assert!(matches!(s, ShellStep::Finish));
    let s = next_shell_step(ShellAttempt::Login, ShellEvent::Exited { success: true }, "lf skills");
    assert!(matches!(s, ShellStep::Finish));
}

#[test]
fn interactive_spawn_failure_falls_back_to_login() {
    let s = next_shell_step(
        ShellAttempt::InteractiveLogin,
        ShellEvent::SpawnFailed { error: "No such file or directory (os error 2)".to_string() },
        "lf skills",
    );
    assert!(matches!(s, ShellStep::Run(ShellAttempt::Login)));
}

#[test]
fn login_spawn_failure_gives_a_message() {
    let s = next_shell_step(
        ShellAttempt::Login,
        ShellEvent::SpawnFailed { error: "No such file or directory (os error 2)".to_string() },
        "lf skills",
    );
    match s {
        ShellStep::Fail(m) => assert_eq!(m, "Failed to run `lf skills`: No such file or directory (os error 2)"),
        _ => panic!("expected a failure"),
    }
}

#[test]
fn exit_code_debug_form() {
    assert_eq!(exit_code_debug_text(Some(1)), "Some(1)");
    assert_eq!(exit_code_debug_text(Some(127)), "Some(127)");
    assert_eq!(exit_code_debug_text(Some(-3)), "Some(-3)");
    assert_eq!(exit_code_debug_text(None), "None");
    assert_eq!(exit_code_debug_text(Some(i32::MIN)), format!("{:?}", Some(i32::MIN)));
    assert_eq!(exit_code_debug_text(Some(i32::MAX)), format!("{:?}", Some(i32::MAX)));
}

#[test]
fn skills_success_is_stdout() {
    assert_eq!(lf_skills_outcome(true, Some(0), b"skill-a\nskill-b\n", b"noise"), Ok("skill-a\nskill-b\n".to_string()));
}

#[test]
fn skills_stdout_is_decoded_lossily() {
    assert_eq!(lf_skills_outcome(true, Some(0), &[0x61, 0xff, 0x62], b""), Ok("a\u{FFFD}b".to_string()));
}

#[test]
fn skills_failure_quotes_trimmed_stderr() {
    assert_eq!(
        lf_skills_outcome(false, Some(2), b"", b"  bad flag\n"),
        Err("lf skills failed (exit code Some(2)): bad flag".to_string())
    );
}

#[test]
fn skills_failure_without_stderr_is_unknown() {
    assert_eq!(
        lf_skills_outcome(false, None, b"", b" \n\t "),
        Err("lf skills failed (exit code None): unknown error".to_string())
    );
}

#[test]
fn skills_failure_text_forms() {
    assert_eq!(skills_failure_text(Some(1), "\n oops \t"), "lf skills failed (exit code Some(1)): oops");
    assert_eq!(skills_failure_text(None, ""), "lf skills failed (exit code None): unknown error");
    assert_eq!(skills_failure_text(Some(-9), "\u{3000}"), "lf skills failed (exit code Some(-9)): unknown error");
}
