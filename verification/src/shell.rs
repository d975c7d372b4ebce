//! Running a command in the user's login shell, and reading what `lf skills`
//! answered.
//!
//! The command is first run in an interactive login shell (`-il`), the same
//! environment that the sidecar sees; when that fails, because the shell
//! cannot be started or does not exit successfully, it is run once more in a
//! login shell (`-l`), whose outcome is final. The caller runs the processes
//! and reports each outcome to [`next_shell_step`], which decides what follows.

use vstd::prelude::*;
use crate::text::{signed_decimal, signed_decimal_text, trim, trimmed};

verus! {

/// The shell to use: `$SHELL` when it is set, else `/bin/sh`.
pub open spec fn user_shell(shell_var: Option<Seq<char>>) -> Seq<char> {
    match shell_var {
        Some(s) => s,
        None => "/bin/sh"@,
    }
}

/// The shell to use for the value of `$SHELL`, if any.
pub fn user_shell_for(shell_var: Option<String>) -> (r: String)
    ensures
        r@ == user_shell(
            match shell_var {
                Some(s) => Some(s@),
                None => None,
            },
        ),
{
    match shell_var {
        Some(s) => s,
        None => String::from_str("/bin/sh"),
    }
}

/// The two ways the shell is started.
#[derive(Clone, Copy, Debug, PartialEq, Eq, Structural)]
pub enum ShellAttempt {
    /// An interactive login shell, `-il`.
    InteractiveLogin,
    /// A login shell, `-l`.
    Login,
}

impl ShellAttempt {
    /// The flag that starts the shell this way.
    pub open spec fn flag(self) -> Seq<char> {
        match self {
            ShellAttempt::InteractiveLogin => "-il"@,
            ShellAttempt::Login => "-l"@,
        }
    }
}

/// The arguments of the shell for an attempt: the flag, `-c` and the command.
pub open spec fn shell_args(attempt: ShellAttempt, command: Seq<char>) -> Seq<Seq<char>> {
    seq![attempt.flag(), "-c"@, command]
}

/// The arguments of the shell that runs `command` in the given way.
pub fn shell_args_for(attempt: ShellAttempt, command: &str) -> (r: Vec<String>)
    ensures
        r@.map_values(|s: String| s@) == shell_args(attempt, command@),
{
    let flag = match attempt {
        ShellAttempt::InteractiveLogin => "-il",
        ShellAttempt::Login => "-l",
    };
    let mut r: Vec<String> = Vec::new();
    r.push(String::from_str(flag));
    r.push(String::from_str("-c"));
    r.push(String::from_str(command));
    assert(r@.map_values(|s: String| s@) =~= shell_args(attempt, command@));
    r
}

/// What happened to a shell that was started.
pub enum ShellEvent {
    /// The shell ran and exited, successfully or not.
    Exited { success: bool },
    /// The shell could not be run; the text of the error.
    SpawnFailed { error: String },
}

/// What to do next.
pub enum ShellStep {
    /// Start the shell in the given way.
    Run(ShellAttempt),
    /// The last run's output is the answer.
    Finish,
    /// Give up with this message.
    Fail(String),
}

/// The message when a shell could not be run.
pub open spec fn spawn_failure_message(command: Seq<char>, error: Seq<char>) -> Seq<char> {
    "Failed to run `"@ + command + "`: "@ + error
}

/// The first step: an interactive login shell.
pub fn first_shell_step() -> (r: ShellStep)
    ensures
        r == ShellStep::Run(ShellAttempt::InteractiveLogin),
{
    ShellStep::Run(ShellAttempt::InteractiveLogin)
}

/// The step after `attempt` ended with `event`. When the interactive login
/// shell fails, by not starting or by exiting without success, a login shell
/// follows. A login shell that cannot be started fails with a message; any
/// other exit finishes with the output of that run.
pub fn next_shell_step(attempt: ShellAttempt, event: ShellEvent, command: &str) -> (r: ShellStep)
    ensures
        attempt == ShellAttempt::InteractiveLogin ==> (if event matches ShellEvent::Exited {
            success,
        } && success {
            r == ShellStep::Finish
        } else {
            r == ShellStep::Run(ShellAttempt::Login)
        }),
        attempt == ShellAttempt::Login ==> (match event {
            ShellEvent::SpawnFailed { error } => r matches ShellStep::Fail(m) && m@
                == spawn_failure_message(command@, error@),
            ShellEvent::Exited { .. } => r == ShellStep::Finish,
        }),
{
    if attempt == ShellAttempt::InteractiveLogin {
        return match event {
            ShellEvent::Exited { success: true } => ShellStep::Finish,
            _ => ShellStep::Run(ShellAttempt::Login),
        };
    }
    match event {
        ShellEvent::SpawnFailed { error } => {
            let mut m = String::from_str("Failed to run `");
            m.append(command);
            m.append("`: ");
            m.append(error.as_str());
            ShellStep::Fail(m)
        },
        ShellEvent::Exited { .. } => ShellStep::Finish,
    }
}

/// The text of `bytes` read as UTF-8, each invalid sequence replaced by U+FFFD,
/// as `String::from_utf8_lossy` reads it.
pub uninterp spec fn utf8_lossy(bytes: Seq<u8>) -> Seq<char>;

/// `String::from_utf8_lossy`: the text of the bytes, read as UTF-8 with each
/// invalid sequence replaced. The contract names the result and says no more
/// of it.
#[verifier::external_body]
fn decode_utf8_lossy(bytes: &[u8]) -> (r: String)
    ensures
        r@ == utf8_lossy(bytes@),
{
    String::from_utf8_lossy(bytes).into_owned()
}

/// How `{:?}` writes an exit code that may be absent.
pub open spec fn exit_code_debug(code: Option<i32>) -> Seq<char> {
    match code {
        Some(n) => "Some("@ + signed_decimal(n as int) + ")"@,
        None => "None"@,
    }
}

/// How `{:?}` writes an exit code that may be absent.
pub fn exit_code_debug_text(code: Option<i32>) -> (r: String)
    ensures
        r@ == exit_code_debug(code),
{
    match code {
        Some(n) => {
            let mut r = String::from_str("Some(");
            let digits = signed_decimal_text(n);
            r.append(digits.as_str());
            r.append(")");
            r
        },
        None => String::from_str("None"),
    }
}

/// The message when `lf skills` did not succeed: the exit code, then the
/// trimmed error output, or `unknown error` when there is none.
pub open spec fn skills_failure_message(code: Option<i32>, stderr_text: Seq<char>) -> Seq<char> {
    let detail = if trimmed(stderr_text).len() == 0 {
        "unknown error"@
    } else {
        trimmed(stderr_text)
    };
    "lf skills failed (exit code "@ + exit_code_debug(code) + "): "@ + detail
}

/// The message when `lf skills` did not succeed, for its exit code and the
/// text of its error output.
pub fn skills_failure_text(exit_code: Option<i32>, stderr_text: &str) -> (r: String)
    ensures
        r@ == skills_failure_message(exit_code, stderr_text@),
{
    let detail = trim(stderr_text);
    let mut m = String::from_str("lf skills failed (exit code ");
    let code = exit_code_debug_text(exit_code);
    m.append(code.as_str());
    m.append("): ");
    if detail.unicode_len() == 0 {
        m.append("unknown error");
    } else {
        m.append(detail);
    }
    m
}

/// The answer of `lf skills` for its exit status and output: the standard
/// output on success, else an error that gives the exit code and the error
/// output.
pub fn lf_skills_outcome(success: bool, exit_code: Option<i32>, stdout: &[u8], stderr: &[u8]) -> (r:
    Result<String, String>)
    ensures
        success ==> r is Ok && r->Ok_0@ == utf8_lossy(stdout@),
        !success ==> r is Err && r->Err_0@ == skills_failure_message(
            exit_code,
            utf8_lossy(stderr@),
        ),
{
    if !success {
        let err_text = decode_utf8_lossy(stderr);
        return Err(skills_failure_text(exit_code, err_text.as_str()));
    }
    Ok(decode_utf8_lossy(stdout))
}

} // verus!
