//! The result handed back to the caller: an exit code and an optional message.
use vstd::prelude::*;

use crate::challenge::Status;

verus! {

/// Exit code of a command that may run.
pub const EXIT_OK: i32 = 0;

/// Exit code of a command the user declined to confirm (`EX_NOPERM` of sysexits).
pub const EXIT_ABORT: i32 = 77;

/// Exit code when the catalog or the settings could not be loaded (`EX_CONFIG` of sysexits).
pub const EXIT_CONFIG: i32 = 78;

/// Exit code when the invocation failed in any other way.
pub const DEFAULT_ERR_EXIT_CODE: i32 = 1;

/// An exit code and an optional message for the user.
pub struct CmdExit {
    pub code: i32,
    pub message: Option<String>,
}

/// The exit code of each status.
pub open spec fn status_code(s: Status) -> i32 {
    match s {
        Status::Allow => EXIT_OK,
        Status::Abort => EXIT_ABORT,
        Status::ConfigError => EXIT_CONFIG,
    }
}

/// The message of each status: none for `Allow`, a reason for the two others.
pub open spec fn status_message(s: Status) -> Option<Seq<char>> {
    match s {
        Status::Allow => None,
        Status::Abort => Some("The command was not confirmed and will not run."@),
        Status::ConfigError => Some("The checks or the settings could not be loaded."@),
    }
}

/// The text of an optional message.
pub open spec fn message_view(m: Option<String>) -> Option<Seq<char>> {
    match m {
        Some(t) => Some(t@),
        None => None,
    }
}

/// Relies on `exitcode::is_success`: a code is a success exactly when it is `exitcode::OK`, 0.
#[verifier::external_body]
fn is_success(code: i32) -> (r: bool)
    ensures
        r == (code == 0),
{
    exitcode::is_success(code)
}

impl CmdExit {
    /// The result for a status: `Allow` exits with success and no message; `Abort` and
    /// `ConfigError` exit with distinct non-zero codes and say why.
    pub fn from_status(s: Status) -> (r: CmdExit)
        ensures
            r.code == status_code(s),
            message_view(r.message) == status_message(s),
    {
        match s {
            Status::Allow => CmdExit { code: EXIT_OK, message: None },
            Status::Abort => CmdExit {
                code: EXIT_ABORT,
                message: Some(String::from_str("The command was not confirmed and will not run.")),
            },
            Status::ConfigError => CmdExit {
                code: EXIT_CONFIG,
                message: Some(String::from_str("The checks or the settings could not be loaded.")),
            },
        }
    }
}

/// How the process ends: its exit code, and the message to show, if any, with whether it
/// reports success (and is shown as such).
pub struct ExitPlan {
    pub code: i32,
    pub message: Option<String>,
    pub success: bool,
}

/// Plans the end of the process from the outcome of the invocation. A result gives its
/// code and message; a failure (`None`) gives `DEFAULT_ERR_EXIT_CODE` and no message.
pub fn exit_plan(res: Option<CmdExit>) -> (r: ExitPlan)
    ensures
        res matches Some(c) ==> r.code == c.code && r.message == c.message && r.success == (
        c.code == EXIT_OK),
        res is None ==> r.code == DEFAULT_ERR_EXIT_CODE && r.message is None && !r.success,
{
    match res {
        Some(c) => {
            let success = is_success(c.code);
            ExitPlan { code: c.code, message: c.message, success }
        },
        None => ExitPlan { code: DEFAULT_ERR_EXIT_CODE, message: None, success: false },
    }
}

/// The end of the process depends on the status alone: equal statuses give the same
/// exit code and the same message.
pub proof fn lemma_exit_determined_by_status(a: CmdExit, b: CmdExit, s: Status)
    requires
        a.code == status_code(s) && message_view(a.message) == status_message(s),
        b.code == status_code(s) && message_view(b.message) == status_message(s),
    ensures
        a.code == b.code,
        message_view(a.message) == message_view(b.message),
{
}

/// Allow is the only status with a success code, and the two failures have codes of
/// their own.
pub proof fn lemma_status_codes_distinct(a: Status, b: Status)
    ensures
        (status_code(a) == EXIT_OK) <==> a == Status::Allow,
        a != b ==> status_code(a) != status_code(b),
{
}

} // verus!
