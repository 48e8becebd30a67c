//! Exit codes of the process.

use vstd::prelude::*;

verus! {

pub type ExitCode = i32;

/// The child ran and reported success.
pub const SUCCESS: ExitCode = 0;

/// A notifier could not be set up, or nothing better is known.
pub const FAILURE: ExitCode = 1;

/// The configuration or the credentials were rejected.
pub const CONFIG: ExitCode = 78;

/// How a run of the program ended.
#[derive(Clone, Copy, Debug, PartialEq, Eq, Structural)]
pub enum RunOutcome {
    /// The configuration could not be loaded or resolved; the child never ran.
    ConfigRejected,
    /// The credentials could not be loaded or resolved; the child never ran.
    CredentialsRejected,
    /// A notification channel could not be set up; the child never ran.
    NotifierFailed,
    /// The child ran to completion with this exit code; `notified` tells
    /// whether every channel then took the notification.
    Finished { child: ExitCode, notified: bool },
}

/// The exit code of the process for each way a run can end.
///
/// Failures before the child runs end the process with the code of their
/// category. Once the child has run, its own exit code is what the process
/// returns, whether the notification went out or not.
pub open spec fn exit_code_of(outcome: RunOutcome) -> ExitCode {
    match outcome {
        RunOutcome::ConfigRejected => CONFIG,
        RunOutcome::CredentialsRejected => CONFIG,
        RunOutcome::NotifierFailed => FAILURE,
        RunOutcome::Finished { child, notified } => child,
    }
}

/// The exit code with which the process ends after `outcome`.
pub fn process_exit_code(outcome: RunOutcome) -> (code: ExitCode)
    ensures
        code == exit_code_of(outcome),
{
    match outcome {
        RunOutcome::ConfigRejected => CONFIG,
        RunOutcome::CredentialsRejected => CONFIG,
        RunOutcome::NotifierFailed => FAILURE,
        RunOutcome::Finished { child, notified: _ } => child,
    }
}

/// The exit code of a child that ran to completion: the code it reported,
/// or success where the platform reports none.
pub fn child_exit_code(reported: Option<ExitCode>) -> (code: ExitCode)
    ensures
        code == match reported {
            Some(reported_code) => reported_code,
            None => SUCCESS,
        },
{
    match reported {
        Some(reported_code) => reported_code,
        None => SUCCESS,
    }
}

/// The exit code for a child that could not be started: the error number
/// of the operating system, or the general failure code where there is none.
pub fn spawn_failure_exit_code(os_error: Option<ExitCode>) -> (code: ExitCode)
    ensures
        code == match os_error {
            Some(number) => number,
            None => FAILURE,
        },
{
    match os_error {
        Some(number) => number,
        None => FAILURE,
    }
}

} // verus!
