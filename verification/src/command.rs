//! Actions, command results, and the infrastructure errors that execution
//! can produce.

use vstd::prelude::*;

verus! {

/// One build action's command as the execution core sees it: the declared
/// host-sharing weight of the local process, an optional key into the
/// persistent-worker pool, and the total size of its declared input files.
#[derive(Clone, Copy, Debug, PartialEq, Eq, Structural)]
pub struct ActionCommand {
    /// Host-sharing weight: how much of the local concurrency capacity the
    /// command occupies while it runs.
    pub host_sharing_weight: u64,
    /// Key of the persistent worker the command opted into, if any.
    pub worker_key: Option<u64>,
    /// Total size in bytes of the command's declared input files.
    pub input_files_bytes: u64,
}

/// The normal outcome of running a command: the process ran to completion.
/// A non-zero exit code is a failed result, not an infrastructure error.
#[derive(Clone, Copy, Debug, PartialEq, Eq, Structural)]
pub struct CommandResult {
    /// Exit code of the command; `0` is success.
    pub exit_code: i32,
    /// Total size in bytes of the outputs the command produced.
    pub output_bytes: u64,
}

/// Infrastructure failures: the command could not be carried out at all.
/// These are fatal for the action and are distinct from a command that ran
/// and exited non-zero.
#[derive(Clone, Copy, Debug, PartialEq, Eq, Structural)]
pub enum ExecError {
    /// The local subprocess could not be spawned.
    SpawnFailed,
    /// The remote submission exceeded its queue-time budget.
    QueueTimeout { budget_ms: u64, elapsed_ms: u64 },
    /// The action's inputs exceed what the remote service accepts.
    InputsTooLarge { input_files_bytes: u64, limit_bytes: u64 },
    /// The connection to the remote service failed.
    RemoteConnection,
}

impl CommandResult {
    /// The command itself succeeded.
    pub open spec fn spec_is_success(self) -> bool {
        self.exit_code == 0
    }

    pub fn is_success(&self) -> (r: bool)
        ensures
            r == self.spec_is_success(),
    {
        self.exit_code == 0
    }
}

/// An execution attempt either produced a command result (possibly a failed
/// one) or was stopped by an infrastructure error. Only a zero exit counts
/// as a successful attempt.
pub open spec fn spec_attempt_succeeded(outcome: Result<CommandResult, ExecError>) -> bool {
    outcome matches Ok(r) && r.spec_is_success()
}

/// Decide whether an execution attempt succeeded; any infrastructure error
/// and any non-zero exit counts as a failed attempt.
pub fn attempt_succeeded(outcome: &Result<CommandResult, ExecError>) -> (r: bool)
    ensures
        r == spec_attempt_succeeded(*outcome),
{
    match outcome {
        Ok(res) => res.is_success(),
        Err(_) => false,
    }
}

} // verus!
