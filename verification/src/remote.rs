//! The remote executor's decision logic: what a submission carries, the
//! fixed ceiling on input size, and the queue-time budget. The wire protocol
//! itself is outside work; callers submit the returned description and feed
//! observed timings back in.

use vstd::prelude::*;
use crate::command::ActionCommand;
use crate::command::ExecError;
use crate::config::RemoteExecutorOptions;

verus! {

/// The most input data the remote execution service accepts for one action:
/// 30 GiB. Exceeding it is a fatal configuration/input error, not retried.
pub const RE_INPUT_FILES_BYTES_CEILING: u64 = 30 * 1024 * 1024 * 1024;

/// Everything the remote executor needs to submit one action, as plain
/// values: the declared options, the use-case tag and optional action key,
/// whether the remote caches are consulted and written, and the validation
/// flags.
#[derive(Clone, Debug, PartialEq, Eq)]
pub struct RemoteExecutorDescriptor {
    pub options: RemoteExecutorOptions,
    /// Use-case tag sent with every submission.
    pub re_use_case: String,
    /// Optional key used for result grouping and telemetry.
    pub re_action_key: Option<String>,
    pub skip_cache_read: bool,
    pub skip_cache_write: bool,
    /// Re-materialize and check remote outputs locally before trusting them.
    pub paranoid: bool,
    pub materialize_failed_inputs: bool,
}

/// One submission to the remote service, ready to send.
#[derive(Clone, Debug, PartialEq, Eq)]
pub struct RemoteSubmission {
    pub re_use_case: String,
    pub re_action_key: Option<String>,
    /// Queue-time budget in milliseconds; `None` means no budget.
    pub queue_budget_ms: Option<u64>,
    /// Outputs must be re-materialized and checked locally.
    pub paranoid_outputs: bool,
}

/// Prepare the submission of one action. An action whose declared inputs
/// exceed the service's fixed ceiling is rejected outright; otherwise the
/// submission carries the descriptor's tags, budget and validation flag.
pub fn prepare_remote_submission(descriptor: &RemoteExecutorDescriptor, command: &ActionCommand)
    -> (r: Result<RemoteSubmission, ExecError>)
    ensures
        command.input_files_bytes > RE_INPUT_FILES_BYTES_CEILING ==> r == Err::<
            RemoteSubmission,
            ExecError,
        >(
            ExecError::InputsTooLarge {
                input_files_bytes: command.input_files_bytes,
                limit_bytes: RE_INPUT_FILES_BYTES_CEILING,
            },
        ),
        command.input_files_bytes <= RE_INPUT_FILES_BYTES_CEILING ==> (r matches Ok(s) && {
            &&& s.re_use_case == descriptor.re_use_case
            &&& s.re_action_key == descriptor.re_action_key
            &&& s.queue_budget_ms == descriptor.options.re_max_queue_time_ms
            &&& s.paranoid_outputs == descriptor.paranoid
        }),
{
    if command.input_files_bytes > RE_INPUT_FILES_BYTES_CEILING {
        Err(
            ExecError::InputsTooLarge {
                input_files_bytes: command.input_files_bytes,
                limit_bytes: RE_INPUT_FILES_BYTES_CEILING,
            },
        )
    } else {
        let re_action_key = match &descriptor.re_action_key {
            Some(key) => Some(key.clone()),
            None => None,
        };
        Ok(
            RemoteSubmission {
                re_use_case: descriptor.re_use_case.clone(),
                re_action_key,
                queue_budget_ms: descriptor.options.re_max_queue_time_ms,
                paranoid_outputs: descriptor.paranoid,
            },
        )
    }
}

/// Judge the time a submission has spent queued against its budget: past
/// the budget the submission is abandoned with a queue-timeout error, and
/// with no budget it is never abandoned.
pub fn queue_wait_outcome(elapsed_ms: u64, budget_ms: Option<u64>) -> (r: Result<(), ExecError>)
    ensures
        r is Err <==> (budget_ms matches Some(b) && elapsed_ms > b),
        budget_ms matches Some(b) ==> (elapsed_ms > b ==> r == Err::<(), ExecError>(
            ExecError::QueueTimeout { budget_ms: b, elapsed_ms },
        )),
{
    match budget_ms {
        Some(b) => {
            if elapsed_ms > b {
                Err(ExecError::QueueTimeout { budget_ms: b, elapsed_ms })
            } else {
                Ok(())
            }
        },
        None => Ok(()),
    }
}

} // verus!
