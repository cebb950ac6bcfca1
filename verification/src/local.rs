//! The local executor's decision logic: how a command is routed and what a
//! spawn outcome means. Spawning itself is outside work; callers acquire the
//! planned broker permit, run the route, and classify what came back.

use vstd::prelude::*;
use crate::command::ActionCommand;
use crate::command::CommandResult;
use crate::command::ExecError;
use crate::config::LocalExecutorOptions;

verus! {

/// How one local command is run.
#[derive(Clone, Copy, Debug, PartialEq, Eq, Structural)]
pub enum LocalRoute {
    /// Spawn a fresh subprocess.
    FreshSubprocess,
    /// Send the command to the persistent worker with this key, reusing its
    /// warm state.
    PersistentWorker { key: u64 },
}

/// The plan for running one command locally: the broker permit to acquire
/// before spawning, and the route to run it by.
#[derive(Clone, Copy, Debug, PartialEq, Eq, Structural)]
pub struct LocalExecutionPlan {
    /// Weight of the host-sharing permit to hold while the command runs.
    pub permit_weight: u64,
    pub route: LocalRoute,
}

/// The route a command gets: its persistent worker exactly when the
/// executor options opt into workers, a pool is configured, and the command
/// declares a worker key — a fresh subprocess otherwise.
pub open spec fn spec_local_route(
    options: LocalExecutorOptions,
    pool_configured: bool,
    command: ActionCommand,
) -> LocalRoute {
    if options.use_persistent_workers && pool_configured && command.worker_key is Some {
        LocalRoute::PersistentWorker { key: command.worker_key->0 }
    } else {
        LocalRoute::FreshSubprocess
    }
}

/// Plan the local execution of one command: a permit sized to the command's
/// declared host-sharing weight, and the worker-or-subprocess route.
pub fn plan_local_execution(
    options: &LocalExecutorOptions,
    pool_configured: bool,
    command: &ActionCommand,
) -> (r: LocalExecutionPlan)
    ensures
        r.permit_weight == command.host_sharing_weight,
        r.route == spec_local_route(*options, pool_configured, *command),
{
    let route = if options.use_persistent_workers && pool_configured {
        match command.worker_key {
            Some(key) => LocalRoute::PersistentWorker { key },
            None => LocalRoute::FreshSubprocess,
        }
    } else {
        LocalRoute::FreshSubprocess
    };
    LocalExecutionPlan { permit_weight: command.host_sharing_weight, route }
}

/// Classify what became of a local spawn. `None` means the subprocess could
/// not be spawned at all: a fatal infrastructure error for the action. A
/// spawned command that terminated — with whatever exit code — is a normal
/// command result; a non-zero exit is a failed result, not an error.
pub fn classify_local_outcome(spawned: Option<CommandResult>) -> (r: Result<
    CommandResult,
    ExecError,
>)
    ensures
        spawned matches Some(res) ==> r == Ok::<CommandResult, ExecError>(res),
        spawned is None ==> r == Err::<CommandResult, ExecError>(ExecError::SpawnFailed),
{
    match spawned {
        Some(res) => Ok(res),
        None => Err(ExecError::SpawnFailed),
    }
}

} // verus!
