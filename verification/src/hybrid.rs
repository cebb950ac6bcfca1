//! The hybrid executor's per-action state machine: choose an ordering of the
//! local and remote sides, attempt the primary, and fall back to the
//! secondary only where the level and preference allow it.
//!
//! Running a side is outside work; the caller attempts the side named by the
//! current phase and feeds the outcome back into `hybrid_step`.

use vstd::prelude::*;
use crate::command::CommandResult;
use crate::command::ExecError;
use crate::command::spec_attempt_succeeded;
use crate::config::HybridExecutionLevel;
use crate::config::LocalExecutorOptions;
use crate::cache::CacheChecker;
use crate::remote::RemoteExecutorDescriptor;
use crate::strategy::ExecutorPreference;

verus! {

/// One side of hybrid execution.
#[derive(Clone, Copy, Debug, PartialEq, Eq, Structural)]
pub enum Side {
    Local,
    Remote,
}

impl Side {
    /// The opposite side.
    pub open spec fn spec_other(self) -> Side {
        match self {
            Side::Local => Side::Remote,
            Side::Remote => Side::Local,
        }
    }

    pub fn other(self) -> (r: Side)
        ensures
            r == self.spec_other(),
    {
        match self {
            Side::Local => Side::Remote,
            Side::Remote => Side::Local,
        }
    }
}

/// Where one action's hybrid execution stands: a side is to be attempted
/// (with at most one side left to fall back to), or execution is over and
/// the recorded outcome of the recorded side is the action's result.
#[derive(Clone, Copy, Debug, PartialEq, Eq)]
pub enum HybridPhase {
    Attempt { side: Side, fallback: Option<Side> },
    Done { side: Side, outcome: Result<CommandResult, ExecError> },
}

/// The remote side of a prepared hybrid executor: either the remote
/// executor alone, or — under paranoid output validation — a stacked pair
/// that consults a cache-check chain first and runs the remote executor
/// only on a miss.
#[derive(Clone, Debug, PartialEq, Eq)]
pub enum RemoteSide {
    Plain(RemoteExecutorDescriptor),
    Stacked { cache_checker: CacheChecker, fallback: RemoteExecutorDescriptor },
}

/// A prepared hybrid executor: both sides, the fallback level, the ordering
/// preference, and the input-size bound above which the remote side is never
/// attempted.
#[derive(Clone, Debug, PartialEq, Eq)]
pub struct HybridExecutor {
    pub local: LocalExecutorOptions,
    pub remote: RemoteSide,
    pub level: HybridExecutionLevel,
    pub executor_preference: ExecutorPreference,
    pub re_max_input_files_bytes: u64,
}

/// The level allows falling back to the other side after a failed attempt.
pub open spec fn spec_fallback_enabled(level: HybridExecutionLevel) -> bool {
    level matches HybridExecutionLevel::Full { fallback_on_failure: true, .. }
}

/// The level consults the remote-health low-pass filter for ordering.
pub open spec fn spec_uses_low_pass_filter(level: HybridExecutionLevel) -> bool {
    level matches HybridExecutionLevel::Full { low_pass_filter: true, .. }
}

/// The opening phase of one action's hybrid execution. An action whose
/// inputs exceed `re_max_input_files_bytes` is degraded to local-only:
/// the remote side is never attempted, whatever the preference says.
/// Otherwise a required side is attempted alone; a preferred side is
/// attempted first with the other side as fallback where the level allows
/// it; and a default ordering starts remotely unless the level consults the
/// low-pass filter and the filter currently prefers local execution.
pub open spec fn spec_hybrid_start(
    preference: ExecutorPreference,
    level: HybridExecutionLevel,
    re_max_input_files_bytes: u64,
    input_files_bytes: u64,
    prefer_local_signal: bool,
) -> HybridPhase {
    if input_files_bytes > re_max_input_files_bytes {
        HybridPhase::Attempt { side: Side::Local, fallback: None }
    } else {
        match preference {
            ExecutorPreference::LocalRequired => HybridPhase::Attempt {
                side: Side::Local,
                fallback: None,
            },
            ExecutorPreference::RemoteRequired => HybridPhase::Attempt {
                side: Side::Remote,
                fallback: None,
            },
            ExecutorPreference::LocalPreferred => HybridPhase::Attempt {
                side: Side::Local,
                fallback: if spec_fallback_enabled(level) {
                    Some(Side::Remote)
                } else {
                    None
                },
            },
            ExecutorPreference::RemotePreferred => HybridPhase::Attempt {
                side: Side::Remote,
                fallback: if spec_fallback_enabled(level) {
                    Some(Side::Local)
                } else {
                    None
                },
            },
            _ => {
                let first = if spec_uses_low_pass_filter(level) && prefer_local_signal {
                    Side::Local
                } else {
                    Side::Remote
                };
                HybridPhase::Attempt {
                    side: first,
                    fallback: if spec_fallback_enabled(level) {
                        Some(first.spec_other())
                    } else {
                        None
                    },
                }
            },
        }
    }
}

/// Begin hybrid execution of one action. `prefer_local_signal` is the
/// low-pass filter's current reading; it matters only when the level
/// consults the filter.
pub fn hybrid_start(
    preference: ExecutorPreference,
    level: HybridExecutionLevel,
    re_max_input_files_bytes: u64,
    input_files_bytes: u64,
    prefer_local_signal: bool,
) -> (r: HybridPhase)
    ensures
        r == spec_hybrid_start(
            preference,
            level,
            re_max_input_files_bytes,
            input_files_bytes,
            prefer_local_signal,
        ),
        r is Attempt,
{
    let fallback_enabled = match level {
        HybridExecutionLevel::Full { fallback_on_failure, .. } => fallback_on_failure,
        HybridExecutionLevel::Limited => false,
    };
    let uses_filter = match level {
        HybridExecutionLevel::Full { low_pass_filter, .. } => low_pass_filter,
        HybridExecutionLevel::Limited => false,
    };
    if input_files_bytes > re_max_input_files_bytes {
        HybridPhase::Attempt { side: Side::Local, fallback: None }
    } else {
        match preference {
            ExecutorPreference::LocalRequired => HybridPhase::Attempt {
                side: Side::Local,
                fallback: None,
            },
            ExecutorPreference::RemoteRequired => HybridPhase::Attempt {
                side: Side::Remote,
                fallback: None,
            },
            ExecutorPreference::LocalPreferred => HybridPhase::Attempt {
                side: Side::Local,
                fallback: if fallback_enabled {
                    Some(Side::Remote)
                } else {
                    None
                },
            },
            ExecutorPreference::RemotePreferred => HybridPhase::Attempt {
                side: Side::Remote,
                fallback: if fallback_enabled {
                    Some(Side::Local)
                } else {
                    None
                },
            },
            _ => {
                let first = if uses_filter && prefer_local_signal {
                    Side::Local
                } else {
                    Side::Remote
                };
                HybridPhase::Attempt {
                    side: first,
                    fallback: if fallback_enabled {
                        Some(first.other())
                    } else {
                        None
                    },
                }
            },
        }
    }
}

/// The next phase after the side named by an `Attempt` phase finished with
/// `outcome`: success is terminal; a failure falls back to the recorded
/// secondary if there is one, and is terminal otherwise. A `Done` phase is
/// already terminal and does not change.
pub open spec fn spec_hybrid_step(
    phase: HybridPhase,
    outcome: Result<CommandResult, ExecError>,
) -> HybridPhase {
    match phase {
        HybridPhase::Attempt { side, fallback } => if spec_attempt_succeeded(outcome) {
            HybridPhase::Done { side, outcome }
        } else {
            match fallback {
                Some(second) => HybridPhase::Attempt { side: second, fallback: None },
                None => HybridPhase::Done { side, outcome },
            }
        },
        HybridPhase::Done { .. } => phase,
    }
}

/// Feed the outcome of the current attempt into the state machine.
pub fn hybrid_step(phase: HybridPhase, outcome: Result<CommandResult, ExecError>) -> (r:
    HybridPhase)
    ensures
        r == spec_hybrid_step(phase, outcome),
{
    match phase {
        HybridPhase::Attempt { side, fallback } => {
            if crate::command::attempt_succeeded(&outcome) {
                HybridPhase::Done { side, outcome }
            } else {
                match fallback {
                    Some(second) => HybridPhase::Attempt { side: second, fallback: None },
                    None => HybridPhase::Done { side, outcome },
                }
            }
        },
        HybridPhase::Done { .. } => phase,
    }
}


/// Fallback law: under `Full` with `fallback_on_failure` and a preference
/// that requires neither side, a failed primary attempt is followed by an
/// attempt of the other side, and whatever outcome that second attempt has
/// — success or failure — is the action's terminal result; under `Limited`
/// or with `fallback_on_failure` off, the primary's failure is itself the
/// terminal result, with no second attempt.
pub proof fn lemma_hybrid_fallback(
    preference: ExecutorPreference,
    level: HybridExecutionLevel,
    re_max_input_files_bytes: u64,
    input_files_bytes: u64,
    prefer_local_signal: bool,
    first_outcome: Result<CommandResult, ExecError>,
    second_outcome: Result<CommandResult, ExecError>,
)
    requires
        !preference.spec_requires_local(),
        !preference.spec_requires_remote(),
        input_files_bytes <= re_max_input_files_bytes,
        !spec_attempt_succeeded(first_outcome),
    ensures
        spec_fallback_enabled(level) ==> {
            let start = spec_hybrid_start(
                preference,
                level,
                re_max_input_files_bytes,
                input_files_bytes,
                prefer_local_signal,
            );
            let after_first = spec_hybrid_step(start, first_outcome);
            &&& after_first == (HybridPhase::Attempt {
                side: start->Attempt_side.spec_other(),
                fallback: None,
            })
            &&& spec_hybrid_step(after_first, second_outcome) == (HybridPhase::Done {
                side: start->Attempt_side.spec_other(),
                outcome: second_outcome,
            })
        },
        !spec_fallback_enabled(level) ==> spec_hybrid_step(
            spec_hybrid_start(
                preference,
                level,
                re_max_input_files_bytes,
                input_files_bytes,
                prefer_local_signal,
            ),
            first_outcome,
        ) == (HybridPhase::Done {
            side: spec_hybrid_start(
                preference,
                level,
                re_max_input_files_bytes,
                input_files_bytes,
                prefer_local_signal,
            )->Attempt_side,
            outcome: first_outcome,
        }),
{
}

/// Input-size ceiling law: an action whose inputs exceed the hybrid
/// executor's `re_max_input_files_bytes` starts local with no fallback, so
/// no phase it can ever reach attempts the remote side — whatever the
/// preference, the level, the filter signal, and the attempt outcomes.
pub proof fn lemma_oversized_inputs_never_remote(
    preference: ExecutorPreference,
    level: HybridExecutionLevel,
    re_max_input_files_bytes: u64,
    input_files_bytes: u64,
    prefer_local_signal: bool,
)
    requires
        input_files_bytes > re_max_input_files_bytes,
    ensures
        spec_hybrid_start(
            preference,
            level,
            re_max_input_files_bytes,
            input_files_bytes,
            prefer_local_signal,
        ) == (HybridPhase::Attempt { side: Side::Local, fallback: None }),
        forall|outcome: Result<CommandResult, ExecError>|
            #[trigger] spec_hybrid_step(
                spec_hybrid_start(
                    preference,
                    level,
                    re_max_input_files_bytes,
                    input_files_bytes,
                    prefer_local_signal,
                ),
                outcome,
            ) == (HybridPhase::Done { side: Side::Local, outcome }),
{
}

} // verus!
