//! Configuration-level failures of the execution core.

use vstd::prelude::*;
use crate::config::ExecutorConfig;
use crate::strategy::ExecutionStrategy;
use crate::strategy::ExecutorPreference;

verus! {

/// A factory-level failure: the action's declared executor configuration and
/// the invocation's execution strategy leave no permitted way to run the
/// command, or the configuration cannot be completed. The failing strategy
/// and configuration are carried for diagnosis.
#[derive(Clone, Debug)]
pub enum ExecutionConfigError {
    /// The environment offers no remote access, so only the local executor is
    /// available, but the strategy bans local execution.
    StrategyIncompatibleWithLocal { strategy: ExecutionStrategy },
    /// The strategy bans every candidate the declared executor configuration
    /// offers.
    StrategyIncompatibleWithConfig { strategy: ExecutionStrategy, config: ExecutorConfig },
    /// Two executor preferences insist on opposite sides.
    PreferenceConflict { left: ExecutorPreference, right: ExecutorPreference },
    /// The host operating system has no default remote platform description.
    UnimplementedPlatform,
}

/// An invalid command-line concurrency setting.
#[derive(Clone, Copy, Debug, PartialEq, Eq, Structural)]
pub enum ConcurrencyError {
    /// The requested value does not fit the host's word size.
    Invalid,
}

} // verus!
