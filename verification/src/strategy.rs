//! The invocation-wide execution strategy and the executor preference it
//! induces on hybrid execution.

use vstd::prelude::*;

verus! {

/// Invocation-wide override of how actions may execute. It bans whole
/// executor families rather than picking one: the per-action executor
/// configuration still decides among the permitted candidates.
#[derive(Clone, Copy, Debug, PartialEq, Eq, Structural)]
pub enum ExecutionStrategy {
    Default,
    LocalOnly,
    RemoteOnly,
    HybridPreferLocal,
    HybridPreferRemote,
    NoExecution,
}

/// Ordering policy for hybrid execution: which side runs first, whether one
/// side is mandatory, and whether declared preferences are erased.
#[derive(Clone, Copy, Debug, PartialEq, Eq, Structural)]
pub enum ExecutorPreference {
    Default,
    LocalPreferred,
    RemotePreferred,
    LocalRequired,
    RemoteRequired,
    DefaultErasePreferences,
}

impl ExecutionStrategy {
    /// The strategy forbids running commands locally.
    pub open spec fn spec_ban_local(self) -> bool {
        self is RemoteOnly || self is NoExecution
    }

    /// The strategy forbids running commands remotely.
    pub open spec fn spec_ban_remote(self) -> bool {
        self is LocalOnly || self is NoExecution
    }

    /// The strategy forbids the hybrid executor.
    pub open spec fn spec_ban_hybrid(self) -> bool {
        self is NoExecution
    }

    /// The preference a hybrid executor derives from this strategy.
    pub open spec fn spec_hybrid_preference(self) -> ExecutorPreference {
        match self {
            ExecutionStrategy::HybridPreferLocal => ExecutorPreference::LocalPreferred,
            ExecutionStrategy::HybridPreferRemote => ExecutorPreference::RemotePreferred,
            ExecutionStrategy::LocalOnly => ExecutorPreference::LocalRequired,
            ExecutionStrategy::RemoteOnly => ExecutorPreference::RemoteRequired,
            _ => ExecutorPreference::Default,
        }
    }

    pub fn ban_local(&self) -> (r: bool)
        ensures
            r == self.spec_ban_local(),
    {
        match self {
            ExecutionStrategy::RemoteOnly | ExecutionStrategy::NoExecution => true,
            _ => false,
        }
    }

    pub fn ban_remote(&self) -> (r: bool)
        ensures
            r == self.spec_ban_remote(),
    {
        match self {
            ExecutionStrategy::LocalOnly | ExecutionStrategy::NoExecution => true,
            _ => false,
        }
    }

    pub fn ban_hybrid(&self) -> (r: bool)
        ensures
            r == self.spec_ban_hybrid(),
    {
        match self {
            ExecutionStrategy::NoExecution => true,
            _ => false,
        }
    }

    pub fn hybrid_preference(&self) -> (r: ExecutorPreference)
        ensures
            r == self.spec_hybrid_preference(),
    {
        match self {
            ExecutionStrategy::HybridPreferLocal => ExecutorPreference::LocalPreferred,
            ExecutionStrategy::HybridPreferRemote => ExecutorPreference::RemotePreferred,
            ExecutionStrategy::LocalOnly => ExecutorPreference::LocalRequired,
            ExecutionStrategy::RemoteOnly => ExecutorPreference::RemoteRequired,
            _ => ExecutorPreference::Default,
        }
    }
}

/// `NoExecution` bans every executor family; every other strategy leaves the
/// hybrid executor available, and `LocalOnly`/`RemoteOnly` each ban exactly
/// the opposite single executor.
pub proof fn lemma_strategy_bans(s: ExecutionStrategy)
    ensures
        s is NoExecution ==> s.spec_ban_local() && s.spec_ban_remote() && s.spec_ban_hybrid(),
        s is LocalOnly ==> !s.spec_ban_local() && s.spec_ban_remote() && !s.spec_ban_hybrid(),
        s is RemoteOnly ==> s.spec_ban_local() && !s.spec_ban_remote() && !s.spec_ban_hybrid(),
        !(s is NoExecution) ==> !s.spec_ban_hybrid(),
        !(s is NoExecution) && !(s is LocalOnly) ==> !s.spec_ban_remote(),
        !(s is NoExecution) && !(s is RemoteOnly) ==> !s.spec_ban_local(),
{
}

impl ExecutorPreference {
    /// The preference insists on local execution.
    pub open spec fn spec_requires_local(self) -> bool {
        self is LocalRequired
    }

    /// The preference insists on remote execution.
    pub open spec fn spec_requires_remote(self) -> bool {
        self is RemoteRequired
    }

    /// Combination of two preferences: a requirement on either side wins,
    /// two opposite requirements conflict, and erasure of preferences
    /// (`DefaultErasePreferences`) absorbs the mere `LocalPreferred` /
    /// `RemotePreferred` orderings. `None` is the conflict case.
    pub open spec fn spec_and(self, other: Self) -> Option<Self> {
        if self.spec_requires_local() && other.spec_requires_remote() {
            None
        } else if self.spec_requires_remote() && other.spec_requires_local() {
            None
        } else if self.spec_requires_local() || other.spec_requires_local() {
            Some(ExecutorPreference::LocalRequired)
        } else if self.spec_requires_remote() || other.spec_requires_remote() {
            Some(ExecutorPreference::RemoteRequired)
        } else if self is DefaultErasePreferences || other is DefaultErasePreferences {
            Some(ExecutorPreference::DefaultErasePreferences)
        } else if self is LocalPreferred || self is RemotePreferred {
            Some(self)
        } else {
            Some(other)
        }
    }

    /// Combine this preference with another; `None` when one side requires
    /// local execution and the other requires remote execution.
    pub fn and(self, other: Self) -> (r: Option<Self>)
        ensures
            r == self.spec_and(other),
    {
        if self == ExecutorPreference::LocalRequired && other == ExecutorPreference::RemoteRequired {
            None
        } else if self == ExecutorPreference::RemoteRequired && other == ExecutorPreference::LocalRequired {
            None
        } else if self == ExecutorPreference::LocalRequired || other == ExecutorPreference::LocalRequired {
            Some(ExecutorPreference::LocalRequired)
        } else if self == ExecutorPreference::RemoteRequired || other == ExecutorPreference::RemoteRequired {
            Some(ExecutorPreference::RemoteRequired)
        } else if self == ExecutorPreference::DefaultErasePreferences
            || other == ExecutorPreference::DefaultErasePreferences {
            Some(ExecutorPreference::DefaultErasePreferences)
        } else if self == ExecutorPreference::LocalPreferred || self == ExecutorPreference::RemotePreferred {
            Some(self)
        } else {
            Some(other)
        }
    }
}

} // verus!
