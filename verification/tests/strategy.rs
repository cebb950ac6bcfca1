use exec_strategy::strategy::ExecutionStrategy;
use exec_strategy::strategy::ExecutorPreference;

#[test]
fn no_execution_bans_everything() {
    let s = ExecutionStrategy::NoExecution;
    assert!(s.ban_local());
    assert!(s.ban_remote());
    assert!(s.ban_hybrid());
}

#[test]
fn local_only_bans_exactly_remote() {
    let s = ExecutionStrategy::LocalOnly;
    assert!(!s.ban_local());
    assert!(s.ban_remote());
    assert!(!s.ban_hybrid());
}

#[test]
fn remote_only_bans_exactly_local() {
    let s = ExecutionStrategy::RemoteOnly;
    assert!(s.ban_local());
    assert!(!s.ban_remote());
    assert!(!s.ban_hybrid());
}

#[test]
fn default_and_hybrid_strategies_ban_nothing() {
    for s in [
        ExecutionStrategy::Default,
        ExecutionStrategy::HybridPreferLocal,
        ExecutionStrategy::HybridPreferRemote,
    ] {
        assert!(!s.ban_local());
        assert!(!s.ban_remote());
        assert!(!s.ban_hybrid());
    }
}

#[test]
fn hybrid_preference_follows_strategy() {
    assert_eq!(
        ExecutionStrategy::HybridPreferLocal.hybrid_preference(),
        ExecutorPreference::LocalPreferred
    );
    assert_eq!(
        ExecutionStrategy::HybridPreferRemote.hybrid_preference(),
        ExecutorPreference::RemotePreferred
    );
    assert_eq!(
        ExecutionStrategy::LocalOnly.hybrid_preference(),
        ExecutorPreference::LocalRequired
    );
    assert_eq!(
        ExecutionStrategy::RemoteOnly.hybrid_preference(),
        ExecutorPreference::RemoteRequired
    );
    assert_eq!(
        ExecutionStrategy::Default.hybrid_preference(),
        ExecutorPreference::Default
    );
    assert_eq!(
        ExecutionStrategy::NoExecution.hybrid_preference(),
        ExecutorPreference::Default
    );
}

#[test]
fn preference_and_conflicts_on_opposite_requirements() {
    assert_eq!(
        ExecutorPreference::LocalRequired.and(ExecutorPreference::RemoteRequired),
        None
    );
    assert_eq!(
        ExecutorPreference::RemoteRequired.and(ExecutorPreference::LocalRequired),
        None
    );
}

#[test]
fn preference_and_erases_mere_preferences() {
    assert_eq!(
        ExecutorPreference::LocalPreferred.and(ExecutorPreference::DefaultErasePreferences),
        Some(ExecutorPreference::DefaultErasePreferences)
    );
    assert_eq!(
        ExecutorPreference::RemotePreferred.and(ExecutorPreference::DefaultErasePreferences),
        Some(ExecutorPreference::DefaultErasePreferences)
    );
    assert_eq!(
        ExecutorPreference::LocalRequired.and(ExecutorPreference::DefaultErasePreferences),
        Some(ExecutorPreference::LocalRequired)
    );
    assert_eq!(
        ExecutorPreference::Default.and(ExecutorPreference::LocalPreferred),
        Some(ExecutorPreference::LocalPreferred)
    );
}
