use exec_strategy::command::CommandResult;
use exec_strategy::command::ExecError;
use exec_strategy::config::HybridExecutionLevel;
use exec_strategy::hybrid::hybrid_start;
use exec_strategy::hybrid::hybrid_step;
use exec_strategy::hybrid::HybridPhase;
use exec_strategy::hybrid::Side;
use exec_strategy::strategy::ExecutorPreference;

const FULL_FALLBACK: HybridExecutionLevel = HybridExecutionLevel::Full {
    fallback_on_failure: true,
    low_pass_filter: false,
};

fn ok(code: i32) -> Result<CommandResult, ExecError> {
    Ok(CommandResult {
        exit_code: code,
        output_bytes: 0,
    })
}

#[test]
fn fallback_on_failure_attempts_secondary_and_returns_its_result() {
    let start = hybrid_start(ExecutorPreference::RemotePreferred, FULL_FALLBACK, 1000, 10, false);
    assert_eq!(
        start,
        HybridPhase::Attempt {
            side: Side::Remote,
            fallback: Some(Side::Local)
        }
    );
    let after_failure = hybrid_step(start, ok(1));
    assert_eq!(
        after_failure,
        HybridPhase::Attempt {
            side: Side::Local,
            fallback: None
        }
    );
    // The secondary's result — success or failure — is terminal.
    let done_ok = hybrid_step(after_failure, ok(0));
    assert_eq!(
        done_ok,
        HybridPhase::Done {
            side: Side::Local,
            outcome: ok(0)
        }
    );
    let done_failed = hybrid_step(after_failure, ok(3));
    assert_eq!(
        done_failed,
        HybridPhase::Done {
            side: Side::Local,
            outcome: ok(3)
        }
    );
}

#[test]
fn no_fallback_returns_primary_failure_unmodified() {
    let level = HybridExecutionLevel::Full {
        fallback_on_failure: false,
        low_pass_filter: false,
    };
    let start = hybrid_start(ExecutorPreference::RemotePreferred, level, 1000, 10, false);
    assert_eq!(
        start,
        HybridPhase::Attempt {
            side: Side::Remote,
            fallback: None
        }
    );
    let done = hybrid_step(start, ok(7));
    assert_eq!(
        done,
        HybridPhase::Done {
            side: Side::Remote,
            outcome: ok(7)
        }
    );
}

#[test]
fn limited_level_never_falls_back() {
    let start = hybrid_start(
        ExecutorPreference::LocalPreferred,
        HybridExecutionLevel::Limited,
        1000,
        10,
        false,
    );
    assert_eq!(
        start,
        HybridPhase::Attempt {
            side: Side::Local,
            fallback: None
        }
    );
    let done = hybrid_step(start, Err(ExecError::SpawnFailed));
    assert_eq!(
        done,
        HybridPhase::Done {
            side: Side::Local,
            outcome: Err(ExecError::SpawnFailed)
        }
    );
}

#[test]
fn required_preference_never_falls_back() {
    let start = hybrid_start(ExecutorPreference::RemoteRequired, FULL_FALLBACK, 1000, 10, false);
    assert_eq!(
        start,
        HybridPhase::Attempt {
            side: Side::Remote,
            fallback: None
        }
    );
    let done = hybrid_step(start, ok(1));
    assert_eq!(
        done,
        HybridPhase::Done {
            side: Side::Remote,
            outcome: ok(1)
        }
    );
}

#[test]
fn oversized_inputs_degrade_to_local_only() {
    // Inputs above the hybrid bound: the remote side is never attempted,
    // even under a remote-favoring preference.
    let start = hybrid_start(ExecutorPreference::RemotePreferred, FULL_FALLBACK, 1000, 1001, false);
    assert_eq!(
        start,
        HybridPhase::Attempt {
            side: Side::Local,
            fallback: None
        }
    );
    let done = hybrid_step(start, ok(1));
    assert_eq!(
        done,
        HybridPhase::Done {
            side: Side::Local,
            outcome: ok(1)
        }
    );
}

#[test]
fn success_is_terminal() {
    let start = hybrid_start(ExecutorPreference::LocalPreferred, FULL_FALLBACK, 1000, 10, false);
    let done = hybrid_step(start, ok(0));
    assert_eq!(
        done,
        HybridPhase::Done {
            side: Side::Local,
            outcome: ok(0)
        }
    );
    // A finished phase does not change.
    assert_eq!(hybrid_step(done.clone(), ok(1)), done);
}

#[test]
fn default_ordering_consults_low_pass_filter() {
    let with_filter = HybridExecutionLevel::Full {
        fallback_on_failure: true,
        low_pass_filter: true,
    };
    // Filter prefers local: local first.
    let start = hybrid_start(ExecutorPreference::Default, with_filter, 1000, 10, true);
    assert_eq!(
        start,
        HybridPhase::Attempt {
            side: Side::Local,
            fallback: Some(Side::Remote)
        }
    );
    // Filter content: remote first.
    let start = hybrid_start(ExecutorPreference::Default, with_filter, 1000, 10, false);
    assert_eq!(
        start,
        HybridPhase::Attempt {
            side: Side::Remote,
            fallback: Some(Side::Local)
        }
    );
    // Filter not consulted: the signal is ignored and the default starts remote.
    let start = hybrid_start(ExecutorPreference::Default, FULL_FALLBACK, 1000, 10, true);
    assert_eq!(
        start,
        HybridPhase::Attempt {
            side: Side::Remote,
            fallback: Some(Side::Local)
        }
    );
}
