use std::collections::HashSet;

use exec_strategy::command::ActionCommand;
use exec_strategy::command::CommandResult;
use exec_strategy::command::ExecError;
use exec_strategy::concurrency::parse_concurrency;
use exec_strategy::config::get_default_executor_config;
use exec_strategy::config::get_default_path_separator;
use exec_strategy::config::get_default_re_properties;
use exec_strategy::config::ExecutorConfig;
use exec_strategy::config::HostOs;
use exec_strategy::config::HostPlatformOverride;
use exec_strategy::config::LocalExecutorOptions;
use exec_strategy::config::PathSeparatorKind;
use exec_strategy::config::RemoteEnabledExecutor;
use exec_strategy::config::RemoteExecutorOptions;
use exec_strategy::errors::ExecutionConfigError;
use exec_strategy::help;
use exec_strategy::lint::AstModuleLint;
use exec_strategy::lint::EvalSeverity;
use exec_strategy::lint::Lint;
use exec_strategy::local::classify_local_outcome;
use exec_strategy::local::plan_local_execution;
use exec_strategy::local::LocalRoute;
use exec_strategy::low_pass_filter::LowPassFilter;
use exec_strategy::remote::prepare_remote_submission;
use exec_strategy::remote::queue_wait_outcome;
use exec_strategy::remote::RemoteExecutorDescriptor;
use exec_strategy::remote::RE_INPUT_FILES_BYTES_CEILING;
use exec_strategy::worker::WorkerPool;

#[test]
fn zero_concurrency_means_detected_parallelism() {
    let n = parse_concurrency(0).unwrap();
    assert!(n >= 1);
}

#[test]
fn positive_concurrency_is_taken_as_is() {
    assert_eq!(parse_concurrency(1).unwrap(), 1);
    assert_eq!(parse_concurrency(64).unwrap(), 64);
}

#[test]
fn help_text() {
    assert_eq!(
        help(),
        "A build system\n\nDocumentation: https://buck2.build/docs/\n"
    );
}

#[test]
fn default_re_properties_by_platform() {
    let linux = get_default_re_properties(HostPlatformOverride::Linux, HostOs::Other).unwrap();
    assert_eq!(
        linux,
        vec![("platform".to_owned(), "linux-remote-execution".to_owned())]
    );
    let mac = get_default_re_properties(HostPlatformOverride::MacOs, HostOs::Other).unwrap();
    assert_eq!(
        mac,
        vec![
            ("platform".to_owned(), "mac".to_owned()),
            ("subplatform".to_owned(), "any".to_owned()),
        ]
    );
    let windows =
        get_default_re_properties(HostPlatformOverride::DefaultPlatform, HostOs::Windows).unwrap();
    assert_eq!(windows, vec![("platform".to_owned(), "windows".to_owned())]);
    let unsupported =
        get_default_re_properties(HostPlatformOverride::DefaultPlatform, HostOs::Other);
    assert!(matches!(
        unsupported,
        Err(ExecutionConfigError::UnimplementedPlatform)
    ));
}

#[test]
fn default_path_separator() {
    assert_eq!(
        get_default_path_separator(HostPlatformOverride::Linux, HostOs::Windows),
        PathSeparatorKind::Unix
    );
    assert_eq!(
        get_default_path_separator(HostPlatformOverride::Windows, HostOs::Linux),
        PathSeparatorKind::Windows
    );
    assert_eq!(
        get_default_path_separator(HostPlatformOverride::DefaultPlatform, HostOs::MacOs),
        PathSeparatorKind::Unix
    );
}

#[test]
fn default_executor_config_open_source_is_local() {
    let config =
        get_default_executor_config(HostPlatformOverride::Linux, HostOs::Linux, true).unwrap();
    assert!(matches!(config.executor, ExecutorConfig::Local(_)));
}

#[test]
fn default_executor_config_internal_is_limited_hybrid() {
    let config =
        get_default_executor_config(HostPlatformOverride::Linux, HostOs::Linux, false).unwrap();
    match config.executor {
        ExecutorConfig::RemoteEnabled {
            executor,
            re_use_case,
            remote_cache_enabled,
            remote_dep_file_cache_enabled,
            ..
        } => {
            assert!(matches!(
                executor,
                RemoteEnabledExecutor::Hybrid {
                    level: exec_strategy::config::HybridExecutionLevel::Limited,
                    ..
                }
            ));
            assert_eq!(re_use_case, "buck2-default");
            assert!(remote_cache_enabled);
            assert!(!remote_dep_file_cache_enabled);
        }
        other => panic!("expected a remote-enabled config, got {:?}", other),
    }
}

#[test]
fn local_plan_routes_to_worker_only_when_all_three_agree() {
    let command = ActionCommand {
        host_sharing_weight: 3,
        worker_key: Some(7),
        input_files_bytes: 0,
    };
    let worker_opts = LocalExecutorOptions {
        use_persistent_workers: true,
    };
    let plain_opts = LocalExecutorOptions {
        use_persistent_workers: false,
    };
    let plan = plan_local_execution(&worker_opts, true, &command);
    assert_eq!(plan.permit_weight, 3);
    assert_eq!(plan.route, LocalRoute::PersistentWorker { key: 7 });
    assert_eq!(
        plan_local_execution(&worker_opts, false, &command).route,
        LocalRoute::FreshSubprocess
    );
    assert_eq!(
        plan_local_execution(&plain_opts, true, &command).route,
        LocalRoute::FreshSubprocess
    );
    let keyless = ActionCommand {
        worker_key: None,
        ..command
    };
    assert_eq!(
        plan_local_execution(&worker_opts, true, &keyless).route,
        LocalRoute::FreshSubprocess
    );
}

#[test]
fn spawn_failure_is_an_infrastructure_error() {
    assert_eq!(
        classify_local_outcome(None),
        Err(ExecError::SpawnFailed)
    );
    let failed_command = CommandResult {
        exit_code: 2,
        output_bytes: 0,
    };
    // A non-zero exit is a normal failed result, not an error.
    assert_eq!(classify_local_outcome(Some(failed_command)), Ok(failed_command));
}

fn descriptor() -> RemoteExecutorDescriptor {
    RemoteExecutorDescriptor {
        options: RemoteExecutorOptions {
            re_max_queue_time_ms: Some(400),
            re_max_input_files_bytes: None,
        },
        re_use_case: "uc".to_owned(),
        re_action_key: Some("ak".to_owned()),
        skip_cache_read: false,
        skip_cache_write: false,
        paranoid: true,
        materialize_failed_inputs: false,
    }
}

#[test]
fn remote_submission_carries_tags_budget_and_paranoia() {
    let command = ActionCommand {
        host_sharing_weight: 1,
        worker_key: None,
        input_files_bytes: 1024,
    };
    let submission = prepare_remote_submission(&descriptor(), &command).unwrap();
    assert_eq!(submission.re_use_case, "uc");
    assert_eq!(submission.re_action_key, Some("ak".to_owned()));
    assert_eq!(submission.queue_budget_ms, Some(400));
    assert!(submission.paranoid_outputs);
}

#[test]
fn inputs_above_the_ceiling_are_rejected() {
    let command = ActionCommand {
        host_sharing_weight: 1,
        worker_key: None,
        input_files_bytes: RE_INPUT_FILES_BYTES_CEILING + 1,
    };
    assert_eq!(
        prepare_remote_submission(&descriptor(), &command),
        Err(ExecError::InputsTooLarge {
            input_files_bytes: RE_INPUT_FILES_BYTES_CEILING + 1,
            limit_bytes: RE_INPUT_FILES_BYTES_CEILING,
        })
    );
}

#[test]
fn queue_budget_is_enforced() {
    assert_eq!(queue_wait_outcome(500, None), Ok(()));
    assert_eq!(queue_wait_outcome(400, Some(400)), Ok(()));
    assert_eq!(
        queue_wait_outcome(401, Some(400)),
        Err(ExecError::QueueTimeout {
            budget_ms: 400,
            elapsed_ms: 401,
        })
    );
}

#[test]
fn low_pass_filter_prefers_local_on_failure_majority() {
    let mut filter = LowPassFilter::new(3);
    assert!(!filter.should_prefer_local());
    filter.observe(false);
    assert!(filter.should_prefer_local());
    filter.observe(true);
    assert!(!filter.should_prefer_local());
    filter.observe(false);
    assert!(filter.should_prefer_local());
    // The window is full now; successes evict the old failures.
    filter.observe(true);
    filter.observe(true);
    assert!(!filter.should_prefer_local());
}

#[test]
fn worker_pool_launches_each_key_once() {
    let mut pool = WorkerPool::new();
    assert!(!pool.has_worker(5));
    assert!(pool.get_or_launch(5));
    assert!(pool.has_worker(5));
    assert!(!pool.get_or_launch(5));
    assert!(pool.get_or_launch(6));
    assert!(pool.has_worker(6));
}

struct StubModule {
    findings: Vec<(String, EvalSeverity)>,
}

impl AstModuleLint for StubModule {
    fn lint(&self, globals: Option<&HashSet<String>>) -> Vec<Lint> {
        let mut lints: Vec<Lint> = self
            .findings
            .iter()
            .map(|(name, severity)| Lint {
                short_name: name.clone(),
                severity: *severity,
                problem: format!("{} detected", name),
            })
            .collect();
        if let Some(globals) = globals {
            if globals.is_empty() {
                lints.push(Lint {
                    short_name: "no-globals".to_owned(),
                    severity: EvalSeverity::Warning,
                    problem: "no global variables are known".to_owned(),
                });
            }
        }
        lints
    }
}

#[test]
fn lint_trait_surfaces_findings() {
    let module = StubModule {
        findings: vec![("unused-load".to_owned(), EvalSeverity::Warning)],
    };
    let lints = module.lint(None);
    assert_eq!(lints.len(), 1);
    assert_eq!(lints[0].short_name, "unused-load");
    assert_eq!(lints[0].severity, EvalSeverity::Warning);
    let lints = module.lint(Some(&HashSet::new()));
    assert_eq!(lints.len(), 2);
    assert_eq!(lints[1].short_name, "no-globals");
}
