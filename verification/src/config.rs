//! Per-action executor configuration, and the defaults used when execution
//! platforms are not configured.

use vstd::prelude::*;
use crate::errors::ExecutionConfigError;

verus! {

/// Options of the local executor.
#[derive(Clone, Copy, Debug, PartialEq, Eq, Structural)]
pub struct LocalExecutorOptions {
    /// Route commands that opted into persistent workers to the worker pool
    /// instead of spawning a fresh subprocess each time.
    pub use_persistent_workers: bool,
}

impl Default for LocalExecutorOptions {
    fn default() -> (r: Self)
        ensures
            r.use_persistent_workers == false,
    {
        LocalExecutorOptions { use_persistent_workers: false }
    }
}

/// Options of the remote executor.
#[derive(Clone, Copy, Debug, PartialEq, Eq, Structural)]
pub struct RemoteExecutorOptions {
    /// Budget in milliseconds a submission may spend queued at the remote
    /// service before it is abandoned; `None` means no budget.
    pub re_max_queue_time_ms: Option<u64>,
    /// Input-size bound in bytes above which the hybrid executor never
    /// routes the action remotely; `None` means the service-wide default.
    pub re_max_input_files_bytes: Option<u64>,
}

impl Default for RemoteExecutorOptions {
    fn default() -> (r: Self)
        ensures
            r.re_max_queue_time_ms is None,
            r.re_max_input_files_bytes is None,
    {
        RemoteExecutorOptions { re_max_queue_time_ms: None, re_max_input_files_bytes: None }
    }
}

/// How eagerly a hybrid executor falls back from one side to the other.
#[derive(Clone, Copy, Debug, PartialEq, Eq, Structural)]
pub enum HybridExecutionLevel {
    /// Race only under constrained conditions; a failed primary is final.
    Limited,
    /// Full hybrid execution: optionally retry the other side on failure and
    /// optionally consult the remote-health low-pass filter for ordering.
    Full { fallback_on_failure: bool, low_pass_filter: bool },
}

/// The executor variant of a remote-enabled configuration.
#[derive(Clone, Copy, Debug, PartialEq, Eq, Structural)]
pub enum RemoteEnabledExecutor {
    Local(LocalExecutorOptions),
    Remote(RemoteExecutorOptions),
    Hybrid {
        local: LocalExecutorOptions,
        remote: RemoteExecutorOptions,
        level: HybridExecutionLevel,
    },
}

/// Whether successful local results are published to the shared cache, and
/// up to what output size.
#[derive(Clone, Copy, Debug, PartialEq, Eq, Structural)]
pub enum CacheUploadBehavior {
    Disabled,
    Enabled { max_bytes: u64 },
}

/// The executor configuration an action declares: purely local execution, or
/// remote-enabled execution with its cache and platform settings.
#[derive(Clone, Debug)]
pub enum ExecutorConfig {
    Local(LocalExecutorOptions),
    RemoteEnabled {
        executor: RemoteEnabledExecutor,
        /// Key/value properties sent to the remote service to select a
        /// worker platform.
        re_properties: Vec<(String, String)>,
        /// Use-case tag sent with every remote submission.
        re_use_case: String,
        /// Optional key used for result grouping and telemetry.
        re_action_key: Option<String>,
        cache_upload_behavior: CacheUploadBehavior,
        remote_cache_enabled: bool,
        remote_dep_file_cache_enabled: bool,
    },
}

/// A CLI-level override of which host platform to describe to the remote
/// service; `DefaultPlatform` defers to the detected operating system.
#[derive(Clone, Copy, Debug, PartialEq, Eq, Structural)]
pub enum HostPlatformOverride {
    DefaultPlatform,
    Linux,
    MacOs,
    Windows,
}

/// The operating system of the build host, as detected outside the library.
#[derive(Clone, Copy, Debug, PartialEq, Eq, Structural)]
pub enum HostOs {
    Linux,
    MacOs,
    Windows,
    Other,
}

/// Path separator used when rendering command lines.
#[derive(Clone, Copy, Debug, PartialEq, Eq, Structural)]
pub enum PathSeparatorKind {
    Unix,
    Windows,
}

/// A complete default configuration: the executor union plus command
/// generation options.
#[derive(Clone, Debug)]
pub struct CommandExecutorConfig {
    pub executor: ExecutorConfig,
    pub path_separator: PathSeparatorKind,
}

/// The operating system a host-platform override resolves to.
pub open spec fn spec_resolved_os(host_platform: HostPlatformOverride, detected: HostOs) -> HostOs {
    match host_platform {
        HostPlatformOverride::Linux => HostOs::Linux,
        HostPlatformOverride::MacOs => HostOs::MacOs,
        HostPlatformOverride::Windows => HostOs::Windows,
        HostPlatformOverride::DefaultPlatform => detected,
    }
}

/// The default remote platform properties for a host operating system:
/// Linux, macOS and Windows each have a fixed key/value set, and an
/// unsupported system has none.
pub open spec fn spec_default_re_properties(props: Seq<(String, String)>, os: HostOs) -> bool {
    match os {
        HostOs::Linux => {
            &&& props.len() == 1
            &&& props[0].0@ == "platform"@
            &&& props[0].1@ == "linux-remote-execution"@
        },
        HostOs::MacOs => {
            &&& props.len() == 2
            &&& props[0].0@ == "platform"@
            &&& props[0].1@ == "mac"@
            &&& props[1].0@ == "subplatform"@
            &&& props[1].1@ == "any"@
        },
        HostOs::Windows => {
            &&& props.len() == 1
            &&& props[0].0@ == "platform"@
            &&& props[0].1@ == "windows"@
        },
        HostOs::Other => false,
    }
}

/// Default remote platform properties keyed by host operating system.
/// A host that resolves to an unsupported operating system has no default
/// remote platform and is rejected.
pub fn get_default_re_properties(host_platform: HostPlatformOverride, detected_os: HostOs) -> (r:
    Result<Vec<(String, String)>, ExecutionConfigError>)
    ensures
        r is Ok <==> !(spec_resolved_os(host_platform, detected_os) is Other),
        r is Err ==> r matches Err(ExecutionConfigError::UnimplementedPlatform),
        r matches Ok(v) ==> spec_default_re_properties(
            v@,
            spec_resolved_os(host_platform, detected_os),
        ),
{
    let resolved = match host_platform {
        HostPlatformOverride::Linux => HostOs::Linux,
        HostPlatformOverride::MacOs => HostOs::MacOs,
        HostPlatformOverride::Windows => HostOs::Windows,
        HostPlatformOverride::DefaultPlatform => detected_os,
    };
    let mut props: Vec<(String, String)> = Vec::new();
    match resolved {
        HostOs::Linux => {
            props.push(("platform".to_owned(), "linux-remote-execution".to_owned()));
        },
        HostOs::MacOs => {
            props.push(("platform".to_owned(), "mac".to_owned()));
            props.push(("subplatform".to_owned(), "any".to_owned()));
        },
        HostOs::Windows => {
            props.push(("platform".to_owned(), "windows".to_owned()));
        },
        HostOs::Other => {
            return Err(ExecutionConfigError::UnimplementedPlatform);
        },
    }
    Ok(props)
}

/// The path separator a host-platform override implies; `DefaultPlatform`
/// follows the detected operating system, defaulting to Unix separators.
pub fn get_default_path_separator(host_platform: HostPlatformOverride, detected_os: HostOs) -> (r:
    PathSeparatorKind)
    ensures
        r == (if spec_resolved_os(host_platform, detected_os) is Windows {
            PathSeparatorKind::Windows
        } else {
            PathSeparatorKind::Unix
        }),
{
    let resolved = match host_platform {
        HostPlatformOverride::Linux => HostOs::Linux,
        HostPlatformOverride::MacOs => HostOs::MacOs,
        HostPlatformOverride::Windows => HostOs::Windows,
        HostPlatformOverride::DefaultPlatform => detected_os,
    };
    match resolved {
        HostOs::Windows => PathSeparatorKind::Windows,
        _ => PathSeparatorKind::Unix,
    }
}

/// The executor configuration used when execution platforms are not
/// configured: purely local in an open-source build, otherwise a limited
/// hybrid with the host's default remote platform and caching of remote
/// results enabled.
pub fn get_default_executor_config(
    host_platform: HostPlatformOverride,
    detected_os: HostOs,
    open_source: bool,
) -> (r: Result<CommandExecutorConfig, ExecutionConfigError>)
    ensures
        r is Ok <==> (open_source || !(spec_resolved_os(host_platform, detected_os) is Other)),
        r is Err ==> r matches Err(ExecutionConfigError::UnimplementedPlatform),
        r matches Ok(c) ==> c.path_separator == (if spec_resolved_os(host_platform, detected_os) is Windows {
            PathSeparatorKind::Windows
        } else {
            PathSeparatorKind::Unix
        }),
        open_source ==> (r matches Ok(c) && c.executor matches ExecutorConfig::Local(l)
            && l.use_persistent_workers == false),
        !open_source ==> (r matches Ok(c) ==> {
            &&& c.executor matches ExecutorConfig::RemoteEnabled {
                executor,
                re_use_case,
                re_action_key,
                cache_upload_behavior,
                remote_cache_enabled,
                remote_dep_file_cache_enabled,
                ..
            }
            &&& executor matches RemoteEnabledExecutor::Hybrid { local, remote, level }
                && local.use_persistent_workers == false
                && remote.re_max_queue_time_ms is None
                && remote.re_max_input_files_bytes is None
                && level is Limited
            &&& spec_default_re_properties(
                c.executor->RemoteEnabled_re_properties@,
                spec_resolved_os(host_platform, detected_os),
            )
            &&& re_use_case@ == "buck2-default"@
            &&& re_action_key is None
            &&& cache_upload_behavior is Disabled
            &&& remote_cache_enabled == true
            &&& remote_dep_file_cache_enabled == false
        }),
{
    let path_separator = get_default_path_separator(host_platform, detected_os);
    if open_source {
        Ok(CommandExecutorConfig {
            executor: ExecutorConfig::Local(LocalExecutorOptions::default()),
            path_separator,
        })
    } else {
        let re_properties = match get_default_re_properties(host_platform, detected_os) {
            Ok(props) => props,
            Err(e) => {
                return Err(e);
            },
        };
        Ok(CommandExecutorConfig {
            executor: ExecutorConfig::RemoteEnabled {
                executor: RemoteEnabledExecutor::Hybrid {
                    local: LocalExecutorOptions::default(),
                    remote: RemoteExecutorOptions::default(),
                    level: HybridExecutionLevel::Limited,
                },
                re_properties,
                re_use_case: "buck2-default".to_owned(),
                re_action_key: None,
                cache_upload_behavior: CacheUploadBehavior::Disabled,
                remote_cache_enabled: true,
                remote_dep_file_cache_enabled: false,
            },
            path_separator,
        })
    }
}

} // verus!
