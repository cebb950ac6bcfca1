//! The per-invocation factory that assembles, for each action, the concrete
//! executor, remote platform description, cache checker and cache uploader.
//!
//! The factory is constructed once per build invocation. It owns the shared
//! host-sharing broker, low-pass filter and worker pool, and all
//! environment overrides are read once, at construction, so that executor
//! selection is a pure function of the factory's fields and the action's
//! declared configuration.

use vstd::prelude::*;
use crate::broker::HostSharingBroker;
use crate::cache::CacheChecker;
use crate::cache::CacheUploader;
use crate::cache::spec_cache_checker;
use crate::cache::spec_cache_uploader;
use crate::cache::cache_checker;
use crate::cache::cache_uploader;
use crate::config::ExecutorConfig;
use crate::config::LocalExecutorOptions;
use crate::config::RemoteEnabledExecutor;
use crate::config::RemoteExecutorOptions;
use crate::config::HybridExecutionLevel;
use crate::errors::ExecutionConfigError;
use crate::hybrid::HybridExecutor;
use crate::hybrid::RemoteSide;
use crate::low_pass_filter::LowPassFilter;
use crate::remote::RemoteExecutorDescriptor;
use crate::remote::RE_INPUT_FILES_BYTES_CEILING;
use crate::strategy::ExecutionStrategy;
use crate::strategy::ExecutorPreference;
use crate::worker::WorkerPool;

verus! {

/// The executor selected for one action, as plain values the caller drives.
#[derive(Clone, Debug, PartialEq, Eq)]
pub enum PreparedExecutor {
    Local(LocalExecutorOptions),
    Remote(RemoteExecutorDescriptor),
    Hybrid(HybridExecutor),
}

/// What the factory hands back for one action: the executor, the key/value
/// platform description sent to the remote service, and the cache checker
/// and uploader to drive around execution. Constructed fresh per action.
#[derive(Debug, PartialEq, Eq)]
pub struct CommandExecutorResponse {
    pub executor: PreparedExecutor,
    pub platform: Vec<(String, String)>,
    pub cache_checker: CacheChecker,
    pub cache_uploader: CacheUploader,
}

/// Per-invocation shared state of executor selection. One factory exists
/// per build invocation and owns the invocation's host-sharing broker,
/// low-pass filter and worker pool; every flag and override below is fixed
/// at construction.
pub struct CommandExecutorFactory {
    pub host_sharing_broker: HostSharingBroker,
    pub low_pass_filter: LowPassFilter,
    pub worker_pool: WorkerPool,
    pub strategy: ExecutionStrategy,
    pub upload_all_actions: bool,
    pub skip_cache_read: bool,
    pub skip_cache_write: bool,
    /// Whether this environment can reach the remote execution service at
    /// all; detected once per invocation.
    pub has_remote_access: bool,
    /// Paranoid output validation is active for this invocation.
    pub paranoid: bool,
    pub materialize_failed_inputs: bool,
    /// Override of cache disabling, read once from the environment;
    /// `None` falls back to `skip_cache_read`.
    pub test_disable_caching: Option<bool>,
    /// Restrict the cache chain to dependency-file lookups; a test-only
    /// override, read once from the environment.
    pub test_only_remote_dep_file_cache: bool,
    /// Whether the one-per-invocation warning about a degraded environment
    /// has been emitted.
    pub warned_no_remote_access: bool,
}

impl CommandExecutorFactory {
    /// A factory for one build invocation.
    pub fn new(
        host_sharing_broker: HostSharingBroker,
        low_pass_filter: LowPassFilter,
        worker_pool: WorkerPool,
        strategy: ExecutionStrategy,
        upload_all_actions: bool,
        skip_cache_read: bool,
        skip_cache_write: bool,
        has_remote_access: bool,
        paranoid: bool,
        materialize_failed_inputs: bool,
        test_disable_caching: Option<bool>,
        test_only_remote_dep_file_cache: bool,
    ) -> (r: CommandExecutorFactory)
        ensures
            r.host_sharing_broker == host_sharing_broker,
            r.low_pass_filter == low_pass_filter,
            r.worker_pool == worker_pool,
            r.strategy == strategy,
            r.upload_all_actions == upload_all_actions,
            r.skip_cache_read == skip_cache_read,
            r.skip_cache_write == skip_cache_write,
            r.has_remote_access == has_remote_access,
            r.paranoid == paranoid,
            r.materialize_failed_inputs == materialize_failed_inputs,
            r.test_disable_caching == test_disable_caching,
            r.test_only_remote_dep_file_cache == test_only_remote_dep_file_cache,
            r.warned_no_remote_access == false,
    {
        CommandExecutorFactory {
            host_sharing_broker,
            low_pass_filter,
            worker_pool,
            strategy,
            upload_all_actions,
            skip_cache_read,
            skip_cache_write,
            has_remote_access,
            paranoid,
            materialize_failed_inputs,
            test_disable_caching,
            test_only_remote_dep_file_cache,
            warned_no_remote_access: false,
        }
    }

    /// Caching is disabled for an action: by the environment override if
    /// set — else by `skip_cache_read` — or because the action enables
    /// neither remote cache.
    pub open spec fn spec_disable_caching(
        self,
        remote_cache_enabled: bool,
        remote_dep_file_cache_enabled: bool,
    ) -> bool {
        (match self.test_disable_caching {
            Some(b) => b,
            None => self.skip_cache_read,
        }) || (!remote_cache_enabled && !remote_dep_file_cache_enabled)
    }

    /// The cache-check chain a remote-enabled action gets from this factory.
    pub open spec fn spec_checker_chain(
        self,
        remote_cache_enabled: bool,
        remote_dep_file_cache_enabled: bool,
    ) -> CacheChecker {
        spec_cache_checker(
            self.spec_disable_caching(remote_cache_enabled, remote_dep_file_cache_enabled),
            self.test_only_remote_dep_file_cache,
            remote_dep_file_cache_enabled,
        )
    }

    /// The remote executor descriptor for an action: remote cache use is
    /// additionally skipped when the action disables its remote cache.
    pub open spec fn spec_remote_descriptor(
        self,
        options: RemoteExecutorOptions,
        re_use_case: String,
        re_action_key: Option<String>,
        remote_cache_enabled: bool,
    ) -> RemoteExecutorDescriptor {
        RemoteExecutorDescriptor {
            options,
            re_use_case,
            re_action_key,
            skip_cache_read: self.skip_cache_read || !remote_cache_enabled,
            skip_cache_write: self.skip_cache_write || !remote_cache_enabled,
            paranoid: self.paranoid,
            materialize_failed_inputs: self.materialize_failed_inputs,
        }
    }

    /// The executor this factory selects for an action, or the error when
    /// the strategy leaves no candidate. Without remote access every action
    /// is forced onto a default local executor; otherwise each variant of
    /// the declared configuration is honored exactly when the strategy does
    /// not ban it, and under paranoid validation a hybrid executor erases
    /// mere preferences and carries the cache-check chain stacked in front
    /// of its remote side.
    pub open spec fn spec_selected(self, config: ExecutorConfig) -> Result<
        PreparedExecutor,
        ExecutionConfigError,
    > {
        if !self.has_remote_access {
            if self.strategy.spec_ban_local() {
                Err(ExecutionConfigError::StrategyIncompatibleWithLocal { strategy: self.strategy })
            } else {
                Ok(
                    PreparedExecutor::Local(
                        LocalExecutorOptions { use_persistent_workers: false },
                    ),
                )
            }
        } else {
            match config {
                ExecutorConfig::Local(local) => if self.strategy.spec_ban_local() {
                    Err(
                        ExecutionConfigError::StrategyIncompatibleWithConfig {
                            strategy: self.strategy,
                            config,
                        },
                    )
                } else {
                    Ok(PreparedExecutor::Local(local))
                },
                ExecutorConfig::RemoteEnabled {
                    executor,
                    re_use_case,
                    re_action_key,
                    remote_cache_enabled,
                    remote_dep_file_cache_enabled,
                    ..
                } => match executor {
                    RemoteEnabledExecutor::Local(local) => if self.strategy.spec_ban_local() {
                        Err(
                            ExecutionConfigError::StrategyIncompatibleWithConfig {
                                strategy: self.strategy,
                                config,
                            },
                        )
                    } else {
                        Ok(PreparedExecutor::Local(local))
                    },
                    RemoteEnabledExecutor::Remote(remote) => if self.strategy.spec_ban_remote() {
                        Err(
                            ExecutionConfigError::StrategyIncompatibleWithConfig {
                                strategy: self.strategy,
                                config,
                            },
                        )
                    } else {
                        Ok(
                            PreparedExecutor::Remote(
                                self.spec_remote_descriptor(
                                    remote,
                                    re_use_case,
                                    re_action_key,
                                    remote_cache_enabled,
                                ),
                            ),
                        )
                    },
                    RemoteEnabledExecutor::Hybrid { local, remote, level } => if self.strategy.spec_ban_hybrid() {
                        Err(
                            ExecutionConfigError::StrategyIncompatibleWithConfig {
                                strategy: self.strategy,
                                config,
                            },
                        )
                    } else {
                        let re_max_input_files_bytes = match remote.re_max_input_files_bytes {
                            Some(b) => b,
                            None => RE_INPUT_FILES_BYTES_CEILING,
                        };
                        let descriptor = self.spec_remote_descriptor(
                            remote,
                            re_use_case,
                            re_action_key,
                            remote_cache_enabled,
                        );
                        if self.paranoid {
                            match self.strategy.spec_hybrid_preference().spec_and(
                                ExecutorPreference::DefaultErasePreferences,
                            ) {
                                Some(preference) => Ok(
                                    PreparedExecutor::Hybrid(
                                        HybridExecutor {
                                            local,
                                            remote: RemoteSide::Stacked {
                                                cache_checker: self.spec_checker_chain(
                                                    remote_cache_enabled,
                                                    remote_dep_file_cache_enabled,
                                                ),
                                                fallback: descriptor,
                                            },
                                            level: HybridExecutionLevel::Full {
                                                fallback_on_failure: true,
                                                low_pass_filter: false,
                                            },
                                            executor_preference: preference,
                                            re_max_input_files_bytes,
                                        },
                                    ),
                                ),
                                None => Err(
                                    ExecutionConfigError::PreferenceConflict {
                                        left: self.strategy.spec_hybrid_preference(),
                                        right: ExecutorPreference::DefaultErasePreferences,
                                    },
                                ),
                            }
                        } else {
                            Ok(
                                PreparedExecutor::Hybrid(
                                    HybridExecutor {
                                        local,
                                        remote: RemoteSide::Plain(descriptor),
                                        level,
                                        executor_preference:
                                            self.strategy.spec_hybrid_preference(),
                                        re_max_input_files_bytes,
                                    },
                                ),
                            )
                        }
                    },
                },
            }
        }
    }

    /// Assemble the executor, platform, cache checker and cache uploader
    /// for one action, or fail when the invocation's strategy is
    /// incompatible with the action's declared configuration — never a
    /// partial response. The one side effect is the invocation-wide
    /// warning flag, raised the first time a degraded environment forces
    /// local execution.
    pub fn get_command_executor(&mut self, config: ExecutorConfig) -> (r: Result<
        CommandExecutorResponse,
        ExecutionConfigError,
    >)
        ensures
            final(self).host_sharing_broker == old(self).host_sharing_broker,
            final(self).low_pass_filter == old(self).low_pass_filter,
            final(self).worker_pool == old(self).worker_pool,
            final(self).strategy == old(self).strategy,
            final(self).upload_all_actions == old(self).upload_all_actions,
            final(self).skip_cache_read == old(self).skip_cache_read,
            final(self).skip_cache_write == old(self).skip_cache_write,
            final(self).has_remote_access == old(self).has_remote_access,
            final(self).paranoid == old(self).paranoid,
            final(self).materialize_failed_inputs == old(self).materialize_failed_inputs,
            final(self).test_disable_caching == old(self).test_disable_caching,
            final(self).test_only_remote_dep_file_cache == old(
                self,
            ).test_only_remote_dep_file_cache,
            final(self).warned_no_remote_access == (old(self).warned_no_remote_access || !old(
                self,
            ).has_remote_access),
            r is Ok <==> old(self).spec_selected(config) is Ok,
            r matches Ok(resp) ==> resp.executor == old(self).spec_selected(config)->Ok_0,
            r matches Err(e) ==> e == old(self).spec_selected(config)->Err_0,
            !old(self).has_remote_access ==> (r matches Ok(resp) ==> {
                &&& resp.platform@.len() == 0
                &&& resp.cache_checker is NoOp
                &&& resp.cache_uploader is NoOp
            }),
            old(self).has_remote_access ==> (config matches ExecutorConfig::Local(..) ==> (r
                matches Ok(resp) ==> {
                &&& resp.platform@.len() == 0
                &&& resp.cache_checker is NoOp
                &&& resp.cache_uploader is NoOp
            })),
            old(self).has_remote_access ==> (config matches ExecutorConfig::RemoteEnabled {
                re_properties,
                cache_upload_behavior,
                remote_cache_enabled,
                remote_dep_file_cache_enabled,
                ..
            } ==> (r matches Ok(resp) ==> {
                &&& resp.platform == re_properties
                &&& resp.cache_checker == if old(self).paranoid {
                    CacheChecker::NoOp
                } else {
                    old(self).spec_checker_chain(
                        remote_cache_enabled,
                        remote_dep_file_cache_enabled,
                    )
                }
                &&& resp.cache_uploader == spec_cache_uploader(
                    old(self).spec_disable_caching(
                        remote_cache_enabled,
                        remote_dep_file_cache_enabled,
                    ),
                    cache_upload_behavior,
                )
            })),
    {
        if !self.has_remote_access {
            self.warned_no_remote_access = true;
            if self.strategy.ban_local() {
                return Err(
                    ExecutionConfigError::StrategyIncompatibleWithLocal {
                        strategy: self.strategy,
                    },
                );
            }
            return Ok(
                CommandExecutorResponse {
                    executor: PreparedExecutor::Local(
                        LocalExecutorOptions { use_persistent_workers: false },
                    ),
                    platform: Vec::new(),
                    cache_checker: CacheChecker::NoOp,
                    cache_uploader: CacheUploader::NoOp,
                },
            );
        }
        match config {
            ExecutorConfig::Local(local) => {
                if self.strategy.ban_local() {
                    Err(
                        ExecutionConfigError::StrategyIncompatibleWithConfig {
                            strategy: self.strategy,
                            config: ExecutorConfig::Local(local),
                        },
                    )
                } else {
                    Ok(
                        CommandExecutorResponse {
                            executor: PreparedExecutor::Local(local),
                            platform: Vec::new(),
                            cache_checker: CacheChecker::NoOp,
                            cache_uploader: CacheUploader::NoOp,
                        },
                    )
                }
            },
            ExecutorConfig::RemoteEnabled {
                executor,
                re_properties,
                re_use_case,
                re_action_key,
                cache_upload_behavior,
                remote_cache_enabled,
                remote_dep_file_cache_enabled,
            } => {
                let disable_caching = match self.test_disable_caching {
                    Some(b) => b,
                    None => self.skip_cache_read,
                };
                let disable_caching = disable_caching || (!remote_cache_enabled
                    && !remote_dep_file_cache_enabled);
                let chain = cache_checker(
                    disable_caching,
                    self.test_only_remote_dep_file_cache,
                    remote_dep_file_cache_enabled,
                );
                let response_checker = if self.paranoid {
                    CacheChecker::NoOp
                } else {
                    chain
                };
                let uploader = cache_uploader(disable_caching, cache_upload_behavior);
                match executor {
                    RemoteEnabledExecutor::Local(local) => {
                        if self.strategy.ban_local() {
                            Err(
                                ExecutionConfigError::StrategyIncompatibleWithConfig {
                                    strategy: self.strategy,
                                    config: ExecutorConfig::RemoteEnabled {
                                        executor: RemoteEnabledExecutor::Local(local),
                                        re_properties,
                                        re_use_case,
                                        re_action_key,
                                        cache_upload_behavior,
                                        remote_cache_enabled,
                                        remote_dep_file_cache_enabled,
                                    },
                                },
                            )
                        } else {
                            Ok(
                                CommandExecutorResponse {
                                    executor: PreparedExecutor::Local(local),
                                    platform: re_properties,
                                    cache_checker: response_checker,
                                    cache_uploader: uploader,
                                },
                            )
                        }
                    },
                    RemoteEnabledExecutor::Remote(remote) => {
                        if self.strategy.ban_remote() {
                            Err(
                                ExecutionConfigError::StrategyIncompatibleWithConfig {
                                    strategy: self.strategy,
                                    config: ExecutorConfig::RemoteEnabled {
                                        executor: RemoteEnabledExecutor::Remote(remote),
                                        re_properties,
                                        re_use_case,
                                        re_action_key,
                                        cache_upload_behavior,
                                        remote_cache_enabled,
                                        remote_dep_file_cache_enabled,
                                    },
                                },
                            )
                        } else {
                            let descriptor = RemoteExecutorDescriptor {
                                options: remote,
                                re_use_case,
                                re_action_key,
                                skip_cache_read: self.skip_cache_read || !remote_cache_enabled,
                                skip_cache_write: self.skip_cache_write || !remote_cache_enabled,
                                paranoid: self.paranoid,
                                materialize_failed_inputs: self.materialize_failed_inputs,
                            };
                            Ok(
                                CommandExecutorResponse {
                                    executor: PreparedExecutor::Remote(descriptor),
                                    platform: re_properties,
                                    cache_checker: response_checker,
                                    cache_uploader: uploader,
                                },
                            )
                        }
                    },
                    RemoteEnabledExecutor::Hybrid { local, remote, level } => {
                        if self.strategy.ban_hybrid() {
                            Err(
                                ExecutionConfigError::StrategyIncompatibleWithConfig {
                                    strategy: self.strategy,
                                    config: ExecutorConfig::RemoteEnabled {
                                        executor: RemoteEnabledExecutor::Hybrid {
                                            local,
                                            remote,
                                            level,
                                        },
                                        re_properties,
                                        re_use_case,
                                        re_action_key,
                                        cache_upload_behavior,
                                        remote_cache_enabled,
                                        remote_dep_file_cache_enabled,
                                    },
                                },
                            )
                        } else {
                            let re_max_input_files_bytes = match remote.re_max_input_files_bytes {
                                Some(b) => b,
                                None => RE_INPUT_FILES_BYTES_CEILING,
                            };
                            let descriptor = RemoteExecutorDescriptor {
                                options: remote,
                                re_use_case,
                                re_action_key,
                                skip_cache_read: self.skip_cache_read || !remote_cache_enabled,
                                skip_cache_write: self.skip_cache_write || !remote_cache_enabled,
                                paranoid: self.paranoid,
                                materialize_failed_inputs: self.materialize_failed_inputs,
                            };
                            let preference = self.strategy.hybrid_preference();
                            if self.paranoid {
                                match preference.and(ExecutorPreference::DefaultErasePreferences) {
                                    Some(erased) => Ok(
                                        CommandExecutorResponse {
                                            executor: PreparedExecutor::Hybrid(
                                                HybridExecutor {
                                                    local,
                                                    remote: RemoteSide::Stacked {
                                                        cache_checker: chain,
                                                        fallback: descriptor,
                                                    },
                                                    level: HybridExecutionLevel::Full {
                                                        fallback_on_failure: true,
                                                        low_pass_filter: false,
                                                    },
                                                    executor_preference: erased,
                                                    re_max_input_files_bytes,
                                                },
                                            ),
                                            platform: re_properties,
                                            cache_checker: response_checker,
                                            cache_uploader: uploader,
                                        },
                                    ),
                                    None => Err(
                                        ExecutionConfigError::PreferenceConflict {
                                            left: preference,
                                            right: ExecutorPreference::DefaultErasePreferences,
                                        },
                                    ),
                                }
                            } else {
                                Ok(
                                    CommandExecutorResponse {
                                        executor: PreparedExecutor::Hybrid(
                                            HybridExecutor {
                                                local,
                                                remote: RemoteSide::Plain(descriptor),
                                                level,
                                                executor_preference: preference,
                                                re_max_input_files_bytes,
                                            },
                                        ),
                                        platform: re_properties,
                                        cache_checker: response_checker,
                                        cache_uploader: uploader,
                                    },
                                )
                            }
                        }
                    },
                }
            },
        }
    }
}

/// Under the `NoExecution` strategy every executor family is banned, so the
/// factory fails for every declared configuration, whatever the rest of its
/// state.
pub proof fn lemma_no_execution_always_fails(f: CommandExecutorFactory, config: ExecutorConfig)
    requires
        f.strategy is NoExecution,
    ensures
        f.spec_selected(config) is Err,
{
}

/// Under `LocalOnly`, in an environment with remote access, a configuration
/// that only offers a remote executor fails, while a purely local
/// configuration is honored.
pub proof fn lemma_local_only_strategy(f: CommandExecutorFactory, config: ExecutorConfig)
    requires
        f.strategy is LocalOnly,
        f.has_remote_access,
    ensures
        (config matches ExecutorConfig::RemoteEnabled { executor, .. } && executor is Remote)
            ==> f.spec_selected(config) is Err,
        config is Local ==> f.spec_selected(config) is Ok,
{
}

/// Under `RemoteOnly`, in an environment with remote access, a purely local
/// configuration fails, while a remote executor is honored: the exact
/// mirror image of `LocalOnly`.
pub proof fn lemma_remote_only_strategy(f: CommandExecutorFactory, config: ExecutorConfig)
    requires
        f.strategy is RemoteOnly,
        f.has_remote_access,
    ensures
        config is Local ==> f.spec_selected(config) is Err,
        (config matches ExecutorConfig::RemoteEnabled { executor, .. } && executor is Remote)
            ==> f.spec_selected(config) is Ok,
{
}

} // verus!
