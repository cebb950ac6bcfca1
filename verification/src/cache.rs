//! The cache-check chain that may resolve an action without execution, and
//! the uploader that publishes successful results.
//!
//! Chain selection happens once per action in the factory; the lookup itself
//! is driven later with the outcomes of the two remote cache queries, which
//! the caller obtains from the remote service.

use vstd::prelude::*;
use crate::command::CommandResult;
use crate::config::CacheUploadBehavior;

verus! {

/// The fallback behind the exact action cache: either nothing, or the
/// dependency-file cache keyed on a fingerprint of declared dependency files.
#[derive(Clone, Copy, Debug, PartialEq, Eq, Structural)]
pub enum DepFileFallback {
    NoOp,
    RemoteDepFile,
}

/// The cache-check chain selected for one action. `NoOp` always misses;
/// `RemoteDepFile` consults only the dependency-file cache; `ActionCache`
/// consults the exact action cache first and its dependency-file fallback
/// only on a miss.
#[derive(Clone, Copy, Debug, PartialEq, Eq, Structural)]
pub enum CacheChecker {
    NoOp,
    RemoteDepFile,
    ActionCache { dep_file_fallback: DepFileFallback },
}

/// The cache uploader selected for one action: either a no-op, or an
/// uploader that publishes results whose outputs fit under `max_bytes`.
#[derive(Clone, Copy, Debug, PartialEq, Eq, Structural)]
pub enum CacheUploader {
    NoOp,
    Enabled { max_bytes: u64 },
}

/// What one cache consultation did: the result it resolved, if any, and
/// which of the two cache paths it actually consulted.
#[derive(Clone, Copy, Debug, PartialEq, Eq, Structural)]
pub struct CacheLookup {
    pub hit: Option<CommandResult>,
    pub consulted_action_cache: bool,
    pub consulted_dep_file: bool,
}

/// The chain a remote-enabled action gets, given whether caching is disabled
/// altogether, whether the chain is restricted to dependency-file lookups,
/// and whether the dependency-file cache is enabled for the action.
pub open spec fn spec_cache_checker(
    disable_caching: bool,
    only_remote_dep_file_cache: bool,
    remote_dep_file_cache_enabled: bool,
) -> CacheChecker {
    if disable_caching {
        CacheChecker::NoOp
    } else if only_remote_dep_file_cache {
        if remote_dep_file_cache_enabled {
            CacheChecker::RemoteDepFile
        } else {
            CacheChecker::NoOp
        }
    } else {
        CacheChecker::ActionCache {
            dep_file_fallback: if remote_dep_file_cache_enabled {
                DepFileFallback::RemoteDepFile
            } else {
                DepFileFallback::NoOp
            },
        }
    }
}

/// Select the cache-check chain for one action.
pub fn cache_checker(
    disable_caching: bool,
    only_remote_dep_file_cache: bool,
    remote_dep_file_cache_enabled: bool,
) -> (r: CacheChecker)
    ensures
        r == spec_cache_checker(
            disable_caching,
            only_remote_dep_file_cache,
            remote_dep_file_cache_enabled,
        ),
{
    if disable_caching {
        CacheChecker::NoOp
    } else {
        let dep_file_checker = if remote_dep_file_cache_enabled {
            CacheChecker::RemoteDepFile
        } else {
            CacheChecker::NoOp
        };
        if only_remote_dep_file_cache {
            dep_file_checker
        } else {
            CacheChecker::ActionCache {
                dep_file_fallback: if remote_dep_file_cache_enabled {
                    DepFileFallback::RemoteDepFile
                } else {
                    DepFileFallback::NoOp
                },
            }
        }
    }
}

/// What a chain resolves, given the outcome each cache path would report.
pub open spec fn spec_chain_lookup(
    checker: CacheChecker,
    action_cache_result: Option<CommandResult>,
    dep_file_result: Option<CommandResult>,
) -> Option<CommandResult> {
    match checker {
        CacheChecker::NoOp => None,
        CacheChecker::RemoteDepFile => dep_file_result,
        CacheChecker::ActionCache { dep_file_fallback } => if action_cache_result is Some {
            action_cache_result
        } else {
            match dep_file_fallback {
                DepFileFallback::NoOp => None,
                DepFileFallback::RemoteDepFile => dep_file_result,
            }
        },
    }
}

/// Drive one cache consultation. `action_cache_result` and `dep_file_result`
/// are the outcomes the exact action cache and the dependency-file cache
/// would report for this action; a path's outcome is read only when the
/// chain consults that path, which the returned flags record. A hit
/// short-circuits execution entirely; a miss is transparent to the caller.
pub fn chain_lookup(
    checker: &CacheChecker,
    action_cache_result: &Option<CommandResult>,
    dep_file_result: &Option<CommandResult>,
) -> (r: CacheLookup)
    ensures
        r.hit == spec_chain_lookup(*checker, *action_cache_result, *dep_file_result),
        r.consulted_action_cache == (*checker matches CacheChecker::ActionCache { .. }),
        r.consulted_dep_file == match *checker {
            CacheChecker::NoOp => false,
            CacheChecker::RemoteDepFile => true,
            CacheChecker::ActionCache { dep_file_fallback } => action_cache_result is None
                && dep_file_fallback is RemoteDepFile,
        },
{
    match checker {
        CacheChecker::NoOp => CacheLookup {
            hit: None,
            consulted_action_cache: false,
            consulted_dep_file: false,
        },
        CacheChecker::RemoteDepFile => CacheLookup {
            hit: *dep_file_result,
            consulted_action_cache: false,
            consulted_dep_file: true,
        },
        CacheChecker::ActionCache { dep_file_fallback } => {
            match action_cache_result {
                Some(res) => CacheLookup {
                    hit: Some(*res),
                    consulted_action_cache: true,
                    consulted_dep_file: false,
                },
                None => {
                    match dep_file_fallback {
                        DepFileFallback::NoOp => CacheLookup {
                            hit: None,
                            consulted_action_cache: true,
                            consulted_dep_file: false,
                        },
                        DepFileFallback::RemoteDepFile => CacheLookup {
                            hit: *dep_file_result,
                            consulted_action_cache: true,
                            consulted_dep_file: true,
                        },
                    }
                },
            }
        },
    }
}

/// The uploader a remote-enabled action gets: a no-op whenever caching is
/// disabled or uploads are disabled, else one bounded by the declared
/// maximum output size.
pub open spec fn spec_cache_uploader(
    disable_caching: bool,
    behavior: CacheUploadBehavior,
) -> CacheUploader {
    if disable_caching {
        CacheUploader::NoOp
    } else {
        match behavior {
            CacheUploadBehavior::Enabled { max_bytes } => CacheUploader::Enabled {
                max_bytes,
            },
            CacheUploadBehavior::Disabled => CacheUploader::NoOp,
        }
    }
}

/// Select the cache uploader for one action.
pub fn cache_uploader(disable_caching: bool, behavior: CacheUploadBehavior) -> (r:
    CacheUploader)
    ensures
        r == spec_cache_uploader(disable_caching, behavior),
{
    if disable_caching {
        CacheUploader::NoOp
    } else {
        match behavior {
            CacheUploadBehavior::Enabled { max_bytes } => CacheUploader::Enabled {
                max_bytes,
            },
            CacheUploadBehavior::Disabled => CacheUploader::NoOp,
        }
    }
}

/// Whether a result is published to the cache: only a successful command
/// result, and only when its outputs fit under the uploader's bound. The
/// decision never alters the result itself.
pub open spec fn spec_should_upload(uploader: CacheUploader, result: CommandResult) -> bool {
    uploader matches CacheUploader::Enabled { max_bytes } && result.spec_is_success()
        && result.output_bytes <= max_bytes
}

/// Decide whether to publish a command result to the shared cache.
pub fn should_upload(uploader: &CacheUploader, result: &CommandResult) -> (r: bool)
    ensures
        r == spec_should_upload(*uploader, *result),
{
    match uploader {
        CacheUploader::Enabled { max_bytes } => result.is_success() && result.output_bytes
            <= *max_bytes,
        CacheUploader::NoOp => false,
    }
}

/// Cache-chain selection law: with caching disabled the chain never reports
/// a hit, whichever outcomes the cache paths would report; restricted to
/// dependency-file lookups it never consults the exact action cache; and
/// otherwise an exact action-cache hit is returned before the
/// dependency-file path is consulted at all.
pub proof fn lemma_cache_chain_selection(
    disable_caching: bool,
    only_remote_dep_file_cache: bool,
    remote_dep_file_cache_enabled: bool,
    action_cache_result: Option<CommandResult>,
    dep_file_result: Option<CommandResult>,
)
    ensures
        disable_caching ==> spec_chain_lookup(
            spec_cache_checker(disable_caching, only_remote_dep_file_cache, remote_dep_file_cache_enabled),
            action_cache_result,
            dep_file_result,
        ) is None,
        !disable_caching && only_remote_dep_file_cache ==> spec_chain_lookup(
            spec_cache_checker(disable_caching, only_remote_dep_file_cache, remote_dep_file_cache_enabled),
            action_cache_result,
            dep_file_result,
        ) == (if remote_dep_file_cache_enabled {
            dep_file_result
        } else {
            Option::<CommandResult>::None
        }),
        !disable_caching && !only_remote_dep_file_cache && action_cache_result is Some
            ==> spec_chain_lookup(
            spec_cache_checker(disable_caching, only_remote_dep_file_cache, remote_dep_file_cache_enabled),
            action_cache_result,
            dep_file_result,
        ) == action_cache_result,
{
}

} // verus!
