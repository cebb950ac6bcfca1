use exec_strategy::cache::cache_checker;
use exec_strategy::cache::cache_uploader;
use exec_strategy::cache::chain_lookup;
use exec_strategy::cache::should_upload;
use exec_strategy::cache::CacheChecker;
use exec_strategy::cache::CacheUploader;
use exec_strategy::cache::DepFileFallback;
use exec_strategy::command::CommandResult;
use exec_strategy::config::CacheUploadBehavior;

fn hit(code: i32) -> Option<CommandResult> {
    Some(CommandResult {
        exit_code: code,
        output_bytes: 0,
    })
}

#[test]
fn disabled_caching_never_hits() {
    let checker = cache_checker(true, false, true);
    assert_eq!(checker, CacheChecker::NoOp);
    let lookup = chain_lookup(&checker, &hit(0), &hit(0));
    assert_eq!(lookup.hit, None);
    assert!(!lookup.consulted_action_cache);
    assert!(!lookup.consulted_dep_file);
}

#[test]
fn only_dep_file_mode_consults_only_the_dep_file_path() {
    let checker = cache_checker(false, true, true);
    assert_eq!(checker, CacheChecker::RemoteDepFile);
    let lookup = chain_lookup(&checker, &hit(0), &hit(1));
    assert_eq!(lookup.hit, hit(1));
    assert!(!lookup.consulted_action_cache);
    assert!(lookup.consulted_dep_file);
}

#[test]
fn only_dep_file_mode_without_dep_file_cache_is_noop() {
    let checker = cache_checker(false, true, false);
    assert_eq!(checker, CacheChecker::NoOp);
}

#[test]
fn action_cache_hit_short_circuits_dep_file_path() {
    let checker = cache_checker(false, false, true);
    assert_eq!(
        checker,
        CacheChecker::ActionCache {
            dep_file_fallback: DepFileFallback::RemoteDepFile
        }
    );
    let lookup = chain_lookup(&checker, &hit(0), &hit(1));
    assert_eq!(lookup.hit, hit(0));
    assert!(lookup.consulted_action_cache);
    assert!(!lookup.consulted_dep_file);
}

#[test]
fn action_cache_miss_falls_back_to_dep_file() {
    let checker = cache_checker(false, false, true);
    let lookup = chain_lookup(&checker, &None, &hit(1));
    assert_eq!(lookup.hit, hit(1));
    assert!(lookup.consulted_action_cache);
    assert!(lookup.consulted_dep_file);
}

#[test]
fn action_cache_without_dep_file_cache_misses_on_miss() {
    let checker = cache_checker(false, false, false);
    assert_eq!(
        checker,
        CacheChecker::ActionCache {
            dep_file_fallback: DepFileFallback::NoOp
        }
    );
    let lookup = chain_lookup(&checker, &None, &hit(1));
    assert_eq!(lookup.hit, None);
    assert!(lookup.consulted_action_cache);
    assert!(!lookup.consulted_dep_file);
}

#[test]
fn uploader_selection() {
    assert_eq!(
        cache_uploader(true, CacheUploadBehavior::Enabled { max_bytes: 10 }),
        CacheUploader::NoOp
    );
    assert_eq!(
        cache_uploader(false, CacheUploadBehavior::Disabled),
        CacheUploader::NoOp
    );
    assert_eq!(
        cache_uploader(false, CacheUploadBehavior::Enabled { max_bytes: 10 }),
        CacheUploader::Enabled { max_bytes: 10 }
    );
}

#[test]
fn oversized_outputs_are_not_uploaded() {
    let uploader = CacheUploader::Enabled { max_bytes: 1000 };
    let result = CommandResult {
        exit_code: 0,
        output_bytes: 2000,
    };
    assert!(!should_upload(&uploader, &result));
    // The command result itself is unaffected by the upload decision.
    assert_eq!(result.exit_code, 0);
    assert_eq!(result.output_bytes, 2000);
}

#[test]
fn fitting_successful_outputs_are_uploaded() {
    let uploader = CacheUploader::Enabled { max_bytes: 1000 };
    assert!(should_upload(
        &uploader,
        &CommandResult {
            exit_code: 0,
            output_bytes: 1000,
        }
    ));
    // A failed result is never uploaded, small or not.
    assert!(!should_upload(
        &uploader,
        &CommandResult {
            exit_code: 1,
            output_bytes: 10,
        }
    ));
    assert!(!should_upload(
        &CacheUploader::NoOp,
        &CommandResult {
            exit_code: 0,
            output_bytes: 10,
        }
    ));
}
