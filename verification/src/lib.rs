//! Execution-strategy core of a build system.
//!
//! Given a build action (a command plus its declared inputs and outputs), this
//! library decides where and how the command runs — locally, on a remote
//! execution service, or via a hybrid local/remote ordering with fallback —
//! and whether its result may come from a cache instead of execution.
//!
//! The decision logic is verified: executor selection, cache-chain selection,
//! hybrid fallback, the host-sharing broker's accounting and the low-pass
//! filter are all specified by contracts and proved. The surrounding
//! machinery (subprocess spawning, the remote wire protocol, argument
//! parsing) stays outside the library and consumes the decisions as plain
//! values.

use vstd::prelude::*;

pub mod broker;
pub mod cache;
pub mod command;
pub mod concurrency;
pub mod config;
pub mod errors;
pub mod factory;
pub mod hybrid;
pub mod lint;
pub mod local;
pub mod low_pass_filter;
pub mod remote;
pub mod strategy;
pub mod worker;

verus! {

/// The one-line description shown at the top of the command-line help text.
pub fn help() -> (r: &'static str)
    ensures
        r@ == "A build system\n\nDocumentation: https://buck2.build/docs/\n"@,
{
    "A build system\n\nDocumentation: https://buck2.build/docs/\n"
}

} // verus!
