//! The command-line concurrency knob.

use vstd::prelude::*;
use crate::errors::ConcurrencyError;

verus! {

/// Relies on num_cpus::get: the number of logical CPUs available to this
/// process, which its documentation promises to be at least 1.
#[verifier::external_body]
fn detected_parallelism() -> (n: usize)
    ensures
        1 <= n,
{
    num_cpus::get()
}

/// Resolve the requested concurrency: `0` means all detected host
/// parallelism — which is always positive — and any positive request is
/// taken as is.
pub fn parse_concurrency(requested: u32) -> (r: Result<usize, ConcurrencyError>)
    ensures
        requested > 0 ==> r == Ok::<usize, ConcurrencyError>(requested as usize),
        r matches Ok(n) && n >= 1,
{
    let ret: usize = requested as usize;
    if ret == 0 {
        Ok(detected_parallelism())
    } else {
        Ok(ret)
    }
}

} // verus!
