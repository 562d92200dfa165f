//! Integer figures derived from the raw machine metrics.
use vstd::prelude::*;

verus! {

/// How many of the busiest processes are kept after each sample.
pub const TOP_PROCESS_LIMIT: usize = 20;

/// A byte count in whole mebibytes, rounded down.
pub fn bytes_to_mib(bytes: u64) -> (mib: u64)
    ensures
        mib == bytes as int / 1048576,
{
    bytes / 1024 / 1024
}

} // verus!
