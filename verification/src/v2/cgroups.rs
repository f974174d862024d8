//! Where the memory files of a process live, under `/proc`, for the earlier monitor.

use crate::system::{
    memory_current_path, memory_current_path_under, memory_max_path, memory_max_path_under,
};
use vstd::prelude::*;

verus! {

pub use crate::system::CGroupsVersions;

/// The memory limit file of `pid` under the given cgroups version.
pub fn path_to_memory_max(version: CGroupsVersions, pid: i32) -> (r: String)
    ensures
        r@ == memory_max_path("/proc"@, pid, version),
{
    memory_max_path_under("/proc", pid, version)
}

/// The current memory usage file of `pid` under the given cgroups version.
pub fn path_to_memory_current(version: CGroupsVersions, pid: i32) -> (r: String)
    ensures
        r@ == memory_current_path("/proc"@, pid, version),
{
    memory_current_path_under("/proc", pid, version)
}

} // verus!
