//! Where the cgroup files of a process live, always under `/proc`.
//!
//! This is the fixed-root variant of [`crate::system`]; the caller reads the cgroups
//! version from the system and hands it in.

use crate::errors::Error;
use crate::system::{
    memory_current_path, memory_current_path_under, memory_max_path, memory_max_path_under,
    pressure_path, pressure_path_result, pressure_path_under,
};
use vstd::prelude::*;

verus! {

pub use crate::system::CGroupsVersions;

/// Entities that know where the cgroup files of a process live.
pub trait CGroupProvider {
    fn path_to_memory_max(&self, version: CGroupsVersions, pid: i32) -> String;

    fn path_to_memory_current(&self, version: CGroupsVersions, pid: i32) -> String;

    fn path_for_memory_pressure(&self, version: CGroupsVersions, pid: i32) -> Result<
        String,
        Error,
    >;

    fn path_for_io_pressure(&self, version: CGroupsVersions, pid: i32) -> Result<String, Error>;

    fn path_for_cpu_pressure(&self, version: CGroupsVersions, pid: i32) -> Result<String, Error>;
}

/// The system's cgroups, seen through `/proc/{pid}/root`.
#[derive(Debug, Clone, Copy)]
pub struct SystemCGroups {}

impl SystemCGroups {
    /// The pressure file of `resource` for `pid`; an error under cgroups v1.
    pub fn path_to_pressure_file(&self, version: CGroupsVersions, pid: i32, resource: &str) -> (r:
        Result<String, Error>)
        ensures
            match version {
                CGroupsVersions::CGroupsV1 => r matches Err(Error::Message(m)) && m@
                    == "pressure not supported on v1"@,
                CGroupsVersions::CGroupsV2 => r matches Ok(p) && p@ == pressure_path(
                    "/proc"@,
                    pid,
                    resource@,
                ),
            },
    {
        pressure_path_under("/proc", pid, resource, version)
    }

    /// The memory limit file of `pid`.
    pub fn memory_max(&self, version: CGroupsVersions, pid: i32) -> (r: String)
        ensures
            r@ == memory_max_path("/proc"@, pid, version),
    {
        memory_max_path_under("/proc", pid, version)
    }

    /// The current memory usage file of `pid`.
    pub fn memory_current(&self, version: CGroupsVersions, pid: i32) -> (r: String)
        ensures
            r@ == memory_current_path("/proc"@, pid, version),
    {
        memory_current_path_under("/proc", pid, version)
    }
}

impl CGroupProvider for SystemCGroups {
    fn path_to_memory_max(&self, version: CGroupsVersions, pid: i32) -> (r: String)
        ensures
            r@ == memory_max_path("/proc"@, pid, version),
    {
        self.memory_max(version, pid)
    }

    fn path_to_memory_current(&self, version: CGroupsVersions, pid: i32) -> (r: String)
        ensures
            r@ == memory_current_path("/proc"@, pid, version),
    {
        self.memory_current(version, pid)
    }

    fn path_for_memory_pressure(&self, version: CGroupsVersions, pid: i32) -> (r: Result<
        String,
        Error,
    >)
        ensures
            pressure_path_result(r, "/proc"@, pid, version, "memory"@),
    {
        self.path_to_pressure_file(version, pid, "memory")
    }

    fn path_for_io_pressure(&self, version: CGroupsVersions, pid: i32) -> (r: Result<
        String,
        Error,
    >)
        ensures
            pressure_path_result(r, "/proc"@, pid, version, "io"@),
    {
        self.path_to_pressure_file(version, pid, "io")
    }

    fn path_for_cpu_pressure(&self, version: CGroupsVersions, pid: i32) -> (r: Result<
        String,
        Error,
    >)
        ensures
            pressure_path_result(r, "/proc"@, pid, version, "cpu"@),
    {
        self.path_to_pressure_file(version, pid, "cpu")
    }
}

} // verus!
