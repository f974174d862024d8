//! Where on the system the files that describe a process live.
//!
//! Every path is built under a configurable procfs root (`/proc` by default). The paths of
//! the cgroup files depend on the cgroups version that the kernel runs, which the caller
//! reads from the system and hands in.

use crate::errors::Error;
use crate::text::{concat_str, decimal, decimal_string, push_str};
use vstd::prelude::*;

verus! {

/// The versions of the kernel cgroups feature.
#[derive(Debug, Clone, Copy, PartialEq, Eq, Structural)]
pub enum CGroupsVersions {
    CGroupsV1,
    CGroupsV2,
}

impl Default for CGroupsVersions {
    fn default() -> (r: Self)
        ensures
            r == CGroupsVersions::CGroupsV1,
    {
        CGroupsVersions::CGroupsV1
    }
}

/// The filesystem magic number of a cgroup v2 mount.
///
/// Reads `nix::sys::statfs::CGROUP2_SUPER_MAGIC`, which nix defines as
/// `libc::CGROUP2_SUPER_MAGIC`, `0x63677270` on every Linux target of the libc crate; the
/// contract claims that value.
#[verifier::external_body]
fn cgroup2_super_magic() -> (r: i64)
    ensures
        r == 0x63677270,
{
    nix::sys::statfs::CGROUP2_SUPER_MAGIC.0 as i64
}

/// The cgroups version of a system whose `/sys/fs/cgroup` has the filesystem type
/// `fs_type` (as `statfs` reports it): version 2 exactly when it is the cgroup2 magic.
pub fn version_from_filesystem_type(fs_type: i64) -> (r: CGroupsVersions)
    ensures
        r == (if fs_type == 0x63677270 {
            CGroupsVersions::CGroupsV2
        } else {
            CGroupsVersions::CGroupsV1
        }),
{
    if fs_type == cgroup2_super_magic() {
        CGroupsVersions::CGroupsV2
    } else {
        CGroupsVersions::CGroupsV1
    }
}

/// `{root}/{pid}`: the procfs directory of a process.
pub open spec fn process_dir(root: Seq<char>, pid: i32) -> Seq<char> {
    root + "/"@ + decimal(pid as int)
}

/// `{root}/{pid}{suffix}`.
pub fn process_path(root: &str, pid: i32, suffix: &str) -> (r: String)
    ensures
        r@ == process_dir(root@, pid) + suffix@,
{
    let mut s = concat_str(root, "/");
    let digits = decimal_string(pid);
    push_str(&mut s, digits.as_str());
    push_str(&mut s, suffix);
    s
}

/// The path of the memory limit file of `pid` under `root`.
pub open spec fn memory_max_path(root: Seq<char>, pid: i32, version: CGroupsVersions) -> Seq<
    char,
> {
    match version {
        CGroupsVersions::CGroupsV1 => process_dir(root, pid)
            + "/root/sys/fs/cgroup/memory/memory.limit_in_bytes"@,
        CGroupsVersions::CGroupsV2 => process_dir(root, pid) + "/root/sys/fs/cgroup/memory.max"@,
    }
}

/// The path of the current memory usage file of `pid` under `root`.
pub open spec fn memory_current_path(root: Seq<char>, pid: i32, version: CGroupsVersions) -> Seq<
    char,
> {
    match version {
        CGroupsVersions::CGroupsV1 => process_dir(root, pid)
            + "/root/sys/fs/cgroup/memory/memory.usage_in_bytes"@,
        CGroupsVersions::CGroupsV2 => process_dir(root, pid)
            + "/root/sys/fs/cgroup/memory.current"@,
    }
}

/// The path of the pressure file of `resource` for `pid` under `root` (cgroups v2 only).
pub open spec fn pressure_path(root: Seq<char>, pid: i32, resource: Seq<char>) -> Seq<char> {
    process_dir(root, pid) + "/root/sys/fs/cgroup/"@ + resource + ".pressure"@
}

/// Builds the memory limit path.
pub fn memory_max_path_under(root: &str, pid: i32, version: CGroupsVersions) -> (r: String)
    ensures
        r@ == memory_max_path(root@, pid, version),
{
    match version {
        CGroupsVersions::CGroupsV1 => process_path(
            root,
            pid,
            "/root/sys/fs/cgroup/memory/memory.limit_in_bytes",
        ),
        CGroupsVersions::CGroupsV2 => process_path(root, pid, "/root/sys/fs/cgroup/memory.max"),
    }
}

/// Builds the current memory usage path.
pub fn memory_current_path_under(root: &str, pid: i32, version: CGroupsVersions) -> (r: String)
    ensures
        r@ == memory_current_path(root@, pid, version),
{
    match version {
        CGroupsVersions::CGroupsV1 => process_path(
            root,
            pid,
            "/root/sys/fs/cgroup/memory/memory.usage_in_bytes",
        ),
        CGroupsVersions::CGroupsV2 => process_path(
            root,
            pid,
            "/root/sys/fs/cgroup/memory.current",
        ),
    }
}

/// Builds the pressure file path of `resource`; pressure is not read under cgroups v1.
pub fn pressure_path_under(root: &str, pid: i32, resource: &str, version: CGroupsVersions) -> (r:
    Result<String, Error>)
    ensures
        match version {
            CGroupsVersions::CGroupsV1 => r matches Err(Error::Message(m)) && m@
                == "pressure not supported on v1"@,
            CGroupsVersions::CGroupsV2 => r matches Ok(p) && p@ == pressure_path(
                root@,
                pid,
                resource@,
            ),
        },
{
    match version {
        CGroupsVersions::CGroupsV1 => Err(
            Error::Message(String::from_str("pressure not supported on v1")),
        ),
        CGroupsVersions::CGroupsV2 => {
            let mut p = process_path(root, pid, "/root/sys/fs/cgroup/");
            push_str(&mut p, resource);
            push_str(&mut p, ".pressure");
            Ok(p)
        },
    }
}

/// Whether `r` is what asking for the pressure file of `resource` gives: the path under
/// cgroups v2, an error under v1.
pub open spec fn pressure_path_result(
    r: Result<String, Error>,
    root: Seq<char>,
    pid: i32,
    version: CGroupsVersions,
    resource: Seq<char>,
) -> bool {
    match version {
        CGroupsVersions::CGroupsV1 => r matches Err(Error::Message(m)) && m@
            == "pressure not supported on v1"@,
        CGroupsVersions::CGroupsV2 => r matches Ok(p) && p@ == pressure_path(root, pid, resource),
    }
}

/// Entities that know where the files describing a process live.
pub trait Provider {
    fn path_to_memory_max(&self, version: CGroupsVersions, pid: i32) -> String;

    fn path_to_memory_current(&self, version: CGroupsVersions, pid: i32) -> String;

    fn path_to_memory_pressure(&self, version: CGroupsVersions, pid: i32) -> Result<
        String,
        Error,
    >;

    fn path_to_io_pressure(&self, version: CGroupsVersions, pid: i32) -> Result<String, Error>;

    fn path_to_cpu_pressure(&self, version: CGroupsVersions, pid: i32) -> Result<String, Error>;

    fn path_to_oom_score(&self, pid: i32) -> String;

    fn path_to_oom_score_adj(&self, pid: i32) -> String;

    fn path_to_cmdline(&self, pid: i32) -> String;

    fn path_to_procfs(&self) -> String;
}

/// The system's cgroups and procfs, with a configurable procfs root.
#[derive(Debug, Clone)]
pub struct SystemCGroups {
    pub procfs_root: String,
}

impl SystemCGroups {
    /// The system's view, rooted at `/proc`.
    pub fn default() -> (r: Self)
        ensures
            r.procfs_root@ == "/proc"@,
    {
        SystemCGroups { procfs_root: String::from_str("/proc") }
    }

    /// The same view rooted at `root`.
    pub fn with_procfs_root(self, root: String) -> (r: Self)
        ensures
            r.procfs_root@ == root@,
    {
        SystemCGroups { procfs_root: root }
    }

    /// The pressure file of `resource` for `pid`; an error under cgroups v1, where pressure
    /// is not read.
    pub fn path_to_pressure_file(&self, version: CGroupsVersions, pid: i32, resource: &str) -> (r:
        Result<String, Error>)
        ensures
            match version {
                CGroupsVersions::CGroupsV1 => r matches Err(Error::Message(m)) && m@
                    == "pressure not supported on v1"@,
                CGroupsVersions::CGroupsV2 => r matches Ok(p) && p@ == pressure_path(
                    self.procfs_root@,
                    pid,
                    resource@,
                ),
            },
    {
        pressure_path_under(self.procfs_root.as_str(), pid, resource, version)
    }

    /// The memory limit file of `pid`.
    pub fn memory_max(&self, version: CGroupsVersions, pid: i32) -> (r: String)
        ensures
            r@ == memory_max_path(self.procfs_root@, pid, version),
    {
        memory_max_path_under(self.procfs_root.as_str(), pid, version)
    }

    /// The current memory usage file of `pid`.
    pub fn memory_current(&self, version: CGroupsVersions, pid: i32) -> (r: String)
        ensures
            r@ == memory_current_path(self.procfs_root@, pid, version),
    {
        memory_current_path_under(self.procfs_root.as_str(), pid, version)
    }

    /// The oom score file of `pid`.
    pub fn oom_score(&self, pid: i32) -> (r: String)
        ensures
            r@ == process_dir(self.procfs_root@, pid) + "/oom_score"@,
    {
        process_path(self.procfs_root.as_str(), pid, "/oom_score")
    }

    /// The oom score adjustment file of `pid`.
    pub fn oom_score_adj(&self, pid: i32) -> (r: String)
        ensures
            r@ == process_dir(self.procfs_root@, pid) + "/oom_score_adj"@,
    {
        process_path(self.procfs_root.as_str(), pid, "/oom_score_adj")
    }

    /// The command line file of `pid`.
    pub fn cmdline(&self, pid: i32) -> (r: String)
        ensures
            r@ == process_dir(self.procfs_root@, pid) + "/cmdline"@,
    {
        process_path(self.procfs_root.as_str(), pid, "/cmdline")
    }

    /// The procfs root itself.
    pub fn procfs(&self) -> (r: String)
        ensures
            r@ == self.procfs_root@,
    {
        self.procfs_root.clone()
    }
}

impl Provider for SystemCGroups {
    fn path_to_memory_max(&self, version: CGroupsVersions, pid: i32) -> (r: String)
        ensures
            r@ == memory_max_path(self.procfs_root@, pid, version),
    {
        self.memory_max(version, pid)
    }

    fn path_to_memory_current(&self, version: CGroupsVersions, pid: i32) -> (r: String)
        ensures
            r@ == memory_current_path(self.procfs_root@, pid, version),
    {
        self.memory_current(version, pid)
    }

    fn path_to_memory_pressure(&self, version: CGroupsVersions, pid: i32) -> (r: Result<
        String,
        Error,
    >)
        ensures
            pressure_path_result(r, self.procfs_root@, pid, version, "memory"@),
    {
        self.path_to_pressure_file(version, pid, "memory")
    }

    fn path_to_io_pressure(&self, version: CGroupsVersions, pid: i32) -> (r: Result<
        String,
        Error,
    >)
        ensures
            pressure_path_result(r, self.procfs_root@, pid, version, "io"@),
    {
        self.path_to_pressure_file(version, pid, "io")
    }

    fn path_to_cpu_pressure(&self, version: CGroupsVersions, pid: i32) -> (r: Result<
        String,
        Error,
    >)
        ensures
            pressure_path_result(r, self.procfs_root@, pid, version, "cpu"@),
    {
        self.path_to_pressure_file(version, pid, "cpu")
    }

    fn path_to_oom_score(&self, pid: i32) -> (r: String)
        ensures
            r@ == process_dir(self.procfs_root@, pid) + "/oom_score"@,
    {
        self.oom_score(pid)
    }

    fn path_to_oom_score_adj(&self, pid: i32) -> (r: String)
        ensures
            r@ == process_dir(self.procfs_root@, pid) + "/oom_score_adj"@,
    {
        self.oom_score_adj(pid)
    }

    fn path_to_cmdline(&self, pid: i32) -> (r: String)
        ensures
            r@ == process_dir(self.procfs_root@, pid) + "/cmdline"@,
    {
        self.cmdline(pid)
    }

    fn path_to_procfs(&self) -> (r: String)
        ensures
            r@ == self.procfs_root@,
    {
        self.procfs()
    }
}

/// Every file of a process lies in its own directory `{root}/{pid}` under the configured
/// procfs root, whatever the root: the pressure files under cgroups v2 and the memory files
/// under either version.
pub proof fn law_paths_under_root(
    root: Seq<char>,
    pid: i32,
    resource: Seq<char>,
    r: Result<String, Error>,
)
    ensures
        pressure_path(root, pid, resource) == root + "/"@ + decimal(pid as int)
            + "/root/sys/fs/cgroup/"@ + resource + ".pressure"@,
        pressure_path_result(r, root, pid, CGroupsVersions::CGroupsV2, resource) ==> r is Ok
            && r->Ok_0@ == root + "/"@ + decimal(pid as int) + "/root/sys/fs/cgroup/"@ + resource
            + ".pressure"@,
        memory_max_path(root, pid, CGroupsVersions::CGroupsV2) == root + "/"@ + decimal(pid as int)
            + "/root/sys/fs/cgroup/memory.max"@,
        memory_current_path(root, pid, CGroupsVersions::CGroupsV2) == root + "/"@ + decimal(
            pid as int,
        ) + "/root/sys/fs/cgroup/memory.current"@,
        memory_max_path(root, pid, CGroupsVersions::CGroupsV1) == root + "/"@ + decimal(pid as int)
            + "/root/sys/fs/cgroup/memory/memory.limit_in_bytes"@,
        memory_current_path(root, pid, CGroupsVersions::CGroupsV1) == root + "/"@ + decimal(
            pid as int,
        ) + "/root/sys/fs/cgroup/memory/memory.usage_in_bytes"@,
{
}

} // verus!
