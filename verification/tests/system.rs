use oomhero::cgroups;
use oomhero::errors::Error;
use oomhero::system::{version_from_filesystem_type, CGroupsVersions, Provider, SystemCGroups};
use oomhero::v2;

#[test]
fn default_root_is_proc() {
    let sys = SystemCGroups::default();
    assert_eq!(sys.procfs_root, "/proc");
    assert_eq!(sys.path_to_procfs(), "/proc");
}

#[test]
fn with_procfs_root_changes_every_path() {
    let sys = SystemCGroups::default().with_procfs_root("/tmp/fake".to_string());
    assert_eq!(sys.path_to_oom_score(12), "/tmp/fake/12/oom_score");
    assert_eq!(sys.path_to_oom_score_adj(12), "/tmp/fake/12/oom_score_adj");
    assert_eq!(sys.path_to_cmdline(12), "/tmp/fake/12/cmdline");
    assert_eq!(
        sys.path_to_memory_max(CGroupsVersions::CGroupsV2, 12),
        "/tmp/fake/12/root/sys/fs/cgroup/memory.max"
    );
    assert_eq!(
        sys.path_to_memory_current(CGroupsVersions::CGroupsV2, 12),
        "/tmp/fake/12/root/sys/fs/cgroup/memory.current"
    );
    assert_eq!(
        sys.path_to_memory_max(CGroupsVersions::CGroupsV1, 12),
        "/tmp/fake/12/root/sys/fs/cgroup/memory/memory.limit_in_bytes"
    );
    assert_eq!(
        sys.path_to_memory_current(CGroupsVersions::CGroupsV1, 12),
        "/tmp/fake/12/root/sys/fs/cgroup/memory/memory.usage_in_bytes"
    );
}

#[test]
fn pressure_paths_only_on_v2() {
    let sys = SystemCGroups::default();
    assert_eq!(
        sys.path_to_io_pressure(CGroupsVersions::CGroupsV2, 3).unwrap(),
        "/proc/3/root/sys/fs/cgroup/io.pressure"
    );
    assert_eq!(
        sys.path_to_cpu_pressure(CGroupsVersions::CGroupsV2, 3).unwrap(),
        "/proc/3/root/sys/fs/cgroup/cpu.pressure"
    );
    match sys.path_to_memory_pressure(CGroupsVersions::CGroupsV1, 3) {
        Err(Error::Message(m)) => assert_eq!(m, "pressure not supported on v1"),
        _ => panic!("expected an error"),
    }
}

#[test]
fn negative_pid_path() {
    let sys = SystemCGroups::default();
    assert_eq!(sys.path_to_cmdline(-5), "/proc/-5/cmdline");
}

#[test]
fn cgroups_version_from_magic() {
    assert_eq!(version_from_filesystem_type(0x63677270), CGroupsVersions::CGroupsV2);
    assert_eq!(version_from_filesystem_type(0x01021994), CGroupsVersions::CGroupsV1);
    assert_eq!(CGroupsVersions::default(), CGroupsVersions::CGroupsV1);
}

#[test]
fn fixed_root_cgroups_paths() {
    let c = cgroups::SystemCGroups {};
    assert_eq!(
        c.memory_max(CGroupsVersions::CGroupsV2, 44),
        "/proc/44/root/sys/fs/cgroup/memory.max"
    );
    assert_eq!(
        c.path_to_pressure_file(CGroupsVersions::CGroupsV2, 44, "memory").unwrap(),
        "/proc/44/root/sys/fs/cgroup/memory.pressure"
    );
    assert!(c.path_to_pressure_file(CGroupsVersions::CGroupsV1, 44, "memory").is_err());
}

#[test]
fn earlier_generation_paths() {
    assert_eq!(
        v2::cgroups::path_to_memory_max(CGroupsVersions::CGroupsV1, 8),
        "/proc/8/root/sys/fs/cgroup/memory/memory.limit_in_bytes"
    );
    assert_eq!(
        v2::cgroups::path_to_memory_current(CGroupsVersions::CGroupsV2, 8),
        "/proc/8/root/sys/fs/cgroup/memory.current"
    );
}
