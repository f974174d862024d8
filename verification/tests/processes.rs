use oomhero::errors::{Error, FloatErrorKind};
use oomhero::processes::{
    parse_pressure_data, CollectedFigures, DirEntryInfo, PressureFields, ProcFsReader,
    ProcessFiles, Resource, StallSeverity, StallWindow,
};
use oomhero::system::{CGroupsVersions, SystemCGroups};
use oomhero::text::IntErrorKind;

fn ok(s: &str) -> Result<String, Error> {
    Ok(s.to_string())
}

fn missing() -> Result<String, Error> {
    Err(Error::Io("No such file or directory (os error 2)".to_string()))
}

fn pressure(base: u32) -> String {
    format!(
        "some avg10={}.00 avg60={}.00 avg300={}.00 total={}\nfull avg10={}.00 avg60={}.00 avg300={}.00 total={}\n",
        base,
        base + 1,
        base + 2,
        base + 3,
        base + 4,
        base + 5,
        base + 6,
        base + 7
    )
}

fn files(oom: &str, adj: &str, max: &str, current: &str) -> ProcessFiles {
    ProcessFiles {
        oom_score: ok(oom),
        oom_score_adj: ok(adj),
        version: Ok(CGroupsVersions::CGroupsV2),
        memory_max: ok(max),
        memory_current: ok(current),
        memory_pressure: ok(&pressure(1)),
        io_pressure: ok(&pressure(9)),
        cpu_pressure: ok(&pressure(17)),
    }
}

fn reader() -> ProcFsReader {
    ProcFsReader::new(SystemCGroups::default())
}

fn value(f: &Option<String>) -> f32 {
    f.as_ref().map(|t| t.parse::<f32>().unwrap()).unwrap_or(0.)
}

fn usage(c: &CollectedFigures) -> f32 {
    if c.memory_max > 0 {
        c.memory_current as f32 / c.memory_max as f32 * 100.
    } else {
        0.
    }
}

#[test]
fn collect_process_data_no_oom_score() {
    let mut f = files("0\n", "0\n", "1000\n", "100\n");
    f.oom_score = missing();
    let result = reader().collect_process_data(&f);
    assert!(matches!(result, Err(Error::Io(_))));
}

#[test]
fn collect_process_data_no_oom_score_adj() {
    let mut f = files("0\n", "0\n", "1000\n", "100\n");
    f.oom_score_adj = missing();
    let result = reader().collect_process_data(&f);
    assert!(matches!(result, Err(Error::Io(_))));
}

#[test]
fn collect_process_data_invalid_oom_score_adj() {
    let f = files("0\n", "abc\n", "1000\n", "100\n");
    let result = reader().collect_process_data(&f);
    assert!(matches!(result, Err(Error::ParseIntError(IntErrorKind::InvalidDigit))));
}

#[test]
fn collect_process_data_no_memory_max_file() {
    let mut f = files("0\n", "0\n", "1000\n", "100\n");
    f.memory_max = missing();
    let result = reader().collect_process_data(&f);
    assert!(matches!(result, Err(Error::Io(_))));
}

#[test]
fn collect_process_data_unlimited_memory_process() {
    let mut f = files("0\n", "0\n", "max\n", "100\n");
    f.memory_current = missing();
    let result = reader().collect_process_data(&f).unwrap();
    assert_eq!(result.oom_score, 0);
    assert_eq!(result.memory_max as f32, 0.);
    assert_eq!(result.memory_current as f32, 0.);
    assert_eq!(usage(&result), 0.);
}

#[test]
fn collect_process_data_10_pct_memory_usage() {
    let f = files("0\n", "0\n", "1000\n", "100\n");
    let result = reader().collect_process_data(&f).unwrap();
    assert_eq!(result.oom_score, 0);
    assert_eq!(result.memory_max as f32, 1000.);
    assert_eq!(result.memory_current as f32, 100.);
    assert_eq!(usage(&result), 10.);
}

#[test]
fn collect_process_data_oom_with_adjustment() {
    let f = files("1000\n", "-100\n", "1000\n", "100\n");
    let result = reader().collect_process_data(&f).unwrap();
    assert_eq!(result.oom_score, 900);
    assert_eq!(result.oom_score_adj, -100);
}

#[test]
fn collect_process_data_invalid_pressure_data() {
    let mut f = files("0\n", "0\n", "1000\n", "100\n");
    f.memory_pressure = ok("some avg10=abc avg60=0.00 avg300=0.00 total=0\n");
    let result = reader().collect_process_data(&f);
    assert!(matches!(result, Err(Error::ParseFloatError(FloatErrorKind::Invalid))));
}

#[test]
fn collect_process_data_full_pressure_data() {
    let f = files("0\n", "0\n", "1000\n", "100\n");
    let result = reader().collect_process_data(&f).unwrap();
    let p = &result.pressure;
    let mut expected = 1.;
    for r in [Resource::Memory, Resource::Io, Resource::Cpu] {
        for s in [StallSeverity::Partial, StallSeverity::Full] {
            for w in [StallWindow::Avg10, StallWindow::Avg60, StallWindow::Avg300, StallWindow::Total] {
                assert_eq!(value(&p.figure(r, s, w)), expected);
                expected += 1.;
            }
        }
    }
}

#[test]
fn collect_process_data_v1_skips_pressure() {
    let mut f = files("3\n", "4\n", "200\n", "50\n");
    f.version = Ok(CGroupsVersions::CGroupsV1);
    f.memory_pressure = missing();
    f.io_pressure = ok("garbage");
    let result = reader().collect_process_data(&f).unwrap();
    assert_eq!(result.oom_score, 7);
    assert_eq!(result.memory_current, 50);
    assert_eq!(result.pressure.memory.some.avg10, None);
}

#[test]
fn collect_process_data_version_error() {
    let mut f = files("0\n", "0\n", "1000\n", "100\n");
    f.version = Err(Error::Nix(2));
    assert!(matches!(reader().collect_process_data(&f), Err(Error::Nix(2))));
}

#[test]
fn collect_process_data_version_error_before_memory_error() {
    let mut f = files("0\n", "0\n", "1000\n", "100\n");
    f.version = Err(Error::Nix(2));
    f.memory_max = missing();
    assert!(matches!(reader().collect_process_data(&f), Err(Error::Nix(2))));
}

#[test]
fn collect_process_data_limit_above_i32() {
    let f = files("0\n", "0\n", "4294967296\n", "2147483648\n");
    let result = reader().collect_process_data(&f).unwrap();
    assert_eq!(result.memory_max, 4294967296);
    assert_eq!(result.memory_current, 2147483648);
    assert_eq!(usage(&result), 50.);
}

#[test]
fn collect_process_data_oom_score_out_of_range() {
    let f = files("2147483647\n", "1\n", "1000\n", "100\n");
    assert!(matches!(reader().collect_process_data(&f), Err(Error::Message(_))));
}

#[test]
fn pressure_unknown_line() {
    match parse_pressure_data("weird avg10=1.00\n") {
        Err(Error::Message(m)) => assert_eq!(m, "unknown field weird"),
        _ => panic!("expected an error"),
    }
}

#[test]
fn pressure_unknown_key() {
    match parse_pressure_data("some avg11=1.00\n") {
        Err(Error::Message(m)) => assert_eq!(m, "unknown field avg11"),
        _ => panic!("expected an error"),
    }
}

#[test]
fn pressure_ignores_tokens_without_single_equals() {
    let r = parse_pressure_data("some foo avg10=1.5 a=b=c\n\n").unwrap();
    assert_eq!(r.some.avg10.as_deref(), Some("1.5"));
    assert_eq!(r.full.avg10, None);
}

#[test]
fn pressure_empty_value() {
    assert!(matches!(
        parse_pressure_data("full total="),
        Err(Error::ParseFloatError(FloatErrorKind::Empty))
    ));
}

#[test]
fn pressure_kernel_format() {
    let r = parse_pressure_data(
        "some avg10=0.12 avg60=0.34 avg300=0.56 total=123456\nfull avg10=0.00 avg60=0.00 avg300=0.00 total=7\n",
    )
    .unwrap();
    assert_eq!(r.some.total.as_deref(), Some("123456"));
    assert_eq!(r.some.avg60.as_deref(), Some("0.34"));
    assert_eq!(r.full.total.as_deref(), Some("7"));
    let empty = PressureFields { avg10: None, avg60: None, avg300: None, total: None };
    assert_eq!(empty.avg300, None);
}

fn entry(is_dir: Option<bool>, name: Option<&str>) -> DirEntryInfo {
    DirEntryInfo { is_dir, name: name.map(|n| n.to_string()) }
}

#[test]
fn processes_list_works() {
    let entries = vec![
        entry(Some(true), Some("1")),
        entry(Some(true), Some("22")),
        entry(Some(true), Some("self")),
        entry(Some(false), Some("33")),
        entry(Some(true), Some("333")),
        entry(None, Some("44")),
        entry(Some(true), None),
        entry(Some(true), Some("4444")),
        entry(Some(true), Some("55555")),
        entry(Some(true), Some("sys")),
    ];
    let pids = reader().list_pids(&entries);
    assert_eq!(pids, vec![1, 22, 333, 4444, 55555]);
    assert_eq!(pids.len(), 5);
}

#[test]
fn processeses_list_list_works() {
    let entries = vec![
        entry(Some(true), Some("7")),
        entry(Some(true), Some("x7")),
        entry(Some(true), Some("8")),
        entry(Some(false), Some("9")),
        entry(Some(true), Some("10")),
        entry(Some(true), Some("11")),
        entry(Some(true), Some("12")),
        entry(Some(true), Some("bus")),
    ];
    let result = reader().list_pids(&entries);
    assert_eq!(result.len(), 5);
    assert_eq!(result, vec![7, 8, 10, 11, 12]);
}

#[test]
fn command_without_arguments() {
    let r = reader();
    assert_eq!(r.command(&ok("/usr/bin/app\0--flag\0value\0")), "/usr/bin/app");
    assert_eq!(r.command(&ok("")), "");
    assert_eq!(r.command(&missing()), "");
    let p = r.process(9, &ok("init\0"));
    assert_eq!(p.pid, 9);
    assert_eq!(p.cmdline, "init");
}
