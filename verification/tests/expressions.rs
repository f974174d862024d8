use fasteval::Evaler;
use oomhero::arguments::{parse_duration, validate_expression, CheckerResult, ThresholdsChecker};
use oomhero::errors::Error;
use oomhero::processes::{Resource, StallSeverity, StallWindow};
use oomhero::thresholds::{resolve_variable, Thresholds, Variable};

#[test]
fn new_thresholds_checker_validation() {
    assert!(validate_expression("0").is_ok());
    assert_eq!(validate_expression("memory_usage > 70").unwrap(), "memory_usage > 70");
    let err = validate_expression(">").unwrap_err();
    assert!(err.starts_with("invalid expression: "));
}

#[test]
fn thresholds_validate_and_describe() {
    let t = Thresholds { warning: "1".to_string(), critical: "memory_usage >".to_string() };
    assert!(matches!(t.validate(), Err(Error::Expression(_))));
    let t = Thresholds { warning: "1".to_string(), critical: "0".to_string() };
    assert!(t.validate().is_ok());
    assert_eq!(t.describe(), "w:'1', c:'0' ");
}

#[test]
fn checker_result_precedence_and_names() {
    assert_eq!(CheckerResult::from_matches(true, true), CheckerResult::Critical);
    assert_eq!(CheckerResult::from_matches(true, false), CheckerResult::Warning);
    assert_eq!(CheckerResult::from_matches(false, false), CheckerResult::NoMatch);
    assert_eq!(CheckerResult::Critical.as_str(), "critical");
    assert_eq!(CheckerResult::Warning.as_str(), "warning");
    assert_eq!(CheckerResult::NoMatch.as_str(), "none");
}

#[test]
fn durations() {
    assert_eq!(parse_duration("100ms"), Ok(100_000_000));
    assert_eq!(parse_duration("30s"), Ok(30_000_000_000));
    assert_eq!(parse_duration(""), Err("Empty input".to_string()));
}

#[test]
fn variables_resolve() {
    assert_eq!(resolve_variable("memory_usage"), Some(Variable::MemoryUsage));
    assert_eq!(resolve_variable("memory_current"), Some(Variable::MemoryCurrent));
    assert_eq!(resolve_variable("memory_max"), Some(Variable::MemoryMax));
    assert_eq!(resolve_variable("oom_score"), Some(Variable::OomScore));
    assert_eq!(resolve_variable("oom_score_adj"), Some(Variable::OomScoreAdj));
    assert_eq!(
        resolve_variable("memory_pressure_full_avg10"),
        Some(Variable::Pressure(Resource::Memory, StallSeverity::Full, StallWindow::Avg10))
    );
    assert_eq!(
        resolve_variable("cpu_pressure_some_total"),
        Some(Variable::Pressure(Resource::Cpu, StallSeverity::Partial, StallWindow::Total))
    );
    assert_eq!(
        resolve_variable("io_pressure_some_avg300"),
        Some(Variable::Pressure(Resource::Io, StallSeverity::Partial, StallWindow::Avg300))
    );
    assert_eq!(resolve_variable("memory_pressure_half_avg10"), None);
    assert_eq!(resolve_variable("usage"), None);
}

#[test]
fn new_thresholds_checker() {
    assert_eq!(
        ThresholdsChecker::new_from(&String::from("0"), &String::from("0"),).is_ok(),
        true
    );
    assert_eq!(
        ThresholdsChecker::new_from(&String::from(">"), &String::from("0"),).is_ok(),
        false
    );
}

#[test]
fn thresholds_checker_parses_each_expression() {
    let t = Thresholds { warning: "memory_usage > 10".to_string(), critical: "(".to_string() };
    assert!(matches!(t.checker(), Err(Error::Expression(_))));
    let t = Thresholds { warning: "memory_usage > 10".to_string(), critical: "1".to_string() };
    assert!(t.checker().is_ok());
    assert!(matches!(
        ThresholdsChecker::new_from("1 +", "1"),
        Err(Error::Expression(_))
    ));
}

// Evaluates the compiled critical expression, then the warning one, against a process with
// the given memory figures and full memory pressure over ten seconds; every other variable
// reads as zero.
fn evaluate(check: &ThresholdsChecker, memory_max: u64, memory_current: u64, pressure: f64) -> CheckerResult {
    let mut ns = |name: &str, _args: Vec<f64>| -> Option<f64> {
        match resolve_variable(name)? {
            Variable::MemoryUsage => Some(if memory_max > 0 {
                memory_current as f64 / memory_max as f64 * 100.
            } else {
                0.
            }),
            Variable::MemoryCurrent => Some(memory_current as f64),
            Variable::MemoryMax => Some(memory_max as f64),
            Variable::Pressure(Resource::Memory, StallSeverity::Full, StallWindow::Avg10) => {
                Some(pressure)
            }
            _ => Some(0.),
        }
    };
    let critical = check.critical();
    let value = critical
        .instruction()
        .eval(critical.slab(), &mut ns)
        .expect("failed to check against valid collect data");
    if value >= 1. {
        return CheckerResult::Critical;
    }
    let warning = check.warning();
    let value = warning
        .instruction()
        .eval(warning.slab(), &mut ns)
        .expect("failed to check against valid collect data");
    CheckerResult::from_matches(value >= 1., false)
}

#[test]
fn thresholds_checker_math() {
    let check = ThresholdsChecker::new_from(&String::from("1 - 1"), &String::from("1"))
        .expect("failed to create valid thresholds checker");
    assert_eq!(evaluate(&check, 100, 0, 0.), CheckerResult::Critical);

    let check = ThresholdsChecker::new_from(&String::from("1 + 1 == 2"), &String::from("1 + 1 == 3"))
        .expect("failed to create valid thresholds checker");
    assert_eq!(evaluate(&check, 100, 0, 0.), CheckerResult::Warning);
}

#[test]
fn thresholds_checker_simple_evaluations() {
    let check = ThresholdsChecker::new_from(
        &String::from("memory_usage > 10"),
        &String::from("memory_usage > 20"),
    )
    .expect("failed to create valid thresholds checker");
    let cases: [(u64, CheckerResult); 5] = [
        (0, CheckerResult::NoMatch),
        (9, CheckerResult::NoMatch),
        (11, CheckerResult::Warning),
        (21, CheckerResult::Critical),
        (9, CheckerResult::NoMatch),
    ];
    for (current, expected) in cases {
        assert_eq!(evaluate(&check, 100, current, 0.), expected);
    }
}

#[test]
fn thresholds_checker_combined_evaluations() {
    let check = ThresholdsChecker::new_from(
        &String::from("memory_usage > 10 && memory_pressure_full_avg10 > 60"),
        &String::from("memory_usage > 20 && memory_pressure_full_avg10 > 70"),
    )
    .expect("failed to create valid thresholds checker");
    let cases = vec![
        (0, 0., CheckerResult::NoMatch),
        (11, 0., CheckerResult::NoMatch),
        (11, 100., CheckerResult::Warning),
        (21, 100., CheckerResult::Critical),
        (0, 100., CheckerResult::NoMatch),
    ];
    for (current, pressure, expected) in cases {
        assert_eq!(evaluate(&check, 100, current, pressure), expected);
    }
}

#[test]
fn thresholds_checker_different_counters() {
    let check = ThresholdsChecker::new_from(
        &String::from("memory_usage > 70"),
        &String::from("memory_pressure_full_avg10 > 20"),
    )
    .expect("failed to create valid thresholds checker");
    let cases = vec![
        (0, 0., CheckerResult::NoMatch),
        (70, 20., CheckerResult::NoMatch),
        (71, 20., CheckerResult::Warning),
        (100, 20., CheckerResult::Warning),
        (0, 21., CheckerResult::Critical),
    ];
    for (current, pressure, expected) in cases {
        assert_eq!(evaluate(&check, 100, current, pressure), expected);
    }
}

#[test]
fn thresholds_checker_keeps_each_text() {
    let check = ThresholdsChecker::new_from("memory_usage > 70", "oom_score > 900").unwrap();
    assert_eq!(check.warning().source(), "memory_usage > 70");
    assert_eq!(check.critical().source(), "oom_score > 900");
    let t = Thresholds { warning: "1 + 1".to_string(), critical: "2".to_string() };
    let parsed = t.checker().unwrap();
    assert_eq!(parsed.warning().source(), "1 + 1");
    assert_eq!(parsed.critical().source(), "2");
}
