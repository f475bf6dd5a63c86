use monty_cli::{build_request, Cli, ConfigError, SimulationType, SimulationTypeArg, Test};

fn raw(
    samples: usize,
    iterations: Option<usize>,
    test_statistic: Option<f64>,
    make_distribution: bool,
    test: Test,
) -> Cli<f64> {
    Cli {
        samples,
        iterations,
        simulation_type: SimulationTypeArg { test_statistic, make_distribution },
        test,
    }
}

#[test]
fn threshold_alone_selects_test_statistic() {
    let req = build_request(raw(30, None, Some(0.5), false, Test::KolmogorovSmirnov)).unwrap();
    assert_eq!(req.result_mode, SimulationType::TestStatistic(0.5));
    assert_eq!(req.sample_size, 30);
    assert_eq!(req.iterations, None);
    assert_eq!(req.test_kind, Test::KolmogorovSmirnov);
}

#[test]
fn flag_alone_selects_make_distribution() {
    let req = build_request(raw(50, Some(1000), None, true, Test::Lilliefors)).unwrap();
    assert_eq!(req.result_mode, SimulationType::MakeDistribution);
    assert_eq!(req.sample_size, 50);
    assert_eq!(req.iterations, Some(1000));
    assert_eq!(req.test_kind, Test::Lilliefors);
}

#[test]
fn both_selectors_are_rejected() {
    let r = build_request(raw(30, None, Some(0.5), true, Test::KolmogorovSmirnov));
    assert_eq!(r, Err(ConfigError::BothModes));
}

#[test]
fn no_selector_is_rejected() {
    let r = build_request(raw(30, None, None, false, Test::KolmogorovSmirnov));
    assert_eq!(r, Err(ConfigError::NoMode));
}

#[test]
fn zero_sample_size_is_rejected() {
    let r = build_request(raw(0, None, Some(0.5), false, Test::Lilliefors));
    assert_eq!(r, Err(ConfigError::ZeroSampleSize));
}

#[test]
fn zero_iterations_are_rejected() {
    let r = build_request(raw(30, Some(0), None, true, Test::Lilliefors));
    assert_eq!(r, Err(ConfigError::ZeroIterations));
}

#[test]
fn mode_error_is_reported_before_size_errors() {
    let r = build_request(raw(0, Some(0), None, false, Test::Lilliefors));
    assert_eq!(r, Err(ConfigError::NoMode));
    let r = build_request(raw(0, Some(0), Some(1.0), true, Test::Lilliefors));
    assert_eq!(r, Err(ConfigError::BothModes));
    let r = build_request(raw(0, Some(0), Some(1.0), false, Test::Lilliefors));
    assert_eq!(r, Err(ConfigError::ZeroSampleSize));
}

#[test]
fn largest_sizes_are_accepted() {
    let req = build_request(raw(usize::MAX, Some(usize::MAX), None, true, Test::Lilliefors)).unwrap();
    assert_eq!(req.sample_size, usize::MAX);
    assert_eq!(req.iterations, Some(usize::MAX));
}

#[test]
fn same_input_builds_same_request() {
    let input = raw(30, Some(200), Some(0.25), false, Test::Lilliefors);
    let a = build_request(input);
    let b = build_request(input);
    assert_eq!(a, b);
    assert!(a.is_ok());
}

#[test]
fn condence_maps_each_valid_pair() {
    let a = SimulationTypeArg { test_statistic: Some(-1.5), make_distribution: false };
    assert!(a.selects_one());
    assert_eq!(a.condence(), SimulationType::TestStatistic(-1.5));
    let b: SimulationTypeArg<f64> = SimulationTypeArg { test_statistic: None, make_distribution: true };
    assert!(b.selects_one());
    assert_eq!(b.condence(), SimulationType::MakeDistribution);
    let c = SimulationTypeArg { test_statistic: Some(2.0), make_distribution: true };
    assert!(!c.selects_one());
    let d: SimulationTypeArg<f64> = SimulationTypeArg { test_statistic: None, make_distribution: false };
    assert!(!d.selects_one());
}
