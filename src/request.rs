//! The validated simulation request, and the factory that builds it from raw
//! command input.
use vstd::prelude::*;
use crate::cli::{Cli, SimulationType, Test};

verus! {

/// Why raw command input could not become a request.
#[derive(Clone, Copy, Debug, PartialEq, Eq, Structural)]
pub enum ConfigError {
    /// Both a threshold and the distribution flag were given.
    BothModes,
    /// Neither a threshold nor the distribution flag was given.
    NoMode,
    /// The sample size is zero.
    ZeroSampleSize,
    /// An iteration count of zero was given.
    ZeroIterations,
}

/// The validated, immutable configuration of one run.
#[derive(Clone, Copy, Debug, PartialEq)]
pub struct SimulationRequest<T> {
    /// Size of each simulated dataset.
    pub sample_size: usize,
    /// Overrides the engine's default iteration count when present.
    pub iterations: Option<usize>,
    /// Which statistical test drives sample generation.
    pub test_kind: Test,
    /// Which result the run produces.
    pub result_mode: SimulationType<T>,
}

impl<T> SimulationRequest<T> {
    /// The sizes are positive, as every request that `build_request` returns.
    pub open spec fn wf(&self) -> bool {
        &&& self.sample_size > 0
        &&& self.iterations matches Some(n) ==> n > 0
    }
}

/// The configuration error that raw input violates first, if any: the mode
/// selectors are checked before the sample size, and that before the
/// iteration count.
pub open spec fn config_error<T>(cli: Cli<T>) -> Option<ConfigError> {
    if cli.simulation_type.test_statistic.is_some() && cli.simulation_type.make_distribution {
        Some(ConfigError::BothModes)
    } else if cli.simulation_type.test_statistic.is_none() && !cli.simulation_type.make_distribution {
        Some(ConfigError::NoMode)
    } else if cli.samples == 0 {
        Some(ConfigError::ZeroSampleSize)
    } else if cli.iterations == Some(0usize) {
        Some(ConfigError::ZeroIterations)
    } else {
        None
    }
}

/// The request that raw input stands for, or the error that it violates.
pub open spec fn request_of<T>(cli: Cli<T>) -> Result<SimulationRequest<T>, ConfigError> {
    match config_error(cli) {
        Some(e) => Err(e),
        None => Ok(
            SimulationRequest {
                sample_size: cli.samples,
                iterations: cli.iterations,
                test_kind: cli.test,
                result_mode: cli.simulation_type.mode(),
            },
        ),
    }
}

/// Validates raw command input into a request. Exactly one of the two mode
/// selectors must be set, the sample size must be positive, and a given
/// iteration count must be positive; otherwise the first violated rule is
/// reported and no request is built.
pub fn build_request<T>(cli: Cli<T>) -> (r: Result<SimulationRequest<T>, ConfigError>)
    ensures
        r == request_of(cli),
        r is Ok <==> config_error(cli) is None,
        r matches Ok(req) ==> req.wf() && req.sample_size == cli.samples
            && req.iterations == cli.iterations && req.test_kind == cli.test
            && req.result_mode == cli.simulation_type.mode(),
{
    if !cli.simulation_type.selects_one() {
        if cli.simulation_type.make_distribution {
            return Err(ConfigError::BothModes);
        } else {
            return Err(ConfigError::NoMode);
        }
    }
    if cli.samples == 0 {
        return Err(ConfigError::ZeroSampleSize);
    }
    if let Some(n) = cli.iterations {
        if n == 0 {
            return Err(ConfigError::ZeroIterations);
        }
    }
    let test = cli.test;
    let iterations = cli.iterations;
    let samples = cli.samples;
    let result_mode = cli.simulation_type.condence();
    Ok(SimulationRequest { sample_size: samples, iterations, test_kind: test, result_mode })
}

/// Raw input with exactly one mode selector set, a positive sample size and
/// no zero iteration count yields a request whose mode is the condensed pair:
/// `(Some(t), false)` gives `TestStatistic(t)` and `(None, true)` gives
/// `MakeDistribution`. Input with both selectors set or neither yields a
/// configuration error and no request.
pub proof fn lemma_request_mode<T>(cli: Cli<T>)
    ensures
        !cli.simulation_type.is_valid() ==> request_of(cli) is Err,
        cli.simulation_type.test_statistic is Some && cli.simulation_type.make_distribution
            ==> request_of(cli) == Err::<SimulationRequest<T>, ConfigError>(ConfigError::BothModes),
        cli.simulation_type.test_statistic is None && !cli.simulation_type.make_distribution
            ==> request_of(cli) == Err::<SimulationRequest<T>, ConfigError>(ConfigError::NoMode),
        cli.simulation_type.is_valid() && cli.samples > 0 && cli.iterations != Some(0usize)
            ==> request_of(cli) is Ok,
        cli.simulation_type.test_statistic is Some && !cli.simulation_type.make_distribution
            && cli.samples > 0 && cli.iterations != Some(0usize) ==> request_of(cli)->Ok_0.result_mode
            == SimulationType::TestStatistic(cli.simulation_type.test_statistic->0),
        cli.simulation_type.test_statistic is None && cli.simulation_type.make_distribution
            && cli.samples > 0 && cli.iterations != Some(0usize) ==> request_of(cli)->Ok_0.result_mode
            == SimulationType::<T>::MakeDistribution,
{
}

/// Building a request holds no hidden state: the same raw input gives the
/// same outcome, field for field, however often it is built.
pub proof fn lemma_request_deterministic<T>(a: Cli<T>, b: Cli<T>)
    requires
        a == b,
    ensures
        request_of(a) == request_of(b),
        request_of(a) matches Ok(ra) ==> request_of(b) matches Ok(rb) && ra.sample_size
            == rb.sample_size && ra.iterations == rb.iterations && ra.test_kind == rb.test_kind
            && ra.result_mode == rb.result_mode,
{
}

} // verus!
