//! The decisions of one run: which sample generator the engine gets, how
//! many iterations it runs, and which of its operations is invoked. The
//! engine itself runs outside the library, on the plan made here.
use vstd::prelude::*;
use crate::cli::{Cli, SimulationType, Test};
use crate::request::{build_request, request_of, ConfigError, SimulationRequest};

verus! {

/// The sample generator of a run: a standard normal reference, with or
/// without a normal fit re-estimated from each simulated sample.
#[derive(Clone, Copy, Debug, PartialEq, Eq, Structural)]
pub enum SampleConfig {
    /// Plain normal-reference samples, tested by Kolmogorov-Smirnov.
    KolmogorovSmirnov { sample_size: usize },
    /// Normal-reference samples coupled with a normal fit, tested by Lilliefors.
    Lilliefors { sample_size: usize },
}

impl SampleConfig {
    /// The size of each dataset that the generator produces.
    pub open spec fn spec_sample_size(self) -> usize {
        match self {
            SampleConfig::KolmogorovSmirnov { sample_size } => sample_size,
            SampleConfig::Lilliefors { sample_size } => sample_size,
        }
    }

    /// Whether the normal parameters are re-estimated from each sample.
    pub open spec fn fits_parameters(self) -> bool {
        self is Lilliefors
    }

    /// The size of each dataset that the generator produces.
    pub fn sample_size(&self) -> (r: usize)
        ensures
            r == self.spec_sample_size(),
    {
        match self {
            SampleConfig::KolmogorovSmirnov { sample_size } => *sample_size,
            SampleConfig::Lilliefors { sample_size } => *sample_size,
        }
    }
}

/// The operation of the engine that a run invokes.
#[derive(Clone, Copy, Debug, PartialEq)]
pub enum Operation<T> {
    /// Estimate the probability that the statistic is below the threshold.
    ProbabilityBelow(T),
    /// Produce every statistic computed, one per iteration.
    Distribution,
}

/// Everything the engine needs for one run, fixed before the first iteration.
#[derive(Clone, Copy, Debug, PartialEq)]
pub struct RunPlan<T> {
    /// The sample generator handed to the engine.
    pub sample: SampleConfig,
    /// The iteration count the engine runs with.
    pub iterations: usize,
    /// The one operation invoked on the engine.
    pub operation: Operation<T>,
}

/// The generator that a test kind selects, for datasets of the given size.
pub open spec fn sample_of(test: Test, sample_size: usize) -> SampleConfig {
    match test {
        Test::KolmogorovSmirnov => SampleConfig::KolmogorovSmirnov { sample_size },
        Test::Lilliefors => SampleConfig::Lilliefors { sample_size },
    }
}

/// The iteration count in force: the override when present, else the
/// engine's default.
pub open spec fn iterations_of(iterations: Option<usize>, default_iterations: usize) -> usize {
    match iterations {
        Some(n) => n,
        None => default_iterations,
    }
}

/// The engine operation that a result mode calls for.
pub open spec fn operation_of<T>(mode: SimulationType<T>) -> Operation<T> {
    match mode {
        SimulationType::TestStatistic(t) => Operation::ProbabilityBelow(t),
        SimulationType::MakeDistribution => Operation::Distribution,
    }
}

/// The plan of a run of the request, on an engine whose default iteration
/// count is `default_iterations`.
pub open spec fn plan_of<T>(req: SimulationRequest<T>, default_iterations: usize) -> RunPlan<T> {
    RunPlan {
        sample: sample_of(req.test_kind, req.sample_size),
        iterations: iterations_of(req.iterations, default_iterations),
        operation: operation_of(req.result_mode),
    }
}

/// Selects the sample generator of a test kind: Kolmogorov-Smirnov gets plain
/// normal samples, Lilliefors gets normal samples coupled with a normal fit.
pub fn select_sample(test: Test, sample_size: usize) -> (r: SampleConfig)
    ensures
        r == sample_of(test, sample_size),
        r.spec_sample_size() == sample_size,
        r.fits_parameters() <==> test == Test::Lilliefors,
{
    match test {
        Test::KolmogorovSmirnov => SampleConfig::KolmogorovSmirnov { sample_size },
        Test::Lilliefors => SampleConfig::Lilliefors { sample_size },
    }
}

/// The iteration count in force: the override when present, else the
/// engine's default.
pub fn effective_iterations(iterations: Option<usize>, default_iterations: usize) -> (r: usize)
    ensures
        r == iterations_of(iterations, default_iterations),
        iterations matches Some(n) ==> r == n,
        iterations is None ==> r == default_iterations,
{
    match iterations {
        Some(n) => n,
        None => default_iterations,
    }
}

/// Plans the run of a request on an engine whose default iteration count is
/// `default_iterations`: the generator its test kind selects, the iteration
/// count in force, and the one operation its result mode calls for.
pub fn plan_run<T>(req: SimulationRequest<T>, default_iterations: usize) -> (r: RunPlan<T>)
    ensures
        r == plan_of(req, default_iterations),
        r.sample == sample_of(req.test_kind, req.sample_size),
        r.iterations == iterations_of(req.iterations, default_iterations),
        r.operation == operation_of(req.result_mode),
{
    let sample = select_sample(req.test_kind, req.sample_size);
    let iterations = effective_iterations(req.iterations, default_iterations);
    let operation = match req.result_mode {
        SimulationType::TestStatistic(t) => Operation::ProbabilityBelow(t),
        SimulationType::MakeDistribution => Operation::Distribution,
    };
    RunPlan { sample, iterations, operation }
}

/// Validates raw command input and plans its run, on an engine whose default
/// iteration count is `default_iterations`; a configuration error stops
/// before any plan exists.
pub fn prepare_run<T>(cli: Cli<T>, default_iterations: usize) -> (r: Result<RunPlan<T>, ConfigError>)
    ensures
        request_of(cli) matches Ok(req) ==> r == Ok::<RunPlan<T>, ConfigError>(
            plan_of(req, default_iterations),
        ),
        request_of(cli) matches Err(e) ==> r == Err::<RunPlan<T>, ConfigError>(e),
{
    match build_request(cli) {
        Ok(req) => Ok(plan_run(req, default_iterations)),
        Err(e) => Err(e),
    }
}

/// An iteration override takes precedence over the engine's default, in
/// either result mode; without one the default is kept.
pub proof fn lemma_override_precedence<T>(req: SimulationRequest<T>, default_iterations: usize)
    ensures
        req.iterations matches Some(n) ==> plan_of(req, default_iterations).iterations == n,
        req.iterations is None ==> plan_of(req, default_iterations).iterations == default_iterations,
{
}

/// From raw input on: whenever an iteration count is given and the input is
/// valid, the run is planned with that count, in either result mode.
pub proof fn lemma_override_from_input<T>(cli: Cli<T>, default_iterations: usize)
    ensures
        cli.iterations matches Some(n) ==> (request_of(cli) matches Ok(req) ==> plan_of(
            req,
            default_iterations,
        ).iterations == n),
{
}

/// A run invokes exactly one engine operation: the probability below the
/// threshold in the `TestStatistic` mode, never the distribution; the
/// distribution in the `MakeDistribution` mode, over the iteration count in
/// force.
pub proof fn lemma_mode_exclusive<T>(req: SimulationRequest<T>, default_iterations: usize)
    ensures
        req.result_mode matches SimulationType::TestStatistic(t) ==> plan_of(
            req,
            default_iterations,
        ).operation == Operation::ProbabilityBelow(t),
        req.result_mode is TestStatistic ==> plan_of(req, default_iterations).operation !is Distribution,
        req.result_mode is MakeDistribution ==> plan_of(req, default_iterations).operation
            is Distribution && plan_of(req, default_iterations).iterations == iterations_of(
            req.iterations,
            default_iterations,
        ),
{
}

} // verus!
