//! Raw command input, as the command line hands it over, and the isomorphism
//! from its valid part to the result mode of a run.
use vstd::prelude::*;

verus! {

/// Which goodness-of-fit test drives sample generation.
#[derive(Clone, Copy, Debug, PartialEq, Eq, Structural)]
pub enum Test {
    /// The Kolmogorov-Smirnov test against a fully specified normal.
    KolmogorovSmirnov,
    /// The Lilliefors test: normal parameters are re-estimated per sample.
    Lilliefors,
}

/// The two raw selectors of the result mode: a threshold for the
/// "probability below" mode and a flag for the "distribution" mode.
#[derive(Clone, Copy, Debug, PartialEq)]
pub struct SimulationTypeArg<T> {
    /// Calculate the probability that the statistic is less than this value.
    pub test_statistic: Option<T>,
    /// Output the distribution of statistics in the simulation.
    pub make_distribution: bool,
}

/// Which result is requested from the simulation.
#[derive(Clone, Copy, Debug, PartialEq)]
pub enum SimulationType<T> {
    /// Probability that the test statistic is less than the value.
    TestStatistic(T),
    /// The distribution of statistics in the simulation.
    MakeDistribution,
}

/// Raw command input: every field as given, nothing checked yet.
#[derive(Clone, Copy, Debug, PartialEq)]
pub struct Cli<T> {
    /// The size of each simulated dataset.
    pub samples: usize,
    /// Number of iterations of the simulation, if the default is overridden.
    pub iterations: Option<usize>,
    /// Which result should be produced.
    pub simulation_type: SimulationTypeArg<T>,
    /// The statistical test to be simulated.
    pub test: Test,
}

impl<T> SimulationTypeArg<T> {
    /// Exactly one of the two selectors is set.
    pub open spec fn is_valid(&self) -> bool {
        self.test_statistic.is_some() != self.make_distribution
    }

    /// The result mode that a valid pair of selectors stands for.
    pub open spec fn mode(self) -> SimulationType<T> {
        match self.test_statistic {
            Some(t) => SimulationType::TestStatistic(t),
            None => SimulationType::MakeDistribution,
        }
    }

    /// Whether exactly one of the two selectors is set.
    pub fn selects_one(&self) -> (r: bool)
        ensures
            r == self.is_valid(),
    {
        self.test_statistic.is_some() != self.make_distribution
    }

    /// The isomorphism from the valid selector pairs to the result modes:
    /// `(Some(t), false)` gives `TestStatistic(t)`, `(None, true)` gives
    /// `MakeDistribution`.
    pub fn condence(self) -> (r: SimulationType<T>)
        requires
            self.is_valid(),
        ensures
            r == self.mode(),
            self.test_statistic matches Some(t) ==> r == SimulationType::TestStatistic(t),
            self.make_distribution ==> r == SimulationType::<T>::MakeDistribution,
    {
        if let Some(test_statistic) = self.test_statistic {
            SimulationType::TestStatistic(test_statistic)
        } else {
            SimulationType::MakeDistribution
        }
    }
}

impl<T> SimulationType<T> {
    /// The selector pair that stands for this mode: the inverse of `condence`.
    pub open spec fn selectors(self) -> SimulationTypeArg<T> {
        match self {
            SimulationType::TestStatistic(t) => SimulationTypeArg {
                test_statistic: Some(t),
                make_distribution: false,
            },
            SimulationType::MakeDistribution => SimulationTypeArg {
                test_statistic: None,
                make_distribution: true,
            },
        }
    }
}

/// Condensing is one-to-one on valid selector pairs: each mode comes from
/// exactly one valid pair, and each valid pair comes back from its mode.
pub proof fn lemma_condence_isomorphism<T>(a: SimulationTypeArg<T>, m: SimulationType<T>)
    ensures
        a.is_valid() ==> a.mode().selectors() == a,
        m.selectors().is_valid(),
        m.selectors().mode() == m,
{
}

} // verus!
