//! Configuration, validation and dispatch for Monte-Carlo runs of the
//! Kolmogorov-Smirnov and Lilliefors goodness-of-fit tests.
//!
//! The threshold of the "probability below" mode is a real number; the
//! library keeps it generic (`T`), so that the rules that pick and check a
//! run are stated and proved whatever type carries that number.
pub mod cli;
pub mod request;
pub mod dispatch;

pub use request::{build_request, ConfigError, SimulationRequest};

pub use cli::{Cli, SimulationType, SimulationTypeArg, Test};


pub use dispatch::{effective_iterations, plan_run, prepare_run, select_sample, Operation, RunPlan, SampleConfig};
