//! A shadow-execution harness: it runs a trusted **control** code path and a
//! candidate **experiment** code path side by side, captures their outcomes,
//! and hands both to a caller-supplied publisher, while the caller only ever
//! receives the control's outcome. The experiment's value is observed and
//! compared, never returned.
//!
//! Two engines share one result model:
//!
//! - [`Experiment`] drives ordinary computations on the calling thread,
//!   isolates the failure of either path as a recorded value, measures
//!   wall-clock durations, and hands back the control's outcome — the
//!   captured control failure included — after publishing.
//! - [`AsyncExperiment`] holds deferred computations. Its builder stages and
//!   its conclusion step live here; driving the two computations to
//!   completion is the caller's part, since it happens under `await`.
//!
//! Both engines are single-use builders: every configuration step consumes
//! the current stage and returns the next, and only a fully configured
//! experiment can run.

pub mod async_experiment;
pub mod execution;
pub mod experiment;
pub mod observation;

pub use async_experiment::AsyncExperiment;
pub use experiment::Experiment;
pub use observation::Observation;
