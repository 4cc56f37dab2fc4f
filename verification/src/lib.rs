//! A bounded-concurrency fan-out/fan-in proving pipeline.
//!
//! A job carries an ordered list of unit inputs. Each unit is executed under
//! an admission limit, its result is classified as a success, a recoverable
//! failure or a fatal failure, a fatal failure cancels the units that have not
//! started yet, and the successful per-unit outputs are reduced to a single
//! job-level fingerprint by a deterministic, job-kind-dependent rule.

pub mod admission;
pub mod cancellation;
pub mod collector;
pub mod error;
pub mod hashing;
pub mod laws;
pub mod outcome;
pub mod pipeline;
pub mod task;
pub mod unit;

pub use error::JobError;
pub use error::UnitError;
pub use outcome::UnitOutcome;
pub use outcome::UnitOutput;
pub use pipeline::JobResult;
pub use pipeline::ProvingPipeline;
pub use task::Task;
pub use task::TaskType;
