//! Structured concurrency patterns: the jobs that run on threads of their own,
//! how the first finished job of a race is picked, and the error a race or a
//! rush answers when no job finished.

mod error;
mod job;
mod race;

pub use error::NoSuccessfulJobError;
pub use job::{into_job, into_race_job, Job, JobFn, RaceJob, RaceJobFn};
pub use race::{claim_finish, claim_outcome, first_finished, should_stop};
