use vstd::prelude::*;

verus! {

/// An error returned from a race or a rush.
///
/// This error indicates that no job completed successfully.
/// Either no jobs were provided or all jobs panicked/failed to send results.
#[derive(Debug, PartialEq, Eq, Clone, Copy, Structural)]
pub struct NoSuccessfulJobError;

/// The text that describes a [`NoSuccessfulJobError`].
pub open spec fn no_successful_job_message() -> Seq<char> {
    "No job completed successfully; Either no jobs were provided or all jobs failed"@
}

impl NoSuccessfulJobError {
    /// The human-readable description of the error.
    pub fn message(&self) -> (text: String)
        ensures
            text@ == no_successful_job_message(),
    {
        "No job completed successfully; Either no jobs were provided or all jobs failed".to_owned()
    }
}

} // verus!
