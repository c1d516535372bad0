use vstd::prelude::*;
use std::sync::atomic::{AtomicBool, Ordering};
use crate::error::NoSuccessfulJobError;

verus! {

/// Decides what a race or a rush answers, from what its waiting side received.
///
/// `received` is the first `(index, result)` that a job delivered, or `None`
/// when every job ended (or none was given) without delivering one.
pub fn first_finished<T>(received: Option<(usize, T)>) -> (answer: Result<(usize, T), NoSuccessfulJobError>)
    ensures
        match received {
            Some(delivered) => answer == Ok::<(usize, T), NoSuccessfulJobError>(delivered),
            None => answer == Err::<(usize, T), NoSuccessfulJobError>(NoSuccessfulJobError),
        },
{
    match received {
        Some(delivered) => Ok(delivered),
        None => Err(NoSuccessfulJobError),
    }
}

/// Whether another job of the race has already finished, so that the caller
/// should stop and give back `None`.
pub fn should_stop(is_finished: &AtomicBool) -> (stop: bool) {
    is_finished.load(Ordering::Acquire)
}

/// Ends a race job that has computed `value`: it sets the shared flag if no
/// job has set it yet and then gives back `Some(value)`; if another job set the
/// flag first, it gives back `None`.
pub fn claim_finish<T>(is_finished: &AtomicBool, value: T) -> (out: Option<T>)
    ensures
        out == Some(value) || out == None::<T>,
{
    let exchanged = is_finished.compare_exchange(false, true, Ordering::AcqRel, Ordering::Acquire);
    claim_outcome(exchanged, value)
}

/// What a race job gives back once it has tried to set the shared flag:
/// `exchanged` is what the attempt to turn the flag from `false` to `true`
/// reported (`Ok` when this job set it, `Err` when it was already set).
pub fn claim_outcome<T>(exchanged: Result<bool, bool>, value: T) -> (out: Option<T>)
    ensures
        exchanged is Ok ==> out == Some(value),
        exchanged is Err ==> out == None::<T>,
{
    if exchanged.is_ok() {
        Some(value)
    } else {
        None
    }
}

} // verus!
