use vstd::prelude::*;
use std::sync::atomic::AtomicBool;

verus! {

/// A unit of work that runs once, on a thread of its own, and yields a `T`.
///
/// Every closure `F: FnOnce() -> T + Send + 'static` is a `JobFn<T>`, so a
/// boxed closure coerces to a [`Job<T>`].
pub trait JobFn<T>: Send {
    /// Whether the job may be started.
    spec fn runnable(&self) -> bool;

    /// Whether `out` is a value that running the job may give back.
    spec fn produces(&self, out: T) -> bool;

    /// Runs the job to its end.
    fn run(self: Box<Self>) -> (out: T)
        requires
            self.runnable(),
        ensures
            self.produces(out),
    ;
}

impl<T, F: FnOnce() -> T + Send + 'static> JobFn<T> for F {
    open spec fn runnable(&self) -> bool {
        call_requires(*self, ())
    }

    open spec fn produces(&self, out: T) -> bool {
        call_ensures(*self, (), out)
    }

    fn run(self: Box<Self>) -> (out: T) {
        let f = *self;
        f()
    }
}

/// A closure that can be executed in a separate thread.
///
/// Built with [`into_job`], or by coercing a boxed closure.
pub type Job<T> = Box<dyn JobFn<T>>;

/// A unit of work for a race: it gets the shared "someone has finished" flag
/// and yields `Some` only when it is the first to finish.
///
/// Every closure `F: FnOnce(&AtomicBool) -> Option<T> + Send + 'static` is a
/// `RaceJobFn<T>`.
pub trait RaceJobFn<T>: Send {
    /// Whether the job may be started with the flag `is_finished`.
    spec fn runnable(&self, is_finished: &AtomicBool) -> bool;

    /// Whether `out` is a value that running the job with `is_finished` may give back.
    spec fn produces(&self, is_finished: &AtomicBool, out: Option<T>) -> bool;

    /// Runs the job to its end, handing it the shared flag.
    fn run(self: Box<Self>, is_finished: &AtomicBool) -> (out: Option<T>)
        requires
            self.runnable(is_finished),
        ensures
            self.produces(is_finished, out),
    ;
}

impl<T, F: FnOnce(&AtomicBool) -> Option<T> + Send + 'static> RaceJobFn<T> for F {
    open spec fn runnable(&self, is_finished: &AtomicBool) -> bool {
        call_requires(*self, (is_finished,))
    }

    open spec fn produces(&self, is_finished: &AtomicBool, out: Option<T>) -> bool {
        call_ensures(*self, (is_finished,), out)
    }

    fn run(self: Box<Self>, is_finished: &AtomicBool) -> (out: Option<T>) {
        let f = *self;
        f(is_finished)
    }
}

/// A closure that can be executed in a race.
///
/// Built with [`into_race_job`], or by coercing a boxed closure.
pub type RaceJob<T> = Box<dyn RaceJobFn<T>>;

/// Creates a [`Job<T>`] from a closure.
///
/// The job can be started exactly when the closure can be called, and running
/// it gives back exactly what the closure may return.
pub fn into_job<T, F: FnOnce() -> T + Send + 'static>(f: F) -> (job: Job<T>)
    ensures
        job.runnable() == call_requires(f, ()),
        forall|out: T| #[trigger] job.produces(out) == call_ensures(f, (), out),
{
    return Box::new(f);
}

/// Creates a [`RaceJob<T>`] from a closure.
///
/// The job can be started with a flag exactly when the closure can be called
/// with it, and running it gives back exactly what the closure may return.
pub fn into_race_job<T, F: FnOnce(&AtomicBool) -> Option<T> + Send + 'static>(f: F) -> (job: RaceJob<T>)
    ensures
        forall|flag: &AtomicBool| #[trigger] job.runnable(flag) == call_requires(f, (flag,)),
        forall|flag: &AtomicBool, out: Option<T>|
            #[trigger] job.produces(flag, out) == call_ensures(f, (flag,), out),
{
    return Box::new(f);
}

} // verus!
