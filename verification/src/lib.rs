use vstd::prelude::*;

pub mod exponential;

pub use exponential::ExponentialBackoffTimer;

verus! {

/// The only error a backoff timer produces: a wait was requested after the
/// timer had already reached its ceiling. It carries no further information,
/// and the rejected call leaves the timer unchanged.
#[derive(Debug, PartialEq, Eq, Structural)]
pub struct WaitError;

/// A timer that paces repeated attempts: each call to `wait` accounts for one
/// pause of `next_interval` seconds, grows the interval by the strategy's
/// growth function, and stops once the configured ceiling of cumulative
/// seconds is reached. Specific timers supply their own growth function.
///
/// `wait` itself only advances the bookkeeping and reports the interval; the
/// caller performs the actual blocking delay with whatever primitive the
/// surrounding environment provides.
pub trait BackoffTimer: Sized {
    /// Well-formedness of the timer's bookkeeping, established by `new` and
    /// preserved by `wait`.
    spec fn wf(&self) -> bool;

    /// Cumulative seconds accounted for so far.
    spec fn elapsed(&self) -> u64;

    /// Seconds the next successful `wait` will report.
    spec fn next_interval(&self) -> u64;

    /// Caller-supplied maximum of cumulative seconds, fixed for the timer's
    /// lifetime.
    spec fn ceiling(&self) -> u64;

    /// The strategy's growth function: the interval in force after a wait of
    /// `interval` seconds.
    spec fn grow(interval: u64) -> u64;

    /// Completion is declared one step early: the timer is done as soon as
    /// the next wait would push the cumulative time strictly past the
    /// ceiling, so a wait that lands exactly on the ceiling is still allowed.
    open spec fn done(&self) -> bool {
        self.elapsed() + self.next_interval() > self.ceiling()
    }

    /// Every strategy must grow: from the starting interval on, intervals
    /// never shrink.
    proof fn grow_does_not_shrink(interval: u64)
        requires
            interval >= 2,
        ensures
            Self::grow(interval) >= interval,
    ;

    /// Returns a fresh timer for the given ceiling of cumulative seconds.
    /// Any ceiling is accepted; a ceiling of 0 yields an immediately done
    /// timer. The first interval is always 2 seconds.
    fn new(max_wait_time: u64) -> (t: Self)
        ensures
            t.wf(),
            t.elapsed() == 0,
            t.next_interval() == 2,
            t.ceiling() == max_wait_time,
    ;

    /// One pacing step. On a timer that is not yet done it reports the
    /// current interval, adds it to the cumulative time, and grows the
    /// interval; on a timer that is already done it returns the error and
    /// changes nothing.
    fn wait(&mut self) -> (r: Result<u64, WaitError>)
        requires
            old(self).wf(),
        ensures
            final(self).wf(),
            final(self).ceiling() == old(self).ceiling(),
            old(self).done() ==> r == Err::<u64, WaitError>(WaitError) && *final(self) == *old(
                self,
            ),
            !old(self).done() ==> r == Ok::<u64, WaitError>(old(self).next_interval())
                && final(self).elapsed() == old(self).elapsed() + old(self).next_interval()
                && final(self).next_interval() == Self::grow(old(self).next_interval()),
    ;

    /// Whether the timer has reached its ceiling. A pure query: it takes the
    /// timer by shared reference and its result is a function of the state
    /// alone, so repeated calls between waits all return the same value.
    fn is_done(&self) -> (r: bool)
        requires
            self.wf(),
        ensures
            r == self.done(),
    ;
}

} // verus!
