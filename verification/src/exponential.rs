use vstd::prelude::*;

use crate::BackoffTimer;
use crate::WaitError;

verus! {

/// A backoff timer whose interval grows by squaring: 2, 4, 16, 256, ...
/// seconds, until the cumulative seconds reach the configured ceiling.
pub struct ExponentialBackoffTimer {
    waited_time: u64,
    wait_time: u64,
    max_wait_time: u64,
}

impl BackoffTimer for ExponentialBackoffTimer {
    /// The cumulative time never passes the ceiling, and the interval never
    /// falls below its starting value of 2.
    closed spec fn wf(&self) -> bool {
        &&& self.waited_time <= self.max_wait_time
        &&& self.wait_time >= 2
    }

    closed spec fn elapsed(&self) -> u64 {
        self.waited_time
    }

    closed spec fn next_interval(&self) -> u64 {
        self.wait_time
    }

    closed spec fn ceiling(&self) -> u64 {
        self.max_wait_time
    }

    /// Squaring, saturated at `u64::MAX`. A timer whose interval had to
    /// saturate is always done (see `lemma_wait_reports_increase`), so a
    /// saturated interval is never reported by a successful wait: the
    /// observable behaviour is that of unbounded squaring.
    open spec fn grow(interval: u64) -> u64 {
        if interval * interval > u64::MAX {
            u64::MAX
        } else {
            (interval * interval) as u64
        }
    }

    proof fn grow_does_not_shrink(interval: u64) {
        if interval * interval <= u64::MAX {
            assert(interval * interval >= interval) by (nonlinear_arith)
                requires
                    interval >= 2,
            ;
        }
    }

    fn new(max_wait_time: u64) -> (t: Self)
        ensures
            t.wf(),
            t.elapsed() == 0,
            t.next_interval() == 2,
            t.ceiling() == max_wait_time,
    {
        ExponentialBackoffTimer { max_wait_time, wait_time: 2, waited_time: 0 }
    }

    fn wait(&mut self) -> (r: Result<u64, WaitError>)
        ensures
            final(self).wf(),
            wait_step(*old(self), *final(self), r),
    {
        if self.is_done() {
            return Err(WaitError);
        }
        let time_waited: u64 = self.wait_time;
        self.waited_time = self.waited_time + time_waited;
        if time_waited <= 0xFFFF_FFFF {
            proof {
                assert(time_waited * time_waited <= u64::MAX) by (nonlinear_arith)
                    requires
                        time_waited <= 0xFFFF_FFFFu64,
                ;
                assert(time_waited * time_waited >= 2) by (nonlinear_arith)
                    requires
                        time_waited >= 2,
                ;
            }
            self.wait_time = time_waited * time_waited;
        } else {
            proof {
                assert(time_waited * time_waited > u64::MAX) by (nonlinear_arith)
                    requires
                        time_waited > 0xFFFF_FFFFu64,
                ;
            }
            self.wait_time = u64::MAX;
        }
        Ok(time_waited)
    }

    fn is_done(&self) -> (r: bool)
        ensures
            r == self.done(),
    {
        self.wait_time > self.max_wait_time - self.waited_time
    }
}

/// One call of `wait` on an exponential timer, written as a relation between
/// the state before the call, the state after it, and the result. It restates
/// exactly what the `ensures` of `wait` say for this timer: a done timer
/// rejects the call and keeps its state, any other timer reports the current
/// interval, accounts for it, and squares it.
pub open spec fn wait_step(
    pre: ExponentialBackoffTimer,
    post: ExponentialBackoffTimer,
    r: Result<u64, WaitError>,
) -> bool {
    if pre.done() {
        r == Err::<u64, WaitError>(WaitError) && post == pre
    } else {
        &&& r == Ok::<u64, WaitError>(pre.next_interval())
        &&& post.elapsed() == pre.elapsed() + pre.next_interval()
        &&& post.next_interval() == ExponentialBackoffTimer::grow(pre.next_interval())
        &&& post.ceiling() == pre.ceiling()
    }
}

/// Completion is terminal: once a timer is done, a call of `wait` — the only
/// operation that mutates a timer — leaves the state unchanged, so the timer
/// stays done forever.
pub proof fn lemma_done_is_terminal(
    pre: ExponentialBackoffTimer,
    post: ExponentialBackoffTimer,
    r: Result<u64, WaitError>,
)
    requires
        pre.done(),
        wait_step(pre, post, r),
    ensures
        post == pre,
        post.done(),
        r == Err::<u64, WaitError>(WaitError),
{
}

/// The reported intervals grow strictly: whenever two successful waits follow
/// one another, the second reports a strictly larger interval than the first.
/// Since a rejected wait changes nothing (`lemma_done_is_terminal`), this
/// covers any two consecutive `Ok` results in an arbitrary sequence of calls.
pub proof fn lemma_wait_reports_increase(
    s0: ExponentialBackoffTimer,
    s1: ExponentialBackoffTimer,
    s2: ExponentialBackoffTimer,
    v1: u64,
    v2: u64,
)
    requires
        s0.wf(),
        wait_step(s0, s1, Ok(v1)),
        wait_step(s1, s2, Ok(v2)),
    ensures
        v2 > v1,
{
    assert(v1 >= 2);
    if v1 * v1 > u64::MAX {
        // The squared interval saturated, so the next wait could not have
        // succeeded: the cumulative time plus u64::MAX overshoots any ceiling.
        assert(s1.next_interval() == u64::MAX);
        assert(s1.elapsed() + s1.next_interval() > s1.ceiling());
        assert(false);
    } else {
        assert(v2 == v1 * v1);
        assert(v1 * v1 > v1) by (nonlinear_arith)
            requires
                v1 >= 2,
        ;
    }
}

} // verus!
