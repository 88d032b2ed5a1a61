use backoff_timer::BackoffTimer;
use backoff_timer::ExponentialBackoffTimer;
use backoff_timer::WaitError;

#[test]
fn wait_for_6_seconds() {
    let mut timer = ExponentialBackoffTimer::new(6);
    match timer.wait() {
        Ok(time_waited) => assert_eq!(time_waited, 2),
        Err(e) => panic!("{:?}", e),
    }
    assert_eq!(timer.is_done(), false);
    match timer.wait() {
        Ok(time_waited) => assert_eq!(time_waited, 4),
        Err(e) => panic!("{:?}", e),
    }
    assert_eq!(timer.is_done(), true);
}

#[test]
fn cant_wait_twice_for_five() {
    let mut timer = ExponentialBackoffTimer::new(5);
    match timer.wait() {
        Ok(time_waited) => assert_eq!(time_waited, 2),
        Err(e) => panic!("{:?}", e),
    }
    assert_eq!(timer.is_done(), true);
    match timer.wait() {
        Ok(time_waited) => assert_eq!(time_waited, 2),
        Err(e) => assert_eq!(WaitError {}, e),
    }
    assert_eq!(timer.is_done(), true);
}

#[test]
fn zero_ceiling_is_done_from_the_start() {
    let mut timer = ExponentialBackoffTimer::new(0);
    assert_eq!(timer.is_done(), true);
    assert_eq!(timer.wait(), Err(WaitError));
    assert_eq!(timer.is_done(), true);
}

#[test]
fn is_done_is_idempotent_between_waits() {
    let mut timer = ExponentialBackoffTimer::new(6);
    assert_eq!(timer.is_done(), false);
    assert_eq!(timer.is_done(), false);
    assert_eq!(timer.is_done(), false);
    assert_eq!(timer.wait(), Ok(2));
    assert_eq!(timer.is_done(), false);
    assert_eq!(timer.is_done(), false);
    assert_eq!(timer.wait(), Ok(4));
    assert_eq!(timer.is_done(), true);
    assert_eq!(timer.is_done(), true);
    assert_eq!(timer.is_done(), true);
}

#[test]
fn growth_squares_instead_of_doubling() {
    let mut timer = ExponentialBackoffTimer::new(300);
    assert_eq!(timer.wait(), Ok(2));
    assert_eq!(timer.wait(), Ok(4));
    // Squaring gives 16 here; doubling or a constant factor would give 8.
    assert_eq!(timer.wait(), Ok(16));
    assert_eq!(timer.is_done(), false);
    assert_eq!(timer.wait(), Ok(256));
    assert_eq!(timer.is_done(), true);
}

#[test]
fn wait_landing_exactly_on_the_ceiling_is_allowed() {
    let mut timer = ExponentialBackoffTimer::new(22);
    assert_eq!(timer.wait(), Ok(2));
    assert_eq!(timer.wait(), Ok(4));
    assert_eq!(timer.is_done(), false);
    assert_eq!(timer.wait(), Ok(16));
    assert_eq!(timer.is_done(), true);
}

#[test]
fn huge_ceiling_does_not_overflow() {
    let mut timer = ExponentialBackoffTimer::new(u64::MAX);
    assert_eq!(timer.wait(), Ok(2));
    assert_eq!(timer.wait(), Ok(4));
    assert_eq!(timer.wait(), Ok(16));
    assert_eq!(timer.wait(), Ok(256));
    assert_eq!(timer.wait(), Ok(65536));
    assert_eq!(timer.wait(), Ok(4294967296));
    // The next interval would overshoot any u64 ceiling, so the timer is done.
    assert_eq!(timer.is_done(), true);
    assert_eq!(timer.wait(), Err(WaitError));
}

#[test]
fn returned_intervals_strictly_increase() {
    let mut timer = ExponentialBackoffTimer::new(1000000);
    let mut previous: u64 = 0;
    while !timer.is_done() {
        let waited = timer.wait().unwrap();
        assert!(waited > previous);
        previous = waited;
    }
    assert_eq!(timer.wait(), Err(WaitError));
}
