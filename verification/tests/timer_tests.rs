use zipbench::timer::Timer;
use zipbench::timer::TimerError;

#[test]
fn new_timer_is_paused_with_zero_total() {
    let t = Timer::new();
    assert_eq!(t.accumulated(), 0);
    assert_eq!(t.total(1_000), 0);
}

#[test]
fn alternating_rounds_total_is_sum_of_intervals() {
    let mut t = Timer::new();
    t.start(10);
    // resume_if_paused while running is a no-op and must not disturb the sum
    t.resume_if_paused(12);
    assert_eq!(t.pause(25), Ok(())); // interval of 15
    t.resume_if_paused(30); // paused: opens an interval at 30
    assert_eq!(t.pause(70), Ok(())); // interval of 40
    assert_eq!(t.resume(100), Ok(()));
    t.resume_if_paused(105); // running again: no-op
    assert_eq!(t.pause(90), Ok(())); // clock went backwards: counts zero
    assert_eq!(t.accumulated(), 15 + 40);
    assert_eq!(t.total(200), 55);
}

#[test]
fn pause_twice_fails_already_paused() {
    let mut t = Timer::new();
    t.start(10);
    assert_eq!(t.pause(20), Ok(()));
    assert_eq!(t.pause(30), Err(TimerError::AlreadyPaused));
    // the failed call changed nothing
    assert_eq!(t.accumulated(), 10);
}

#[test]
fn pause_fresh_timer_fails_already_paused() {
    let mut t = Timer::new();
    assert_eq!(t.pause(5), Err(TimerError::AlreadyPaused));
    assert_eq!(t.accumulated(), 0);
}

#[test]
fn resume_twice_fails_already_running() {
    let mut t = Timer::new();
    assert_eq!(t.resume(10), Ok(()));
    assert_eq!(t.resume(20), Err(TimerError::AlreadyRunning));
    // the failed call changed nothing: the interval still runs from 10
    assert_eq!(t.pause(30), Ok(()));
    assert_eq!(t.accumulated(), 20);
}

#[test]
fn total_is_monotonic_while_running() {
    let mut t = Timer::new();
    t.start(100);
    let readings: [u64; 5] = [100, 150, 150, 400, 1_000_000];
    let mut last = 0u64;
    for now in readings {
        let total = t.total(now);
        assert!(total >= last);
        last = total;
    }
}

#[test]
fn start_overwrites_an_open_interval() {
    let mut t = Timer::new();
    t.start(10);
    t.start(100); // the open interval from 10 is discarded
    assert_eq!(t.pause(110), Ok(()));
    assert_eq!(t.accumulated(), 10);
}

#[test]
fn backwards_clock_counts_as_zero() {
    let mut t = Timer::new();
    t.start(100);
    assert_eq!(t.pause(40), Ok(()));
    assert_eq!(t.accumulated(), 0);
}

#[test]
fn accumulation_saturates_at_max() {
    let mut t = Timer::new();
    t.start(0);
    assert_eq!(t.pause(u64::MAX), Ok(()));
    assert_eq!(t.resume(0), Ok(()));
    assert_eq!(t.pause(u64::MAX), Ok(()));
    assert_eq!(t.accumulated(), u64::MAX);
}

#[test]
fn total_while_running_includes_open_interval() {
    let mut t = Timer::new();
    t.start(0);
    assert_eq!(t.pause(7), Ok(()));
    assert_eq!(t.resume(10), Ok(()));
    assert_eq!(t.total(25), 7 + 15);
    // total does not change the state
    assert_eq!(t.accumulated(), 7);
}
