use cherry_hal::pac::Registry;
use cherry_hal::time::{Duration, U32Ext};

#[test]
fn duration_extension_builds_milliseconds() {
    assert_eq!(100u32.ms(), Duration { ms: 100 });
    assert_eq!(500u32.ms().ms, 500);
}

#[test]
fn delay_runs_at_least_the_requested_ticks() {
    let mut reg = Registry::new();
    let mut timer = reg.take_timer1().unwrap().timer();
    timer.delay(5u32.ms());
    // one observation to start, then one per elapsed tick; the next
    // observation reads the counter at tick 6
    let now = timer.read_count();
    assert_eq!(now, 6);
    assert!(now >= 5);
}

#[test]
fn zero_delay_returns_after_a_single_observation() {
    let mut reg = Registry::new();
    let mut timer = reg.take_timer1().unwrap().timer();
    timer.delay(0u32.ms());
    let now = timer.read_count();
    assert_eq!(now, 1);
}

#[test]
fn consecutive_delays_accumulate() {
    let mut reg = Registry::new();
    let mut timer = reg.take_timer1().unwrap().timer();
    timer.delay(100u32.ms());
    timer.delay(500u32.ms());
    let now = timer.read_count();
    assert_eq!(now, 101 + 501);
}
