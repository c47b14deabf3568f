use esp32c3_demos::blink::{next_light_delay, second_elapsed, BlinkPeriod};
use esp32c3_demos::clock::{Clock, Stopwatch, TimerCommand};
use esp32c3_demos::counter::PressCounter;
use esp32c3_demos::mole::{mole_poll, mole_show_ms, mole_wait_secs, response_ms, MolePoll, Scoreboard};

fn hms(c: &Clock) -> (u32, u32, u32) {
    (c.hours(), c.minutes(), c.seconds())
}

#[test]
fn clock_carries_seconds_and_minutes() {
    let mut c = Clock::new();
    assert_eq!(hms(&c), (0, 0, 0));
    for _ in 0..59 {
        c.tick();
    }
    assert_eq!(hms(&c), (0, 0, 59));
    c.tick();
    assert_eq!(hms(&c), (0, 1, 0));
    for _ in 0..3540 {
        c.tick();
    }
    assert_eq!(hms(&c), (1, 0, 0));
}

#[test]
fn clock_wraps_after_a_day() {
    let mut c = Clock::new();
    for _ in 0..86_399 {
        c.tick();
    }
    assert_eq!(hms(&c), (23, 59, 59));
    c.tick();
    assert_eq!(hms(&c), (0, 0, 0));
}

#[test]
fn clock_day_of_ticks_from_any_time() {
    let mut c = Clock::new();
    for _ in 0..45_296 {
        c.tick();
    }
    assert_eq!(hms(&c), (12, 34, 56));
    for _ in 0..86_400 {
        c.tick();
    }
    assert_eq!(hms(&c), (12, 34, 56));
    c.reset();
    assert_eq!(hms(&c), (0, 0, 0));
}

#[test]
fn stopwatch_start_stop_and_ticks() {
    let mut w = Stopwatch::new();
    assert!(!w.is_running());
    assert_eq!(w.service(), None);
    assert_eq!(w.start_stop_pressed(), TimerCommand::Start);
    assert!(w.is_running());
    w.timer_expired();
    assert_eq!(w.service(), Some((0, 0, 1)));
    w.timer_expired();
    assert_eq!(w.service(), Some((0, 0, 2)));
    assert_eq!(w.service(), None);
    assert_eq!(w.start_stop_pressed(), TimerCommand::Stop);
    assert!(!w.is_running());
    assert_eq!(w.time(), (0, 0, 2));
}

#[test]
fn stopwatch_reset_zeroes_and_stops() {
    let mut w = Stopwatch::new();
    w.start_stop_pressed();
    for _ in 0..61 {
        w.timer_expired();
        w.service();
    }
    assert_eq!(w.time(), (0, 1, 1));
    assert_eq!(w.reset_pressed(), TimerCommand::Stop);
    assert!(w.is_running());
    w.timer_expired();
    assert_eq!(w.service(), Some((0, 1, 2)));
    assert_eq!(w.time(), (0, 0, 0));
    assert!(!w.is_running());
    assert_eq!(w.start_stop_pressed(), TimerCommand::Start);
}

#[test]
fn blink_period_shortens_and_restarts() {
    let mut b = BlinkPeriod::new();
    assert_eq!(b.period(), 1_000_000);
    assert_eq!(b.polls_per_blink(), 999_999);
    b.button_held();
    assert_eq!(b.period(), 975_000);
    for _ in 0..38 {
        b.button_held();
    }
    assert_eq!(b.period(), 25_000);
    assert_eq!(b.polls_per_blink(), 24_999);
    b.button_held();
    assert_eq!(b.period(), 1_000_000);
}

#[test]
fn blink_period_forty_presses_cycle() {
    let mut b = BlinkPeriod::new();
    for _ in 0..7 {
        b.button_held();
    }
    let start = b.period();
    for _ in 0..40 {
        b.button_held();
    }
    assert_eq!(b.period(), start);
}

#[test]
fn running_light_delay_cycle() {
    assert_eq!(next_light_delay(200), 150);
    assert_eq!(next_light_delay(150), 100);
    assert_eq!(next_light_delay(100), 50);
    assert_eq!(next_light_delay(50), 200);
    assert_eq!(next_light_delay(0), 200);
    assert_eq!(next_light_delay(51), 1);
    let mut d = 200;
    for _ in 0..4 {
        d = next_light_delay(d);
    }
    assert_eq!(d, 200);
}

#[test]
fn timer_blinker_toggles_after_a_second() {
    assert!(!second_elapsed(0, 0));
    assert!(!second_elapsed(5, 1_000_004));
    assert!(second_elapsed(5, 1_000_005));
    assert!(second_elapsed(0, 3_500_000));
}

#[test]
fn mole_random_ranges() {
    assert_eq!(mole_wait_secs(0), 1);
    assert_eq!(mole_wait_secs(4), 5);
    assert_eq!(mole_wait_secs(5), 1);
    assert_eq!(mole_wait_secs(u32::MAX), 1);
    assert_eq!(mole_show_ms(0), 500);
    assert_eq!(mole_show_ms(1000), 1500);
    assert_eq!(mole_show_ms(1001), 500);
    assert_eq!(mole_show_ms(u32::MAX), 1119);
    for r in [1u32, 77, 12345, 999_999, 3_000_000_000] {
        assert!((1..=5).contains(&mole_wait_secs(r)));
        assert!((500..=1500).contains(&mole_show_ms(r)));
    }
}

#[test]
fn mole_scoreboard_keeps_best() {
    assert_eq!(response_ms(0), 0);
    assert_eq!(response_ms(1_999), 1);
    assert_eq!(response_ms(345_678), 345);
    let mut s = Scoreboard::new();
    assert_eq!(s.best(), u64::MAX);
    s.record(420);
    assert_eq!(s.best(), 420);
    s.record(500);
    assert_eq!(s.best(), 420);
    s.record(310);
    assert_eq!(s.best(), 310);
    s.record(310);
    assert_eq!(s.best(), 310);
}

#[test]
fn press_counter_counts() {
    let mut c = PressCounter::new();
    assert_eq!(c.count(), 0);
    assert_eq!(c.press(), 1);
    assert_eq!(c.press(), 2);
    assert_eq!(c.count(), 2);
}

#[test]
fn mole_poll_decisions() {
    assert_eq!(mole_poll(false, false, 123_456), MolePoll::Waiting);
    assert_eq!(mole_poll(false, true, 123_456), MolePoll::Whacked(123));
    assert_eq!(mole_poll(true, true, 123_456), MolePoll::Escaped);
    assert_eq!(mole_poll(true, false, 0), MolePoll::Escaped);
}

#[test]
fn press_counter_counts_k_presses_in_order() {
    let mut c = PressCounter::new();
    for k in 1..=1000u32 {
        assert_eq!(c.press(), k);
    }
    assert_eq!(c.count(), 1000);
}

#[test]
fn press_counter_press_n_returns_running_counts() {
    let mut c = PressCounter::new();
    assert_eq!(c.press_n(5), vec![1, 2, 3, 4, 5]);
    assert_eq!(c.count(), 5);
    assert!(c.press_n(0).is_empty());
    assert_eq!(c.press_n(3), vec![6, 7, 8]);
    assert_eq!(c.count(), 8);
}
