use jimmer::clock::{Phase, TimerClock};
use jimmer::session::{Action, Key, Session};

#[test]
fn fresh_clock_shows_total() {
    let mut c = TimerClock::start(90_000, 1_000);
    assert_eq!(c.remaining(), 90_000);
    assert!(!c.tick(1_000));
    assert_eq!(c.remaining(), 90_000);
    assert_eq!(c.phase(), Phase::Running);
}

#[test]
fn running_clock_counts_down_in_real_time() {
    let mut c = TimerClock::start(10_000, 0);
    c.tick(1_250);
    assert_eq!(c.remaining(), 8_750);
    c.tick(4_000);
    assert_eq!(c.remaining(), 6_000);
}

#[test]
fn paused_clock_is_frozen() {
    let mut c = TimerClock::start(10_000, 0);
    c.tick(2_000);
    c.toggle_pause(2_000);
    assert!(c.is_paused());
    c.tick(7_000);
    c.tick(60_000);
    assert_eq!(c.remaining(), 8_000);
    assert_eq!(c.phase(), Phase::Paused);
}

#[test]
fn pause_time_is_not_counted() {
    let mut c = TimerClock::start(10_000, 0);
    c.toggle_pause(1_000);
    c.toggle_pause(4_000);
    c.tick(5_000);
    assert_eq!(c.remaining(), 8_000);
    c.toggle_pause(6_000);
    c.toggle_pause(6_500);
    c.tick(7_500);
    assert_eq!(c.remaining(), 6_000);
}

#[test]
fn repeated_toggles_count_each_pause_once() {
    let mut c = TimerClock::start(10_000, 0);
    for t in [1_000u64, 2_000, 3_000, 4_000] {
        c.toggle_pause(t);
    }
    assert!(!c.is_paused());
    c.tick(4_000);
    assert_eq!(c.remaining(), 8_000);
}

#[test]
fn remaining_floors_at_zero() {
    let mut c = TimerClock::start(5_000, 100);
    assert!(c.tick(1_000_000));
    assert_eq!(c.remaining(), 0);
    assert_eq!(c.phase(), Phase::Expired);
}

#[test]
fn expiry_is_reported_once() {
    let mut c = TimerClock::start(1_000, 0);
    assert!(!c.tick(999));
    assert!(c.tick(1_000));
    assert!(!c.tick(1_001));
    assert!(!c.tick(50_000));
    c.toggle_pause(50_001);
    assert_eq!(c.phase(), Phase::Expired);
    assert!(!c.tick(60_000));
    assert_eq!(c.remaining(), 0);
}

#[test]
fn clock_stepping_back_adds_no_time() {
    let mut c = TimerClock::start(10_000, 5_000);
    c.tick(7_000);
    assert_eq!(c.remaining(), 8_000);
    c.tick(6_000);
    assert_eq!(c.remaining(), 8_000);
    assert_eq!(c.latest(), 7_000);
    assert_eq!(c.total_time(), 10_000);
}

#[test]
fn session_quits_without_expiry() {
    let mut s = Session::new(60_000, 0);
    assert_eq!(s.step(100, None), Action::Continue);
    assert_eq!(s.step(200, Some(Key::Other)), Action::Continue);
    assert_eq!(s.step(300, Some(Key::Quit)), Action::Quit);
    assert_eq!(s.phase(), Phase::Running);
}

#[test]
fn session_quits_while_paused() {
    let mut s = Session::new(60_000, 0);
    assert_eq!(s.step(100, Some(Key::Pause)), Action::Continue);
    assert!(s.is_paused());
    assert_eq!(s.step(300, Some(Key::Quit)), Action::Quit);
}

#[test]
fn session_expires_exactly_once() {
    let mut s = Session::new(2_000, 0);
    assert_eq!(s.step(1_000, None), Action::Continue);
    assert_eq!(s.remaining(), 1_000);
    assert_eq!(s.step(2_050, None), Action::Expire);
    assert_eq!(s.remaining(), 0);
    let mut expiries = 0;
    for t in 2_100..2_200u64 {
        if s.step(t, None) == Action::Expire {
            expiries += 1;
        }
    }
    assert_eq!(expiries, 0);
}

#[test]
fn expired_session_ends_on_any_key() {
    let mut s = Session::new(1_000, 0);
    assert_eq!(s.step(1_000, None), Action::Expire);
    assert_eq!(s.step(1_100, Some(Key::Other)), Action::Quit);
    assert_eq!(s.step(1_200, Some(Key::Pause)), Action::Quit);
}

#[test]
fn quote_rotates_every_five_seconds() {
    let mut s = Session::new(600_000, 0);
    assert_eq!(s.step(4_999, None), Action::Continue);
    assert_eq!(s.step(5_000, None), Action::RotateQuote);
    assert_eq!(s.step(9_999, None), Action::Continue);
    assert_eq!(s.step(10_000, None), Action::RotateQuote);
}

#[test]
fn quote_rotates_while_paused() {
    let mut s = Session::new(600_000, 0);
    assert_eq!(s.step(1_000, None), Action::Continue);
    assert_eq!(s.step(1_000, Some(Key::Pause)), Action::Continue);
    assert_eq!(s.step(6_000, None), Action::RotateQuote);
    assert!(s.is_paused());
    assert_eq!(s.remaining(), 599_000);
    assert_eq!(s.step(11_000, None), Action::RotateQuote);
    assert_eq!(s.remaining(), 599_000);
}

#[test]
fn pause_in_session_is_not_counted() {
    let mut s = Session::new(10_000, 0);
    s.step(1_000, Some(Key::Pause));
    s.step(3_000, Some(Key::Pause));
    assert_eq!(s.remaining(), 9_000);
    s.step(4_000, None);
    assert_eq!(s.remaining(), 8_000);
}

#[test]
fn remaining_never_grows_across_toggles() {
    let mut s = Session::new(10_000, 0);
    let mut last = s.remaining();
    let keys = [None, Some(Key::Pause), None, Some(Key::Pause), Some(Key::Other), Some(Key::Pause), None, Some(Key::Pause)];
    for (i, key) in keys.iter().enumerate() {
        s.step(700 * (i as u64 + 1), *key);
        assert!(s.remaining() <= last);
        last = s.remaining();
    }
}

#[test]
fn several_pauses_each_counted_once() {
    let mut c = TimerClock::start(60_000, 0);
    for t in [1_000u64, 3_000, 5_000, 5_500, 9_000, 12_000] {
        c.toggle_pause(t);
    }
    c.tick(20_000);
    assert_eq!(c.remaining(), 60_000 - (20_000 - (2_000 + 500 + 3_000)));
}
