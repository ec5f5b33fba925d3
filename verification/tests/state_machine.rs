use uefi_input2::config::Config;
use uefi_input2::key_data::{Key, KeyData};
use uefi_input2::simple_text_input_ex::KeyState;
use uefi_input2::state_machine::{
    ticks_for_ms, ClockSource, InputEvent, KeyTracker, Outcome, State, StateMachine, Thresholds,
};
use uefi_input2::state_machine_fallback::{calibrated_frequency, StateMachineFallback};

fn key(c: char) -> KeyData {
    KeyData::new(c).unwrap()
}

fn ms_machine() -> StateMachine {
    // a 1 kHz counter: one tick per millisecond
    StateMachine::new(ClockSource::Timestamp { frequency: 1000 }, Config::default())
}

fn ready(e: InputEvent) -> Outcome {
    Outcome::Ready(Some(e))
}

const NOTHING: Outcome = Outcome::Ready(None);

#[test]
fn ticks_for_ms_rounds_down() {
    assert_eq!(ticks_for_ms(1000, 150), 150);
    assert_eq!(ticks_for_ms(3_000_000_000, 500), 1_500_000_000);
    assert_eq!(ticks_for_ms(1001, 300), 300);
    assert_eq!(ticks_for_ms(0, 300), 0);
}

#[test]
fn documented_timeline() {
    let a = key('a');
    let mut sm = ms_machine();
    assert!(!sm.uses_fallback());
    // press
    assert_eq!(sm.update(Some(a), 0), ready(InputEvent::Pressed(a)));
    assert_eq!(sm.update(Some(a), 50), NOTHING);
    assert_eq!(sm.update(None, 100), NOTHING);
    assert_eq!(sm.update(None, 200), NOTHING);
    // released 151 ms after the last report: Released, then Click(1)
    assert_eq!(sm.update(None, 201), ready(InputEvent::Released(a)));
    assert_eq!(sm.update(None, 202), ready(InputEvent::Click(a, 1)));
    // second press within the click window
    assert_eq!(sm.update(Some(a), 300), ready(InputEvent::Pressed(a)));
    assert_eq!(sm.update(Some(a), 500), NOTHING);
    assert_eq!(sm.update(Some(a), 800), NOTHING);
    // held longer than 500 ms
    assert_eq!(sm.update(Some(a), 801), ready(InputEvent::LongPressed(a)));
    assert_eq!(sm.update(Some(a), 850), ready(InputEvent::Repeat(a)));
    assert_eq!(sm.update(Some(a), 900), ready(InputEvent::Repeat(a)));
    // released after a long press: no click
    assert_eq!(sm.update(None, 1050), NOTHING);
    assert_eq!(sm.update(None, 1051), ready(InputEvent::Released(a)));
    assert_eq!(sm.update(None, 1052), NOTHING);
    assert_eq!(sm.update(Some(a), 1100), ready(InputEvent::Pressed(a)));
}

#[test]
fn double_click_counts_two() {
    let a = key('a');
    let mut t = KeyTracker::new(Thresholds { scale: 1, release_timeout: 10, long_press_delay: 100, click_window: 30 });
    assert_eq!(t.update(Some(a), 0), ready(InputEvent::Pressed(a)));
    assert_eq!(t.update(None, 11), ready(InputEvent::Released(a)));
    assert_eq!(t.update(None, 12), ready(InputEvent::Click(a, 1)));
    assert_eq!(t.state(), State::Cooldown { key: a, release_time: 11, click_count: 1 });
    assert_eq!(t.update(Some(a), 40), ready(InputEvent::Pressed(a)));
    assert_eq!(t.state(), State::Active { key: a, start_time: 40, last_seen_time: 40, long_press_triggered: false, click_count: 2 });
    assert_eq!(t.update(None, 51), ready(InputEvent::Released(a)));
    assert_eq!(t.update(None, 52), ready(InputEvent::Click(a, 2)));
    // a third press, too late (elapsed == window): starts over with a fresh reading
    assert_eq!(t.update(Some(a), 81), Outcome::Retry(a));
    assert_eq!(t.state(), State::Idle);
    assert_eq!(t.update(Some(a), 82), ready(InputEvent::Pressed(a)));
    assert_eq!(t.state(), State::Active { key: a, start_time: 82, last_seen_time: 82, long_press_triggered: false, click_count: 1 });
}

#[test]
fn cooldown_expires_to_idle() {
    let a = key('a');
    let mut t = KeyTracker::new(Thresholds { scale: 1, release_timeout: 10, long_press_delay: 100, click_window: 30 });
    t.update(Some(a), 0);
    t.update(None, 11);
    t.update(None, 12);
    assert_eq!(t.update(None, 41), NOTHING);
    assert!(matches!(t.state(), State::Cooldown { .. }));
    assert_eq!(t.update(None, 42), NOTHING);
    assert_eq!(t.state(), State::Idle);
}

#[test]
fn other_key_during_cooldown_retries() {
    let a = key('a');
    let b = key('b');
    let mut sm = ms_machine();
    sm.update(Some(a), 0);
    sm.update(None, 151);
    sm.update(None, 152);
    assert_eq!(sm.update(Some(b), 160), Outcome::Retry(b));
    assert_eq!(sm.update(Some(b), 161), ready(InputEvent::Pressed(b)));
}

#[test]
fn key_switch_releases_then_presses() {
    let a = key('a');
    let b = key('b');
    let mut t = KeyTracker::new(Thresholds { scale: 1, release_timeout: 10, long_press_delay: 100, click_window: 30 });
    t.update(Some(a), 0);
    assert_eq!(t.update(Some(b), 5), ready(InputEvent::Released(a)));
    assert_eq!(t.pending_len(), 2);
    assert_eq!(t.update(None, 6), ready(InputEvent::Click(a, 1)));
    assert_eq!(t.update(None, 7), ready(InputEvent::Pressed(b)));
    assert_eq!(t.state(), State::Active { key: b, start_time: 5, last_seen_time: 5, long_press_triggered: false, click_count: 1 });
}

#[test]
fn key_switch_after_long_press_has_no_click() {
    let a = key('a');
    let b = key('b');
    let mut t = KeyTracker::new(Thresholds { scale: 1, release_timeout: 10, long_press_delay: 20, click_window: 30 });
    t.update(Some(a), 0);
    assert_eq!(t.update(Some(a), 21), ready(InputEvent::LongPressed(a)));
    assert_eq!(t.update(Some(b), 22), ready(InputEvent::Released(a)));
    assert_eq!(t.update(None, 23), ready(InputEvent::Pressed(b)));
    assert_eq!(t.pending_len(), 0);
}

#[test]
fn modifier_only_report_is_ignored() {
    let a = key('a');
    let shift_only = KeyData { key: Key::Printable(0), key_state: KeyState { key_shift_state: 0x8000_0002, key_toggle_state: 0 } };
    let mut t = KeyTracker::new(Thresholds { scale: 1, release_timeout: 10, long_press_delay: 100, click_window: 30 });
    assert_eq!(t.update(Some(shift_only), 0), NOTHING);
    assert_eq!(t.state(), State::Idle);
    t.update(Some(a), 1);
    assert_eq!(t.update(Some(shift_only), 50), NOTHING);
    assert!(matches!(t.state(), State::Active { .. }));
}

#[test]
fn queued_events_come_first() {
    let a = key('a');
    let b = key('b');
    let mut t = KeyTracker::new(Thresholds { scale: 1, release_timeout: 10, long_press_delay: 100, click_window: 30 });
    t.update(Some(a), 0);
    assert_eq!(t.update(Some(b), 1), ready(InputEvent::Released(a)));
    // the report of `a` is not looked at while events are queued
    assert_eq!(t.update(Some(a), 2), ready(InputEvent::Click(a, 1)));
    assert_eq!(t.update(Some(a), 3), ready(InputEvent::Pressed(b)));
    assert_eq!(t.state(), State::Active { key: b, start_time: 1, last_seen_time: 1, long_press_triggered: false, click_count: 1 });
}

#[test]
fn special_keys_are_tracked() {
    let esc = KeyData { key: Key::Special(0x17), key_state: KeyState::default() };
    let mut t = KeyTracker::new(Thresholds { scale: 1, release_timeout: 10, long_press_delay: 100, click_window: 30 });
    assert_eq!(t.update(Some(esc), 0), ready(InputEvent::Pressed(esc)));
}

#[test]
fn clock_going_backwards_counts_as_no_time() {
    let a = key('a');
    let mut t = KeyTracker::new(Thresholds { scale: 1, release_timeout: 10, long_press_delay: 100, click_window: 30 });
    t.update(Some(a), 1000);
    assert_eq!(t.update(None, 5), NOTHING);
    assert!(matches!(t.state(), State::Active { .. }));
}

#[test]
fn fallback_compares_exact_elapsed_time() {
    let a = key('a');
    // 1000 ticks per second: 150 ms are 150 ticks
    let mut f = StateMachineFallback::new(1000, Config::default());
    assert_eq!(f.timer_freq(), 1000);
    assert_eq!(f.update(Some(a), 0), ready(InputEvent::Pressed(a)));
    assert_eq!(f.update(None, 150), NOTHING);
    assert_eq!(f.update(None, 151), ready(InputEvent::Released(a)));
    // 1001 ticks per second: 300 ms are 300.3 ticks, so 300 ticks are still inside the window
    let mut g = StateMachineFallback::new(1001, Config::default());
    g.update(Some(a), 0);
    g.update(None, 151);
    g.update(None, 152);
    assert_eq!(g.update(Some(a), 451), ready(InputEvent::Pressed(a)));
}

#[test]
fn state_machine_delegates_to_fallback() {
    let a = key('a');
    let mut sm = StateMachine::new(ClockSource::Calibrated { timer_freq: 1000 }, Config::default());
    assert!(sm.uses_fallback());
    assert_eq!(sm.update(Some(a), 0), ready(InputEvent::Pressed(a)));
    assert_eq!(sm.update(Some(a), 501), ready(InputEvent::LongPressed(a)));
    assert_eq!(sm.update(Some(a), 502), ready(InputEvent::Repeat(a)));
    assert_eq!(sm.update(None, 653), ready(InputEvent::Released(a)));
    assert_eq!(sm.update(None, 654), NOTHING);
}

#[test]
fn configured_thresholds_apply() {
    let a = key('a');
    let cfg = Config { refresh_positive_input_device_time: 1, release_timeout: 20, long_press_delay: 40, click_window: 60 };
    // 2 kHz: 20 ms are 40 ticks, 40 ms are 80 ticks
    let mut sm = StateMachine::new(ClockSource::Timestamp { frequency: 2000 }, cfg);
    sm.update(Some(a), 0);
    assert_eq!(sm.update(Some(a), 80), NOTHING);
    assert_eq!(sm.update(Some(a), 81), ready(InputEvent::LongPressed(a)));
    assert_eq!(sm.update(None, 121), NOTHING);
    assert_eq!(sm.update(None, 122), ready(InputEvent::Released(a)));
}

#[test]
fn click_count_room() {
    let a = key('a');
    let mut sm = ms_machine();
    assert!(sm.click_count_has_room());
    sm.update(Some(a), 0);
    sm.update(None, 151);
    assert!(sm.click_count_has_room());
}

#[test]
fn fallback_uses_configured_durations() {
    let a = key('a');
    let cfg = Config { refresh_positive_input_device_time: 1, release_timeout: 200, long_press_delay: 500, click_window: 300 };
    let mut sm = StateMachine::new(ClockSource::Calibrated { timer_freq: 1000 }, cfg);
    assert_eq!(sm.update(Some(a), 0), ready(InputEvent::Pressed(a)));
    assert_eq!(sm.update(None, 175), NOTHING);
    assert_eq!(sm.update(None, 200), NOTHING);
    assert_eq!(sm.update(None, 201), ready(InputEvent::Released(a)));
    // a large calibrated rate needs no bound
    let mut f = StateMachineFallback::new(u64::MAX, cfg);
    assert_eq!(f.update(Some(a), 0), ready(InputEvent::Pressed(a)));
    assert_eq!(f.update(None, 1_000_000), NOTHING);
}

#[test]
fn calibration_of_the_tick_counter() {
    assert_eq!(calibrated_frequency(1_000, 3_000_000), Some(29_990_000));
    assert_eq!(calibrated_frequency(5, 5), Some(0));
    assert_eq!(calibrated_frequency(10, 9), None);
    assert_eq!(calibrated_frequency(0, u64::MAX / 10 + 1), None);
    assert_eq!(calibrated_frequency(0, u64::MAX / 10), Some(u64::MAX / 10 * 10));
}
