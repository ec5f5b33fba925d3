//! The state machine for firmware without a timestamp protocol: time is the
//! processor's own tick counter, whose rate was measured at start-up.
use vstd::prelude::*;
use crate::config::Config;
use crate::key_data::KeyData;
use crate::state_machine::{
    KeyTracker, Outcome, State, InputEvent, Thresholds, TrackerModel, count_has_room,
    exceeds, falls_short, update_model,
};

verus! {

/// The thresholds of a machine whose clock runs at `timer_freq` ticks per
/// second: elapsed ticks times 1000 against milliseconds times ticks per
/// second, that is, exact elapsed time against the configured durations.
pub open spec fn fallback_thresholds(timer_freq: u64, config: Config) -> Thresholds {
    Thresholds {
        scale: 1000,
        release_timeout: (config.release_timeout * timer_freq) as u128,
        long_press_delay: (config.long_press_delay * timer_freq) as u128,
        click_window: (config.click_window * timer_freq) as u128,
    }
}

/// The abstract state of a `StateMachineFallback`.
pub struct FallbackModel {
    /// Ticks of the counter per second.
    pub timer_freq: u64,
    /// The durations the machine was built with.
    pub config: Config,
    pub tracker: TrackerModel,
}

/// The frequency a calibration measured: ticks counted over 100 ms, times 10;
/// `None` where the counter went backwards or the product overflows.
pub open spec fn calibration(start: u64, end: u64) -> Option<u64> {
    if start <= end && (end - start) * 10 <= u64::MAX {
        Some(((end - start) * 10) as u64)
    } else {
        None
    }
}

/// The ticks-per-second rate of a counter that went from `start` to `end`
/// during a 100 ms wait.
pub fn calibrated_frequency(start: u64, end: u64) -> (f: Option<u64>)
    ensures
        f == calibration(start, end),
{
    if start <= end {
        (end - start).checked_mul(10)
    } else {
        None
    }
}

/// Key-event state machine driven by a calibrated tick counter.
pub struct StateMachineFallback {
    /// Ticks of the counter per second.
    timer_freq: u64,
    config: Config,
    tracker: KeyTracker,
}

impl View for StateMachineFallback {
    type V = FallbackModel;

    closed spec fn view(&self) -> FallbackModel {
        FallbackModel { timer_freq: self.timer_freq, config: self.config, tracker: self.tracker@ }
    }
}

/// A calibrated machine runs on a counter that advances, and its thresholds are
/// its configured durations at that counter's rate.
pub open spec fn fallback_wf(m: FallbackModel) -> bool {
    &&& 0 < m.timer_freq
    &&& m.tracker.thresholds == fallback_thresholds(m.timer_freq, m.config)
}

/// On a calibrated machine, every timing test is one of exact elapsed time:
/// `e` ticks at `f` ticks per second exceed `ms` milliseconds exactly when
/// `e / f > ms / 1000` (both sides multiplied by `1000 * f > 0`), and fall short
/// of them exactly when `e / f < ms / 1000`.
pub proof fn fallback_compares_elapsed_time(f: u64, config: Config, e: int)
    requires
        0 < f,
    ensures
        exceeds(e, 1000, fallback_thresholds(f, config).release_timeout)
            == (e * 1000 > config.release_timeout * f),
        exceeds(e, 1000, fallback_thresholds(f, config).long_press_delay)
            == (e * 1000 > config.long_press_delay * f),
        exceeds(e, 1000, fallback_thresholds(f, config).click_window)
            == (e * 1000 > config.click_window * f),
        falls_short(e, 1000, fallback_thresholds(f, config).click_window)
            == (e * 1000 < config.click_window * f),
{
    assert(config.release_timeout * f <= u64::MAX * u64::MAX) by (nonlinear_arith)
        requires config.release_timeout <= u64::MAX, f <= u64::MAX;
    assert(config.long_press_delay * f <= u64::MAX * u64::MAX) by (nonlinear_arith)
        requires config.long_press_delay <= u64::MAX, f <= u64::MAX;
    assert(config.click_window * f <= u64::MAX * u64::MAX) by (nonlinear_arith)
        requires config.click_window <= u64::MAX, f <= u64::MAX;
    assert(0 <= config.release_timeout * f) by (nonlinear_arith)
        requires 0 <= config.release_timeout, 0 <= f;
    assert(0 <= config.long_press_delay * f) by (nonlinear_arith)
        requires 0 <= config.long_press_delay, 0 <= f;
    assert(0 <= config.click_window * f) by (nonlinear_arith)
        requires 0 <= config.click_window, 0 <= f;
}

impl StateMachineFallback {
    /// An idle machine for a counter of `timer_freq` ticks per second, with the
    /// configured durations.
    pub fn new(timer_freq: u64, config: Config) -> (m: Self)
        requires
            0 < timer_freq,
        ensures
            fallback_wf(m@),
            m@.timer_freq == timer_freq,
            m@.config == config,
            m@.tracker.state == State::Idle,
            m@.tracker.pending == Seq::<InputEvent>::empty(),
    {
        let f: u128 = timer_freq as u128;
        let r: u128 = config.release_timeout as u128;
        let l: u128 = config.long_press_delay as u128;
        let c: u128 = config.click_window as u128;
        assert(r * f <= u64::MAX * u64::MAX && l * f <= u64::MAX * u64::MAX && c * f <= u64::MAX * u64::MAX)
            by (nonlinear_arith)
            requires r <= u64::MAX, l <= u64::MAX, c <= u64::MAX, f <= u64::MAX;
        let thresholds = Thresholds {
            scale: 1000,
            release_timeout: r * f,
            long_press_delay: l * f,
            click_window: c * f,
        };
        StateMachineFallback { timer_freq, config, tracker: KeyTracker::new(thresholds) }
    }

    /// Ticks per second of the counter the machine runs on.
    pub fn timer_freq(&self) -> (f: u64)
        ensures
            f == self@.timer_freq,
    {
        self.timer_freq
    }

    /// Whether the next update can count a further click without overflow
    /// (`update` requires it).
    pub fn click_count_has_room(&self) -> (r: bool)
        ensures
            r == count_has_room(self@.tracker.state),
    {
        self.tracker.click_count_has_room()
    }

    /// Feeds one key report (or none) read at counter value `now`; see
    /// `KeyTracker::update`.
    pub fn update(&mut self, current_key: Option<KeyData>, now: u64) -> (out: Outcome)
        requires
            count_has_room(old(self)@.tracker.state),
        ensures
            final(self)@.timer_freq == old(self)@.timer_freq,
            final(self)@.config == old(self)@.config,
            fallback_wf(old(self)@) ==> fallback_wf(final(self)@),
            (final(self)@.tracker, out) == update_model(old(self)@.tracker, current_key, now),
    {
        self.tracker.update(current_key, now)
    }
}

} // verus!
