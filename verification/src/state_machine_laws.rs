//! What one update of the input state machine does, case by case, stated over
//! its inputs and results with the timing tests written out as arithmetic, and
//! how the click count runs over a multi-click sequence.
use vstd::prelude::*;
use crate::config::Config;
use crate::key_data::{Key, KeyData};
use crate::state_machine::{
    InputEvent, MachineModel, Outcome, State, Thresholds, TrackerModel, machine_update, ticks_for,
    timestamp_thresholds, update_model,
};

verus! {

/// A tracker with nothing queued.
pub open spec fn settled(t: Thresholds, s: State) -> TrackerModel {
    TrackerModel { thresholds: t, state: s, pending: Seq::<InputEvent>::empty() }
}

/// Queued events are handed out first, oldest first, and nothing else changes.
pub proof fn queued_event_first(m: TrackerModel, current: Option<KeyData>, now: u64)
    requires
        m.pending.len() > 0,
    ensures
        update_model(m, current, now) == (
            TrackerModel { pending: m.pending.subrange(1, m.pending.len() as int), ..m },
            Outcome::Ready(Some(m.pending[0])),
        ),
{
    assert(m.pending.drop_first() =~= m.pending.subrange(1, m.pending.len() as int));
}

/// Only a report of the NUL character is ignored: it changes nothing and
/// yields nothing, whatever the state.
pub proof fn nul_report_is_ignored(t: Thresholds, s: State, k: KeyData, now: u64)
    requires
        k.key == Key::Printable(0),
    ensures
        update_model(settled(t, s), Some(k), now) == (settled(t, s), Outcome::Ready(None)),
{
}

/// Every other report, whatever its modifier bits, starts a press from idle:
/// it yields `Pressed` of that key and the press counts from 1.
pub proof fn any_other_report_presses(t: Thresholds, k: KeyData, now: u64)
    requires
        k.key != Key::Printable(0),
    ensures
        update_model(settled(t, State::Idle), Some(k), now) == (
            settled(t, State::Active {
                key: k,
                start_time: now,
                last_seen_time: now,
                long_press_triggered: false,
                click_count: 1,
            }),
            Outcome::Ready(Some(InputEvent::Pressed(k))),
        ),
{
    assert((seq![InputEvent::Pressed(k)]).drop_first() =~= Seq::<InputEvent>::empty());
    assert(Seq::<InputEvent>::empty() + seq![InputEvent::Pressed(k)] =~= seq![InputEvent::Pressed(k)]);
}

/// With no key reported, an idle machine stays idle and silent.
pub proof fn idle_stays_idle(t: Thresholds, now: u64)
    ensures
        update_model(settled(t, State::Idle), None, now) == (settled(t, State::Idle), Outcome::Ready(None)),
{
    assert(Seq::<InputEvent>::empty() + Seq::<InputEvent>::empty() =~= Seq::<InputEvent>::empty());
}

/// A held key reported again: once it has been held longer than the long-press
/// delay, `LongPressed` fires (once); after that each report yields `Repeat`;
/// before that nothing is yielded. Each report refreshes the last-seen time and
/// keeps the click count.
pub proof fn held_key_reported_again(
    t: Thresholds,
    k: KeyData,
    start: u64,
    seen: u64,
    long_pressed: bool,
    count: usize,
    now: u64,
)
    requires
        k.key != Key::Printable(0),
        now >= start,
    ensures
        ({
            let m = settled(
                t,
                State::Active {
                    key: k,
                    start_time: start,
                    last_seen_time: seen,
                    long_press_triggered: long_pressed,
                    click_count: count,
                },
            );
            let held_now = State::Active {
                key: k,
                start_time: start,
                last_seen_time: now,
                long_press_triggered: long_pressed,
                click_count: count,
            };
            let long_now = State::Active {
                key: k,
                start_time: start,
                last_seen_time: now,
                long_press_triggered: true,
                click_count: count,
            };
            if long_pressed {
                update_model(m, Some(k), now) == (settled(t, long_now), Outcome::Ready(Some(InputEvent::Repeat(k))))
            } else if (now - start) * t.scale > t.long_press_delay {
                update_model(m, Some(k), now) == (settled(t, long_now), Outcome::Ready(Some(InputEvent::LongPressed(k))))
            } else {
                update_model(m, Some(k), now) == (settled(t, held_now), Outcome::Ready(None))
            }
        }),
{
    let e = seq![InputEvent::Repeat(k)];
    assert(Seq::<InputEvent>::empty() + e =~= e);
    assert(e.drop_first() =~= Seq::<InputEvent>::empty());
    let l = seq![InputEvent::LongPressed(k)];
    assert(Seq::<InputEvent>::empty() + l =~= l);
    assert(l.drop_first() =~= Seq::<InputEvent>::empty());
    assert(Seq::<InputEvent>::empty() + Seq::<InputEvent>::empty() =~= Seq::<InputEvent>::empty());
}

/// A switch to another key without a release: the old key is released (with
/// its `Click` and its count, unless it became a long press), and the new key's
/// press begins with `Pressed` and counts from 1.
pub proof fn key_switch(
    t: Thresholds,
    k: KeyData,
    start: u64,
    seen: u64,
    long_pressed: bool,
    count: usize,
    j: KeyData,
    now: u64,
)
    requires
        j != k,
        j.key != Key::Printable(0),
    ensures
        ({
            let m = settled(
                t,
                State::Active {
                    key: k,
                    start_time: start,
                    last_seen_time: seen,
                    long_press_triggered: long_pressed,
                    click_count: count,
                },
            );
            let (m1, out) = update_model(m, Some(j), now);
            &&& out == Outcome::Ready(Some(InputEvent::Released(k)))
            &&& m1.thresholds == t
            &&& m1.state == State::Active {
                key: j,
                start_time: now,
                last_seen_time: now,
                long_press_triggered: false,
                click_count: 1,
            }
            &&& m1.pending == if long_pressed {
                seq![InputEvent::Pressed(j)]
            } else {
                seq![InputEvent::Click(k, count), InputEvent::Pressed(j)]
            }
        }),
{
    let (m1, out) = update_model(
        settled(t, State::Active { key: k, start_time: start, last_seen_time: seen, long_press_triggered: long_pressed, click_count: count }),
        Some(j),
        now,
    );
    if long_pressed {
        assert(m1.pending =~= seq![InputEvent::Pressed(j)]);
    } else {
        assert(m1.pending =~= seq![InputEvent::Click(k, count), InputEvent::Pressed(j)]);
    }
}

/// A held key that is no longer reported: once it has been silent longer than
/// the release timeout it is released. A press that became a long press ends
/// the multi-click sequence (the machine goes idle, nothing more is queued);
/// any other press queues its `Click` with the press's count, and the machine
/// waits in cooldown with that same count. Before the timeout nothing changes
/// (a clock that went backwards counts as no time).
pub proof fn silent_key(
    t: Thresholds,
    k: KeyData,
    start: u64,
    seen: u64,
    long_pressed: bool,
    count: usize,
    now: u64,
)
    ensures
        ({
            let m = settled(
                t,
                State::Active {
                    key: k,
                    start_time: start,
                    last_seen_time: seen,
                    long_press_triggered: long_pressed,
                    click_count: count,
                },
            );
            let (m1, out) = update_model(m, None, now);
            if now >= seen && (now - seen) * t.scale > t.release_timeout {
                &&& out == Outcome::Ready(Some(InputEvent::Released(k)))
                &&& m1.thresholds == t
                &&& if long_pressed {
                    &&& m1.state == State::Idle
                    &&& m1.pending == Seq::<InputEvent>::empty()
                } else {
                    &&& m1.state == State::Cooldown { key: k, release_time: now, click_count: count }
                    &&& m1.pending == seq![InputEvent::Click(k, count)]
                }
            } else {
                (m1, out) == (m, Outcome::Ready(None))
            }
        }),
{
    let m = settled(t, State::Active { key: k, start_time: start, last_seen_time: seen, long_press_triggered: long_pressed, click_count: count });
    let (m1, out) = update_model(m, None, now);
    if now >= seen && (now - seen) * t.scale > t.release_timeout {
        if long_pressed {
            assert(m1.pending =~= Seq::<InputEvent>::empty());
        } else {
            assert(m1.pending =~= seq![InputEvent::Click(k, count)]);
        }
    } else {
        assert(now < seen ==> 0 * t.scale == 0);
        assert(m1.pending =~= Seq::<InputEvent>::empty());
    }
}

/// After a release: a press of the same key sooner than the click window
/// continues the count; a press of another key, or one that is not sooner,
/// starts over (from idle, with a fresh time reading); with no report the
/// cooldown ends once the window has passed.
pub proof fn after_release(
    t: Thresholds,
    k: KeyData,
    released: u64,
    count: usize,
    current: Option<KeyData>,
    now: u64,
)
    requires
        count < usize::MAX,
        now >= released,
        current matches Some(j) ==> j.key != Key::Printable(0),
    ensures
        ({
            let m = settled(t, State::Cooldown { key: k, release_time: released, click_count: count });
            let gap = (now - released) * t.scale;
            match current {
                Some(j) => if j == k && gap < t.click_window {
                    update_model(m, current, now) == (
                        settled(t, State::Active {
                            key: k,
                            start_time: now,
                            last_seen_time: now,
                            long_press_triggered: false,
                            click_count: (count + 1) as usize,
                        }),
                        Outcome::Ready(Some(InputEvent::Pressed(k))),
                    )
                } else {
                    update_model(m, current, now) == (settled(t, State::Idle), Outcome::Retry(j))
                },
                None => if gap > t.click_window {
                    update_model(m, current, now) == (settled(t, State::Idle), Outcome::Ready(None))
                } else {
                    update_model(m, current, now) == (m, Outcome::Ready(None))
                },
            }
        }),
{
    let p = seq![InputEvent::Pressed(k)];
    assert(Seq::<InputEvent>::empty() + p =~= p);
    assert(p.drop_first() =~= Seq::<InputEvent>::empty());
    assert(Seq::<InputEvent>::empty() + Seq::<InputEvent>::empty() =~= Seq::<InputEvent>::empty());
}

/// One more click of a multi-click sequence: from a cooldown after click `n`,
/// pressing the same key sooner than the click window, then letting it go
/// silent past the release timeout (before the long-press delay), yields
/// `Pressed`, `Released`, then `Click(k, n + 1)`, and leaves the machine in
/// cooldown with count `n + 1`. With `press_begins_counting`, the `n`-th such
/// press of a sequence yields `Click(k, n)`.
pub proof fn next_click(
    t: Thresholds,
    k: KeyData,
    released: u64,
    n: usize,
    pressed_at: u64,
    silent_at: u64,
    later: Option<KeyData>,
    last: u64,
)
    requires
        k.key != Key::Printable(0),
        n < usize::MAX,
        pressed_at >= released,
        (pressed_at - released) * t.scale < t.click_window,
        silent_at >= pressed_at,
        (silent_at - pressed_at) * t.scale > t.release_timeout,
    ensures
        ({
            let m0 = settled(t, State::Cooldown { key: k, release_time: released, click_count: n });
            let (m1, o1) = update_model(m0, Some(k), pressed_at);
            let (m2, o2) = update_model(m1, None, silent_at);
            let (m3, o3) = update_model(m2, later, last);
            &&& o1 == Outcome::Ready(Some(InputEvent::Pressed(k)))
            &&& o2 == Outcome::Ready(Some(InputEvent::Released(k)))
            &&& o3 == Outcome::Ready(Some(InputEvent::Click(k, (n + 1) as usize)))
            &&& m3 == settled(t, State::Cooldown { key: k, release_time: silent_at, click_count: (n + 1) as usize })
        }),
{
    after_release(t, k, released, n, Some(k), pressed_at);
    let c = (n + 1) as usize;
    silent_key(t, k, pressed_at, pressed_at, false, c, silent_at);
    let m2 = TrackerModel {
        thresholds: t,
        state: State::Cooldown { key: k, release_time: silent_at, click_count: c },
        pending: seq![InputEvent::Click(k, c)],
    };
    queued_event_first(m2, later, last);
    assert(m2.pending.subrange(1, 1) =~= Seq::<InputEvent>::empty());
}

/// The first click of a sequence: from idle, pressing a key and letting it go
/// silent past the release timeout yields `Pressed`, `Released`, then
/// `Click(k, 1)`, and leaves the machine in cooldown with count 1.
pub proof fn press_begins_counting(
    t: Thresholds,
    k: KeyData,
    pressed_at: u64,
    silent_at: u64,
    later: Option<KeyData>,
    last: u64,
)
    requires
        k.key != Key::Printable(0),
        silent_at >= pressed_at,
        (silent_at - pressed_at) * t.scale > t.release_timeout,
    ensures
        ({
            let (m1, o1) = update_model(settled(t, State::Idle), Some(k), pressed_at);
            let (m2, o2) = update_model(m1, None, silent_at);
            let (m3, o3) = update_model(m2, later, last);
            &&& o1 == Outcome::Ready(Some(InputEvent::Pressed(k)))
            &&& o2 == Outcome::Ready(Some(InputEvent::Released(k)))
            &&& o3 == Outcome::Ready(Some(InputEvent::Click(k, 1)))
            &&& m3 == settled(t, State::Cooldown { key: k, release_time: silent_at, click_count: 1 })
        }),
{
    any_other_report_presses(t, k, pressed_at);
    silent_key(t, k, pressed_at, pressed_at, false, 1, silent_at);
    let m2 = TrackerModel {
        thresholds: t,
        state: State::Cooldown { key: k, release_time: silent_at, click_count: 1 },
        pending: seq![InputEvent::Click(k, 1)],
    };
    queued_event_first(m2, later, last);
    assert(m2.pending.subrange(1, 1) =~= Seq::<InputEvent>::empty());
}

/// A long press ends the multi-click sequence: after `LongPressed` and the
/// release, the machine is idle with nothing queued, so the next press counts
/// from 1.
pub proof fn long_press_ends_sequence(
    t: Thresholds,
    k: KeyData,
    start: u64,
    count: usize,
    long_at: u64,
    silent_at: u64,
    next: KeyData,
    next_at: u64,
)
    requires
        k.key != Key::Printable(0),
        next.key != Key::Printable(0),
        long_at >= start,
        (long_at - start) * t.scale > t.long_press_delay,
        silent_at >= long_at,
        (silent_at - long_at) * t.scale > t.release_timeout,
    ensures
        ({
            let m0 = settled(t, State::Active {
                key: k,
                start_time: start,
                last_seen_time: start,
                long_press_triggered: false,
                click_count: count,
            });
            let (m1, o1) = update_model(m0, Some(k), long_at);
            let (m2, o2) = update_model(m1, None, silent_at);
            let (m3, o3) = update_model(m2, Some(next), next_at);
            &&& o1 == Outcome::Ready(Some(InputEvent::LongPressed(k)))
            &&& o2 == Outcome::Ready(Some(InputEvent::Released(k)))
            &&& m2 == settled(t, State::Idle)
            &&& o3 == Outcome::Ready(Some(InputEvent::Pressed(next)))
            &&& m3.state matches State::Active { click_count, .. } && click_count == 1
        }),
{
    held_key_reported_again(t, k, start, start, false, count, long_at);
    silent_key(t, k, start, long_at, true, count, silent_at);
    any_other_report_presses(t, next, next_at);
}

/// The timestamp machine's thresholds are the configured durations in ticks of
/// the counter, rounded down: `threshold * 1000 <= freq * ms < (threshold + 1) * 1000`,
/// compared one tick to one unit.
pub proof fn timestamp_thresholds_are_configured_durations(freq: u64, config: Config)
    requires
        freq * config.release_timeout <= u64::MAX,
        freq * config.long_press_delay <= u64::MAX,
        freq * config.click_window <= u64::MAX,
    ensures
        ({
            let th = timestamp_thresholds(freq, config);
            &&& th.scale == 1
            &&& th.release_timeout * 1000 <= freq * config.release_timeout < (th.release_timeout + 1) * 1000
            &&& th.long_press_delay * 1000 <= freq * config.long_press_delay < (th.long_press_delay + 1) * 1000
            &&& th.click_window * 1000 <= freq * config.click_window < (th.click_window + 1) * 1000
        }),
{
    ticks_round_down(freq, config.release_timeout);
    ticks_round_down(freq, config.long_press_delay);
    ticks_round_down(freq, config.click_window);
}

/// `ms` milliseconds at `freq` ticks per second, in whole ticks, rounded down.
pub proof fn ticks_round_down(freq: u64, ms: u64)
    requires
        freq * ms <= u64::MAX,
    ensures
        ticks_for(freq, ms) * 1000 <= freq * ms < (ticks_for(freq, ms) + 1) * 1000,
{
    let p: int = freq * ms;
    assert(p >= 0) by (nonlinear_arith)
        requires p == freq * ms;
    assert((p / 1000) * 1000 <= p < (p / 1000 + 1) * 1000) by (nonlinear_arith)
        requires p >= 0;
}

/// A machine on the timestamp counter updates its own tracker, exactly as the
/// tracker does.
pub proof fn timestamp_machine_updates_tracker(m: MachineModel, current: Option<KeyData>, now: u64)
    requires
        m.fallback is None,
    ensures
        ({
            let (m1, out) = machine_update(m, current, now);
            &&& m1.fallback is None
            &&& (m1.tracker, out) == update_model(m.tracker, current, now)
        }),
{
}

/// A machine with a fallback hands every report other than the NUL character
/// to the fallback's tracker, and ignores a NUL report without touching the
/// fallback's queue.
pub proof fn fallback_machine_delegates(m: MachineModel, current: Option<KeyData>, now: u64)
    requires
        m.fallback is Some,
    ensures
        ({
            let (m1, out) = machine_update(m, current, now);
            let f = m.fallback.unwrap();
            &&& m1.tracker == m.tracker
            &&& if current matches Some(k) && k.key == Key::Printable(0) {
                &&& m1 == m
                &&& out == Outcome::Ready(None)
            } else {
                &&& m1.fallback matches Some(g) && {
                    &&& g.timer_freq == f.timer_freq
                    &&& g.config == f.config
                    &&& (g.tracker, out) == update_model(f.tracker, current, now)
                }
            }
        }),
{
}

} // verus!
