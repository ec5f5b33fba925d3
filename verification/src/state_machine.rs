//! A high-level input state machine that transforms raw key reports into
//! semantic events.
//!
//! The machine distinguishes short presses, long presses and multi-click
//! sequences by the time that passes between key reports. It keeps an event
//! queue so that events come out in a logical order (a `Released` event always
//! precedes the `Click` of the same press).
//!
//! Time is handed in by the caller as a tick count (`now`): reading a clock is
//! the caller's work. When the machine needs a fresh reading in the middle of
//! an update it says so with `Outcome::Retry`.
use vstd::prelude::*;
use std::collections::VecDeque;
use crate::key_data::{Key, KeyData};
use crate::config::Config;
use crate::state_machine_fallback::{StateMachineFallback, FallbackModel, fallback_wf, fallback_thresholds};

verus! {

/// Logical input events identified by the state machine.
#[derive(Clone, Copy, Debug, PartialEq, Eq, Structural)]
pub enum InputEvent {
    /// A key was pressed down (the machine went from idle or cooldown to active).
    Pressed(KeyData),
    /// A key is considered released: no report for it came within the release timeout,
    /// or another key was pressed.
    Released(KeyData),
    /// The key has been held longer than the long-press delay; fired once per press.
    LongPressed(KeyData),
    /// The key is still held after its long press.
    Repeat(KeyData),
    /// The press ended before it became a long press; the count is the position
    /// of the click in a multi-click sequence (1 for a single click, 2 for a double click...).
    Click(KeyData, usize),
}

/// The lifecycle stage of the key that the machine tracks.
#[derive(Clone, Copy, Debug, PartialEq, Eq, Structural)]
pub enum State {
    /// No key is tracked.
    Idle,
    /// A key is held down.
    Active {
        /// The key being pressed.
        key: KeyData,
        /// When the press began; the long-press delay counts from here.
        start_time: u64,
        /// When the key was last reported; the release timeout counts from here.
        last_seen_time: u64,
        /// Whether `LongPressed` has already fired for this press.
        long_press_triggered: bool,
        /// The position of this press in a multi-click sequence.
        click_count: usize,
    },
    /// The key was released; the machine waits to see whether it is pressed again
    /// soon enough to continue a multi-click sequence.
    Cooldown {
        /// The key that was released.
        key: KeyData,
        /// When the release was decided.
        release_time: u64,
        /// The click count reached by the last press.
        click_count: usize,
    },
}

/// The durations that the machine compares elapsed time against.
///
/// An elapsed tick count `e` exceeds a threshold `t` when `e * scale > t`, and
/// falls short of it when `e * scale < t`. With `scale == 1` the thresholds are
/// tick counts; with `scale == 1000` and thresholds of milliseconds times
/// ticks per second, the comparison is one of exact elapsed time.
#[derive(Clone, Copy, Debug, PartialEq, Eq, Structural)]
pub struct Thresholds {
    pub scale: u64,
    /// No report for this long means the key was released.
    pub release_timeout: u128,
    /// A press held longer than this is a long press.
    pub long_press_delay: u128,
    /// A new press sooner than this after a release continues a multi-click sequence.
    pub click_window: u128,
}

/// What an update gives back.
#[derive(Clone, Copy, Debug, PartialEq, Eq, Structural)]
pub enum Outcome {
    /// The next event, if there is one.
    Ready(Option<InputEvent>),
    /// The machine went back to idle and must see this key again with a fresh
    /// time reading: call `update(Some(key), now)` once more.
    Retry(KeyData),
}

/// The abstract state of a `KeyTracker`.
pub struct TrackerModel {
    pub thresholds: Thresholds,
    pub state: State,
    /// The events queued and not yet handed out, oldest first.
    pub pending: Seq<InputEvent>,
}

/// The result of one state transition.
pub struct Transition {
    pub state: State,
    /// The events that the transition queues, in order.
    pub events: Seq<InputEvent>,
    /// A key that must be looked at again with a fresh time reading.
    pub retry: Option<KeyData>,
}

/// Ticks elapsed from `since` to `now`, 0 if the clock went backwards.
pub open spec fn elapsed(now: u64, since: u64) -> int {
    if now >= since {
        now - since
    } else {
        0
    }
}

/// `e` ticks are longer than the threshold.
pub open spec fn exceeds(e: int, scale: u64, threshold: u128) -> bool {
    e * scale > threshold
}

/// `e` ticks are shorter than the threshold.
pub open spec fn falls_short(e: int, scale: u64, threshold: u128) -> bool {
    e * scale < threshold
}

/// A report of the NUL character, which firmware sends when only a modifier
/// key changed.
pub open spec fn is_modifier_only(current: Option<KeyData>) -> bool {
    current matches Some(k) && k.key == Key::Printable(0)
}

/// The active state that a new press begins.
pub open spec fn press(key: KeyData, now: u64, count: usize) -> State {
    State::Active {
        key,
        start_time: now,
        last_seen_time: now,
        long_press_triggered: false,
        click_count: count,
    }
}

/// The events that end a press: always `Released`, then `Click` unless the press
/// became a long press.
pub open spec fn release_events(key: KeyData, long_press_triggered: bool, count: usize) -> Seq<
    InputEvent,
> {
    if long_press_triggered {
        seq![InputEvent::Released(key)]
    } else {
        seq![InputEvent::Released(key), InputEvent::Click(key, count)]
    }
}

/// Whether the last queued event is already a repeat of `key`.
pub open spec fn repeat_pending(pending: Seq<InputEvent>, key: KeyData) -> bool {
    pending.len() > 0 && pending.last() == InputEvent::Repeat(key)
}

/// One transition of the machine on a key report (or none) at time `now`.
pub open spec fn transition(
    t: Thresholds,
    s: State,
    pending: Seq<InputEvent>,
    current: Option<KeyData>,
    now: u64,
) -> Transition {
    match s {
        State::Idle => match current {
            Some(k) => Transition { state: press(k, now, 1), events: seq![InputEvent::Pressed(k)], retry: None },
            None => Transition { state: State::Idle, events: seq![], retry: None },
        },
        State::Active { key, start_time, last_seen_time, long_press_triggered, click_count } => {
            match current {
                Some(curr) => if curr == key {
                    let held = elapsed(now, start_time);
                    let seen = State::Active {
                        key,
                        start_time,
                        last_seen_time: now,
                        long_press_triggered,
                        click_count,
                    };
                    if !long_press_triggered && exceeds(held, t.scale, t.long_press_delay) {
                        Transition {
                            state: State::Active {
                                key,
                                start_time,
                                last_seen_time: now,
                                long_press_triggered: true,
                                click_count,
                            },
                            events: seq![InputEvent::LongPressed(key)],
                            retry: None,
                        }
                    } else if long_press_triggered && !repeat_pending(pending, key) {
                        Transition { state: seen, events: seq![InputEvent::Repeat(key)], retry: None }
                    } else {
                        Transition { state: seen, events: seq![], retry: None }
                    }
                } else {
                    Transition {
                        state: press(curr, now, 1),
                        events: release_events(key, long_press_triggered, click_count).push(
                            InputEvent::Pressed(curr),
                        ),
                        retry: None,
                    }
                },
                None => if exceeds(elapsed(now, last_seen_time), t.scale, t.release_timeout) {
                    Transition {
                        state: if !long_press_triggered {
                            State::Cooldown { key, release_time: now, click_count }
                        } else {
                            State::Idle
                        },
                        events: release_events(key, long_press_triggered, click_count),
                        retry: None,
                    }
                } else {
                    Transition { state: s, events: seq![], retry: None }
                },
            }
        },
        State::Cooldown { key, release_time, click_count } => {
            let e = elapsed(now, release_time);
            match current {
                Some(curr) => if curr == key && falls_short(e, t.scale, t.click_window) {
                    Transition {
                        state: press(curr, now, (click_count + 1) as usize),
                        events: seq![InputEvent::Pressed(curr)],
                        retry: None,
                    }
                } else {
                    Transition { state: State::Idle, events: seq![], retry: Some(curr) }
                },
                None => if exceeds(e, t.scale, t.click_window) {
                    Transition { state: State::Idle, events: seq![], retry: None }
                } else {
                    Transition { state: s, events: seq![], retry: None }
                },
            }
        },
    }
}

/// The click count can grow by one without overflow.
pub open spec fn count_has_room(s: State) -> bool {
    s matches State::Cooldown { click_count, .. } ==> click_count < usize::MAX
}

/// What `KeyTracker::update` does: the oldest queued event comes first; a
/// modifier-only report is ignored; otherwise the machine makes one transition
/// and hands out the oldest of the queued events.
pub open spec fn update_model(m: TrackerModel, current: Option<KeyData>, now: u64) -> (
    TrackerModel,
    Outcome,
) {
    if m.pending.len() > 0 {
        (
            TrackerModel { pending: m.pending.drop_first(), ..m },
            Outcome::Ready(Some(m.pending[0])),
        )
    } else if is_modifier_only(current) {
        (m, Outcome::Ready(None))
    } else {
        let tr = transition(m.thresholds, m.state, m.pending, current, now);
        let queued = m.pending + tr.events;
        match tr.retry {
            Some(k) => (TrackerModel { state: tr.state, ..m }, Outcome::Retry(k)),
            None => if queued.len() > 0 {
                (
                    TrackerModel { state: tr.state, pending: queued.drop_first(), ..m },
                    Outcome::Ready(Some(queued[0])),
                )
            } else {
                (TrackerModel { state: tr.state, pending: queued, ..m }, Outcome::Ready(None))
            },
        }
    }
}

/// The queue between two updates holds at most a `Click` and a `Pressed`, the
/// `Click` first: `LongPressed` and `Repeat` are handed out by the update that
/// makes them, so repeats never pile up.
pub open spec fn pending_shape(q: Seq<InputEvent>) -> bool {
    ||| q.len() == 0
    ||| q.len() == 1 && (q[0] is Click || q[0] is Pressed)
    ||| q.len() == 2 && q[0] is Click && q[1] is Pressed
}

/// In the events of one transition, every `Click` comes right after the
/// `Released` of the same key.
pub open spec fn clicks_after_releases(q: Seq<InputEvent>) -> bool {
    forall|i: int|
        0 <= i < q.len() ==> (#[trigger] q[i] matches InputEvent::Click(k, _) ==> i > 0 && q[i - 1]
            == InputEvent::Released(k))
}

/// The click count of a tracked press is at least 1.
pub open spec fn counts_positive(s: State) -> bool {
    match s {
        State::Idle => true,
        State::Active { click_count, .. } => click_count >= 1,
        State::Cooldown { click_count, .. } => click_count >= 1,
    }
}

/// The invariant that every update keeps.
pub open spec fn tracker_wf(m: TrackerModel) -> bool {
    &&& counts_positive(m.state)
    &&& pending_shape(m.pending)
}

/// A `Released` event always precedes the `Click` of the same press: in the
/// events of any transition, each `Click` comes right after the `Released` of
/// its key.
pub proof fn released_precedes_click(
    t: Thresholds,
    s: State,
    pending: Seq<InputEvent>,
    current: Option<KeyData>,
    now: u64,
)
    ensures
        clicks_after_releases(transition(t, s, pending, current, now).events),
{
    let ev = transition(t, s, pending, current, now).events;
    assert forall|i: int| 0 <= i < ev.len() implies (#[trigger] ev[i] matches InputEvent::Click(k, _)
        ==> i > 0 && ev[i - 1] == InputEvent::Released(k)) by {
        if let State::Active { key, long_press_triggered, click_count, .. } = s {
            let r = release_events(key, long_press_triggered, click_count);
            assert(r.push(InputEvent::Pressed(key))[0] == r[0]);
        }
    }
}

/// A `Click` is queued exactly when a press ends that never became a long
/// press, and `LongPressed` fires at most once per press: a press that has
/// fired it queues no second one, and the press that fires it is marked so.
pub proof fn click_only_without_long_press(
    t: Thresholds,
    s: State,
    pending: Seq<InputEvent>,
    current: Option<KeyData>,
    now: u64,
)
    ensures
        ({
            let tr = transition(t, s, pending, current, now);
            &&& (s matches State::Active { long_press_triggered, .. } && long_press_triggered)
                ==> forall|i: int| 0 <= i < tr.events.len() ==> !(#[trigger] tr.events[i] is LongPressed)
            &&& forall|i: int| 0 <= i < tr.events.len() ==> (#[trigger] tr.events[i] matches InputEvent::LongPressed(k)
                ==> tr.state matches State::Active { key, long_press_triggered, .. }
                    && key == k && long_press_triggered)
            &&& forall|i: int| 0 <= i < tr.events.len() ==> (#[trigger] tr.events[i] matches InputEvent::Click(k, n)
                ==> s matches State::Active { key, long_press_triggered, click_count, .. }
                    && key == k && !long_press_triggered && click_count == n)
        }),
{
}

/// Every press begins with `Pressed`: when a transition starts tracking a
/// press (from idle, from cooldown, or on a switch to another key), the last
/// event it queues is `Pressed` of that key, and `Pressed` is queued only then.
pub proof fn press_begins_with_pressed(
    t: Thresholds,
    s: State,
    pending: Seq<InputEvent>,
    current: Option<KeyData>,
    now: u64,
)
    ensures
        ({
            let tr = transition(t, s, pending, current, now);
            &&& match tr.state {
                State::Active { key, start_time, last_seen_time, long_press_triggered, .. } =>
                    !(s matches State::Active { key: k0, .. } && k0 == key) ==> {
                        &&& tr.events.len() > 0
                        &&& tr.events.last() == InputEvent::Pressed(key)
                        &&& start_time == now
                        &&& last_seen_time == now
                        &&& !long_press_triggered
                    },
                _ => true,
            }
            &&& forall|i: int| 0 <= i < tr.events.len() ==> (#[trigger] tr.events[i] matches InputEvent::Pressed(k)
                ==> tr.state matches State::Active { key, start_time, .. } && key == k && start_time == now)
        }),
{
    let tr = transition(t, s, pending, current, now);
    if let State::Active { key, long_press_triggered, click_count, .. } = s {
        let r = release_events(key, long_press_triggered, click_count);
        assert forall|i: int| 0 <= i < tr.events.len() implies (#[trigger] tr.events[i] matches InputEvent::Pressed(k)
            ==> tr.state matches State::Active { key, start_time, .. } && key == k && start_time == now) by {
            if let Some(curr) = current {
                if curr != key {
                    assert(tr.events == r.push(InputEvent::Pressed(curr)));
                }
            }
        }
    }
}

/// Multi-click: after a release, a press of the same key sooner than the
/// click window continues the count; any other press starts over from idle
/// (the machine asks for a fresh reading) and counts from 1.
pub proof fn multi_click_counting(
    t: Thresholds,
    key: KeyData,
    release_time: u64,
    click_count: usize,
    current: KeyData,
    now: u64,
    later: u64,
)
    requires
        !is_modifier_only(Some(current)),
        click_count < usize::MAX,
    ensures
        ({
            let m = TrackerModel {
                thresholds: t,
                state: State::Cooldown { key, release_time, click_count },
                pending: Seq::<InputEvent>::empty(),
            };
            let (m1, out) = update_model(m, Some(current), now);
            if current == key && falls_short(elapsed(now, release_time), t.scale, t.click_window) {
                &&& out == Outcome::Ready(Some(InputEvent::Pressed(current)))
                &&& m1.state == press(current, now, (click_count + 1) as usize)
                &&& m1.pending.len() == 0
            } else {
                &&& out == Outcome::Retry(current)
                &&& m1.state == State::Idle
                &&& update_model(m1, Some(current), later) == (
                    TrackerModel { state: press(current, later, 1), ..m },
                    Outcome::Ready(Some(InputEvent::Pressed(current))),
                )
            }
        }),
{
    let m = TrackerModel {
        thresholds: t,
        state: State::Cooldown { key, release_time, click_count },
        pending: Seq::<InputEvent>::empty(),
    };
    let (m1, out) = update_model(m, Some(current), now);
    if current == key && falls_short(elapsed(now, release_time), t.scale, t.click_window) {
        assert((m.pending + seq![InputEvent::Pressed(current)]).drop_first() =~= Seq::<InputEvent>::empty());
    } else {
        let tr = transition(m1.thresholds, m1.state, m1.pending, Some(current), later);
        assert((m1.pending + tr.events).drop_first() =~= Seq::<InputEvent>::empty());
    }
}

/// Every update keeps the invariant: click counts stay positive, and the queue
/// holds at most a `Click` followed by a `Pressed`.
pub proof fn update_keeps_invariant(m: TrackerModel, current: Option<KeyData>, now: u64)
    requires
        tracker_wf(m),
        count_has_room(m.state),
    ensures
        tracker_wf(update_model(m, current, now).0),
{
    let (m1, out) = update_model(m, current, now);
    if m.pending.len() > 0 {
        assert(m1.pending =~= m.pending.subrange(1, m.pending.len() as int));
        if m.pending.len() == 2 {
            assert(m1.pending[0] == m.pending[1]);
        }
    } else if is_modifier_only(current) {
    } else {
        let tr = transition(m.thresholds, m.state, m.pending, current, now);
        let queued = m.pending + tr.events;
        assert(queued =~= tr.events);
        if tr.retry is None && queued.len() > 0 {
            let q = queued.drop_first();
            if let State::Active { key, long_press_triggered, click_count, .. } = m.state {
                let r = release_events(key, long_press_triggered, click_count);
                if let Some(curr) = current {
                    if curr != key {
                        let ev = r.push(InputEvent::Pressed(curr));
                        assert(tr.events == ev);
                        if long_press_triggered {
                            assert(q =~= seq![InputEvent::Pressed(curr)]);
                        } else {
                            assert(q =~= seq![InputEvent::Click(key, click_count), InputEvent::Pressed(curr)]);
                        }
                    }
                } else if !long_press_triggered {
                    assert(q =~= seq![InputEvent::Click(key, click_count)]);
                }
            }
        }
    }
}

/// Where the stream of handed-out events stands.
pub enum StreamPhase {
    /// No press is open: the next event may be a `Pressed`.
    Free,
    /// A press of `key` is open; `long_pressed` once its `LongPressed` was handed out.
    Held { key: KeyData, long_pressed: bool },
    /// `Released(key)` of a press without long press was handed out: its
    /// `Click` must come next.
    ClickOwed { key: KeyData },
}

/// The phase after one more event, or `None` where the event may not come.
pub open spec fn stream_step(p: StreamPhase, e: InputEvent) -> Option<StreamPhase> {
    match e {
        InputEvent::Pressed(k) => match p {
            StreamPhase::Free => Some(StreamPhase::Held { key: k, long_pressed: false }),
            _ => None,
        },
        InputEvent::Released(k) => match p {
            StreamPhase::Held { key, long_pressed } => if key == k {
                if long_pressed {
                    Some(StreamPhase::Free)
                } else {
                    Some(StreamPhase::ClickOwed { key: k })
                }
            } else {
                None
            },
            _ => None,
        },
        InputEvent::LongPressed(k) => match p {
            StreamPhase::Held { key, long_pressed } => if key == k && !long_pressed {
                Some(StreamPhase::Held { key: k, long_pressed: true })
            } else {
                None
            },
            _ => None,
        },
        InputEvent::Repeat(k) => match p {
            StreamPhase::Held { key, long_pressed } => if key == k && long_pressed {
                Some(p)
            } else {
                None
            },
            _ => None,
        },
        InputEvent::Click(k, n) => match p {
            StreamPhase::ClickOwed { key } => if key == k && n >= 1 {
                Some(StreamPhase::Free)
            } else {
                None
            },
            _ => None,
        },
    }
}

/// The phase after a sequence of events, or `None` where one of them may not come.
pub open spec fn stream_run(p: StreamPhase, es: Seq<InputEvent>) -> Option<StreamPhase>
    decreases es.len(),
{
    if es.len() == 0 {
        Some(p)
    } else {
        match stream_step(p, es[0]) {
            Some(p1) => stream_run(p1, es.drop_first()),
            None => None,
        }
    }
}

/// The phase that a machine's state stands for, once its queue is handed out.
pub open spec fn phase_of(s: State) -> StreamPhase {
    match s {
        State::Active { key, long_press_triggered, .. } => StreamPhase::Held { key, long_pressed: long_press_triggered },
        _ => StreamPhase::Free,
    }
}

/// The machine, with the events handed out so far leaving the stream at `p`:
/// its queued events may follow, and lead to the phase of its state.
pub open spec fn stream_consistent(m: TrackerModel, p: StreamPhase) -> bool {
    &&& tracker_wf(m)
    &&& stream_run(p, m.pending) == Some(phase_of(m.state))
}

/// A machine that has not seen a report yet.
pub open spec fn fresh_tracker(t: Thresholds) -> TrackerModel {
    TrackerModel { thresholds: t, state: State::Idle, pending: Seq::<InputEvent>::empty() }
}

/// Feeding a sequence of reports (each with its time): the machine after them
/// and the events handed out, in order.
pub open spec fn run_updates(m: TrackerModel, inputs: Seq<(Option<KeyData>, u64)>) -> (
    TrackerModel,
    Seq<InputEvent>,
)
    decreases inputs.len(),
{
    if inputs.len() == 0 {
        (m, Seq::<InputEvent>::empty())
    } else {
        let (m1, out) = update_model(m, inputs[0].0, inputs[0].1);
        let (m2, es) = run_updates(m1, inputs.drop_first());
        (
            m2,
            match out {
                Outcome::Ready(Some(e)) => seq![e] + es,
                _ => es,
            },
        )
    }
}

/// The click count never overflows while the reports are fed (each update requires it).
pub open spec fn counts_fit(m: TrackerModel, inputs: Seq<(Option<KeyData>, u64)>) -> bool
    decreases inputs.len(),
{
    inputs.len() == 0 || {
        &&& count_has_room(m.state)
        &&& counts_fit(update_model(m, inputs[0].0, inputs[0].1).0, inputs.drop_first())
    }
}

proof fn stream_of_events(p: StreamPhase, e: InputEvent, es: Seq<InputEvent>)
    ensures
        stream_run(p, seq![e] + es) == match stream_step(p, e) {
            Some(p1) => stream_run(p1, es),
            None => None,
        },
{
    assert((seq![e] + es)[0] == e);
    assert((seq![e] + es).drop_first() =~= es);
}

proof fn transition_follows_stream(
    t: Thresholds,
    s: State,
    pending: Seq<InputEvent>,
    current: Option<KeyData>,
    now: u64,
)
    requires
        counts_positive(s),
        count_has_room(s),
    ensures
        stream_run(phase_of(s), transition(t, s, pending, current, now).events)
            == Some(phase_of(transition(t, s, pending, current, now).state)),
{
    let tr = transition(t, s, pending, current, now);
    reveal_with_fuel(stream_run, 4);
    match s {
        State::Idle => {},
        State::Active { key, long_press_triggered, click_count, .. } => {
            let r = release_events(key, long_press_triggered, click_count);
            match current {
                Some(curr) => if curr != key {
                    assert(tr.events == r.push(InputEvent::Pressed(curr)));
                    if long_press_triggered {
                        assert(tr.events =~= seq![InputEvent::Released(key), InputEvent::Pressed(curr)]);
                        assert(tr.events.drop_first() =~= seq![InputEvent::Pressed(curr)]);
                    } else {
                        assert(tr.events =~= seq![InputEvent::Released(key), InputEvent::Click(key, click_count), InputEvent::Pressed(curr)]);
                        assert(tr.events.drop_first() =~= seq![InputEvent::Click(key, click_count), InputEvent::Pressed(curr)]);
                        assert(tr.events.drop_first().drop_first() =~= seq![InputEvent::Pressed(curr)]);
                    }
                },
                None => {
                    if !long_press_triggered {
                        assert(r.drop_first() =~= seq![InputEvent::Click(key, click_count)]);
                    }
                },
            }
        },
        State::Cooldown { .. } => {},
    }
}

/// One update keeps the handed-out events legal: the event it hands out (if
/// any) may follow the events handed out before, and the machine stays
/// consistent with the stream.
pub proof fn update_keeps_stream(m: TrackerModel, p: StreamPhase, current: Option<KeyData>, now: u64)
    requires
        stream_consistent(m, p),
        count_has_room(m.state),
    ensures
        ({
            let (m1, out) = update_model(m, current, now);
            match out {
                Outcome::Ready(Some(e)) => stream_step(p, e) matches Some(p1) && stream_consistent(m1, p1),
                _ => stream_consistent(m1, p),
            }
        }),
{
    let (m1, out) = update_model(m, current, now);
    update_keeps_invariant(m, current, now);
    if m.pending.len() > 0 {
        assert(m.pending =~= seq![m.pending[0]] + m.pending.drop_first());
        stream_of_events(p, m.pending[0], m.pending.drop_first());
    } else if is_modifier_only(current) {
    } else {
        let tr = transition(m.thresholds, m.state, m.pending, current, now);
        transition_follows_stream(m.thresholds, m.state, m.pending, current, now);
        let queued = m.pending + tr.events;
        assert(queued =~= tr.events);
        if tr.retry is None && queued.len() > 0 {
            assert(queued =~= seq![queued[0]] + queued.drop_first());
            stream_of_events(p, queued[0], queued.drop_first());
        }
    }
}

proof fn run_stays_legal(m: TrackerModel, p: StreamPhase, inputs: Seq<(Option<KeyData>, u64)>)
    requires
        stream_consistent(m, p),
        counts_fit(m, inputs),
    ensures
        stream_run(p, run_updates(m, inputs).1) is Some,
    decreases inputs.len(),
{
    if inputs.len() > 0 {
        let (m1, out) = update_model(m, inputs[0].0, inputs[0].1);
        update_keeps_stream(m, p, inputs[0].0, inputs[0].1);
        let es = run_updates(m1, inputs.drop_first()).1;
        match out {
            Outcome::Ready(Some(e)) => {
                let p1 = stream_step(p, e).unwrap();
                run_stays_legal(m1, p1, inputs.drop_first());
                stream_of_events(p, e, es);
            },
            _ => {
                run_stays_legal(m1, p, inputs.drop_first());
            },
        }
    }
}

/// Event order over any sequence of updates from a fresh machine: a `Released`
/// only ends an open press of the same key, and a new `Pressed` only comes when
/// no press is open; right after `Released(k)` comes `Click(k, n)` with `n >= 1`
/// exactly when no `LongPressed` was handed out since `Pressed(k)`; `LongPressed`
/// comes at most once per press; `Repeat(k)` comes only after `LongPressed(k)`.
/// (Stated for every sequence of reports on which the click count does not overflow.)
pub proof fn event_order(t: Thresholds, inputs: Seq<(Option<KeyData>, u64)>)
    requires
        counts_fit(fresh_tracker(t), inputs),
    ensures
        stream_run(StreamPhase::Free, run_updates(fresh_tracker(t), inputs).1) is Some,
{
    run_stays_legal(fresh_tracker(t), StreamPhase::Free, inputs);
}

/// Over any sequence of updates from a fresh machine, the invariant holds after
/// every update: the queue holds at most a `Click` followed by a `Pressed`, and
/// click counts stay positive.
pub proof fn queue_stays_small(t: Thresholds, inputs: Seq<(Option<KeyData>, u64)>)
    requires
        counts_fit(fresh_tracker(t), inputs),
    ensures
        tracker_wf(run_updates(fresh_tracker(t), inputs).0),
{
    run_keeps_invariant(fresh_tracker(t), inputs);
}

proof fn run_keeps_invariant(m: TrackerModel, inputs: Seq<(Option<KeyData>, u64)>)
    requires
        tracker_wf(m),
        counts_fit(m, inputs),
    ensures
        tracker_wf(run_updates(m, inputs).0),
    decreases inputs.len(),
{
    if inputs.len() > 0 {
        update_keeps_invariant(m, inputs[0].0, inputs[0].1);
        run_keeps_invariant(update_model(m, inputs[0].0, inputs[0].1).0, inputs.drop_first());
    }
}

/// The key-tracking state machine: thresholds, the tracked key and the queue of
/// events not yet handed out.
pub struct KeyTracker {
    thresholds: Thresholds,
    state: State,
    event_queue: VecDeque<InputEvent>,
}

impl View for KeyTracker {
    type V = TrackerModel;

    closed spec fn view(&self) -> TrackerModel {
        TrackerModel { thresholds: self.thresholds, state: self.state, pending: self.event_queue@ }
    }
}

fn exceeds_exec(e: u64, scale: u64, threshold: u128) -> (r: bool)
    ensures
        r == exceeds(e as int, scale, threshold),
{
    let e2: u128 = e as u128;
    let s2: u128 = scale as u128;
    assert(e2 * s2 <= u64::MAX * u64::MAX) by (nonlinear_arith)
        requires
            e2 <= u64::MAX,
            s2 <= u64::MAX,
    ;
    e2 * s2 > threshold
}

fn falls_short_exec(e: u64, scale: u64, threshold: u128) -> (r: bool)
    ensures
        r == falls_short(e as int, scale, threshold),
{
    let e2: u128 = e as u128;
    let s2: u128 = scale as u128;
    assert(e2 * s2 <= u64::MAX * u64::MAX) by (nonlinear_arith)
        requires
            e2 <= u64::MAX,
            s2 <= u64::MAX,
    ;
    e2 * s2 < threshold
}

impl KeyTracker {
    /// An idle machine with an empty queue.
    pub fn new(thresholds: Thresholds) -> (m: KeyTracker)
        ensures
            m@.thresholds == thresholds,
            m@.state == State::Idle,
            m@.pending == Seq::<InputEvent>::empty(),
    {
        KeyTracker { thresholds, state: State::Idle, event_queue: VecDeque::new() }
    }

    /// The current stage of the tracked key.
    pub fn state(&self) -> (s: State)
        ensures
            s == self@.state,
    {
        self.state
    }

    /// The number of events queued and not yet handed out.
    pub fn pending_len(&self) -> (n: usize)
        ensures
            n == self@.pending.len(),
    {
        self.event_queue.len()
    }

    /// Whether the next update can count a further click without overflow
    /// (`update` requires it).
    pub fn click_count_has_room(&self) -> (r: bool)
        ensures
            r == count_has_room(self@.state),
    {
        match self.state {
            State::Cooldown { click_count, .. } => click_count < usize::MAX,
            _ => true,
        }
    }

    /// Feeds one key report (or none) taken at time `now`, and returns the next event.
    ///
    /// 1. Queued events come first: if one is pending, the oldest is returned and
    ///    nothing else happens.
    /// 2. A report of the NUL character (only a modifier changed) is ignored.
    /// 3. Otherwise the machine makes one transition (see `transition`) and hands
    ///    out the oldest queued event, if any.
    pub fn update(&mut self, current_key: Option<KeyData>, now: u64) -> (out: Outcome)
        requires
            count_has_room(old(self)@.state),
        ensures
            (final(self)@, out) == update_model(old(self)@, current_key, now),
    {
        // queued events first, so that the sequence of a transition comes out whole
        if let Some(event) = self.event_queue.pop_front() {
            return Outcome::Ready(Some(event));
        }
        // modifier guard
        if let Some(k) = current_key {
            if let Key::Printable(c) = k.key {
                if c == 0 {
                    return Outcome::Ready(None);
                }
            }
        }
        let ghost pending = self.event_queue@;
        let ghost tr = transition(self.thresholds, self.state, pending, current_key, now);
        match self.state {
            State::Idle => {
                if let Some(key) = current_key {
                    self.enter_active(key, now, 1);
                }
            },
            State::Active { key, start_time, last_seen_time, long_press_triggered, click_count } => {
                match current_key {
                    Some(curr) => {
                        if curr == key {
                            let held = now.saturating_sub(start_time);
                            if !long_press_triggered && exceeds_exec(
                                held,
                                self.thresholds.scale,
                                self.thresholds.long_press_delay,
                            ) {
                                self.state = State::Active {
                                    key,
                                    start_time,
                                    last_seen_time: now,
                                    long_press_triggered: true,
                                    click_count,
                                };
                                self.event_queue.push_back(InputEvent::LongPressed(key));
                            } else {
                                self.state = State::Active {
                                    key,
                                    start_time,
                                    last_seen_time: now,
                                    long_press_triggered,
                                    click_count,
                                };
                                if long_press_triggered {
                                    // coalesce: no second repeat of the same key behind the first
                                    let n = self.event_queue.len();
                                    let mut throttled = false;
                                    if n > 0 {
                                        if let InputEvent::Repeat(k) = self.event_queue[n - 1] {
                                            throttled = k == key;
                                        }
                                    }
                                    if !throttled {
                                        self.event_queue.push_back(InputEvent::Repeat(key));
                                    }
                                }
                            }
                        } else {
                            // key switched without a release
                            self.emit_release_and_click(key, long_press_triggered, click_count);
                            self.state = State::Idle;
                            self.enter_active(curr, now, 1);
                        }
                    },
                    None => {
                        if exceeds_exec(
                            now.saturating_sub(last_seen_time),
                            self.thresholds.scale,
                            self.thresholds.release_timeout,
                        ) {
                            self.emit_release_and_click(key, long_press_triggered, click_count);
                            self.state =
                                if !long_press_triggered {
                                    State::Cooldown { key, release_time: now, click_count }
                                } else {
                                    State::Idle
                                };
                        }
                    },
                }
            },
            State::Cooldown { key, release_time, click_count } => {
                let e = now.saturating_sub(release_time);
                match current_key {
                    Some(curr) => {
                        if curr == key && falls_short_exec(
                            e,
                            self.thresholds.scale,
                            self.thresholds.click_window,
                        ) {
                            let count = click_count + 1;
                            self.state = State::Idle;
                            self.enter_active(curr, now, count);
                        } else {
                            // another key, or too late: start over from idle with a fresh reading
                            self.state = State::Idle;
                            return Outcome::Retry(curr);
                        }
                    },
                    None => {
                        if exceeds_exec(e, self.thresholds.scale, self.thresholds.click_window) {
                            self.state = State::Idle;
                        }
                    },
                }
            },
        }
        assert(self@.state == tr.state);
        assert(self@.pending =~= pending + tr.events);
        let next = self.event_queue.pop_front();
        Outcome::Ready(next)
    }

    /// Begins a press of `key` at `now` with the given click count, and queues `Pressed`.
    fn enter_active(&mut self, key: KeyData, now: u64, count: usize)
        ensures
            final(self).thresholds == old(self).thresholds,
            final(self).state == press(key, now, count),
            final(self)@.pending == old(self)@.pending.push(InputEvent::Pressed(key)),
    {
        self.state = State::Active {
            key,
            start_time: now,
            last_seen_time: now,
            long_press_triggered: false,
            click_count: count,
        };
        self.event_queue.push_back(InputEvent::Pressed(key));
    }

    /// Queues the events that end a press: `Released`, then `Click` unless the
    /// press became a long press.
    fn emit_release_and_click(&mut self, key: KeyData, lp_triggered: bool, count: usize)
        ensures
            final(self).thresholds == old(self).thresholds,
            final(self).state == old(self).state,
            final(self)@.pending == old(self)@.pending + release_events(key, lp_triggered, count),
    {
        self.event_queue.push_back(InputEvent::Released(key));
        if !lp_triggered {
            self.event_queue.push_back(InputEvent::Click(key, count));
        }
        assert(self@.pending =~= old(self)@.pending + release_events(key, lp_triggered, count));
    }
}

/// Ticks in `ms` milliseconds for a clock of `freq` ticks per second, rounded down.
pub open spec fn ticks_for(freq: u64, ms: u64) -> u64 {
    ((freq * ms) / 1000) as u64
}

/// Ticks in `ms` milliseconds for a clock of `freq` ticks per second, rounded down.
pub fn ticks_for_ms(freq: u64, ms: u64) -> (t: u64)
    requires
        freq * ms <= u64::MAX,
    ensures
        t == ticks_for(freq, ms),
{
    (freq * ms) / 1000
}

/// The thresholds of a machine on a timestamp counter of `freq` ticks per second.
pub open spec fn timestamp_thresholds(freq: u64, config: Config) -> Thresholds {
    Thresholds {
        scale: 1,
        release_timeout: ticks_for(freq, config.release_timeout) as u128,
        long_press_delay: ticks_for(freq, config.long_press_delay) as u128,
        click_window: ticks_for(freq, config.click_window) as u128,
    }
}

/// The thresholds that the timestamp counter's frequency can be scaled to without overflow.
pub open spec fn timestamp_config_fits(freq: u64, config: Config) -> bool {
    &&& freq * config.release_timeout <= u64::MAX
    &&& freq * config.long_press_delay <= u64::MAX
    &&& freq * config.click_window <= u64::MAX
}

/// Whether the configured durations can be scaled to the timestamp counter's
/// frequency without overflow (`StateMachine::new` requires it).
pub fn timestamp_config_fits_exec(freq: u64, config: Config) -> (r: bool)
    ensures
        r == timestamp_config_fits(freq, config),
{
    freq.checked_mul(config.release_timeout).is_some() && freq.checked_mul(config.long_press_delay).is_some()
        && freq.checked_mul(config.click_window).is_some()
}

/// Where the machine's time comes from.
pub enum ClockSource {
    /// The firmware's timestamp protocol, which runs at `frequency` ticks per second.
    Timestamp { frequency: u64 },
    /// No timestamp protocol: a calibrated fallback does the work, on the
    /// processor's tick counter of `timer_freq` ticks per second.
    Calibrated { timer_freq: u64 },
}

/// The abstract state of a `StateMachine`.
pub struct MachineModel {
    /// The machine run on the timestamp counter.
    pub tracker: TrackerModel,
    /// The calibrated machine that does the work when there is no timestamp counter.
    pub fallback: Option<FallbackModel>,
}

/// What `StateMachine::update` does: a machine on the timestamp counter updates
/// its own tracker; one with a fallback ignores a modifier-only report and
/// otherwise hands the report to the fallback's tracker.
pub open spec fn machine_update(m: MachineModel, current: Option<KeyData>, now: u64) -> (
    MachineModel,
    Outcome,
) {
    match m.fallback {
        Some(f) => if is_modifier_only(current) {
            (m, Outcome::Ready(None))
        } else {
            let (t1, out) = update_model(f.tracker, current, now);
            (MachineModel { fallback: Some(FallbackModel { tracker: t1, ..f }), ..m }, out)
        },
        None => {
            let (t1, out) = update_model(m.tracker, current, now);
            (MachineModel { tracker: t1, ..m }, out)
        },
    }
}

/// A high-level input state machine: runs on the firmware's timestamp counter
/// when there is one, and hands its work to the calibrated fallback otherwise.
pub struct StateMachine {
    fallback: Option<StateMachineFallback>,
    tracker: KeyTracker,
}

impl View for StateMachine {
    type V = MachineModel;

    closed spec fn view(&self) -> MachineModel {
        MachineModel {
            tracker: self.tracker@,
            fallback: match self.fallback {
                Some(f) => Some(f@),
                None => None,
            },
        }
    }
}

impl StateMachine {
    /// While the fallback does the work, it is well formed and the machine's own
    /// tracker stays idle and empty.
    pub open spec fn wf(&self) -> bool {
        match self@.fallback {
            Some(f) => {
                &&& fallback_wf(f)
                &&& self@.tracker.state == State::Idle
                &&& self@.tracker.pending.len() == 0
            },
            None => true,
        }
    }

    /// A machine on the given clock, with the configured durations: on the
    /// timestamp counter in ticks, on the calibrated counter as exact elapsed time.
    pub fn new(source: ClockSource, config: Config) -> (m: StateMachine)
        requires
            match source {
                ClockSource::Timestamp { frequency } => timestamp_config_fits(frequency, config),
                ClockSource::Calibrated { timer_freq } => 0 < timer_freq,
            },
        ensures
            m.wf(),
            m@.tracker.state == State::Idle,
            m@.tracker.pending == Seq::<InputEvent>::empty(),
            match source {
                ClockSource::Timestamp { frequency } => {
                    &&& m@.tracker.thresholds == timestamp_thresholds(frequency, config)
                    &&& m@.fallback is None
                },
                ClockSource::Calibrated { timer_freq } => {
                    &&& m@.tracker.thresholds == (Thresholds { scale: 1, release_timeout: 0, long_press_delay: 0, click_window: 0 })
                    &&& m@.fallback matches Some(f) && {
                        &&& f.timer_freq == timer_freq
                        &&& f.config == config
                        &&& f.tracker.thresholds == fallback_thresholds(timer_freq, config)
                        &&& f.tracker.state == State::Idle
                        &&& f.tracker.pending == Seq::<InputEvent>::empty()
                    }
                },
            },
    {
        match source {
            ClockSource::Timestamp { frequency } => {
                let thresholds = Thresholds {
                    scale: 1,
                    // must exceed the longest gap between two reports of a held key
                    release_timeout: ticks_for_ms(frequency, config.release_timeout) as u128,
                    long_press_delay: ticks_for_ms(frequency, config.long_press_delay) as u128,
                    // a longer gap between release and next press starts a new count
                    click_window: ticks_for_ms(frequency, config.click_window) as u128,
                };
                StateMachine { fallback: None, tracker: KeyTracker::new(thresholds) }
            },
            ClockSource::Calibrated { timer_freq } => {
                let fallback = StateMachineFallback::new(timer_freq, config);
                let thresholds = Thresholds { scale: 1, release_timeout: 0, long_press_delay: 0, click_window: 0 };
                StateMachine { fallback: Some(fallback), tracker: KeyTracker::new(thresholds) }
            },
        }
    }

    /// Whether the calibrated fallback does the work; its clock is then the
    /// processor's tick counter rather than the timestamp protocol.
    pub fn uses_fallback(&self) -> (r: bool)
        ensures
            r == self@.fallback is Some,
    {
        self.fallback.is_some()
    }

    /// Whether the next update can count a further click without overflow
    /// (`update` requires it).
    pub fn click_count_has_room(&self) -> (r: bool)
        ensures
            r == match self@.fallback {
                Some(f) => count_has_room(f.tracker.state),
                None => count_has_room(self@.tracker.state),
            },
    {
        match &self.fallback {
            Some(f) => f.click_count_has_room(),
            None => self.tracker.click_count_has_room(),
        }
    }

    /// Feeds one key report (or none) read at time `now` (a timestamp-counter
    /// value, or a tick-counter value when the fallback does the work), and
    /// returns the next event; see `KeyTracker::update`.
    pub fn update(&mut self, current_key: Option<KeyData>, now: u64) -> (out: Outcome)
        requires
            old(self).wf(),
            match old(self)@.fallback {
                Some(f) => count_has_room(f.tracker.state),
                None => count_has_room(old(self)@.tracker.state),
            },
        ensures
            final(self).wf(),
            (final(self)@, out) == machine_update(old(self)@, current_key, now),
    {
        // queue storage priority: keep the sequence of a transition whole
        if self.tracker.pending_len() > 0 {
            return self.tracker.update(current_key, now);
        }
        // modifier guard
        if let Some(k) = current_key {
            if let Key::Printable(c) = k.key {
                if c == 0 {
                    return Outcome::Ready(None);
                }
            }
        }
        // compatibility mode: the fallback does the work
        match self.fallback.take() {
            Some(mut fallback) => {
                let out = fallback.update(current_key, now);
                self.fallback = Some(fallback);
                out
            },
            None => self.tracker.update(current_key, now),
        }
    }
}

} // verus!
