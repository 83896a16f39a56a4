//! One recording session: normalizes raw hook events into the typed
//! event stream, synthesizes waits per the configured strategy, watches
//! the trailing keypresses for the stop sequence, and trims the stop
//! keys from the tail when it fires. The session owns all mutable
//! capture state; the hook calls it sequentially.

use crate::config::{Config, WaitStrategy};
use crate::event::{Event, Macro, MouseEventButton, MouseEventMove};
use crate::keys::{Button, Key};
use vstd::prelude::*;
use vstd::string::*;

verus! {

/// A raw event as the hook delivers it: button transitions carry no
/// coordinates, moves carry the new pointer position, wheel turns are
/// reported but never recorded.
#[derive(Clone, Copy, PartialEq, Eq, Structural, Debug)]
pub enum RawEvent {
    KeyPress(Key),
    KeyRelease(Key),
    ButtonPress(Button),
    ButtonRelease(Button),
    MouseMove(i64, i64),
    Wheel(i64, i64),
}

/// The abstract state of a session: what has been recorded, the
/// trailing-keys window, the tracked pointer, whether a button is down,
/// and the time of the last recorded event under the `Actual` strategy.
pub struct SessionModel {
    pub events: Seq<Event>,
    pub recent: Seq<Key>,
    pub pos: (i64, i64),
    pub pressed: bool,
    pub last_ms: Option<u64>,
}

/// A capture session in progress.
pub struct Session {
    pub cfg: Config,
    pub description: String,
    pub events: Vec<Event>,
    pub recent_keys: Vec<Key>,
    pub mouse_pos: (i64, i64),
    pub mouse_pressed: bool,
    pub last_event_time_ms: Option<u64>,
}

/// What one raw event records, if anything: moves are dropped unless
/// non-drag moves are recorded or a button is held; button transitions
/// take the tracked pointer position; wheel turns are never recorded.
pub open spec fn spec_raw_to_event(m: SessionModel, raw: RawEvent, record_moves: bool) -> Option<
    Event,
> {
    match raw {
        RawEvent::KeyPress(k) => Option::Some(Event::KeyPress(k)),
        RawEvent::KeyRelease(k) => Option::Some(Event::KeyRelease(k)),
        RawEvent::ButtonPress(b) => Option::Some(
            Event::MousePress(MouseEventButton { x: m.pos.0, y: m.pos.1, button: b }),
        ),
        RawEvent::ButtonRelease(b) => Option::Some(
            Event::MouseRelease(MouseEventButton { x: m.pos.0, y: m.pos.1, button: b }),
        ),
        RawEvent::MouseMove(x, y) => if record_moves || m.pressed {
            Option::Some(Event::MouseMove(MouseEventMove { x, y }))
        } else {
            Option::None
        },
        RawEvent::Wheel(_, _) => Option::None,
    }
}

/// The trailing-keys window after one raw event: a keypress extends it,
/// any mouse activity clears it, everything else leaves it alone.
pub open spec fn spec_recent_after(m: SessionModel, raw: RawEvent) -> Seq<Key> {
    match raw {
        RawEvent::KeyPress(k) => m.recent.push(k),
        RawEvent::KeyRelease(_) => m.recent,
        RawEvent::ButtonPress(_) => Seq::empty(),
        RawEvent::ButtonRelease(_) => Seq::empty(),
        RawEvent::MouseMove(_, _) => Seq::empty(),
        RawEvent::Wheel(_, _) => m.recent,
    }
}

pub open spec fn spec_sat_sub(a: u64, b: u64) -> u64 {
    if a >= b {
        (a - b) as u64
    } else {
        0
    }
}

/// The session state after one raw event at time `now_ms`: every
/// recorded event is preceded by a synthesized wait per the strategy —
/// a fixed wait under `ConstantMS`, the elapsed time since the previous
/// recorded event under `Actual` (none before the first).
pub open spec fn spec_step(cfg: Config, m: SessionModel, raw: RawEvent, now_ms: u64) -> SessionModel {
    let op = spec_raw_to_event(m, raw, cfg.record_non_drag_mouse_moves);
    let recent2 = spec_recent_after(m, raw);
    let pos2 = match raw {
        RawEvent::MouseMove(x, y) => (x, y),
        _ => m.pos,
    };
    let pressed2 = match raw {
        RawEvent::ButtonPress(_) => true,
        RawEvent::ButtonRelease(_) => false,
        _ => m.pressed,
    };
    match op {
        Option::None => SessionModel {
            events: m.events,
            recent: recent2,
            pos: pos2,
            pressed: pressed2,
            last_ms: m.last_ms,
        },
        Option::Some(ev) => match cfg.wait_strategy {
            WaitStrategy::Actual => {
                let evs = match m.last_ms {
                    Option::Some(last) => m.events.push(Event::Wait(spec_sat_sub(now_ms, last))),
                    Option::None => m.events,
                };
                SessionModel {
                    events: evs.push(ev),
                    recent: recent2,
                    pos: pos2,
                    pressed: pressed2,
                    last_ms: Option::Some(now_ms),
                }
            },
            WaitStrategy::ConstantMS(ms) => SessionModel {
                events: m.events.push(Event::Wait(ms)).push(ev),
                recent: recent2,
                pos: pos2,
                pressed: pressed2,
                last_ms: m.last_ms,
            },
        },
    }
}

/// Whether the key window ends with the configured stop sequence.
pub open spec fn spec_ends_with(keys: Seq<Key>, stops: Seq<Key>) -> bool {
    stops.len() <= keys.len() && keys.subrange(
        keys.len() - stops.len(),
        keys.len() as int,
    ) == stops
}

/// Whether this step ends the session: only a keypress can, when the
/// window it leaves behind ends with the stop sequence.
pub open spec fn spec_stopped(cfg: Config, m2: SessionModel, raw: RawEvent) -> bool {
    (raw matches RawEvent::KeyPress(_)) && spec_ends_with(m2.recent, cfg.stop_keystrokes@)
}

/// The backward trim that removes the stop keys from the recorded tail:
/// walking from position `i` toward the front, every event is dropped
/// until the remaining stop keys are all matched against keypresses of
/// them from the tail toward the head; when the last one matches, what
/// stands before it is kept. If the walk cannot account for every stop
/// key, everything walked over is dropped.
pub open spec fn spec_trim_rec(events: Seq<Event>, stops: Seq<Key>, i: int) -> Seq<Event>
    decreases i + 1,
{
    if i < 0 {
        Seq::empty()
    } else {
        let matched = stops.len() > 0 && (events[i] matches Event::KeyPress(k) && k
            == stops.last());
        if matched && stops.len() == 1 {
            events.take(i)
        } else if matched {
            spec_trim_rec(events, stops.drop_last(), i - 1)
        } else {
            spec_trim_rec(events, stops, i - 1)
        }
    }
}

pub open spec fn spec_trim(events: Seq<Event>, stops: Seq<Key>) -> Seq<Event> {
    spec_trim_rec(events, stops, events.len() - 1)
}

/// What `on_event` reports: the session goes on, or it has ended and
/// the trimmed macro is ready to persist.
pub enum StepResult {
    Continue,
    Stopped(Macro),
}

fn keys_end_with(keys: &Vec<Key>, stops: &Vec<Key>) -> (r: bool)
    ensures
        r == spec_ends_with(keys@, stops@),
{
    let ks = keys.len();
    let ss = stops.len();
    if ss > ks {
        return false;
    }
    let off = ks - ss;
    let mut i: usize = 0;
    while i < ss
        invariant
            i <= ss,
            ss <= ks,
            off == ks - ss,
            ks == keys@.len(),
            ss == stops@.len(),
            forall|j: int| 0 <= j < i ==> keys@[off + j] == stops@[j],
        decreases ss - i,
    {
        if !(keys[off + i] == stops[i]) {
            proof {
                assert(keys@.subrange(off as int, ks as int)[i as int] != stops@[i as int]);
            }
            return false;
        }
        i += 1;
    }
    proof {
        assert(keys@.subrange(off as int, ks as int) =~= stops@);
    }
    true
}

/// Removes the terminating stop-key presses, and whatever stands among
/// them, from the end of the recorded events.
pub fn trim_stop_tail(events: &Vec<Event>, stops: &Vec<Key>) -> (out: Vec<Event>)
    ensures
        out@ == spec_trim(events@, stops@),
{
    let mut to_pop: usize = stops.len();
    let mut i: usize = events.len();
    proof {
        assert(stops@.take(to_pop as int) =~= stops@);
    }
    while i > 0
        invariant
            i <= events@.len(),
            to_pop <= stops@.len(),
            spec_trim(events@, stops@) == spec_trim_rec(
                events@,
                stops@.take(to_pop as int),
                i - 1,
            ),
        decreases i,
    {
        let ghost st = stops@.take(to_pop as int);
        i -= 1;
        let matched = if to_pop > 0 {
            match &events[i] {
                Event::KeyPress(k) => *k == stops[to_pop - 1],
                _ => false,
            }
        } else {
            false
        };
        proof {
            if to_pop > 0 {
                assert(st.last() == stops@[to_pop - 1]);
            }
        }
        if matched {
            if to_pop == 1 {
                let mut out: Vec<Event> = Vec::new();
                let mut j: usize = 0;
                while j < i
                    invariant
                        j <= i,
                        i < events@.len(),
                        out@ =~= events@.take(j as int),
                    decreases i - j,
                {
                    out.push(events[j]);
                    proof {
                        assert(out@ =~= events@.take(j + 1));
                    }
                    j += 1;
                }
                proof {
                    assert(st.len() == 1);
                    assert(spec_trim_rec(events@, st, i as int) == events@.take(i as int));
                }
                return out;
            } else {
                proof {
                    assert(st.drop_last() =~= stops@.take(to_pop - 1));
                }
                to_pop -= 1;
            }
        }
    }
    Vec::new()
}

impl Session {
    pub open spec fn model(self) -> SessionModel {
        SessionModel {
            events: self.events@,
            recent: self.recent_keys@,
            pos: self.mouse_pos,
            pressed: self.mouse_pressed,
            last_ms: self.last_event_time_ms,
        }
    }

    /// Opens a capture session: the lead-in wait is recorded at once, so
    /// that replay starts with a delay whatever the strategy records.
    pub fn new(cfg: Config, description: String, initial_pos: (i64, i64)) -> (s: Session)
        ensures
            s.cfg == cfg,
            s.description@ == description@,
            s.model() == (SessionModel {
                events: seq![Event::Wait(cfg.recording_initial_wait_ms)],
                recent: Seq::<Key>::empty(),
                pos: initial_pos,
                pressed: false,
                last_ms: Option::<u64>::None,
            }),
    {
        let mut events: Vec<Event> = Vec::new();
        events.push(Event::Wait(cfg.recording_initial_wait_ms));
        let s = Session {
            cfg,
            description,
            events,
            recent_keys: Vec::new(),
            mouse_pos: initial_pos,
            mouse_pressed: false,
            last_event_time_ms: Option::None,
        };
        proof {
            assert(s.events@ =~= seq![Event::Wait(s.cfg.recording_initial_wait_ms)]);
            assert(s.recent_keys@ =~= Seq::<Key>::empty());
        }
        s
    }

    /// Feeds one raw hook event into the session at time `now_ms`
    /// (milliseconds on a monotonic clock). The state advances exactly
    /// as `spec_step` says; when the keypress completes the stop
    /// sequence, the session ends and the trimmed macro is handed back.
    pub fn on_event(&mut self, raw: RawEvent, now_ms: u64) -> (r: StepResult)
        ensures
            final(self).cfg == old(self).cfg,
            final(self).description@ == old(self).description@,
            final(self).model() == spec_step(old(self).cfg, old(self).model(), raw, now_ms),
            ({
                let m2 = spec_step(old(self).cfg, old(self).model(), raw, now_ms);
                match r {
                    StepResult::Continue => !spec_stopped(old(self).cfg, m2, raw),
                    StepResult::Stopped(mac) => spec_stopped(old(self).cfg, m2, raw)
                        && mac.description@ == old(self).description@ && mac.events@ == spec_trim(
                        m2.events,
                        old(self).cfg.stop_keystrokes@,
                    ),
                }
            }),
    {
        let ghost target = spec_step(self.cfg, self.model(), raw, now_ms);
        let mut is_key_press = false;
        let op_ev: Option<Event> = match raw {
            RawEvent::KeyPress(k) => {
                self.recent_keys.push(k);
                is_key_press = true;
                Option::Some(Event::KeyPress(k))
            },
            RawEvent::KeyRelease(k) => Option::Some(Event::KeyRelease(k)),
            RawEvent::ButtonPress(b) => {
                self.recent_keys = Vec::new();
                self.mouse_pressed = true;
                Option::Some(
                    Event::MousePress(
                        MouseEventButton { x: self.mouse_pos.0, y: self.mouse_pos.1, button: b },
                    ),
                )
            },
            RawEvent::ButtonRelease(b) => {
                self.recent_keys = Vec::new();
                self.mouse_pressed = false;
                Option::Some(
                    Event::MouseRelease(
                        MouseEventButton { x: self.mouse_pos.0, y: self.mouse_pos.1, button: b },
                    ),
                )
            },
            RawEvent::MouseMove(x, y) => {
                self.mouse_pos = (x, y);
                self.recent_keys = Vec::new();
                if self.cfg.record_non_drag_mouse_moves || self.mouse_pressed {
                    Option::Some(Event::MouseMove(MouseEventMove { x, y }))
                } else {
                    Option::None
                }
            },
            RawEvent::Wheel(_, _) => Option::None,
        };
        if let Option::Some(ev) = op_ev {
            match self.cfg.wait_strategy {
                WaitStrategy::Actual => {
                    if let Option::Some(last) = self.last_event_time_ms {
                        let ms = if now_ms >= last {
                            now_ms - last
                        } else {
                            0
                        };
                        self.events.push(Event::Wait(ms));
                    }
                    self.last_event_time_ms = Option::Some(now_ms);
                },
                WaitStrategy::ConstantMS(ms) => {
                    self.events.push(Event::Wait(ms));
                },
            }
            self.events.push(ev);
        }
        proof {
            assert(self.events@ =~= target.events);
            assert(self.recent_keys@ =~= target.recent);
            assert(self.model() == target);
        }
        if is_key_press && keys_end_with(&self.recent_keys, &self.cfg.stop_keystrokes) {
            let trimmed = trim_stop_tail(&self.events, &self.cfg.stop_keystrokes);
            let description = self.description.clone();
            return StepResult::Stopped(Macro { description, events: trimmed });
        }
        StepResult::Continue
    }
}

/// No event in `(j, i]` is a keypress of the last remaining stop key,
/// so the backward walk crosses the whole stretch without matching.
proof fn lemma_trim_rec_skip(events: Seq<Event>, stops: Seq<Key>, i: int, j: int)
    requires
        j <= i,
        stops.len() > 0,
        forall|t: int|
            j < t <= i ==> !(#[trigger] events[t] matches Event::KeyPress(k) && k == stops.last()),
    ensures
        spec_trim_rec(events, stops, i) == spec_trim_rec(events, stops, j),
    decreases i - j,
{
    if i > j {
        assert(!(events[i] matches Event::KeyPress(k) && k == stops.last()));
        lemma_trim_rec_skip(events, stops, i - 1, j);
    }
}

/// Stop-sequence trimming, on a stop sequence of one key three times:
/// when the recorded events end in a tail that starts with a keypress
/// of some other key and holds exactly three presses of the stop key,
/// the trim keeps that keypress and everything before it, and drops the
/// three stop presses and whatever stands among them.
pub proof fn lemma_stop_trim(
    pre: Seq<Event>,
    tail: Seq<Event>,
    e: Key,
    a: Key,
    q1: int,
    q2: int,
    q3: int,
)
    requires
        tail.len() > 0,
        tail[0] == Event::KeyPress(a),
        a != e,
        0 < q1 < q2 < q3 < tail.len(),
        forall|j: int|
            0 <= j < tail.len() ==> ((#[trigger] tail[j] matches Event::KeyPress(k) && k == e) <==> (
            j == q1 || j == q2 || j == q3)),
    ensures
        spec_trim(pre + tail, seq![e, e, e]) == pre + tail.take(q1),
{
    let events = pre + tail;
    let n = pre.len() as int;
    let s3 = seq![e, e, e];
    let s2 = seq![e, e];
    let s1 = seq![e];
    assert(s3.last() == e);
    assert(s3.drop_last() =~= s2);
    assert(s2.last() == e);
    assert(s2.drop_last() =~= s1);
    assert(s1.last() == e);
    assert forall|t: int| n <= t < events.len() implies events[t] == tail[t - n] by {}
    assert forall|t: int|
        n + q3 < t <= events.len() - 1 implies !(#[trigger] events[t] matches Event::KeyPress(k)
        && k == e) by {
        assert(events[t] == tail[t - n]);
    }
    lemma_trim_rec_skip(events, s3, events.len() - 1, n + q3);
    assert(events[n + q3] == tail[q3]);
    assert(events[n + q3] matches Event::KeyPress(k) && k == e);
    assert(spec_trim_rec(events, s3, n + q3) == spec_trim_rec(events, s2, n + q3 - 1));
    assert forall|t: int|
        n + q2 < t <= n + q3 - 1 implies !(#[trigger] events[t] matches Event::KeyPress(k) && k
        == e) by {
        assert(events[t] == tail[t - n]);
    }
    lemma_trim_rec_skip(events, s2, n + q3 - 1, n + q2);
    assert(events[n + q2] == tail[q2]);
    assert(spec_trim_rec(events, s2, n + q2) == spec_trim_rec(events, s1, n + q2 - 1));
    assert forall|t: int|
        n + q1 < t <= n + q2 - 1 implies !(#[trigger] events[t] matches Event::KeyPress(k) && k
        == e) by {
        assert(events[t] == tail[t - n]);
    }
    lemma_trim_rec_skip(events, s1, n + q2 - 1, n + q1);
    assert(events[n + q1] == tail[q1]);
    assert(spec_trim_rec(events, s1, n + q1) == events.take(n + q1));
    assert(events.take(n + q1) =~= pre + tail.take(q1));
}

} // verus!
