//! The playback plan: what synthetic input each recorded event turns
//! into, in replay order. A mouse button transition first moves the
//! pointer to the recorded coordinates and settles for a millisecond,
//! since synthesis backends want the pointer already positioned before
//! they will recognize a button event.

use crate::event::{Event, Macro};
use crate::keys::{Button, Key};
use vstd::prelude::*;

verus! {

/// One raw request to the input-synthesis collaborator, or a pause that
/// blocks the replaying thread.
#[derive(Clone, Copy, PartialEq, Eq, Structural, Debug)]
pub enum SimStep {
    KeyPress(Key),
    KeyRelease(Key),
    ButtonPress(Button),
    ButtonRelease(Button),
    MouseMove(i64, i64),
    SleepMs(u64),
}

/// The steps that replay one event.
pub open spec fn spec_event_steps(ev: Event) -> Seq<SimStep> {
    match ev {
        Event::KeyPress(k) => seq![SimStep::KeyPress(k)],
        Event::KeyRelease(k) => seq![SimStep::KeyRelease(k)],
        Event::MousePress(m) => seq![
            SimStep::MouseMove(m.x, m.y),
            SimStep::SleepMs(1),
            SimStep::ButtonPress(m.button),
        ],
        Event::MouseRelease(m) => seq![
            SimStep::MouseMove(m.x, m.y),
            SimStep::SleepMs(1),
            SimStep::ButtonRelease(m.button),
        ],
        Event::MouseMove(m) => seq![SimStep::MouseMove(m.x, m.y)],
        Event::Wait(ms) => seq![SimStep::SleepMs(ms)],
    }
}

/// The steps of one full sequential replay of an event list.
pub open spec fn spec_plan(events: Seq<Event>) -> Seq<SimStep>
    decreases events.len(),
{
    if events.len() == 0 {
        Seq::empty()
    } else {
        spec_event_steps(events[0]) + spec_plan(events.subrange(1, events.len() as int))
    }
}

proof fn lemma_plan_snoc(a: Seq<Event>, e: Event)
    ensures
        spec_plan(a.push(e)) == spec_plan(a) + spec_event_steps(e),
    decreases a.len(),
{
    if a.len() == 0 {
        assert(a =~= Seq::<Event>::empty());
        assert(spec_plan(a) == Seq::<SimStep>::empty());
        assert(a.push(e)[0] == e);
        assert(a.push(e).subrange(1, 1) =~= a);
        assert(spec_plan(a.push(e)) == spec_event_steps(e) + spec_plan(a));
        assert(spec_event_steps(e) + spec_plan(a) =~= spec_plan(a) + spec_event_steps(e));
    } else {
        assert(a.push(e).subrange(1, a.len() as int + 1) =~= a.subrange(1, a.len() as int).push(e));
        lemma_plan_snoc(a.subrange(1, a.len() as int), e);
        assert(a.push(e)[0] == a[0]);
        assert(spec_event_steps(a[0]) + (spec_plan(a.subrange(1, a.len() as int))
            + spec_event_steps(e)) =~= (spec_event_steps(a[0]) + spec_plan(
            a.subrange(1, a.len() as int),
        )) + spec_event_steps(e));
    }
}

impl Event {
    /// The synthesis steps that replay this one event, in order. A
    /// resolved single event replays independently of any waits that
    /// preceded it in the recording.
    pub fn simulate(&self) -> (steps: Vec<SimStep>)
        ensures
            steps@ == spec_event_steps(*self),
    {
        let mut v: Vec<SimStep> = Vec::new();
        match self {
            Event::KeyPress(k) => {
                v.push(SimStep::KeyPress(*k));
            },
            Event::KeyRelease(k) => {
                v.push(SimStep::KeyRelease(*k));
            },
            Event::MousePress(m) => {
                v.push(SimStep::MouseMove(m.x, m.y));
                v.push(SimStep::SleepMs(1));
                v.push(SimStep::ButtonPress(m.button));
            },
            Event::MouseRelease(m) => {
                v.push(SimStep::MouseMove(m.x, m.y));
                v.push(SimStep::SleepMs(1));
                v.push(SimStep::ButtonRelease(m.button));
            },
            Event::MouseMove(m) => {
                v.push(SimStep::MouseMove(m.x, m.y));
            },
            Event::Wait(ms) => {
                v.push(SimStep::SleepMs(*ms));
            },
        }
        proof {
            assert(v@ =~= spec_event_steps(*self));
        }
        v
    }
}

/// The synthesis steps of one full replay of the macro: every event's
/// steps in recorded order, waits included, so each repetition
/// reproduces the original pacing.
pub fn playback_plan(m: &Macro) -> (steps: Vec<SimStep>)
    ensures
        steps@ == spec_plan(m.events@),
{
    let mut v: Vec<SimStep> = Vec::new();
    let n = m.events.len();
    let mut i: usize = 0;
    proof {
        assert(m.events@.take(0) =~= Seq::<Event>::empty());
        assert(v@ =~= spec_plan(m.events@.take(0)));
    }
    while i < n
        invariant
            i <= n,
            n == m.events@.len(),
            v@ == spec_plan(m.events@.take(i as int)),
        decreases n - i,
    {
        let mut steps = m.events[i].simulate();
        v.append(&mut steps);
        proof {
            assert(m.events@.take(i + 1) =~= m.events@.take(i as int).push(m.events@[i as int]));
            lemma_plan_snoc(m.events@.take(i as int), m.events@[i as int]);
            assert(v@ =~= spec_plan(m.events@.take(i + 1)));
        }
        i += 1;
    }
    proof {
        assert(m.events@.take(n as int) =~= m.events@);
    }
    v
}

} // verus!
