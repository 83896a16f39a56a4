use macors::config::{Config, WaitStrategy};
use macors::event::Event;
use macors::keys::{Button, Key};
use macors::session::{trim_stop_tail, RawEvent, Session, StepResult};

fn constant_cfg() -> Config {
    let mut cfg = Config::default();
    cfg.wait_strategy = WaitStrategy::ConstantMS(100);
    cfg.recording_initial_wait_ms = 100;
    cfg
}

#[test]
fn constant_wait_key_press_release() {
    let cfg = constant_cfg();
    let mut s = Session::new(cfg, String::from("demo"), (0, 0));
    assert!(matches!(
        s.on_event(RawEvent::KeyPress(Key::KeyA), 0),
        StepResult::Continue
    ));
    assert!(matches!(
        s.on_event(RawEvent::KeyRelease(Key::KeyA), 0),
        StepResult::Continue
    ));
    assert_eq!(
        s.events,
        vec![
            Event::Wait(100),
            Event::Wait(100),
            Event::KeyPress(Key::KeyA),
            Event::Wait(100),
            Event::KeyRelease(Key::KeyA),
        ]
    );
}

#[test]
fn actual_wait_uses_elapsed_time() {
    let mut cfg = constant_cfg();
    cfg.wait_strategy = WaitStrategy::Actual;
    let mut s = Session::new(cfg, String::from("demo"), (0, 0));
    s.on_event(RawEvent::KeyPress(Key::KeyB), 50);
    s.on_event(RawEvent::KeyRelease(Key::KeyB), 80);
    assert_eq!(
        s.events,
        vec![
            Event::Wait(100),
            Event::KeyPress(Key::KeyB),
            Event::Wait(30),
            Event::KeyRelease(Key::KeyB),
        ]
    );
}

#[test]
fn non_drag_moves_are_dropped_but_tracked() {
    let cfg = constant_cfg();
    let mut s = Session::new(cfg, String::from("demo"), (0, 0));
    s.on_event(RawEvent::MouseMove(40, 50), 0);
    s.on_event(RawEvent::ButtonPress(Button::Left), 0);
    assert_eq!(s.events.len(), 3);
    match &s.events[2] {
        Event::MousePress(m) => {
            assert_eq!((m.x, m.y), (40, 50));
            assert_eq!(m.button, Button::Left);
        }
        other => panic!("expected a mouse press, got {other:?}"),
    }
}

#[test]
fn drag_moves_are_recorded() {
    let cfg = constant_cfg();
    let mut s = Session::new(cfg, String::from("demo"), (0, 0));
    s.on_event(RawEvent::ButtonPress(Button::Left), 0);
    s.on_event(RawEvent::MouseMove(7, 8), 0);
    match &s.events[4] {
        Event::MouseMove(m) => assert_eq!((m.x, m.y), (7, 8)),
        other => panic!("expected a mouse move, got {other:?}"),
    }
}

#[test]
fn wheel_is_never_recorded() {
    let cfg = constant_cfg();
    let mut s = Session::new(cfg, String::from("demo"), (0, 0));
    s.on_event(RawEvent::Wheel(0, -1), 0);
    assert_eq!(s.events, vec![Event::Wait(100)]);
}

#[test]
fn mouse_activity_clears_the_stop_window() {
    let cfg = constant_cfg();
    let mut s = Session::new(cfg, String::from("demo"), (0, 0));
    s.on_event(RawEvent::KeyPress(Key::Escape), 0);
    s.on_event(RawEvent::KeyPress(Key::Escape), 0);
    s.on_event(RawEvent::MouseMove(1, 1), 0);
    let r = s.on_event(RawEvent::KeyPress(Key::Escape), 0);
    assert!(matches!(r, StepResult::Continue));
}

#[test]
fn stop_sequence_trims_the_tail() {
    let cfg = constant_cfg();
    let mut s = Session::new(cfg, String::from("demo"), (0, 0));
    s.on_event(RawEvent::KeyPress(Key::KeyA), 0);
    s.on_event(RawEvent::KeyRelease(Key::KeyA), 0);
    s.on_event(RawEvent::KeyPress(Key::Escape), 0);
    s.on_event(RawEvent::KeyRelease(Key::Escape), 0);
    s.on_event(RawEvent::KeyPress(Key::Escape), 0);
    s.on_event(RawEvent::KeyRelease(Key::Escape), 0);
    let r = s.on_event(RawEvent::KeyPress(Key::Escape), 0);
    match r {
        StepResult::Stopped(mac) => {
            assert_eq!(mac.description, "demo");
            // The wait synthesized before the first stop key stands
            // before the Esc presses, not among them, so it is kept.
            assert_eq!(
                mac.events,
                vec![
                    Event::Wait(100),
                    Event::Wait(100),
                    Event::KeyPress(Key::KeyA),
                    Event::Wait(100),
                    Event::KeyRelease(Key::KeyA),
                    Event::Wait(100),
                ]
            );
        }
        StepResult::Continue => panic!("the stop sequence should have ended the session"),
    }
}

#[test]
fn trim_keeps_everything_before_the_stop_keys() {
    let events = vec![
        Event::KeyPress(Key::KeyA),
        Event::Wait(5),
        Event::KeyPress(Key::Escape),
        Event::KeyRelease(Key::Escape),
        Event::KeyPress(Key::Escape),
        Event::KeyRelease(Key::Escape),
        Event::KeyPress(Key::Escape),
    ];
    let stops = vec![Key::Escape, Key::Escape, Key::Escape];
    let out = trim_stop_tail(&events, &stops);
    assert_eq!(out, vec![Event::KeyPress(Key::KeyA), Event::Wait(5)]);
}

#[test]
fn trim_best_effort_when_keys_are_missing() {
    let events = vec![Event::KeyPress(Key::KeyA), Event::KeyPress(Key::Escape)];
    let stops = vec![Key::Escape, Key::Escape, Key::Escape];
    let out = trim_stop_tail(&events, &stops);
    assert_eq!(out, Vec::<Event>::new());
}
