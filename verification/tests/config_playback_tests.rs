use macors::config::{
    default_countdown_seconds, default_record_non_drag_mouse_moves,
    default_recording_initial_wait_ms, default_stop_keystrokes, macros_path, Config, WaitStrategy,
};
use macors::event::{Event, Macro, MouseEventButton};
use macors::keys::{button_eq, button_name, key_eq, key_from_name, key_name, Button, Key};
use macors::playback::{playback_plan, SimStep};

#[test]
fn defaults_match_the_documented_values() {
    assert_eq!(default_countdown_seconds(), 3);
    assert!(!default_record_non_drag_mouse_moves());
    assert_eq!(default_recording_initial_wait_ms(), 100);
    assert_eq!(
        default_stop_keystrokes(),
        vec![Key::Escape, Key::Escape, Key::Escape]
    );
    let cfg = Config::default();
    assert!(matches!(cfg.wait_strategy, WaitStrategy::ConstantMS(100)));
    assert_eq!(cfg.countdown_seconds, 3);
}

#[test]
fn macros_path_is_under_the_config_directory() {
    assert_eq!(
        macros_path("/home/someone"),
        "/home/someone/.config/macors/macros"
    );
}

#[test]
fn key_names_roundtrip_through_the_table() {
    assert_eq!(key_name(&Key::KeyA), "A");
    assert_eq!(key_name(&Key::Escape), "Escape");
    assert_eq!(key_name(&Key::Unknown(42)), "Unknown(42)");
    assert_eq!(key_from_name("A"), Some(Key::KeyA));
    assert_eq!(key_from_name("Escape"), Some(Key::Escape));
    assert_eq!(key_from_name("Unknown(42)"), Some(Key::Unknown(42)));
    assert_eq!(key_from_name("NoSuchKey"), None);
    assert_eq!(button_name(&Button::Middle), "Middle");
}

#[test]
fn name_matching_ignores_ascii_case() {
    assert!(key_eq("escape", &Key::Escape));
    assert!(!key_eq("escapee", &Key::Escape));
    assert!(button_eq("LEFT", &Button::Left));
}

#[test]
fn key_press_simulates_one_raw_event() {
    let steps = Event::KeyPress(Key::KeyQ).simulate();
    assert_eq!(steps, vec![SimStep::KeyPress(Key::KeyQ)]);
}

#[test]
fn button_press_positions_the_pointer_first() {
    let ev = Event::MousePress(MouseEventButton {
        x: 11,
        y: 22,
        button: Button::Right,
    });
    let steps = ev.simulate();
    assert_eq!(
        steps,
        vec![
            SimStep::MouseMove(11, 22),
            SimStep::SleepMs(1),
            SimStep::ButtonPress(Button::Right),
        ]
    );
}

#[test]
fn plan_replays_events_in_order_with_waits() {
    let m = Macro {
        description: String::from("d"),
        events: vec![
            Event::Wait(100),
            Event::KeyPress(Key::KeyA),
            Event::Wait(50),
            Event::KeyRelease(Key::KeyA),
        ],
    };
    let steps = playback_plan(&m);
    assert_eq!(
        steps,
        vec![
            SimStep::SleepMs(100),
            SimStep::KeyPress(Key::KeyA),
            SimStep::SleepMs(50),
            SimStep::KeyRelease(Key::KeyA),
        ]
    );
}
