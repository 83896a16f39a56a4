use macors::display::{
    describe_event, render_macro, stat_counts, stat_label, try_collapse_click,
};
use macors::event::{Event, MouseEventButton, MouseEventMove};
use macors::keys::{Button, Key};

fn press(b: Button, x: i64, y: i64) -> Event {
    Event::MousePress(MouseEventButton { x, y, button: b })
}

fn release(b: Button, x: i64, y: i64) -> Event {
    Event::MouseRelease(MouseEventButton { x, y, button: b })
}

#[test]
fn click_and_two_key_presses_make_three_stat_lines() {
    let events = vec![
        press(Button::Left, 0, 0),
        release(Button::Left, 0, 0),
        Event::KeyPress(Key::KeyA),
        Event::KeyPress(Key::KeyB),
    ];
    let lines = render_macro(&events, false, true);
    assert_eq!(
        lines,
        vec![
            String::from("click.Left: 1"),
            String::from("key_press.A: 1"),
            String::from("key_press.B: 1"),
        ]
    );
}

#[test]
fn stat_counts_are_sorted_and_aggregated() {
    let events = vec![
        Event::KeyPress(Key::KeyB),
        Event::KeyPress(Key::KeyA),
        Event::KeyPress(Key::KeyB),
        Event::Wait(9),
    ];
    let pairs = stat_counts(&events, true);
    assert_eq!(
        pairs,
        vec![
            (String::from("key_press.A"), 1),
            (String::from("key_press.B"), 2),
            (String::from("wait"), 1),
        ]
    );
}

#[test]
fn collapse_consumes_waits_between_press_and_release() {
    let events = vec![
        press(Button::Left, 3, 4),
        Event::Wait(10),
        Event::Wait(20),
        release(Button::Left, 3, 4),
    ];
    let c = try_collapse_click(&events, 0).unwrap();
    assert_eq!(c.release_idx, 3);
    assert_eq!(c.waits_consumed, 2);
    assert_eq!(c.wait_ms_total, 30);
    assert_eq!(c.button, Button::Left);
    assert_eq!((c.x, c.y), (3, 4));
}

#[test]
fn collapse_needs_identical_button_and_coordinates() {
    let moved = vec![press(Button::Left, 3, 4), release(Button::Left, 3, 5)];
    assert!(try_collapse_click(&moved, 0).is_none());
    let other_button = vec![press(Button::Left, 3, 4), release(Button::Right, 3, 4)];
    assert!(try_collapse_click(&other_button, 0).is_none());
}

#[test]
fn any_other_event_prevents_the_collapse() {
    let events = vec![
        press(Button::Left, 3, 4),
        Event::KeyPress(Key::KeyA),
        release(Button::Left, 3, 4),
    ];
    assert!(try_collapse_click(&events, 0).is_none());
}

#[test]
fn itemized_listing_collapses_clicks() {
    let events = vec![
        press(Button::Left, 3, 4),
        Event::Wait(10),
        release(Button::Left, 3, 4),
        Event::KeyPress(Key::KeyA),
    ];
    let lines = render_macro(&events, false, false);
    assert_eq!(
        lines,
        vec![
            String::from("   1: click on (3, 4)"),
            String::from("   2: key_press A"),
        ]
    );
}

#[test]
fn itemized_listing_annotates_waits_when_shown() {
    let events = vec![
        press(Button::Left, 3, 4),
        Event::Wait(10),
        release(Button::Left, 3, 4),
    ];
    let lines = render_macro(&events, true, false);
    assert_eq!(lines, vec![String::from("   1: click on (3, 4) (+wait 10 ms)")]);
}

#[test]
fn failed_collapse_lists_events_individually() {
    let events = vec![
        press(Button::Left, 3, 4),
        Event::KeyPress(Key::KeyA),
        release(Button::Left, 3, 4),
    ];
    let lines = render_macro(&events, false, false);
    assert_eq!(
        lines,
        vec![
            String::from("   1: mouse_press Left at (3, 4)"),
            String::from("   2: key_press A"),
            String::from("   3: mouse_release Left at (3, 4)"),
        ]
    );
}

#[test]
fn describe_event_exact_text() {
    assert_eq!(describe_event(&Event::Wait(5)), "wait 5 ms");
    assert_eq!(
        describe_event(&press(Button::Left, 3, -4)),
        "mouse_press Left at (3, -4)"
    );
    assert_eq!(
        describe_event(&Event::MouseMove(MouseEventMove { x: 0, y: 7 })),
        "mouse_move to (0, 7)"
    );
    assert_eq!(describe_event(&Event::KeyPress(Key::Escape)), "key_press Escape");
}

#[test]
fn stat_label_exact_text() {
    assert_eq!(stat_label(&Event::Wait(1)), "wait");
    assert_eq!(stat_label(&press(Button::Middle, 0, 0)), "mouse_press.Middle");
    assert_eq!(
        stat_label(&Event::KeyRelease(Key::Unknown(9))),
        "key_release.Unknown(9)"
    );
}
