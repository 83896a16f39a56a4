use macors::event::{Event, MouseEventButton};
use macors::keys::{Button, Key};
use macors::selector::{
    find_event_index, matches_selector, parse_action, ActionSelector, EventSelector,
    SelectorParseError,
};

fn press(b: Button, x: i64, y: i64) -> Event {
    Event::MousePress(MouseEventButton { x, y, button: b })
}

fn release(b: Button, x: i64, y: i64) -> Event {
    Event::MouseRelease(MouseEventButton { x, y, button: b })
}

#[test]
fn parse_recovers_kind_detail_ordinal() {
    let a = parse_action("key_press.A:3").unwrap();
    assert_eq!(a.ordinal, 3);
    match a.selector {
        EventSelector::KeyPress(Some(d)) => assert_eq!(d, "A"),
        other => panic!("wrong selector: {other:?}"),
    }
}

#[test]
fn parse_without_detail() {
    let a = parse_action("mouse_move:7").unwrap();
    assert_eq!(a.ordinal, 7);
    assert!(matches!(a.selector, EventSelector::MouseMove));
}

#[test]
fn parse_tolerates_ordinal_suffix() {
    let a = parse_action("mouse_press.Left:19th").unwrap();
    assert_eq!(a.ordinal, 19);
    match a.selector {
        EventSelector::MousePress(Some(d)) => assert_eq!(d, "Left"),
        other => panic!("wrong selector: {other:?}"),
    }
}

#[test]
fn parse_missing_ordinal() {
    assert_eq!(parse_action("wait").unwrap_err(), SelectorParseError::MissingOrdinal);
}

#[test]
fn parse_too_many_colons() {
    assert_eq!(parse_action("wait:1:2").unwrap_err(), SelectorParseError::TooManyColonSegments);
}

#[test]
fn parse_ordinal_not_a_number() {
    assert_eq!(parse_action("wait:th").unwrap_err(), SelectorParseError::OrdinalNotANumber);
}

#[test]
fn parse_too_many_dots() {
    assert_eq!(parse_action("key_press.a.b:1").unwrap_err(), SelectorParseError::TooManyDotSegments);
}

#[test]
fn parse_unknown_kind() {
    assert_eq!(parse_action("key_tap:1").unwrap_err(), SelectorParseError::UnknownKind);
}

#[test]
fn parse_zero_ordinal() {
    assert_eq!(parse_action("wait:0").unwrap_err(), SelectorParseError::ZeroOrdinal);
}

#[test]
fn second_left_press_resolves_to_index_two() {
    let events = vec![
        press(Button::Left, 0, 0),
        release(Button::Left, 0, 0),
        press(Button::Left, 5, 5),
        release(Button::Left, 5, 5),
    ];
    let sel = parse_action("mouse_press.Left:2").unwrap();
    assert_eq!(find_event_index(&events, &sel), Some(2));
}

#[test]
fn exhausted_ordinal_is_unresolved() {
    let events = vec![press(Button::Left, 0, 0), release(Button::Left, 0, 0)];
    let sel = parse_action("mouse_press.Left:2").unwrap();
    assert_eq!(find_event_index(&events, &sel), None);
}

#[test]
fn resolution_is_repeatable() {
    let events = vec![
        Event::KeyPress(Key::KeyA),
        Event::Wait(5),
        Event::KeyPress(Key::KeyA),
    ];
    let sel = parse_action("key_press.a:2").unwrap();
    let first = find_event_index(&events, &sel);
    let second = find_event_index(&events, &sel);
    assert_eq!(first, Some(2));
    assert_eq!(first, second);
}

#[test]
fn detail_matches_case_insensitively() {
    let sel = ActionSelector {
        selector: EventSelector::MousePress(Some(String::from("lEfT"))),
        ordinal: 1,
    };
    assert!(matches_selector(&press(Button::Left, 1, 2), &sel.selector));
    assert!(!matches_selector(&press(Button::Right, 1, 2), &sel.selector));
}

#[test]
fn kind_must_agree() {
    let sel = parse_action("key_release.A:1").unwrap();
    assert!(!matches_selector(&Event::KeyPress(Key::KeyA), &sel.selector));
    assert!(matches_selector(&Event::KeyRelease(Key::KeyA), &sel.selector));
}
