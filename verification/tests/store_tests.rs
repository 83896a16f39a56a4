use macors::event::{Event, Macro, MouseEventButton, MouseEventMove};
use macors::keys::{Button, Key};
use macors::store::{event_start_line, parse_macro, serialize_macro, StoreError};

fn sample_macro() -> Macro {
    Macro {
        description: String::from("line one\nwith \"quotes\" and \\slashes\\"),
        events: vec![
            Event::Wait(100),
            Event::KeyPress(Key::KeyA),
            Event::KeyRelease(Key::KeyA),
            Event::MousePress(MouseEventButton {
                x: 10,
                y: -20,
                button: Button::Left,
            }),
            Event::MouseRelease(MouseEventButton {
                x: 10,
                y: -20,
                button: Button::Left,
            }),
            Event::MouseMove(MouseEventMove { x: -3, y: 4 }),
            Event::KeyPress(Key::Unknown(123)),
        ],
    }
}

#[test]
fn save_then_load_roundtrips() {
    let m = sample_macro();
    let text = serialize_macro(&m);
    let back = parse_macro(text.as_str()).unwrap();
    assert_eq!(back.description, m.description);
    assert_eq!(back.events, m.events);
}

#[test]
fn serialized_wait_has_the_exact_shape() {
    let m = Macro {
        description: String::from("d"),
        events: vec![Event::Wait(5)],
    };
    let text = serialize_macro(&m);
    assert_eq!(
        text,
        "description = \"d\"\n\n[[events]]\nkind = \"wait\"\nms = 5\n"
    );
}

#[test]
fn serialized_key_press_has_the_exact_shape() {
    let m = Macro {
        description: String::from("d"),
        events: vec![Event::KeyPress(Key::Escape)],
    };
    let text = serialize_macro(&m);
    assert_eq!(
        text,
        "description = \"d\"\n\n[[events]]\nkind = \"key_press\"\nkey = \"Escape\"\n"
    );
}

#[test]
fn no_blank_line_between_marker_and_fields() {
    let m = sample_macro();
    let text = serialize_macro(&m);
    assert!(!text.contains("[[events]]\n\n"));
}

#[test]
fn empty_text_is_corrupt() {
    assert_eq!(parse_macro("").unwrap_err(), StoreError::Corrupt);
}

#[test]
fn missing_final_newline_is_corrupt() {
    assert_eq!(parse_macro("description = \"d\"").unwrap_err(), StoreError::Corrupt);
}

#[test]
fn unknown_kind_tag_is_corrupt() {
    let text = "description = \"d\"\n\n[[events]]\nkind = \"hover\"\nms = 5\n";
    assert_eq!(parse_macro(text).unwrap_err(), StoreError::Corrupt);
}

#[test]
fn bad_number_is_corrupt() {
    let text = "description = \"d\"\n\n[[events]]\nkind = \"wait\"\nms = 5x\n";
    assert_eq!(parse_macro(text).unwrap_err(), StoreError::Corrupt);
}

#[test]
fn unknown_key_name_is_corrupt() {
    let text = "description = \"d\"\n\n[[events]]\nkind = \"key_press\"\nkey = \"NoSuchKey\"\n";
    assert_eq!(parse_macro(text).unwrap_err(), StoreError::Corrupt);
}

#[test]
fn parse_reads_negative_coordinates() {
    let text = "description = \"d\"\n\n[[events]]\nkind = \"mouse_move\"\nx = -7\ny = 9\n";
    let m = parse_macro(text).unwrap();
    assert_eq!(m.events, vec![Event::MouseMove(MouseEventMove { x: -7, y: 9 })]);
}

#[test]
fn unknown_codes_roundtrip() {
    let m = Macro {
        description: String::from("d"),
        events: vec![
            Event::KeyPress(Key::Unknown(4294967295)),
            Event::MousePress(MouseEventButton {
                x: 0,
                y: 0,
                button: Button::Unknown(255),
            }),
        ],
    };
    let text = serialize_macro(&m);
    let back = parse_macro(text.as_str()).unwrap();
    assert_eq!(back.events, m.events);
}

#[test]
fn event_start_lines_follow_the_markers() {
    let m = Macro {
        description: String::from("d"),
        events: vec![Event::Wait(1), Event::Wait(2), Event::Wait(3)],
    };
    let text = serialize_macro(&m);
    // line 1: description, line 2: blank, line 3: first marker; each
    // section spans a blank line, its marker, the kind and one field.
    assert_eq!(event_start_line(text.as_str(), 0), Some(3));
    assert_eq!(event_start_line(text.as_str(), 1), Some(7));
    assert_eq!(event_start_line(text.as_str(), 2), Some(11));
    assert_eq!(event_start_line(text.as_str(), 3), None);
}

#[test]
fn event_start_line_trims_blanks_around_the_marker() {
    let text = "description = \"d\"\n  [[events]] \nkind = \"wait\"\nms = 1\n";
    assert_eq!(event_start_line(text, 0), Some(2));
}
