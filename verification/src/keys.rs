//! The library's own key and mouse-button enumerations, with the stable
//! canonical name table used by the selector grammar, the display
//! formatter and the macro store.
//!
//! Letter keys are named by their letter alone (`A` .. `Z`); every other
//! key is named by its variant name; an unrecognized platform key code
//! is carried as `Unknown(code)` and named `Unknown(<code>)`.

use crate::text::{
    all_digits, dec_rep, digits_val, eq_ci, lemma_dec_rep_wf, parse_digits_u64, str_eq,
    str_eq_ci, u64_to_string,
};
use vstd::prelude::*;
use vstd::string::*;

verus! {

#[derive(Clone, Copy, PartialEq, Eq, Structural, Debug)]
pub enum Key {
    Alt,
    AltGr,
    Backspace,
    CapsLock,
    ControlLeft,
    ControlRight,
    Delete,
    DownArrow,
    End,
    Escape,
    F1,
    F10,
    F11,
    F12,
    F2,
    F3,
    F4,
    F5,
    F6,
    F7,
    F8,
    F9,
    Home,
    LeftArrow,
    MetaLeft,
    MetaRight,
    PageDown,
    PageUp,
    Return,
    RightArrow,
    ShiftLeft,
    ShiftRight,
    Space,
    Tab,
    UpArrow,
    PrintScreen,
    ScrollLock,
    Pause,
    NumLock,
    BackQuote,
    Num1,
    Num2,
    Num3,
    Num4,
    Num5,
    Num6,
    Num7,
    Num8,
    Num9,
    Num0,
    Minus,
    Equal,
    KeyQ,
    KeyW,
    KeyE,
    KeyR,
    KeyT,
    KeyY,
    KeyU,
    KeyI,
    KeyO,
    KeyP,
    LeftBracket,
    RightBracket,
    KeyA,
    KeyS,
    KeyD,
    KeyF,
    KeyG,
    KeyH,
    KeyJ,
    KeyK,
    KeyL,
    SemiColon,
    Quote,
    BackSlash,
    IntlBackslash,
    KeyZ,
    KeyX,
    KeyC,
    KeyV,
    KeyB,
    KeyN,
    KeyM,
    Comma,
    Dot,
    Slash,
    Insert,
    KpReturn,
    KpMinus,
    KpPlus,
    KpMultiply,
    KpDivide,
    Kp0,
    Kp1,
    Kp2,
    Kp3,
    Kp4,
    Kp5,
    Kp6,
    Kp7,
    Kp8,
    Kp9,
    KpDelete,
    Function,
    Unknown(u32),
}

#[derive(Clone, Copy, PartialEq, Eq, Structural, Debug)]
pub enum Button {
    Left,
    Right,
    Middle,
    Unknown(u8),
}

/// The canonical name of an unrecognized key or button code.
pub open spec fn spec_unknown_name(code: nat) -> Seq<char> {
    "Unknown("@ + dec_rep(code) + ")"@
}

pub open spec fn spec_key_name(k: Key) -> Seq<char> {
    match k {
        Key::Alt => "Alt"@,
        Key::AltGr => "AltGr"@,
        Key::Backspace => "Backspace"@,
        Key::CapsLock => "CapsLock"@,
        Key::ControlLeft => "ControlLeft"@,
        Key::ControlRight => "ControlRight"@,
        Key::Delete => "Delete"@,
        Key::DownArrow => "DownArrow"@,
        Key::End => "End"@,
        Key::Escape => "Escape"@,
        Key::F1 => "F1"@,
        Key::F10 => "F10"@,
        Key::F11 => "F11"@,
        Key::F12 => "F12"@,
        Key::F2 => "F2"@,
        Key::F3 => "F3"@,
        Key::F4 => "F4"@,
        Key::F5 => "F5"@,
        Key::F6 => "F6"@,
        Key::F7 => "F7"@,
        Key::F8 => "F8"@,
        Key::F9 => "F9"@,
        Key::Home => "Home"@,
        Key::LeftArrow => "LeftArrow"@,
        Key::MetaLeft => "MetaLeft"@,
        Key::MetaRight => "MetaRight"@,
        Key::PageDown => "PageDown"@,
        Key::PageUp => "PageUp"@,
        Key::Return => "Return"@,
        Key::RightArrow => "RightArrow"@,
        Key::ShiftLeft => "ShiftLeft"@,
        Key::ShiftRight => "ShiftRight"@,
        Key::Space => "Space"@,
        Key::Tab => "Tab"@,
        Key::UpArrow => "UpArrow"@,
        Key::PrintScreen => "PrintScreen"@,
        Key::ScrollLock => "ScrollLock"@,
        Key::Pause => "Pause"@,
        Key::NumLock => "NumLock"@,
        Key::BackQuote => "BackQuote"@,
        Key::Num1 => "Num1"@,
        Key::Num2 => "Num2"@,
        Key::Num3 => "Num3"@,
        Key::Num4 => "Num4"@,
        Key::Num5 => "Num5"@,
        Key::Num6 => "Num6"@,
        Key::Num7 => "Num7"@,
        Key::Num8 => "Num8"@,
        Key::Num9 => "Num9"@,
        Key::Num0 => "Num0"@,
        Key::Minus => "Minus"@,
        Key::Equal => "Equal"@,
        Key::KeyQ => "Q"@,
        Key::KeyW => "W"@,
        Key::KeyE => "E"@,
        Key::KeyR => "R"@,
        Key::KeyT => "T"@,
        Key::KeyY => "Y"@,
        Key::KeyU => "U"@,
        Key::KeyI => "I"@,
        Key::KeyO => "O"@,
        Key::KeyP => "P"@,
        Key::LeftBracket => "LeftBracket"@,
        Key::RightBracket => "RightBracket"@,
        Key::KeyA => "A"@,
        Key::KeyS => "S"@,
        Key::KeyD => "D"@,
        Key::KeyF => "F"@,
        Key::KeyG => "G"@,
        Key::KeyH => "H"@,
        Key::KeyJ => "J"@,
        Key::KeyK => "K"@,
        Key::KeyL => "L"@,
        Key::SemiColon => "SemiColon"@,
        Key::Quote => "Quote"@,
        Key::BackSlash => "BackSlash"@,
        Key::IntlBackslash => "IntlBackslash"@,
        Key::KeyZ => "Z"@,
        Key::KeyX => "X"@,
        Key::KeyC => "C"@,
        Key::KeyV => "V"@,
        Key::KeyB => "B"@,
        Key::KeyN => "N"@,
        Key::KeyM => "M"@,
        Key::Comma => "Comma"@,
        Key::Dot => "Dot"@,
        Key::Slash => "Slash"@,
        Key::Insert => "Insert"@,
        Key::KpReturn => "KpReturn"@,
        Key::KpMinus => "KpMinus"@,
        Key::KpPlus => "KpPlus"@,
        Key::KpMultiply => "KpMultiply"@,
        Key::KpDivide => "KpDivide"@,
        Key::Kp0 => "Kp0"@,
        Key::Kp1 => "Kp1"@,
        Key::Kp2 => "Kp2"@,
        Key::Kp3 => "Kp3"@,
        Key::Kp4 => "Kp4"@,
        Key::Kp5 => "Kp5"@,
        Key::Kp6 => "Kp6"@,
        Key::Kp7 => "Kp7"@,
        Key::Kp8 => "Kp8"@,
        Key::Kp9 => "Kp9"@,
        Key::KpDelete => "KpDelete"@,
        Key::Function => "Function"@,
        Key::Unknown(code) => spec_unknown_name(code as nat),
    }
}

pub open spec fn spec_button_name(b: Button) -> Seq<char> {
    match b {
        Button::Left => "Left"@,
        Button::Right => "Right"@,
        Button::Middle => "Middle"@,
        Button::Unknown(code) => spec_unknown_name(code as nat),
    }
}

fn unknown_name(code: u64) -> (s: String)
    ensures
        s@ == spec_unknown_name(code as nat),
{
    let mut s = String::from_str("Unknown(");
    let d = u64_to_string(code);
    s.append(d.as_str());
    s.append(")");
    proof {
        assert(s@ =~= spec_unknown_name(code as nat));
    }
    s
}

pub fn key_name(k: &Key) -> (s: String)
    ensures
        s@ == spec_key_name(*k),
{
    match k {
        Key::Alt => String::from_str("Alt"),
        Key::AltGr => String::from_str("AltGr"),
        Key::Backspace => String::from_str("Backspace"),
        Key::CapsLock => String::from_str("CapsLock"),
        Key::ControlLeft => String::from_str("ControlLeft"),
        Key::ControlRight => String::from_str("ControlRight"),
        Key::Delete => String::from_str("Delete"),
        Key::DownArrow => String::from_str("DownArrow"),
        Key::End => String::from_str("End"),
        Key::Escape => String::from_str("Escape"),
        Key::F1 => String::from_str("F1"),
        Key::F10 => String::from_str("F10"),
        Key::F11 => String::from_str("F11"),
        Key::F12 => String::from_str("F12"),
        Key::F2 => String::from_str("F2"),
        Key::F3 => String::from_str("F3"),
        Key::F4 => String::from_str("F4"),
        Key::F5 => String::from_str("F5"),
        Key::F6 => String::from_str("F6"),
        Key::F7 => String::from_str("F7"),
        Key::F8 => String::from_str("F8"),
        Key::F9 => String::from_str("F9"),
        Key::Home => String::from_str("Home"),
        Key::LeftArrow => String::from_str("LeftArrow"),
        Key::MetaLeft => String::from_str("MetaLeft"),
        Key::MetaRight => String::from_str("MetaRight"),
        Key::PageDown => String::from_str("PageDown"),
        Key::PageUp => String::from_str("PageUp"),
        Key::Return => String::from_str("Return"),
        Key::RightArrow => String::from_str("RightArrow"),
        Key::ShiftLeft => String::from_str("ShiftLeft"),
        Key::ShiftRight => String::from_str("ShiftRight"),
        Key::Space => String::from_str("Space"),
        Key::Tab => String::from_str("Tab"),
        Key::UpArrow => String::from_str("UpArrow"),
        Key::PrintScreen => String::from_str("PrintScreen"),
        Key::ScrollLock => String::from_str("ScrollLock"),
        Key::Pause => String::from_str("Pause"),
        Key::NumLock => String::from_str("NumLock"),
        Key::BackQuote => String::from_str("BackQuote"),
        Key::Num1 => String::from_str("Num1"),
        Key::Num2 => String::from_str("Num2"),
        Key::Num3 => String::from_str("Num3"),
        Key::Num4 => String::from_str("Num4"),
        Key::Num5 => String::from_str("Num5"),
        Key::Num6 => String::from_str("Num6"),
        Key::Num7 => String::from_str("Num7"),
        Key::Num8 => String::from_str("Num8"),
        Key::Num9 => String::from_str("Num9"),
        Key::Num0 => String::from_str("Num0"),
        Key::Minus => String::from_str("Minus"),
        Key::Equal => String::from_str("Equal"),
        Key::KeyQ => String::from_str("Q"),
        Key::KeyW => String::from_str("W"),
        Key::KeyE => String::from_str("E"),
        Key::KeyR => String::from_str("R"),
        Key::KeyT => String::from_str("T"),
        Key::KeyY => String::from_str("Y"),
        Key::KeyU => String::from_str("U"),
        Key::KeyI => String::from_str("I"),
        Key::KeyO => String::from_str("O"),
        Key::KeyP => String::from_str("P"),
        Key::LeftBracket => String::from_str("LeftBracket"),
        Key::RightBracket => String::from_str("RightBracket"),
        Key::KeyA => String::from_str("A"),
        Key::KeyS => String::from_str("S"),
        Key::KeyD => String::from_str("D"),
        Key::KeyF => String::from_str("F"),
        Key::KeyG => String::from_str("G"),
        Key::KeyH => String::from_str("H"),
        Key::KeyJ => String::from_str("J"),
        Key::KeyK => String::from_str("K"),
        Key::KeyL => String::from_str("L"),
        Key::SemiColon => String::from_str("SemiColon"),
        Key::Quote => String::from_str("Quote"),
        Key::BackSlash => String::from_str("BackSlash"),
        Key::IntlBackslash => String::from_str("IntlBackslash"),
        Key::KeyZ => String::from_str("Z"),
        Key::KeyX => String::from_str("X"),
        Key::KeyC => String::from_str("C"),
        Key::KeyV => String::from_str("V"),
        Key::KeyB => String::from_str("B"),
        Key::KeyN => String::from_str("N"),
        Key::KeyM => String::from_str("M"),
        Key::Comma => String::from_str("Comma"),
        Key::Dot => String::from_str("Dot"),
        Key::Slash => String::from_str("Slash"),
        Key::Insert => String::from_str("Insert"),
        Key::KpReturn => String::from_str("KpReturn"),
        Key::KpMinus => String::from_str("KpMinus"),
        Key::KpPlus => String::from_str("KpPlus"),
        Key::KpMultiply => String::from_str("KpMultiply"),
        Key::KpDivide => String::from_str("KpDivide"),
        Key::Kp0 => String::from_str("Kp0"),
        Key::Kp1 => String::from_str("Kp1"),
        Key::Kp2 => String::from_str("Kp2"),
        Key::Kp3 => String::from_str("Kp3"),
        Key::Kp4 => String::from_str("Kp4"),
        Key::Kp5 => String::from_str("Kp5"),
        Key::Kp6 => String::from_str("Kp6"),
        Key::Kp7 => String::from_str("Kp7"),
        Key::Kp8 => String::from_str("Kp8"),
        Key::Kp9 => String::from_str("Kp9"),
        Key::KpDelete => String::from_str("KpDelete"),
        Key::Function => String::from_str("Function"),
        Key::Unknown(code) => unknown_name(*code as u64),
    }
}

pub fn button_name(b: &Button) -> (s: String)
    ensures
        s@ == spec_button_name(*b),
{
    match b {
        Button::Left => String::from_str("Left"),
        Button::Right => String::from_str("Right"),
        Button::Middle => String::from_str("Middle"),
        Button::Unknown(code) => unknown_name(*code as u64),
    }
}

/// Whether `s` has the printed shape of an unrecognized code:
/// `Unknown(` then at least one character then `)`.
pub open spec fn spec_unknown_shape(s: Seq<char>) -> bool {
    s.len() >= 10 && s.subrange(0, 8) == "Unknown("@ && s.last() == ')'
}

pub open spec fn spec_key_from_name(s: Seq<char>) -> Option<Key> {
    if spec_unknown_shape(s) {
        let ds = s.subrange(8, s.len() - 1);
        if all_digits(ds) && digits_val(ds) <= u32::MAX {
            Option::Some(Key::Unknown(digits_val(ds) as u32))
        } else {
            Option::None
        }
    } else 
    if s.len() == 1 {
        if s == "Q"@ {
            Option::Some(Key::KeyQ)
        } else if s == "W"@ {
            Option::Some(Key::KeyW)
        } else if s == "E"@ {
            Option::Some(Key::KeyE)
        } else if s == "R"@ {
            Option::Some(Key::KeyR)
        } else if s == "T"@ {
            Option::Some(Key::KeyT)
        } else if s == "Y"@ {
            Option::Some(Key::KeyY)
        } else if s == "U"@ {
            Option::Some(Key::KeyU)
        } else if s == "I"@ {
            Option::Some(Key::KeyI)
        } else if s == "O"@ {
            Option::Some(Key::KeyO)
        } else if s == "P"@ {
            Option::Some(Key::KeyP)
        } else if s == "A"@ {
            Option::Some(Key::KeyA)
        } else if s == "S"@ {
            Option::Some(Key::KeyS)
        } else if s == "D"@ {
            Option::Some(Key::KeyD)
        } else if s == "F"@ {
            Option::Some(Key::KeyF)
        } else if s == "G"@ {
            Option::Some(Key::KeyG)
        } else if s == "H"@ {
            Option::Some(Key::KeyH)
        } else if s == "J"@ {
            Option::Some(Key::KeyJ)
        } else if s == "K"@ {
            Option::Some(Key::KeyK)
        } else if s == "L"@ {
            Option::Some(Key::KeyL)
        } else if s == "Z"@ {
            Option::Some(Key::KeyZ)
        } else if s == "X"@ {
            Option::Some(Key::KeyX)
        } else if s == "C"@ {
            Option::Some(Key::KeyC)
        } else if s == "V"@ {
            Option::Some(Key::KeyV)
        } else if s == "B"@ {
            Option::Some(Key::KeyB)
        } else if s == "N"@ {
            Option::Some(Key::KeyN)
        } else if s == "M"@ {
            Option::Some(Key::KeyM)
        } else {
            Option::None
        }
    } else if s.len() == 2 {
        if s == "F1"@ {
            Option::Some(Key::F1)
        } else if s == "F2"@ {
            Option::Some(Key::F2)
        } else if s == "F3"@ {
            Option::Some(Key::F3)
        } else if s == "F4"@ {
            Option::Some(Key::F4)
        } else if s == "F5"@ {
            Option::Some(Key::F5)
        } else if s == "F6"@ {
            Option::Some(Key::F6)
        } else if s == "F7"@ {
            Option::Some(Key::F7)
        } else if s == "F8"@ {
            Option::Some(Key::F8)
        } else if s == "F9"@ {
            Option::Some(Key::F9)
        } else {
            Option::None
        }
    } else if s.len() == 3 {
        if s == "Alt"@ {
            Option::Some(Key::Alt)
        } else if s == "End"@ {
            Option::Some(Key::End)
        } else if s == "F10"@ {
            Option::Some(Key::F10)
        } else if s == "F11"@ {
            Option::Some(Key::F11)
        } else if s == "F12"@ {
            Option::Some(Key::F12)
        } else if s == "Tab"@ {
            Option::Some(Key::Tab)
        } else if s == "Dot"@ {
            Option::Some(Key::Dot)
        } else if s == "Kp0"@ {
            Option::Some(Key::Kp0)
        } else if s == "Kp1"@ {
            Option::Some(Key::Kp1)
        } else if s == "Kp2"@ {
            Option::Some(Key::Kp2)
        } else if s == "Kp3"@ {
            Option::Some(Key::Kp3)
        } else if s == "Kp4"@ {
            Option::Some(Key::Kp4)
        } else if s == "Kp5"@ {
            Option::Some(Key::Kp5)
        } else if s == "Kp6"@ {
            Option::Some(Key::Kp6)
        } else if s == "Kp7"@ {
            Option::Some(Key::Kp7)
        } else if s == "Kp8"@ {
            Option::Some(Key::Kp8)
        } else if s == "Kp9"@ {
            Option::Some(Key::Kp9)
        } else {
            Option::None
        }
    } else if s.len() == 4 {
        if s == "Home"@ {
            Option::Some(Key::Home)
        } else if s == "Num1"@ {
            Option::Some(Key::Num1)
        } else if s == "Num2"@ {
            Option::Some(Key::Num2)
        } else if s == "Num3"@ {
            Option::Some(Key::Num3)
        } else if s == "Num4"@ {
            Option::Some(Key::Num4)
        } else if s == "Num5"@ {
            Option::Some(Key::Num5)
        } else if s == "Num6"@ {
            Option::Some(Key::Num6)
        } else if s == "Num7"@ {
            Option::Some(Key::Num7)
        } else if s == "Num8"@ {
            Option::Some(Key::Num8)
        } else if s == "Num9"@ {
            Option::Some(Key::Num9)
        } else if s == "Num0"@ {
            Option::Some(Key::Num0)
        } else {
            Option::None
        }
    } else if s.len() == 5 {
        if s == "AltGr"@ {
            Option::Some(Key::AltGr)
        } else if s == "Space"@ {
            Option::Some(Key::Space)
        } else if s == "Pause"@ {
            Option::Some(Key::Pause)
        } else if s == "Minus"@ {
            Option::Some(Key::Minus)
        } else if s == "Equal"@ {
            Option::Some(Key::Equal)
        } else if s == "Quote"@ {
            Option::Some(Key::Quote)
        } else if s == "Comma"@ {
            Option::Some(Key::Comma)
        } else if s == "Slash"@ {
            Option::Some(Key::Slash)
        } else {
            Option::None
        }
    } else if s.len() == 6 {
        if s == "Delete"@ {
            Option::Some(Key::Delete)
        } else if s == "Escape"@ {
            Option::Some(Key::Escape)
        } else if s == "PageUp"@ {
            Option::Some(Key::PageUp)
        } else if s == "Return"@ {
            Option::Some(Key::Return)
        } else if s == "Insert"@ {
            Option::Some(Key::Insert)
        } else if s == "KpPlus"@ {
            Option::Some(Key::KpPlus)
        } else {
            Option::None
        }
    } else if s.len() == 7 {
        if s == "UpArrow"@ {
            Option::Some(Key::UpArrow)
        } else if s == "NumLock"@ {
            Option::Some(Key::NumLock)
        } else if s == "KpMinus"@ {
            Option::Some(Key::KpMinus)
        } else {
            Option::None
        }
    } else if s.len() == 8 {
        if s == "CapsLock"@ {
            Option::Some(Key::CapsLock)
        } else if s == "MetaLeft"@ {
            Option::Some(Key::MetaLeft)
        } else if s == "PageDown"@ {
            Option::Some(Key::PageDown)
        } else if s == "KpReturn"@ {
            Option::Some(Key::KpReturn)
        } else if s == "KpDivide"@ {
            Option::Some(Key::KpDivide)
        } else if s == "KpDelete"@ {
            Option::Some(Key::KpDelete)
        } else if s == "Function"@ {
            Option::Some(Key::Function)
        } else {
            Option::None
        }
    } else if s.len() == 9 {
        if s == "Backspace"@ {
            Option::Some(Key::Backspace)
        } else if s == "DownArrow"@ {
            Option::Some(Key::DownArrow)
        } else if s == "LeftArrow"@ {
            Option::Some(Key::LeftArrow)
        } else if s == "MetaRight"@ {
            Option::Some(Key::MetaRight)
        } else if s == "ShiftLeft"@ {
            Option::Some(Key::ShiftLeft)
        } else if s == "BackQuote"@ {
            Option::Some(Key::BackQuote)
        } else if s == "SemiColon"@ {
            Option::Some(Key::SemiColon)
        } else if s == "BackSlash"@ {
            Option::Some(Key::BackSlash)
        } else {
            Option::None
        }
    } else if s.len() == 10 {
        if s == "RightArrow"@ {
            Option::Some(Key::RightArrow)
        } else if s == "ShiftRight"@ {
            Option::Some(Key::ShiftRight)
        } else if s == "ScrollLock"@ {
            Option::Some(Key::ScrollLock)
        } else if s == "KpMultiply"@ {
            Option::Some(Key::KpMultiply)
        } else {
            Option::None
        }
    } else if s.len() == 11 {
        if s == "ControlLeft"@ {
            Option::Some(Key::ControlLeft)
        } else if s == "PrintScreen"@ {
            Option::Some(Key::PrintScreen)
        } else if s == "LeftBracket"@ {
            Option::Some(Key::LeftBracket)
        } else {
            Option::None
        }
    } else if s.len() == 12 {
        if s == "ControlRight"@ {
            Option::Some(Key::ControlRight)
        } else if s == "RightBracket"@ {
            Option::Some(Key::RightBracket)
        } else {
            Option::None
        }
    } else if s.len() == 13 {
        if s == "IntlBackslash"@ {
            Option::Some(Key::IntlBackslash)
        } else {
            Option::None
        }
    } else {
        Option::None
    }
}

pub open spec fn spec_button_from_name(s: Seq<char>) -> Option<Button> {
    if spec_unknown_shape(s) {
        let ds = s.subrange(8, s.len() - 1);
        if all_digits(ds) && digits_val(ds) <= u8::MAX {
            Option::Some(Button::Unknown(digits_val(ds) as u8))
        } else {
            Option::None
        }
    } else if s == "Left"@ {
        Option::Some(Button::Left)
    } else if s == "Right"@ {
        Option::Some(Button::Right)
    } else if s == "Middle"@ {
        Option::Some(Button::Middle)
    } else {
        Option::None
    }
}

/// Decides `spec_unknown_shape` and, when it holds, the digit value
/// between the parentheses, capped at `max`.
fn unknown_shape_value(s: &str, max: u64) -> (r: (bool, Option<u64>))
    ensures
        r.0 == spec_unknown_shape(s@),
        r.0 ==> ({
            let ds = s@.subrange(8, s@.len() - 1);
            match r.1 {
                Option::Some(v) => all_digits(ds) && digits_val(ds) == v as nat && v <= max,
                Option::None => !all_digits(ds) || digits_val(ds) > max,
            }
        }),
{
    let n = s.unicode_len();
    if n < 10 {
        return (false, Option::None);
    }
    let head = s.substring_char(0, 8);
    if !str_eq(head, "Unknown(") {
        return (false, Option::None);
    }
    if s.get_char(n - 1) != ')' {
        return (false, Option::None);
    }
    let v = parse_digits_u64(s, 8, n - 1, max);
    (true, v)
}

pub fn key_from_name(s: &str) -> (r: Option<Key>)
    ensures
        r == spec_key_from_name(s@),
{
    let (shape, value) = unknown_shape_value(s, 0xffff_ffff);
    if shape {
        return match value {
            Option::Some(v) => Option::Some(Key::Unknown(v as u32)),
            Option::None => Option::None,
        };
    }
    let n = s.unicode_len();
    if n == 1 {
        if str_eq(s, "Q") {
            Option::Some(Key::KeyQ)
        } else if str_eq(s, "W") {
            Option::Some(Key::KeyW)
        } else if str_eq(s, "E") {
            Option::Some(Key::KeyE)
        } else if str_eq(s, "R") {
            Option::Some(Key::KeyR)
        } else if str_eq(s, "T") {
            Option::Some(Key::KeyT)
        } else if str_eq(s, "Y") {
            Option::Some(Key::KeyY)
        } else if str_eq(s, "U") {
            Option::Some(Key::KeyU)
        } else if str_eq(s, "I") {
            Option::Some(Key::KeyI)
        } else if str_eq(s, "O") {
            Option::Some(Key::KeyO)
        } else if str_eq(s, "P") {
            Option::Some(Key::KeyP)
        } else if str_eq(s, "A") {
            Option::Some(Key::KeyA)
        } else if str_eq(s, "S") {
            Option::Some(Key::KeyS)
        } else if str_eq(s, "D") {
            Option::Some(Key::KeyD)
        } else if str_eq(s, "F") {
            Option::Some(Key::KeyF)
        } else if str_eq(s, "G") {
            Option::Some(Key::KeyG)
        } else if str_eq(s, "H") {
            Option::Some(Key::KeyH)
        } else if str_eq(s, "J") {
            Option::Some(Key::KeyJ)
        } else if str_eq(s, "K") {
            Option::Some(Key::KeyK)
        } else if str_eq(s, "L") {
            Option::Some(Key::KeyL)
        } else if str_eq(s, "Z") {
            Option::Some(Key::KeyZ)
        } else if str_eq(s, "X") {
            Option::Some(Key::KeyX)
        } else if str_eq(s, "C") {
            Option::Some(Key::KeyC)
        } else if str_eq(s, "V") {
            Option::Some(Key::KeyV)
        } else if str_eq(s, "B") {
            Option::Some(Key::KeyB)
        } else if str_eq(s, "N") {
            Option::Some(Key::KeyN)
        } else if str_eq(s, "M") {
            Option::Some(Key::KeyM)
        } else {
            Option::None
        }
    } else if n == 2 {
        if str_eq(s, "F1") {
            Option::Some(Key::F1)
        } else if str_eq(s, "F2") {
            Option::Some(Key::F2)
        } else if str_eq(s, "F3") {
            Option::Some(Key::F3)
        } else if str_eq(s, "F4") {
            Option::Some(Key::F4)
        } else if str_eq(s, "F5") {
            Option::Some(Key::F5)
        } else if str_eq(s, "F6") {
            Option::Some(Key::F6)
        } else if str_eq(s, "F7") {
            Option::Some(Key::F7)
        } else if str_eq(s, "F8") {
            Option::Some(Key::F8)
        } else if str_eq(s, "F9") {
            Option::Some(Key::F9)
        } else {
            Option::None
        }
    } else if n == 3 {
        if str_eq(s, "Alt") {
            Option::Some(Key::Alt)
        } else if str_eq(s, "End") {
            Option::Some(Key::End)
        } else if str_eq(s, "F10") {
            Option::Some(Key::F10)
        } else if str_eq(s, "F11") {
            Option::Some(Key::F11)
        } else if str_eq(s, "F12") {
            Option::Some(Key::F12)
        } else if str_eq(s, "Tab") {
            Option::Some(Key::Tab)
        } else if str_eq(s, "Dot") {
            Option::Some(Key::Dot)
        } else if str_eq(s, "Kp0") {
            Option::Some(Key::Kp0)
        } else if str_eq(s, "Kp1") {
            Option::Some(Key::Kp1)
        } else if str_eq(s, "Kp2") {
            Option::Some(Key::Kp2)
        } else if str_eq(s, "Kp3") {
            Option::Some(Key::Kp3)
        } else if str_eq(s, "Kp4") {
            Option::Some(Key::Kp4)
        } else if str_eq(s, "Kp5") {
            Option::Some(Key::Kp5)
        } else if str_eq(s, "Kp6") {
            Option::Some(Key::Kp6)
        } else if str_eq(s, "Kp7") {
            Option::Some(Key::Kp7)
        } else if str_eq(s, "Kp8") {
            Option::Some(Key::Kp8)
        } else if str_eq(s, "Kp9") {
            Option::Some(Key::Kp9)
        } else {
            Option::None
        }
    } else if n == 4 {
        if str_eq(s, "Home") {
            Option::Some(Key::Home)
        } else if str_eq(s, "Num1") {
            Option::Some(Key::Num1)
        } else if str_eq(s, "Num2") {
            Option::Some(Key::Num2)
        } else if str_eq(s, "Num3") {
            Option::Some(Key::Num3)
        } else if str_eq(s, "Num4") {
            Option::Some(Key::Num4)
        } else if str_eq(s, "Num5") {
            Option::Some(Key::Num5)
        } else if str_eq(s, "Num6") {
            Option::Some(Key::Num6)
        } else if str_eq(s, "Num7") {
            Option::Some(Key::Num7)
        } else if str_eq(s, "Num8") {
            Option::Some(Key::Num8)
        } else if str_eq(s, "Num9") {
            Option::Some(Key::Num9)
        } else if str_eq(s, "Num0") {
            Option::Some(Key::Num0)
        } else {
            Option::None
        }
    } else if n == 5 {
        if str_eq(s, "AltGr") {
            Option::Some(Key::AltGr)
        } else if str_eq(s, "Space") {
            Option::Some(Key::Space)
        } else if str_eq(s, "Pause") {
            Option::Some(Key::Pause)
        } else if str_eq(s, "Minus") {
            Option::Some(Key::Minus)
        } else if str_eq(s, "Equal") {
            Option::Some(Key::Equal)
        } else if str_eq(s, "Quote") {
            Option::Some(Key::Quote)
        } else if str_eq(s, "Comma") {
            Option::Some(Key::Comma)
        } else if str_eq(s, "Slash") {
            Option::Some(Key::Slash)
        } else {
            Option::None
        }
    } else if n == 6 {
        if str_eq(s, "Delete") {
            Option::Some(Key::Delete)
        } else if str_eq(s, "Escape") {
            Option::Some(Key::Escape)
        } else if str_eq(s, "PageUp") {
            Option::Some(Key::PageUp)
        } else if str_eq(s, "Return") {
            Option::Some(Key::Return)
        } else if str_eq(s, "Insert") {
            Option::Some(Key::Insert)
        } else if str_eq(s, "KpPlus") {
            Option::Some(Key::KpPlus)
        } else {
            Option::None
        }
    } else if n == 7 {
        if str_eq(s, "UpArrow") {
            Option::Some(Key::UpArrow)
        } else if str_eq(s, "NumLock") {
            Option::Some(Key::NumLock)
        } else if str_eq(s, "KpMinus") {
            Option::Some(Key::KpMinus)
        } else {
            Option::None
        }
    } else if n == 8 {
        if str_eq(s, "CapsLock") {
            Option::Some(Key::CapsLock)
        } else if str_eq(s, "MetaLeft") {
            Option::Some(Key::MetaLeft)
        } else if str_eq(s, "PageDown") {
            Option::Some(Key::PageDown)
        } else if str_eq(s, "KpReturn") {
            Option::Some(Key::KpReturn)
        } else if str_eq(s, "KpDivide") {
            Option::Some(Key::KpDivide)
        } else if str_eq(s, "KpDelete") {
            Option::Some(Key::KpDelete)
        } else if str_eq(s, "Function") {
            Option::Some(Key::Function)
        } else {
            Option::None
        }
    } else if n == 9 {
        if str_eq(s, "Backspace") {
            Option::Some(Key::Backspace)
        } else if str_eq(s, "DownArrow") {
            Option::Some(Key::DownArrow)
        } else if str_eq(s, "LeftArrow") {
            Option::Some(Key::LeftArrow)
        } else if str_eq(s, "MetaRight") {
            Option::Some(Key::MetaRight)
        } else if str_eq(s, "ShiftLeft") {
            Option::Some(Key::ShiftLeft)
        } else if str_eq(s, "BackQuote") {
            Option::Some(Key::BackQuote)
        } else if str_eq(s, "SemiColon") {
            Option::Some(Key::SemiColon)
        } else if str_eq(s, "BackSlash") {
            Option::Some(Key::BackSlash)
        } else {
            Option::None
        }
    } else if n == 10 {
        if str_eq(s, "RightArrow") {
            Option::Some(Key::RightArrow)
        } else if str_eq(s, "ShiftRight") {
            Option::Some(Key::ShiftRight)
        } else if str_eq(s, "ScrollLock") {
            Option::Some(Key::ScrollLock)
        } else if str_eq(s, "KpMultiply") {
            Option::Some(Key::KpMultiply)
        } else {
            Option::None
        }
    } else if n == 11 {
        if str_eq(s, "ControlLeft") {
            Option::Some(Key::ControlLeft)
        } else if str_eq(s, "PrintScreen") {
            Option::Some(Key::PrintScreen)
        } else if str_eq(s, "LeftBracket") {
            Option::Some(Key::LeftBracket)
        } else {
            Option::None
        }
    } else if n == 12 {
        if str_eq(s, "ControlRight") {
            Option::Some(Key::ControlRight)
        } else if str_eq(s, "RightBracket") {
            Option::Some(Key::RightBracket)
        } else {
            Option::None
        }
    } else if n == 13 {
        if str_eq(s, "IntlBackslash") {
            Option::Some(Key::IntlBackslash)
        } else {
            Option::None
        }
    } else {
        Option::None
    }
}

pub fn button_from_name(s: &str) -> (r: Option<Button>)
    ensures
        r == spec_button_from_name(s@),
{
    let (shape, value) = unknown_shape_value(s, 0xff);
    if shape {
        return match value {
            Option::Some(v) => Option::Some(Button::Unknown(v as u8)),
            Option::None => Option::None,
        };
    }
    if str_eq(s, "Left") {
        Option::Some(Button::Left)
    } else if str_eq(s, "Right") {
        Option::Some(Button::Right)
    } else if str_eq(s, "Middle") {
        Option::Some(Button::Middle)
    } else {
        Option::None
    }
}

/// The canonical name of an unrecognized code parses back to that code.
proof fn lemma_unknown_name_parses(code: nat)
    ensures
        spec_unknown_shape(spec_unknown_name(code)),
        all_digits(spec_unknown_name(code).subrange(8, spec_unknown_name(code).len() - 1)),
        digits_val(spec_unknown_name(code).subrange(8, spec_unknown_name(code).len() - 1)) == code,
{
    reveal_strlit("Unknown(");
    reveal_strlit(")");
    lemma_dec_rep_wf(code);
    let name = spec_unknown_name(code);
    assert(name.len() == 9 + dec_rep(code).len());
    assert(name.subrange(0, 8) =~= "Unknown("@);
    assert(name.last() == ')');
    assert(name.subrange(8, name.len() - 1) =~= dec_rep(code));
}

/// The canonical key name table is its own inverse: parsing the name of
/// any key yields exactly that key.
pub proof fn lemma_key_name_roundtrip(k: Key)
    ensures
        spec_key_from_name(spec_key_name(k)) == Option::Some(k),
{
    reveal_strlit("Alt");
    reveal_strlit("AltGr");
    reveal_strlit("Backspace");
    reveal_strlit("CapsLock");
    reveal_strlit("ControlLeft");
    reveal_strlit("ControlRight");
    reveal_strlit("Delete");
    reveal_strlit("DownArrow");
    reveal_strlit("End");
    reveal_strlit("Escape");
    reveal_strlit("F1");
    reveal_strlit("F10");
    reveal_strlit("F11");
    reveal_strlit("F12");
    reveal_strlit("F2");
    reveal_strlit("F3");
    reveal_strlit("F4");
    reveal_strlit("F5");
    reveal_strlit("F6");
    reveal_strlit("F7");
    reveal_strlit("F8");
    reveal_strlit("F9");
    reveal_strlit("Home");
    reveal_strlit("LeftArrow");
    reveal_strlit("MetaLeft");
    reveal_strlit("MetaRight");
    reveal_strlit("PageDown");
    reveal_strlit("PageUp");
    reveal_strlit("Return");
    reveal_strlit("RightArrow");
    reveal_strlit("ShiftLeft");
    reveal_strlit("ShiftRight");
    reveal_strlit("Space");
    reveal_strlit("Tab");
    reveal_strlit("UpArrow");
    reveal_strlit("PrintScreen");
    reveal_strlit("ScrollLock");
    reveal_strlit("Pause");
    reveal_strlit("NumLock");
    reveal_strlit("BackQuote");
    reveal_strlit("Num1");
    reveal_strlit("Num2");
    reveal_strlit("Num3");
    reveal_strlit("Num4");
    reveal_strlit("Num5");
    reveal_strlit("Num6");
    reveal_strlit("Num7");
    reveal_strlit("Num8");
    reveal_strlit("Num9");
    reveal_strlit("Num0");
    reveal_strlit("Minus");
    reveal_strlit("Equal");
    reveal_strlit("Q");
    reveal_strlit("W");
    reveal_strlit("E");
    reveal_strlit("R");
    reveal_strlit("T");
    reveal_strlit("Y");
    reveal_strlit("U");
    reveal_strlit("I");
    reveal_strlit("O");
    reveal_strlit("P");
    reveal_strlit("LeftBracket");
    reveal_strlit("RightBracket");
    reveal_strlit("A");
    reveal_strlit("S");
    reveal_strlit("D");
    reveal_strlit("F");
    reveal_strlit("G");
    reveal_strlit("H");
    reveal_strlit("J");
    reveal_strlit("K");
    reveal_strlit("L");
    reveal_strlit("SemiColon");
    reveal_strlit("Quote");
    reveal_strlit("BackSlash");
    reveal_strlit("IntlBackslash");
    reveal_strlit("Z");
    reveal_strlit("X");
    reveal_strlit("C");
    reveal_strlit("V");
    reveal_strlit("B");
    reveal_strlit("N");
    reveal_strlit("M");
    reveal_strlit("Comma");
    reveal_strlit("Dot");
    reveal_strlit("Slash");
    reveal_strlit("Insert");
    reveal_strlit("KpReturn");
    reveal_strlit("KpMinus");
    reveal_strlit("KpPlus");
    reveal_strlit("KpMultiply");
    reveal_strlit("KpDivide");
    reveal_strlit("Kp0");
    reveal_strlit("Kp1");
    reveal_strlit("Kp2");
    reveal_strlit("Kp3");
    reveal_strlit("Kp4");
    reveal_strlit("Kp5");
    reveal_strlit("Kp6");
    reveal_strlit("Kp7");
    reveal_strlit("Kp8");
    reveal_strlit("Kp9");
    reveal_strlit("KpDelete");
    reveal_strlit("Function");
    reveal_strlit("Unknown(");
    reveal_strlit(")");
    match k {
        Key::Alt => {
            assert(spec_key_from_name(spec_key_name(Key::Alt)) == Option::Some(Key::Alt));
        },
        Key::AltGr => {
            assert(spec_key_from_name(spec_key_name(Key::AltGr)) == Option::Some(Key::AltGr));
        },
        Key::Backspace => {
            assert(spec_key_from_name(spec_key_name(Key::Backspace)) == Option::Some(Key::Backspace));
        },
        Key::CapsLock => {
            assert(spec_key_from_name(spec_key_name(Key::CapsLock)) == Option::Some(Key::CapsLock));
        },
        Key::ControlLeft => {
            assert(("ControlLeft"@).subrange(0, 8) != "Unknown("@) by {
                assert(("ControlLeft"@).subrange(0, 8)[0] == 'C');
            };
            assert(spec_key_from_name(spec_key_name(Key::ControlLeft)) == Option::Some(Key::ControlLeft));
        },
        Key::ControlRight => {
            assert(("ControlRight"@).subrange(0, 8) != "Unknown("@) by {
                assert(("ControlRight"@).subrange(0, 8)[0] == 'C');
            };
            assert(spec_key_from_name(spec_key_name(Key::ControlRight)) == Option::Some(Key::ControlRight));
        },
        Key::Delete => {
            assert(spec_key_from_name(spec_key_name(Key::Delete)) == Option::Some(Key::Delete));
        },
        Key::DownArrow => {
            assert(("DownArrow"@) != ("Backspace"@)) by {
                assert(("DownArrow"@)[0] != ("Backspace"@)[0]);
            };
            assert(spec_key_from_name(spec_key_name(Key::DownArrow)) == Option::Some(Key::DownArrow));
        },
        Key::End => {
            assert(("End"@) != ("Alt"@)) by {
                assert(("End"@)[0] != ("Alt"@)[0]);
            };
            assert(spec_key_from_name(spec_key_name(Key::End)) == Option::Some(Key::End));
        },
        Key::Escape => {
            assert(("Escape"@) != ("Delete"@)) by {
                assert(("Escape"@)[0] != ("Delete"@)[0]);
            };
            assert(spec_key_from_name(spec_key_name(Key::Escape)) == Option::Some(Key::Escape));
        },
        Key::F1 => {
            assert(spec_key_from_name(spec_key_name(Key::F1)) == Option::Some(Key::F1));
        },
        Key::F10 => {
            assert(("F10"@) != ("Alt"@)) by {
                assert(("F10"@)[0] != ("Alt"@)[0]);
            };
            assert(("F10"@) != ("End"@)) by {
                assert(("F10"@)[0] != ("End"@)[0]);
            };
            assert(spec_key_from_name(spec_key_name(Key::F10)) == Option::Some(Key::F10));
        },
        Key::F11 => {
            assert(("F11"@) != ("Alt"@)) by {
                assert(("F11"@)[0] != ("Alt"@)[0]);
            };
            assert(("F11"@) != ("End"@)) by {
                assert(("F11"@)[0] != ("End"@)[0]);
            };
            assert(("F11"@) != ("F10"@)) by {
                assert(("F11"@)[2] != ("F10"@)[2]);
            };
            assert(spec_key_from_name(spec_key_name(Key::F11)) == Option::Some(Key::F11));
        },
        Key::F12 => {
            assert(("F12"@) != ("Alt"@)) by {
                assert(("F12"@)[0] != ("Alt"@)[0]);
            };
            assert(("F12"@) != ("End"@)) by {
                assert(("F12"@)[0] != ("End"@)[0]);
            };
            assert(("F12"@) != ("F10"@)) by {
                assert(("F12"@)[2] != ("F10"@)[2]);
            };
            assert(("F12"@) != ("F11"@)) by {
                assert(("F12"@)[2] != ("F11"@)[2]);
            };
            assert(spec_key_from_name(spec_key_name(Key::F12)) == Option::Some(Key::F12));
        },
        Key::F2 => {
            assert(("F2"@) != ("F1"@)) by {
                assert(("F2"@)[1] != ("F1"@)[1]);
            };
            assert(spec_key_from_name(spec_key_name(Key::F2)) == Option::Some(Key::F2));
        },
        Key::F3 => {
            assert(("F3"@) != ("F1"@)) by {
                assert(("F3"@)[1] != ("F1"@)[1]);
            };
            assert(("F3"@) != ("F2"@)) by {
                assert(("F3"@)[1] != ("F2"@)[1]);
            };
            assert(spec_key_from_name(spec_key_name(Key::F3)) == Option::Some(Key::F3));
        },
        Key::F4 => {
            assert(("F4"@) != ("F1"@)) by {
                assert(("F4"@)[1] != ("F1"@)[1]);
            };
            assert(("F4"@) != ("F2"@)) by {
                assert(("F4"@)[1] != ("F2"@)[1]);
            };
            assert(("F4"@) != ("F3"@)) by {
                assert(("F4"@)[1] != ("F3"@)[1]);
            };
            assert(spec_key_from_name(spec_key_name(Key::F4)) == Option::Some(Key::F4));
        },
        Key::F5 => {
            assert(("F5"@) != ("F1"@)) by {
                assert(("F5"@)[1] != ("F1"@)[1]);
            };
            assert(("F5"@) != ("F2"@)) by {
                assert(("F5"@)[1] != ("F2"@)[1]);
            };
            assert(("F5"@) != ("F3"@)) by {
                assert(("F5"@)[1] != ("F3"@)[1]);
            };
            assert(("F5"@) != ("F4"@)) by {
                assert(("F5"@)[1] != ("F4"@)[1]);
            };
            assert(spec_key_from_name(spec_key_name(Key::F5)) == Option::Some(Key::F5));
        },
        Key::F6 => {
            assert(("F6"@) != ("F1"@)) by {
                assert(("F6"@)[1] != ("F1"@)[1]);
            };
            assert(("F6"@) != ("F2"@)) by {
                assert(("F6"@)[1] != ("F2"@)[1]);
            };
            assert(("F6"@) != ("F3"@)) by {
                assert(("F6"@)[1] != ("F3"@)[1]);
            };
            assert(("F6"@) != ("F4"@)) by {
                assert(("F6"@)[1] != ("F4"@)[1]);
            };
            assert(("F6"@) != ("F5"@)) by {
                assert(("F6"@)[1] != ("F5"@)[1]);
            };
            assert(spec_key_from_name(spec_key_name(Key::F6)) == Option::Some(Key::F6));
        },
        Key::F7 => {
            assert(("F7"@) != ("F1"@)) by {
                assert(("F7"@)[1] != ("F1"@)[1]);
            };
            assert(("F7"@) != ("F2"@)) by {
                assert(("F7"@)[1] != ("F2"@)[1]);
            };
            assert(("F7"@) != ("F3"@)) by {
                assert(("F7"@)[1] != ("F3"@)[1]);
            };
            assert(("F7"@) != ("F4"@)) by {
                assert(("F7"@)[1] != ("F4"@)[1]);
            };
            assert(("F7"@) != ("F5"@)) by {
                assert(("F7"@)[1] != ("F5"@)[1]);
            };
            assert(("F7"@) != ("F6"@)) by {
                assert(("F7"@)[1] != ("F6"@)[1]);
            };
            assert(spec_key_from_name(spec_key_name(Key::F7)) == Option::Some(Key::F7));
        },
        Key::F8 => {
            assert(("F8"@) != ("F1"@)) by {
                assert(("F8"@)[1] != ("F1"@)[1]);
            };
            assert(("F8"@) != ("F2"@)) by {
                assert(("F8"@)[1] != ("F2"@)[1]);
            };
            assert(("F8"@) != ("F3"@)) by {
                assert(("F8"@)[1] != ("F3"@)[1]);
            };
            assert(("F8"@) != ("F4"@)) by {
                assert(("F8"@)[1] != ("F4"@)[1]);
            };
            assert(("F8"@) != ("F5"@)) by {
                assert(("F8"@)[1] != ("F5"@)[1]);
            };
            assert(("F8"@) != ("F6"@)) by {
                assert(("F8"@)[1] != ("F6"@)[1]);
            };
            assert(("F8"@) != ("F7"@)) by {
                assert(("F8"@)[1] != ("F7"@)[1]);
            };
            assert(spec_key_from_name(spec_key_name(Key::F8)) == Option::Some(Key::F8));
        },
        Key::F9 => {
            assert(("F9"@) != ("F1"@)) by {
                assert(("F9"@)[1] != ("F1"@)[1]);
            };
            assert(("F9"@) != ("F2"@)) by {
                assert(("F9"@)[1] != ("F2"@)[1]);
            };
            assert(("F9"@) != ("F3"@)) by {
                assert(("F9"@)[1] != ("F3"@)[1]);
            };
            assert(("F9"@) != ("F4"@)) by {
                assert(("F9"@)[1] != ("F4"@)[1]);
            };
            assert(("F9"@) != ("F5"@)) by {
                assert(("F9"@)[1] != ("F5"@)[1]);
            };
            assert(("F9"@) != ("F6"@)) by {
                assert(("F9"@)[1] != ("F6"@)[1]);
            };
            assert(("F9"@) != ("F7"@)) by {
                assert(("F9"@)[1] != ("F7"@)[1]);
            };
            assert(("F9"@) != ("F8"@)) by {
                assert(("F9"@)[1] != ("F8"@)[1]);
            };
            assert(spec_key_from_name(spec_key_name(Key::F9)) == Option::Some(Key::F9));
        },
        Key::Home => {
            assert(spec_key_from_name(spec_key_name(Key::Home)) == Option::Some(Key::Home));
        },
        Key::LeftArrow => {
            assert(("LeftArrow"@) != ("Backspace"@)) by {
                assert(("LeftArrow"@)[0] != ("Backspace"@)[0]);
            };
            assert(("LeftArrow"@) != ("DownArrow"@)) by {
                assert(("LeftArrow"@)[0] != ("DownArrow"@)[0]);
            };
            assert(spec_key_from_name(spec_key_name(Key::LeftArrow)) == Option::Some(Key::LeftArrow));
        },
        Key::MetaLeft => {
            assert(("MetaLeft"@) != ("CapsLock"@)) by {
                assert(("MetaLeft"@)[0] != ("CapsLock"@)[0]);
            };
            assert(spec_key_from_name(spec_key_name(Key::MetaLeft)) == Option::Some(Key::MetaLeft));
        },
        Key::MetaRight => {
            assert(("MetaRight"@) != ("Backspace"@)) by {
                assert(("MetaRight"@)[0] != ("Backspace"@)[0]);
            };
            assert(("MetaRight"@) != ("DownArrow"@)) by {
                assert(("MetaRight"@)[0] != ("DownArrow"@)[0]);
            };
            assert(("MetaRight"@) != ("LeftArrow"@)) by {
                assert(("MetaRight"@)[0] != ("LeftArrow"@)[0]);
            };
            assert(spec_key_from_name(spec_key_name(Key::MetaRight)) == Option::Some(Key::MetaRight));
        },
        Key::PageDown => {
            assert(("PageDown"@) != ("CapsLock"@)) by {
                assert(("PageDown"@)[0] != ("CapsLock"@)[0]);
            };
            assert(("PageDown"@) != ("MetaLeft"@)) by {
                assert(("PageDown"@)[0] != ("MetaLeft"@)[0]);
            };
            assert(spec_key_from_name(spec_key_name(Key::PageDown)) == Option::Some(Key::PageDown));
        },
        Key::PageUp => {
            assert(("PageUp"@) != ("Delete"@)) by {
                assert(("PageUp"@)[0] != ("Delete"@)[0]);
            };
            assert(("PageUp"@) != ("Escape"@)) by {
                assert(("PageUp"@)[0] != ("Escape"@)[0]);
            };
            assert(spec_key_from_name(spec_key_name(Key::PageUp)) == Option::Some(Key::PageUp));
        },
        Key::Return => {
            assert(("Return"@) != ("Delete"@)) by {
                assert(("Return"@)[0] != ("Delete"@)[0]);
            };
            assert(("Return"@) != ("Escape"@)) by {
                assert(("Return"@)[0] != ("Escape"@)[0]);
            };
            assert(("Return"@) != ("PageUp"@)) by {
                assert(("Return"@)[0] != ("PageUp"@)[0]);
            };
            assert(spec_key_from_name(spec_key_name(Key::Return)) == Option::Some(Key::Return));
        },
        Key::RightArrow => {
            assert(("RightArrow"@).subrange(0, 8) != "Unknown("@) by {
                assert(("RightArrow"@).subrange(0, 8)[0] == 'R');
            };
            assert(spec_key_from_name(spec_key_name(Key::RightArrow)) == Option::Some(Key::RightArrow));
        },
        Key::ShiftLeft => {
            assert(("ShiftLeft"@) != ("Backspace"@)) by {
                assert(("ShiftLeft"@)[0] != ("Backspace"@)[0]);
            };
            assert(("ShiftLeft"@) != ("DownArrow"@)) by {
                assert(("ShiftLeft"@)[0] != ("DownArrow"@)[0]);
            };
            assert(("ShiftLeft"@) != ("LeftArrow"@)) by {
                assert(("ShiftLeft"@)[0] != ("LeftArrow"@)[0]);
            };
            assert(("ShiftLeft"@) != ("MetaRight"@)) by {
                assert(("ShiftLeft"@)[0] != ("MetaRight"@)[0]);
            };
            assert(spec_key_from_name(spec_key_name(Key::ShiftLeft)) == Option::Some(Key::ShiftLeft));
        },
        Key::ShiftRight => {
            assert(("ShiftRight"@).subrange(0, 8) != "Unknown("@) by {
                assert(("ShiftRight"@).subrange(0, 8)[0] == 'S');
            };
            assert(("ShiftRight"@) != ("RightArrow"@)) by {
                assert(("ShiftRight"@)[0] != ("RightArrow"@)[0]);
            };
            assert(spec_key_from_name(spec_key_name(Key::ShiftRight)) == Option::Some(Key::ShiftRight));
        },
        Key::Space => {
            assert(("Space"@) != ("AltGr"@)) by {
                assert(("Space"@)[0] != ("AltGr"@)[0]);
            };
            assert(spec_key_from_name(spec_key_name(Key::Space)) == Option::Some(Key::Space));
        },
        Key::Tab => {
            assert(("Tab"@) != ("Alt"@)) by {
                assert(("Tab"@)[0] != ("Alt"@)[0]);
            };
            assert(("Tab"@) != ("End"@)) by {
                assert(("Tab"@)[0] != ("End"@)[0]);
            };
            assert(("Tab"@) != ("F10"@)) by {
                assert(("Tab"@)[0] != ("F10"@)[0]);
            };
            assert(("Tab"@) != ("F11"@)) by {
                assert(("Tab"@)[0] != ("F11"@)[0]);
            };
            assert(("Tab"@) != ("F12"@)) by {
                assert(("Tab"@)[0] != ("F12"@)[0]);
            };
            assert(spec_key_from_name(spec_key_name(Key::Tab)) == Option::Some(Key::Tab));
        },
        Key::UpArrow => {
            assert(spec_key_from_name(spec_key_name(Key::UpArrow)) == Option::Some(Key::UpArrow));
        },
        Key::PrintScreen => {
            assert(("PrintScreen"@).subrange(0, 8) != "Unknown("@) by {
                assert(("PrintScreen"@).subrange(0, 8)[0] == 'P');
            };
            assert(("PrintScreen"@) != ("ControlLeft"@)) by {
                assert(("PrintScreen"@)[0] != ("ControlLeft"@)[0]);
            };
            assert(spec_key_from_name(spec_key_name(Key::PrintScreen)) == Option::Some(Key::PrintScreen));
        },
        Key::ScrollLock => {
            assert(("ScrollLock"@).subrange(0, 8) != "Unknown("@) by {
                assert(("ScrollLock"@).subrange(0, 8)[0] == 'S');
            };
            assert(("ScrollLock"@) != ("RightArrow"@)) by {
                assert(("ScrollLock"@)[0] != ("RightArrow"@)[0]);
            };
            assert(("ScrollLock"@) != ("ShiftRight"@)) by {
                assert(("ScrollLock"@)[1] != ("ShiftRight"@)[1]);
            };
            assert(spec_key_from_name(spec_key_name(Key::ScrollLock)) == Option::Some(Key::ScrollLock));
        },
        Key::Pause => {
            assert(("Pause"@) != ("AltGr"@)) by {
                assert(("Pause"@)[0] != ("AltGr"@)[0]);
            };
            assert(("Pause"@) != ("Space"@)) by {
                assert(("Pause"@)[0] != ("Space"@)[0]);
            };
            assert(spec_key_from_name(spec_key_name(Key::Pause)) == Option::Some(Key::Pause));
        },
        Key::NumLock => {
            assert(("NumLock"@) != ("UpArrow"@)) by {
                assert(("NumLock"@)[0] != ("UpArrow"@)[0]);
            };
            assert(spec_key_from_name(spec_key_name(Key::NumLock)) == Option::Some(Key::NumLock));
        },
        Key::BackQuote => {
            assert(("BackQuote"@) != ("Backspace"@)) by {
                assert(("BackQuote"@)[4] != ("Backspace"@)[4]);
            };
            assert(("BackQuote"@) != ("DownArrow"@)) by {
                assert(("BackQuote"@)[0] != ("DownArrow"@)[0]);
            };
            assert(("BackQuote"@) != ("LeftArrow"@)) by {
                assert(("BackQuote"@)[0] != ("LeftArrow"@)[0]);
            };
            assert(("BackQuote"@) != ("MetaRight"@)) by {
                assert(("BackQuote"@)[0] != ("MetaRight"@)[0]);
            };
            assert(("BackQuote"@) != ("ShiftLeft"@)) by {
                assert(("BackQuote"@)[0] != ("ShiftLeft"@)[0]);
            };
            assert(spec_key_from_name(spec_key_name(Key::BackQuote)) == Option::Some(Key::BackQuote));
        },
        Key::Num1 => {
            assert(("Num1"@) != ("Home"@)) by {
                assert(("Num1"@)[0] != ("Home"@)[0]);
            };
            assert(spec_key_from_name(spec_key_name(Key::Num1)) == Option::Some(Key::Num1));
        },
        Key::Num2 => {
            assert(("Num2"@) != ("Home"@)) by {
                assert(("Num2"@)[0] != ("Home"@)[0]);
            };
            assert(("Num2"@) != ("Num1"@)) by {
                assert(("Num2"@)[3] != ("Num1"@)[3]);
            };
            assert(spec_key_from_name(spec_key_name(Key::Num2)) == Option::Some(Key::Num2));
        },
        Key::Num3 => {
            assert(("Num3"@) != ("Home"@)) by {
                assert(("Num3"@)[0] != ("Home"@)[0]);
            };
            assert(("Num3"@) != ("Num1"@)) by {
                assert(("Num3"@)[3] != ("Num1"@)[3]);
            };
            assert(("Num3"@) != ("Num2"@)) by {
                assert(("Num3"@)[3] != ("Num2"@)[3]);
            };
            assert(spec_key_from_name(spec_key_name(Key::Num3)) == Option::Some(Key::Num3));
        },
        Key::Num4 => {
            assert(("Num4"@) != ("Home"@)) by {
                assert(("Num4"@)[0] != ("Home"@)[0]);
            };
            assert(("Num4"@) != ("Num1"@)) by {
                assert(("Num4"@)[3] != ("Num1"@)[3]);
            };
            assert(("Num4"@) != ("Num2"@)) by {
                assert(("Num4"@)[3] != ("Num2"@)[3]);
            };
            assert(("Num4"@) != ("Num3"@)) by {
                assert(("Num4"@)[3] != ("Num3"@)[3]);
            };
            assert(spec_key_from_name(spec_key_name(Key::Num4)) == Option::Some(Key::Num4));
        },
        Key::Num5 => {
            assert(("Num5"@) != ("Home"@)) by {
                assert(("Num5"@)[0] != ("Home"@)[0]);
            };
            assert(("Num5"@) != ("Num1"@)) by {
                assert(("Num5"@)[3] != ("Num1"@)[3]);
            };
            assert(("Num5"@) != ("Num2"@)) by {
                assert(("Num5"@)[3] != ("Num2"@)[3]);
            };
            assert(("Num5"@) != ("Num3"@)) by {
                assert(("Num5"@)[3] != ("Num3"@)[3]);
            };
            assert(("Num5"@) != ("Num4"@)) by {
                assert(("Num5"@)[3] != ("Num4"@)[3]);
            };
            assert(spec_key_from_name(spec_key_name(Key::Num5)) == Option::Some(Key::Num5));
        },
        Key::Num6 => {
            assert(("Num6"@) != ("Home"@)) by {
                assert(("Num6"@)[0] != ("Home"@)[0]);
            };
            assert(("Num6"@) != ("Num1"@)) by {
                assert(("Num6"@)[3] != ("Num1"@)[3]);
            };
            assert(("Num6"@) != ("Num2"@)) by {
                assert(("Num6"@)[3] != ("Num2"@)[3]);
            };
            assert(("Num6"@) != ("Num3"@)) by {
                assert(("Num6"@)[3] != ("Num3"@)[3]);
            };
            assert(("Num6"@) != ("Num4"@)) by {
                assert(("Num6"@)[3] != ("Num4"@)[3]);
            };
            assert(("Num6"@) != ("Num5"@)) by {
                assert(("Num6"@)[3] != ("Num5"@)[3]);
            };
            assert(spec_key_from_name(spec_key_name(Key::Num6)) == Option::Some(Key::Num6));
        },
        Key::Num7 => {
            assert(("Num7"@) != ("Home"@)) by {
                assert(("Num7"@)[0] != ("Home"@)[0]);
            };
            assert(("Num7"@) != ("Num1"@)) by {
                assert(("Num7"@)[3] != ("Num1"@)[3]);
            };
            assert(("Num7"@) != ("Num2"@)) by {
                assert(("Num7"@)[3] != ("Num2"@)[3]);
            };
            assert(("Num7"@) != ("Num3"@)) by {
                assert(("Num7"@)[3] != ("Num3"@)[3]);
            };
            assert(("Num7"@) != ("Num4"@)) by {
                assert(("Num7"@)[3] != ("Num4"@)[3]);
            };
            assert(("Num7"@) != ("Num5"@)) by {
                assert(("Num7"@)[3] != ("Num5"@)[3]);
            };
            assert(("Num7"@) != ("Num6"@)) by {
                assert(("Num7"@)[3] != ("Num6"@)[3]);
            };
            assert(spec_key_from_name(spec_key_name(Key::Num7)) == Option::Some(Key::Num7));
        },
        Key::Num8 => {
            assert(("Num8"@) != ("Home"@)) by {
                assert(("Num8"@)[0] != ("Home"@)[0]);
            };
            assert(("Num8"@) != ("Num1"@)) by {
                assert(("Num8"@)[3] != ("Num1"@)[3]);
            };
            assert(("Num8"@) != ("Num2"@)) by {
                assert(("Num8"@)[3] != ("Num2"@)[3]);
            };
            assert(("Num8"@) != ("Num3"@)) by {
                assert(("Num8"@)[3] != ("Num3"@)[3]);
            };
            assert(("Num8"@) != ("Num4"@)) by {
                assert(("Num8"@)[3] != ("Num4"@)[3]);
            };
            assert(("Num8"@) != ("Num5"@)) by {
                assert(("Num8"@)[3] != ("Num5"@)[3]);
            };
            assert(("Num8"@) != ("Num6"@)) by {
                assert(("Num8"@)[3] != ("Num6"@)[3]);
            };
            assert(("Num8"@) != ("Num7"@)) by {
                assert(("Num8"@)[3] != ("Num7"@)[3]);
            };
            assert(spec_key_from_name(spec_key_name(Key::Num8)) == Option::Some(Key::Num8));
        },
        Key::Num9 => {
            assert(("Num9"@) != ("Home"@)) by {
                assert(("Num9"@)[0] != ("Home"@)[0]);
            };
            assert(("Num9"@) != ("Num1"@)) by {
                assert(("Num9"@)[3] != ("Num1"@)[3]);
            };
            assert(("Num9"@) != ("Num2"@)) by {
                assert(("Num9"@)[3] != ("Num2"@)[3]);
            };
            assert(("Num9"@) != ("Num3"@)) by {
                assert(("Num9"@)[3] != ("Num3"@)[3]);
            };
            assert(("Num9"@) != ("Num4"@)) by {
                assert(("Num9"@)[3] != ("Num4"@)[3]);
            };
            assert(("Num9"@) != ("Num5"@)) by {
                assert(("Num9"@)[3] != ("Num5"@)[3]);
            };
            assert(("Num9"@) != ("Num6"@)) by {
                assert(("Num9"@)[3] != ("Num6"@)[3]);
            };
            assert(("Num9"@) != ("Num7"@)) by {
                assert(("Num9"@)[3] != ("Num7"@)[3]);
            };
            assert(("Num9"@) != ("Num8"@)) by {
                assert(("Num9"@)[3] != ("Num8"@)[3]);
            };
            assert(spec_key_from_name(spec_key_name(Key::Num9)) == Option::Some(Key::Num9));
        },
        Key::Num0 => {
            assert(("Num0"@) != ("Home"@)) by {
                assert(("Num0"@)[0] != ("Home"@)[0]);
            };
            assert(("Num0"@) != ("Num1"@)) by {
                assert(("Num0"@)[3] != ("Num1"@)[3]);
            };
            assert(("Num0"@) != ("Num2"@)) by {
                assert(("Num0"@)[3] != ("Num2"@)[3]);
            };
            assert(("Num0"@) != ("Num3"@)) by {
                assert(("Num0"@)[3] != ("Num3"@)[3]);
            };
            assert(("Num0"@) != ("Num4"@)) by {
                assert(("Num0"@)[3] != ("Num4"@)[3]);
            };
            assert(("Num0"@) != ("Num5"@)) by {
                assert(("Num0"@)[3] != ("Num5"@)[3]);
            };
            assert(("Num0"@) != ("Num6"@)) by {
                assert(("Num0"@)[3] != ("Num6"@)[3]);
            };
            assert(("Num0"@) != ("Num7"@)) by {
                assert(("Num0"@)[3] != ("Num7"@)[3]);
            };
            assert(("Num0"@) != ("Num8"@)) by {
                assert(("Num0"@)[3] != ("Num8"@)[3]);
            };
            assert(("Num0"@) != ("Num9"@)) by {
                assert(("Num0"@)[3] != ("Num9"@)[3]);
            };
            assert(spec_key_from_name(spec_key_name(Key::Num0)) == Option::Some(Key::Num0));
        },
        Key::Minus => {
            assert(("Minus"@) != ("AltGr"@)) by {
                assert(("Minus"@)[0] != ("AltGr"@)[0]);
            };
            assert(("Minus"@) != ("Space"@)) by {
                assert(("Minus"@)[0] != ("Space"@)[0]);
            };
            assert(("Minus"@) != ("Pause"@)) by {
                assert(("Minus"@)[0] != ("Pause"@)[0]);
            };
            assert(spec_key_from_name(spec_key_name(Key::Minus)) == Option::Some(Key::Minus));
        },
        Key::Equal => {
            assert(("Equal"@) != ("AltGr"@)) by {
                assert(("Equal"@)[0] != ("AltGr"@)[0]);
            };
            assert(("Equal"@) != ("Space"@)) by {
                assert(("Equal"@)[0] != ("Space"@)[0]);
            };
            assert(("Equal"@) != ("Pause"@)) by {
                assert(("Equal"@)[0] != ("Pause"@)[0]);
            };
            assert(("Equal"@) != ("Minus"@)) by {
                assert(("Equal"@)[0] != ("Minus"@)[0]);
            };
            assert(spec_key_from_name(spec_key_name(Key::Equal)) == Option::Some(Key::Equal));
        },
        Key::KeyQ => {
            assert(spec_key_from_name(spec_key_name(Key::KeyQ)) == Option::Some(Key::KeyQ));
        },
        Key::KeyW => {
            assert(("W"@) != ("Q"@)) by {
                assert(("W"@)[0] != ("Q"@)[0]);
            };
            assert(spec_key_from_name(spec_key_name(Key::KeyW)) == Option::Some(Key::KeyW));
        },
        Key::KeyE => {
            assert(("E"@) != ("Q"@)) by {
                assert(("E"@)[0] != ("Q"@)[0]);
            };
            assert(("E"@) != ("W"@)) by {
                assert(("E"@)[0] != ("W"@)[0]);
            };
            assert(spec_key_from_name(spec_key_name(Key::KeyE)) == Option::Some(Key::KeyE));
        },
        Key::KeyR => {
            assert(("R"@) != ("Q"@)) by {
                assert(("R"@)[0] != ("Q"@)[0]);
            };
            assert(("R"@) != ("W"@)) by {
                assert(("R"@)[0] != ("W"@)[0]);
            };
            assert(("R"@) != ("E"@)) by {
                assert(("R"@)[0] != ("E"@)[0]);
            };
            assert(spec_key_from_name(spec_key_name(Key::KeyR)) == Option::Some(Key::KeyR));
        },
        Key::KeyT => {
            assert(("T"@) != ("Q"@)) by {
                assert(("T"@)[0] != ("Q"@)[0]);
            };
            assert(("T"@) != ("W"@)) by {
                assert(("T"@)[0] != ("W"@)[0]);
            };
            assert(("T"@) != ("E"@)) by {
                assert(("T"@)[0] != ("E"@)[0]);
            };
            assert(("T"@) != ("R"@)) by {
                assert(("T"@)[0] != ("R"@)[0]);
            };
            assert(spec_key_from_name(spec_key_name(Key::KeyT)) == Option::Some(Key::KeyT));
        },
        Key::KeyY => {
            assert(("Y"@) != ("Q"@)) by {
                assert(("Y"@)[0] != ("Q"@)[0]);
            };
            assert(("Y"@) != ("W"@)) by {
                assert(("Y"@)[0] != ("W"@)[0]);
            };
            assert(("Y"@) != ("E"@)) by {
                assert(("Y"@)[0] != ("E"@)[0]);
            };
            assert(("Y"@) != ("R"@)) by {
                assert(("Y"@)[0] != ("R"@)[0]);
            };
            assert(("Y"@) != ("T"@)) by {
                assert(("Y"@)[0] != ("T"@)[0]);
            };
            assert(spec_key_from_name(spec_key_name(Key::KeyY)) == Option::Some(Key::KeyY));
        },
        Key::KeyU => {
            assert(("U"@) != ("Q"@)) by {
                assert(("U"@)[0] != ("Q"@)[0]);
            };
            assert(("U"@) != ("W"@)) by {
                assert(("U"@)[0] != ("W"@)[0]);
            };
            assert(("U"@) != ("E"@)) by {
                assert(("U"@)[0] != ("E"@)[0]);
            };
            assert(("U"@) != ("R"@)) by {
                assert(("U"@)[0] != ("R"@)[0]);
            };
            assert(("U"@) != ("T"@)) by {
                assert(("U"@)[0] != ("T"@)[0]);
            };
            assert(("U"@) != ("Y"@)) by {
                assert(("U"@)[0] != ("Y"@)[0]);
            };
            assert(spec_key_from_name(spec_key_name(Key::KeyU)) == Option::Some(Key::KeyU));
        },
        Key::KeyI => {
            assert(("I"@) != ("Q"@)) by {
                assert(("I"@)[0] != ("Q"@)[0]);
            };
            assert(("I"@) != ("W"@)) by {
                assert(("I"@)[0] != ("W"@)[0]);
            };
            assert(("I"@) != ("E"@)) by {
                assert(("I"@)[0] != ("E"@)[0]);
            };
            assert(("I"@) != ("R"@)) by {
                assert(("I"@)[0] != ("R"@)[0]);
            };
            assert(("I"@) != ("T"@)) by {
                assert(("I"@)[0] != ("T"@)[0]);
            };
            assert(("I"@) != ("Y"@)) by {
                assert(("I"@)[0] != ("Y"@)[0]);
            };
            assert(("I"@) != ("U"@)) by {
                assert(("I"@)[0] != ("U"@)[0]);
            };
            assert(spec_key_from_name(spec_key_name(Key::KeyI)) == Option::Some(Key::KeyI));
        },
        Key::KeyO => {
            assert(("O"@) != ("Q"@)) by {
                assert(("O"@)[0] != ("Q"@)[0]);
            };
            assert(("O"@) != ("W"@)) by {
                assert(("O"@)[0] != ("W"@)[0]);
            };
            assert(("O"@) != ("E"@)) by {
                assert(("O"@)[0] != ("E"@)[0]);
            };
            assert(("O"@) != ("R"@)) by {
                assert(("O"@)[0] != ("R"@)[0]);
            };
            assert(("O"@) != ("T"@)) by {
                assert(("O"@)[0] != ("T"@)[0]);
            };
            assert(("O"@) != ("Y"@)) by {
                assert(("O"@)[0] != ("Y"@)[0]);
            };
            assert(("O"@) != ("U"@)) by {
                assert(("O"@)[0] != ("U"@)[0]);
            };
            assert(("O"@) != ("I"@)) by {
                assert(("O"@)[0] != ("I"@)[0]);
            };
            assert(spec_key_from_name(spec_key_name(Key::KeyO)) == Option::Some(Key::KeyO));
        },
        Key::KeyP => {
            assert(("P"@) != ("Q"@)) by {
                assert(("P"@)[0] != ("Q"@)[0]);
            };
            assert(("P"@) != ("W"@)) by {
                assert(("P"@)[0] != ("W"@)[0]);
            };
            assert(("P"@) != ("E"@)) by {
                assert(("P"@)[0] != ("E"@)[0]);
            };
            assert(("P"@) != ("R"@)) by {
                assert(("P"@)[0] != ("R"@)[0]);
            };
            assert(("P"@) != ("T"@)) by {
                assert(("P"@)[0] != ("T"@)[0]);
            };
            assert(("P"@) != ("Y"@)) by {
                assert(("P"@)[0] != ("Y"@)[0]);
            };
            assert(("P"@) != ("U"@)) by {
                assert(("P"@)[0] != ("U"@)[0]);
            };
            assert(("P"@) != ("I"@)) by {
                assert(("P"@)[0] != ("I"@)[0]);
            };
            assert(("P"@) != ("O"@)) by {
                assert(("P"@)[0] != ("O"@)[0]);
            };
            assert(spec_key_from_name(spec_key_name(Key::KeyP)) == Option::Some(Key::KeyP));
        },
        Key::LeftBracket => {
            assert(("LeftBracket"@).subrange(0, 8) != "Unknown("@) by {
                assert(("LeftBracket"@).subrange(0, 8)[0] == 'L');
            };
            assert(("LeftBracket"@) != ("ControlLeft"@)) by {
                assert(("LeftBracket"@)[0] != ("ControlLeft"@)[0]);
            };
            assert(("LeftBracket"@) != ("PrintScreen"@)) by {
                assert(("LeftBracket"@)[0] != ("PrintScreen"@)[0]);
            };
            assert(spec_key_from_name(spec_key_name(Key::LeftBracket)) == Option::Some(Key::LeftBracket));
        },
        Key::RightBracket => {
            assert(("RightBracket"@).subrange(0, 8) != "Unknown("@) by {
                assert(("RightBracket"@).subrange(0, 8)[0] == 'R');
            };
            assert(("RightBracket"@) != ("ControlRight"@)) by {
                assert(("RightBracket"@)[0] != ("ControlRight"@)[0]);
            };
            assert(spec_key_from_name(spec_key_name(Key::RightBracket)) == Option::Some(Key::RightBracket));
        },
        Key::KeyA => {
            assert(("A"@) != ("Q"@)) by {
                assert(("A"@)[0] != ("Q"@)[0]);
            };
            assert(("A"@) != ("W"@)) by {
                assert(("A"@)[0] != ("W"@)[0]);
            };
            assert(("A"@) != ("E"@)) by {
                assert(("A"@)[0] != ("E"@)[0]);
            };
            assert(("A"@) != ("R"@)) by {
                assert(("A"@)[0] != ("R"@)[0]);
            };
            assert(("A"@) != ("T"@)) by {
                assert(("A"@)[0] != ("T"@)[0]);
            };
            assert(("A"@) != ("Y"@)) by {
                assert(("A"@)[0] != ("Y"@)[0]);
            };
            assert(("A"@) != ("U"@)) by {
                assert(("A"@)[0] != ("U"@)[0]);
            };
            assert(("A"@) != ("I"@)) by {
                assert(("A"@)[0] != ("I"@)[0]);
            };
            assert(("A"@) != ("O"@)) by {
                assert(("A"@)[0] != ("O"@)[0]);
            };
            assert(("A"@) != ("P"@)) by {
                assert(("A"@)[0] != ("P"@)[0]);
            };
            assert(spec_key_from_name(spec_key_name(Key::KeyA)) == Option::Some(Key::KeyA));
        },
        Key::KeyS => {
            assert(("S"@) != ("Q"@)) by {
                assert(("S"@)[0] != ("Q"@)[0]);
            };
            assert(("S"@) != ("W"@)) by {
                assert(("S"@)[0] != ("W"@)[0]);
            };
            assert(("S"@) != ("E"@)) by {
                assert(("S"@)[0] != ("E"@)[0]);
            };
            assert(("S"@) != ("R"@)) by {
                assert(("S"@)[0] != ("R"@)[0]);
            };
            assert(("S"@) != ("T"@)) by {
                assert(("S"@)[0] != ("T"@)[0]);
            };
            assert(("S"@) != ("Y"@)) by {
                assert(("S"@)[0] != ("Y"@)[0]);
            };
            assert(("S"@) != ("U"@)) by {
                assert(("S"@)[0] != ("U"@)[0]);
            };
            assert(("S"@) != ("I"@)) by {
                assert(("S"@)[0] != ("I"@)[0]);
            };
            assert(("S"@) != ("O"@)) by {
                assert(("S"@)[0] != ("O"@)[0]);
            };
            assert(("S"@) != ("P"@)) by {
                assert(("S"@)[0] != ("P"@)[0]);
            };
            assert(("S"@) != ("A"@)) by {
                assert(("S"@)[0] != ("A"@)[0]);
            };
            assert(spec_key_from_name(spec_key_name(Key::KeyS)) == Option::Some(Key::KeyS));
        },
        Key::KeyD => {
            assert(("D"@) != ("Q"@)) by {
                assert(("D"@)[0] != ("Q"@)[0]);
            };
            assert(("D"@) != ("W"@)) by {
                assert(("D"@)[0] != ("W"@)[0]);
            };
            assert(("D"@) != ("E"@)) by {
                assert(("D"@)[0] != ("E"@)[0]);
            };
            assert(("D"@) != ("R"@)) by {
                assert(("D"@)[0] != ("R"@)[0]);
            };
            assert(("D"@) != ("T"@)) by {
                assert(("D"@)[0] != ("T"@)[0]);
            };
            assert(("D"@) != ("Y"@)) by {
                assert(("D"@)[0] != ("Y"@)[0]);
            };
            assert(("D"@) != ("U"@)) by {
                assert(("D"@)[0] != ("U"@)[0]);
            };
            assert(("D"@) != ("I"@)) by {
                assert(("D"@)[0] != ("I"@)[0]);
            };
            assert(("D"@) != ("O"@)) by {
                assert(("D"@)[0] != ("O"@)[0]);
            };
            assert(("D"@) != ("P"@)) by {
                assert(("D"@)[0] != ("P"@)[0]);
            };
            assert(("D"@) != ("A"@)) by {
                assert(("D"@)[0] != ("A"@)[0]);
            };
            assert(("D"@) != ("S"@)) by {
                assert(("D"@)[0] != ("S"@)[0]);
            };
            assert(spec_key_from_name(spec_key_name(Key::KeyD)) == Option::Some(Key::KeyD));
        },
        Key::KeyF => {
            assert(("F"@) != ("Q"@)) by {
                assert(("F"@)[0] != ("Q"@)[0]);
            };
            assert(("F"@) != ("W"@)) by {
                assert(("F"@)[0] != ("W"@)[0]);
            };
            assert(("F"@) != ("E"@)) by {
                assert(("F"@)[0] != ("E"@)[0]);
            };
            assert(("F"@) != ("R"@)) by {
                assert(("F"@)[0] != ("R"@)[0]);
            };
            assert(("F"@) != ("T"@)) by {
                assert(("F"@)[0] != ("T"@)[0]);
            };
            assert(("F"@) != ("Y"@)) by {
                assert(("F"@)[0] != ("Y"@)[0]);
            };
            assert(("F"@) != ("U"@)) by {
                assert(("F"@)[0] != ("U"@)[0]);
            };
            assert(("F"@) != ("I"@)) by {
                assert(("F"@)[0] != ("I"@)[0]);
            };
            assert(("F"@) != ("O"@)) by {
                assert(("F"@)[0] != ("O"@)[0]);
            };
            assert(("F"@) != ("P"@)) by {
                assert(("F"@)[0] != ("P"@)[0]);
            };
            assert(("F"@) != ("A"@)) by {
                assert(("F"@)[0] != ("A"@)[0]);
            };
            assert(("F"@) != ("S"@)) by {
                assert(("F"@)[0] != ("S"@)[0]);
            };
            assert(("F"@) != ("D"@)) by {
                assert(("F"@)[0] != ("D"@)[0]);
            };
            assert(spec_key_from_name(spec_key_name(Key::KeyF)) == Option::Some(Key::KeyF));
        },
        Key::KeyG => {
            assert(("G"@) != ("Q"@)) by {
                assert(("G"@)[0] != ("Q"@)[0]);
            };
            assert(("G"@) != ("W"@)) by {
                assert(("G"@)[0] != ("W"@)[0]);
            };
            assert(("G"@) != ("E"@)) by {
                assert(("G"@)[0] != ("E"@)[0]);
            };
            assert(("G"@) != ("R"@)) by {
                assert(("G"@)[0] != ("R"@)[0]);
            };
            assert(("G"@) != ("T"@)) by {
                assert(("G"@)[0] != ("T"@)[0]);
            };
            assert(("G"@) != ("Y"@)) by {
                assert(("G"@)[0] != ("Y"@)[0]);
            };
            assert(("G"@) != ("U"@)) by {
                assert(("G"@)[0] != ("U"@)[0]);
            };
            assert(("G"@) != ("I"@)) by {
                assert(("G"@)[0] != ("I"@)[0]);
            };
            assert(("G"@) != ("O"@)) by {
                assert(("G"@)[0] != ("O"@)[0]);
            };
            assert(("G"@) != ("P"@)) by {
                assert(("G"@)[0] != ("P"@)[0]);
            };
            assert(("G"@) != ("A"@)) by {
                assert(("G"@)[0] != ("A"@)[0]);
            };
            assert(("G"@) != ("S"@)) by {
                assert(("G"@)[0] != ("S"@)[0]);
            };
            assert(("G"@) != ("D"@)) by {
                assert(("G"@)[0] != ("D"@)[0]);
            };
            assert(("G"@) != ("F"@)) by {
                assert(("G"@)[0] != ("F"@)[0]);
            };
            assert(spec_key_from_name(spec_key_name(Key::KeyG)) == Option::Some(Key::KeyG));
        },
        Key::KeyH => {
            assert(("H"@) != ("Q"@)) by {
                assert(("H"@)[0] != ("Q"@)[0]);
            };
            assert(("H"@) != ("W"@)) by {
                assert(("H"@)[0] != ("W"@)[0]);
            };
            assert(("H"@) != ("E"@)) by {
                assert(("H"@)[0] != ("E"@)[0]);
            };
            assert(("H"@) != ("R"@)) by {
                assert(("H"@)[0] != ("R"@)[0]);
            };
            assert(("H"@) != ("T"@)) by {
                assert(("H"@)[0] != ("T"@)[0]);
            };
            assert(("H"@) != ("Y"@)) by {
                assert(("H"@)[0] != ("Y"@)[0]);
            };
            assert(("H"@) != ("U"@)) by {
                assert(("H"@)[0] != ("U"@)[0]);
            };
            assert(("H"@) != ("I"@)) by {
                assert(("H"@)[0] != ("I"@)[0]);
            };
            assert(("H"@) != ("O"@)) by {
                assert(("H"@)[0] != ("O"@)[0]);
            };
            assert(("H"@) != ("P"@)) by {
                assert(("H"@)[0] != ("P"@)[0]);
            };
            assert(("H"@) != ("A"@)) by {
                assert(("H"@)[0] != ("A"@)[0]);
            };
            assert(("H"@) != ("S"@)) by {
                assert(("H"@)[0] != ("S"@)[0]);
            };
            assert(("H"@) != ("D"@)) by {
                assert(("H"@)[0] != ("D"@)[0]);
            };
            assert(("H"@) != ("F"@)) by {
                assert(("H"@)[0] != ("F"@)[0]);
            };
            assert(("H"@) != ("G"@)) by {
                assert(("H"@)[0] != ("G"@)[0]);
            };
            assert(spec_key_from_name(spec_key_name(Key::KeyH)) == Option::Some(Key::KeyH));
        },
        Key::KeyJ => {
            assert(("J"@) != ("Q"@)) by {
                assert(("J"@)[0] != ("Q"@)[0]);
            };
            assert(("J"@) != ("W"@)) by {
                assert(("J"@)[0] != ("W"@)[0]);
            };
            assert(("J"@) != ("E"@)) by {
                assert(("J"@)[0] != ("E"@)[0]);
            };
            assert(("J"@) != ("R"@)) by {
                assert(("J"@)[0] != ("R"@)[0]);
            };
            assert(("J"@) != ("T"@)) by {
                assert(("J"@)[0] != ("T"@)[0]);
            };
            assert(("J"@) != ("Y"@)) by {
                assert(("J"@)[0] != ("Y"@)[0]);
            };
            assert(("J"@) != ("U"@)) by {
                assert(("J"@)[0] != ("U"@)[0]);
            };
            assert(("J"@) != ("I"@)) by {
                assert(("J"@)[0] != ("I"@)[0]);
            };
            assert(("J"@) != ("O"@)) by {
                assert(("J"@)[0] != ("O"@)[0]);
            };
            assert(("J"@) != ("P"@)) by {
                assert(("J"@)[0] != ("P"@)[0]);
            };
            assert(("J"@) != ("A"@)) by {
                assert(("J"@)[0] != ("A"@)[0]);
            };
            assert(("J"@) != ("S"@)) by {
                assert(("J"@)[0] != ("S"@)[0]);
            };
            assert(("J"@) != ("D"@)) by {
                assert(("J"@)[0] != ("D"@)[0]);
            };
            assert(("J"@) != ("F"@)) by {
                assert(("J"@)[0] != ("F"@)[0]);
            };
            assert(("J"@) != ("G"@)) by {
                assert(("J"@)[0] != ("G"@)[0]);
            };
            assert(("J"@) != ("H"@)) by {
                assert(("J"@)[0] != ("H"@)[0]);
            };
            assert(spec_key_from_name(spec_key_name(Key::KeyJ)) == Option::Some(Key::KeyJ));
        },
        Key::KeyK => {
            assert(("K"@) != ("Q"@)) by {
                assert(("K"@)[0] != ("Q"@)[0]);
            };
            assert(("K"@) != ("W"@)) by {
                assert(("K"@)[0] != ("W"@)[0]);
            };
            assert(("K"@) != ("E"@)) by {
                assert(("K"@)[0] != ("E"@)[0]);
            };
            assert(("K"@) != ("R"@)) by {
                assert(("K"@)[0] != ("R"@)[0]);
            };
            assert(("K"@) != ("T"@)) by {
                assert(("K"@)[0] != ("T"@)[0]);
            };
            assert(("K"@) != ("Y"@)) by {
                assert(("K"@)[0] != ("Y"@)[0]);
            };
            assert(("K"@) != ("U"@)) by {
                assert(("K"@)[0] != ("U"@)[0]);
            };
            assert(("K"@) != ("I"@)) by {
                assert(("K"@)[0] != ("I"@)[0]);
            };
            assert(("K"@) != ("O"@)) by {
                assert(("K"@)[0] != ("O"@)[0]);
            };
            assert(("K"@) != ("P"@)) by {
                assert(("K"@)[0] != ("P"@)[0]);
            };
            assert(("K"@) != ("A"@)) by {
                assert(("K"@)[0] != ("A"@)[0]);
            };
            assert(("K"@) != ("S"@)) by {
                assert(("K"@)[0] != ("S"@)[0]);
            };
            assert(("K"@) != ("D"@)) by {
                assert(("K"@)[0] != ("D"@)[0]);
            };
            assert(("K"@) != ("F"@)) by {
                assert(("K"@)[0] != ("F"@)[0]);
            };
            assert(("K"@) != ("G"@)) by {
                assert(("K"@)[0] != ("G"@)[0]);
            };
            assert(("K"@) != ("H"@)) by {
                assert(("K"@)[0] != ("H"@)[0]);
            };
            assert(("K"@) != ("J"@)) by {
                assert(("K"@)[0] != ("J"@)[0]);
            };
            assert(spec_key_from_name(spec_key_name(Key::KeyK)) == Option::Some(Key::KeyK));
        },
        Key::KeyL => {
            assert(("L"@) != ("Q"@)) by {
                assert(("L"@)[0] != ("Q"@)[0]);
            };
            assert(("L"@) != ("W"@)) by {
                assert(("L"@)[0] != ("W"@)[0]);
            };
            assert(("L"@) != ("E"@)) by {
                assert(("L"@)[0] != ("E"@)[0]);
            };
            assert(("L"@) != ("R"@)) by {
                assert(("L"@)[0] != ("R"@)[0]);
            };
            assert(("L"@) != ("T"@)) by {
                assert(("L"@)[0] != ("T"@)[0]);
            };
            assert(("L"@) != ("Y"@)) by {
                assert(("L"@)[0] != ("Y"@)[0]);
            };
            assert(("L"@) != ("U"@)) by {
                assert(("L"@)[0] != ("U"@)[0]);
            };
            assert(("L"@) != ("I"@)) by {
                assert(("L"@)[0] != ("I"@)[0]);
            };
            assert(("L"@) != ("O"@)) by {
                assert(("L"@)[0] != ("O"@)[0]);
            };
            assert(("L"@) != ("P"@)) by {
                assert(("L"@)[0] != ("P"@)[0]);
            };
            assert(("L"@) != ("A"@)) by {
                assert(("L"@)[0] != ("A"@)[0]);
            };
            assert(("L"@) != ("S"@)) by {
                assert(("L"@)[0] != ("S"@)[0]);
            };
            assert(("L"@) != ("D"@)) by {
                assert(("L"@)[0] != ("D"@)[0]);
            };
            assert(("L"@) != ("F"@)) by {
                assert(("L"@)[0] != ("F"@)[0]);
            };
            assert(("L"@) != ("G"@)) by {
                assert(("L"@)[0] != ("G"@)[0]);
            };
            assert(("L"@) != ("H"@)) by {
                assert(("L"@)[0] != ("H"@)[0]);
            };
            assert(("L"@) != ("J"@)) by {
                assert(("L"@)[0] != ("J"@)[0]);
            };
            assert(("L"@) != ("K"@)) by {
                assert(("L"@)[0] != ("K"@)[0]);
            };
            assert(spec_key_from_name(spec_key_name(Key::KeyL)) == Option::Some(Key::KeyL));
        },
        Key::SemiColon => {
            assert(("SemiColon"@) != ("Backspace"@)) by {
                assert(("SemiColon"@)[0] != ("Backspace"@)[0]);
            };
            assert(("SemiColon"@) != ("DownArrow"@)) by {
                assert(("SemiColon"@)[0] != ("DownArrow"@)[0]);
            };
            assert(("SemiColon"@) != ("LeftArrow"@)) by {
                assert(("SemiColon"@)[0] != ("LeftArrow"@)[0]);
            };
            assert(("SemiColon"@) != ("MetaRight"@)) by {
                assert(("SemiColon"@)[0] != ("MetaRight"@)[0]);
            };
            assert(("SemiColon"@) != ("ShiftLeft"@)) by {
                assert(("SemiColon"@)[1] != ("ShiftLeft"@)[1]);
            };
            assert(("SemiColon"@) != ("BackQuote"@)) by {
                assert(("SemiColon"@)[0] != ("BackQuote"@)[0]);
            };
            assert(spec_key_from_name(spec_key_name(Key::SemiColon)) == Option::Some(Key::SemiColon));
        },
        Key::Quote => {
            assert(("Quote"@) != ("AltGr"@)) by {
                assert(("Quote"@)[0] != ("AltGr"@)[0]);
            };
            assert(("Quote"@) != ("Space"@)) by {
                assert(("Quote"@)[0] != ("Space"@)[0]);
            };
            assert(("Quote"@) != ("Pause"@)) by {
                assert(("Quote"@)[0] != ("Pause"@)[0]);
            };
            assert(("Quote"@) != ("Minus"@)) by {
                assert(("Quote"@)[0] != ("Minus"@)[0]);
            };
            assert(("Quote"@) != ("Equal"@)) by {
                assert(("Quote"@)[0] != ("Equal"@)[0]);
            };
            assert(spec_key_from_name(spec_key_name(Key::Quote)) == Option::Some(Key::Quote));
        },
        Key::BackSlash => {
            assert(("BackSlash"@) != ("Backspace"@)) by {
                assert(("BackSlash"@)[4] != ("Backspace"@)[4]);
            };
            assert(("BackSlash"@) != ("DownArrow"@)) by {
                assert(("BackSlash"@)[0] != ("DownArrow"@)[0]);
            };
            assert(("BackSlash"@) != ("LeftArrow"@)) by {
                assert(("BackSlash"@)[0] != ("LeftArrow"@)[0]);
            };
            assert(("BackSlash"@) != ("MetaRight"@)) by {
                assert(("BackSlash"@)[0] != ("MetaRight"@)[0]);
            };
            assert(("BackSlash"@) != ("ShiftLeft"@)) by {
                assert(("BackSlash"@)[0] != ("ShiftLeft"@)[0]);
            };
            assert(("BackSlash"@) != ("BackQuote"@)) by {
                assert(("BackSlash"@)[4] != ("BackQuote"@)[4]);
            };
            assert(("BackSlash"@) != ("SemiColon"@)) by {
                assert(("BackSlash"@)[0] != ("SemiColon"@)[0]);
            };
            assert(spec_key_from_name(spec_key_name(Key::BackSlash)) == Option::Some(Key::BackSlash));
        },
        Key::IntlBackslash => {
            assert(("IntlBackslash"@).subrange(0, 8) != "Unknown("@) by {
                assert(("IntlBackslash"@).subrange(0, 8)[0] == 'I');
            };
            assert(spec_key_from_name(spec_key_name(Key::IntlBackslash)) == Option::Some(Key::IntlBackslash));
        },
        Key::KeyZ => {
            assert(("Z"@) != ("Q"@)) by {
                assert(("Z"@)[0] != ("Q"@)[0]);
            };
            assert(("Z"@) != ("W"@)) by {
                assert(("Z"@)[0] != ("W"@)[0]);
            };
            assert(("Z"@) != ("E"@)) by {
                assert(("Z"@)[0] != ("E"@)[0]);
            };
            assert(("Z"@) != ("R"@)) by {
                assert(("Z"@)[0] != ("R"@)[0]);
            };
            assert(("Z"@) != ("T"@)) by {
                assert(("Z"@)[0] != ("T"@)[0]);
            };
            assert(("Z"@) != ("Y"@)) by {
                assert(("Z"@)[0] != ("Y"@)[0]);
            };
            assert(("Z"@) != ("U"@)) by {
                assert(("Z"@)[0] != ("U"@)[0]);
            };
            assert(("Z"@) != ("I"@)) by {
                assert(("Z"@)[0] != ("I"@)[0]);
            };
            assert(("Z"@) != ("O"@)) by {
                assert(("Z"@)[0] != ("O"@)[0]);
            };
            assert(("Z"@) != ("P"@)) by {
                assert(("Z"@)[0] != ("P"@)[0]);
            };
            assert(("Z"@) != ("A"@)) by {
                assert(("Z"@)[0] != ("A"@)[0]);
            };
            assert(("Z"@) != ("S"@)) by {
                assert(("Z"@)[0] != ("S"@)[0]);
            };
            assert(("Z"@) != ("D"@)) by {
                assert(("Z"@)[0] != ("D"@)[0]);
            };
            assert(("Z"@) != ("F"@)) by {
                assert(("Z"@)[0] != ("F"@)[0]);
            };
            assert(("Z"@) != ("G"@)) by {
                assert(("Z"@)[0] != ("G"@)[0]);
            };
            assert(("Z"@) != ("H"@)) by {
                assert(("Z"@)[0] != ("H"@)[0]);
            };
            assert(("Z"@) != ("J"@)) by {
                assert(("Z"@)[0] != ("J"@)[0]);
            };
            assert(("Z"@) != ("K"@)) by {
                assert(("Z"@)[0] != ("K"@)[0]);
            };
            assert(("Z"@) != ("L"@)) by {
                assert(("Z"@)[0] != ("L"@)[0]);
            };
            assert(spec_key_from_name(spec_key_name(Key::KeyZ)) == Option::Some(Key::KeyZ));
        },
        Key::KeyX => {
            assert(("X"@) != ("Q"@)) by {
                assert(("X"@)[0] != ("Q"@)[0]);
            };
            assert(("X"@) != ("W"@)) by {
                assert(("X"@)[0] != ("W"@)[0]);
            };
            assert(("X"@) != ("E"@)) by {
                assert(("X"@)[0] != ("E"@)[0]);
            };
            assert(("X"@) != ("R"@)) by {
                assert(("X"@)[0] != ("R"@)[0]);
            };
            assert(("X"@) != ("T"@)) by {
                assert(("X"@)[0] != ("T"@)[0]);
            };
            assert(("X"@) != ("Y"@)) by {
                assert(("X"@)[0] != ("Y"@)[0]);
            };
            assert(("X"@) != ("U"@)) by {
                assert(("X"@)[0] != ("U"@)[0]);
            };
            assert(("X"@) != ("I"@)) by {
                assert(("X"@)[0] != ("I"@)[0]);
            };
            assert(("X"@) != ("O"@)) by {
                assert(("X"@)[0] != ("O"@)[0]);
            };
            assert(("X"@) != ("P"@)) by {
                assert(("X"@)[0] != ("P"@)[0]);
            };
            assert(("X"@) != ("A"@)) by {
                assert(("X"@)[0] != ("A"@)[0]);
            };
            assert(("X"@) != ("S"@)) by {
                assert(("X"@)[0] != ("S"@)[0]);
            };
            assert(("X"@) != ("D"@)) by {
                assert(("X"@)[0] != ("D"@)[0]);
            };
            assert(("X"@) != ("F"@)) by {
                assert(("X"@)[0] != ("F"@)[0]);
            };
            assert(("X"@) != ("G"@)) by {
                assert(("X"@)[0] != ("G"@)[0]);
            };
            assert(("X"@) != ("H"@)) by {
                assert(("X"@)[0] != ("H"@)[0]);
            };
            assert(("X"@) != ("J"@)) by {
                assert(("X"@)[0] != ("J"@)[0]);
            };
            assert(("X"@) != ("K"@)) by {
                assert(("X"@)[0] != ("K"@)[0]);
            };
            assert(("X"@) != ("L"@)) by {
                assert(("X"@)[0] != ("L"@)[0]);
            };
            assert(("X"@) != ("Z"@)) by {
                assert(("X"@)[0] != ("Z"@)[0]);
            };
            assert(spec_key_from_name(spec_key_name(Key::KeyX)) == Option::Some(Key::KeyX));
        },
        Key::KeyC => {
            assert(("C"@) != ("Q"@)) by {
                assert(("C"@)[0] != ("Q"@)[0]);
            };
            assert(("C"@) != ("W"@)) by {
                assert(("C"@)[0] != ("W"@)[0]);
            };
            assert(("C"@) != ("E"@)) by {
                assert(("C"@)[0] != ("E"@)[0]);
            };
            assert(("C"@) != ("R"@)) by {
                assert(("C"@)[0] != ("R"@)[0]);
            };
            assert(("C"@) != ("T"@)) by {
                assert(("C"@)[0] != ("T"@)[0]);
            };
            assert(("C"@) != ("Y"@)) by {
                assert(("C"@)[0] != ("Y"@)[0]);
            };
            assert(("C"@) != ("U"@)) by {
                assert(("C"@)[0] != ("U"@)[0]);
            };
            assert(("C"@) != ("I"@)) by {
                assert(("C"@)[0] != ("I"@)[0]);
            };
            assert(("C"@) != ("O"@)) by {
                assert(("C"@)[0] != ("O"@)[0]);
            };
            assert(("C"@) != ("P"@)) by {
                assert(("C"@)[0] != ("P"@)[0]);
            };
            assert(("C"@) != ("A"@)) by {
                assert(("C"@)[0] != ("A"@)[0]);
            };
            assert(("C"@) != ("S"@)) by {
                assert(("C"@)[0] != ("S"@)[0]);
            };
            assert(("C"@) != ("D"@)) by {
                assert(("C"@)[0] != ("D"@)[0]);
            };
            assert(("C"@) != ("F"@)) by {
                assert(("C"@)[0] != ("F"@)[0]);
            };
            assert(("C"@) != ("G"@)) by {
                assert(("C"@)[0] != ("G"@)[0]);
            };
            assert(("C"@) != ("H"@)) by {
                assert(("C"@)[0] != ("H"@)[0]);
            };
            assert(("C"@) != ("J"@)) by {
                assert(("C"@)[0] != ("J"@)[0]);
            };
            assert(("C"@) != ("K"@)) by {
                assert(("C"@)[0] != ("K"@)[0]);
            };
            assert(("C"@) != ("L"@)) by {
                assert(("C"@)[0] != ("L"@)[0]);
            };
            assert(("C"@) != ("Z"@)) by {
                assert(("C"@)[0] != ("Z"@)[0]);
            };
            assert(("C"@) != ("X"@)) by {
                assert(("C"@)[0] != ("X"@)[0]);
            };
            assert(spec_key_from_name(spec_key_name(Key::KeyC)) == Option::Some(Key::KeyC));
        },
        Key::KeyV => {
            assert(("V"@) != ("Q"@)) by {
                assert(("V"@)[0] != ("Q"@)[0]);
            };
            assert(("V"@) != ("W"@)) by {
                assert(("V"@)[0] != ("W"@)[0]);
            };
            assert(("V"@) != ("E"@)) by {
                assert(("V"@)[0] != ("E"@)[0]);
            };
            assert(("V"@) != ("R"@)) by {
                assert(("V"@)[0] != ("R"@)[0]);
            };
            assert(("V"@) != ("T"@)) by {
                assert(("V"@)[0] != ("T"@)[0]);
            };
            assert(("V"@) != ("Y"@)) by {
                assert(("V"@)[0] != ("Y"@)[0]);
            };
            assert(("V"@) != ("U"@)) by {
                assert(("V"@)[0] != ("U"@)[0]);
            };
            assert(("V"@) != ("I"@)) by {
                assert(("V"@)[0] != ("I"@)[0]);
            };
            assert(("V"@) != ("O"@)) by {
                assert(("V"@)[0] != ("O"@)[0]);
            };
            assert(("V"@) != ("P"@)) by {
                assert(("V"@)[0] != ("P"@)[0]);
            };
            assert(("V"@) != ("A"@)) by {
                assert(("V"@)[0] != ("A"@)[0]);
            };
            assert(("V"@) != ("S"@)) by {
                assert(("V"@)[0] != ("S"@)[0]);
            };
            assert(("V"@) != ("D"@)) by {
                assert(("V"@)[0] != ("D"@)[0]);
            };
            assert(("V"@) != ("F"@)) by {
                assert(("V"@)[0] != ("F"@)[0]);
            };
            assert(("V"@) != ("G"@)) by {
                assert(("V"@)[0] != ("G"@)[0]);
            };
            assert(("V"@) != ("H"@)) by {
                assert(("V"@)[0] != ("H"@)[0]);
            };
            assert(("V"@) != ("J"@)) by {
                assert(("V"@)[0] != ("J"@)[0]);
            };
            assert(("V"@) != ("K"@)) by {
                assert(("V"@)[0] != ("K"@)[0]);
            };
            assert(("V"@) != ("L"@)) by {
                assert(("V"@)[0] != ("L"@)[0]);
            };
            assert(("V"@) != ("Z"@)) by {
                assert(("V"@)[0] != ("Z"@)[0]);
            };
            assert(("V"@) != ("X"@)) by {
                assert(("V"@)[0] != ("X"@)[0]);
            };
            assert(("V"@) != ("C"@)) by {
                assert(("V"@)[0] != ("C"@)[0]);
            };
            assert(spec_key_from_name(spec_key_name(Key::KeyV)) == Option::Some(Key::KeyV));
        },
        Key::KeyB => {
            assert(("B"@) != ("Q"@)) by {
                assert(("B"@)[0] != ("Q"@)[0]);
            };
            assert(("B"@) != ("W"@)) by {
                assert(("B"@)[0] != ("W"@)[0]);
            };
            assert(("B"@) != ("E"@)) by {
                assert(("B"@)[0] != ("E"@)[0]);
            };
            assert(("B"@) != ("R"@)) by {
                assert(("B"@)[0] != ("R"@)[0]);
            };
            assert(("B"@) != ("T"@)) by {
                assert(("B"@)[0] != ("T"@)[0]);
            };
            assert(("B"@) != ("Y"@)) by {
                assert(("B"@)[0] != ("Y"@)[0]);
            };
            assert(("B"@) != ("U"@)) by {
                assert(("B"@)[0] != ("U"@)[0]);
            };
            assert(("B"@) != ("I"@)) by {
                assert(("B"@)[0] != ("I"@)[0]);
            };
            assert(("B"@) != ("O"@)) by {
                assert(("B"@)[0] != ("O"@)[0]);
            };
            assert(("B"@) != ("P"@)) by {
                assert(("B"@)[0] != ("P"@)[0]);
            };
            assert(("B"@) != ("A"@)) by {
                assert(("B"@)[0] != ("A"@)[0]);
            };
            assert(("B"@) != ("S"@)) by {
                assert(("B"@)[0] != ("S"@)[0]);
            };
            assert(("B"@) != ("D"@)) by {
                assert(("B"@)[0] != ("D"@)[0]);
            };
            assert(("B"@) != ("F"@)) by {
                assert(("B"@)[0] != ("F"@)[0]);
            };
            assert(("B"@) != ("G"@)) by {
                assert(("B"@)[0] != ("G"@)[0]);
            };
            assert(("B"@) != ("H"@)) by {
                assert(("B"@)[0] != ("H"@)[0]);
            };
            assert(("B"@) != ("J"@)) by {
                assert(("B"@)[0] != ("J"@)[0]);
            };
            assert(("B"@) != ("K"@)) by {
                assert(("B"@)[0] != ("K"@)[0]);
            };
            assert(("B"@) != ("L"@)) by {
                assert(("B"@)[0] != ("L"@)[0]);
            };
            assert(("B"@) != ("Z"@)) by {
                assert(("B"@)[0] != ("Z"@)[0]);
            };
            assert(("B"@) != ("X"@)) by {
                assert(("B"@)[0] != ("X"@)[0]);
            };
            assert(("B"@) != ("C"@)) by {
                assert(("B"@)[0] != ("C"@)[0]);
            };
            assert(("B"@) != ("V"@)) by {
                assert(("B"@)[0] != ("V"@)[0]);
            };
            assert(spec_key_from_name(spec_key_name(Key::KeyB)) == Option::Some(Key::KeyB));
        },
        Key::KeyN => {
            assert(("N"@) != ("Q"@)) by {
                assert(("N"@)[0] != ("Q"@)[0]);
            };
            assert(("N"@) != ("W"@)) by {
                assert(("N"@)[0] != ("W"@)[0]);
            };
            assert(("N"@) != ("E"@)) by {
                assert(("N"@)[0] != ("E"@)[0]);
            };
            assert(("N"@) != ("R"@)) by {
                assert(("N"@)[0] != ("R"@)[0]);
            };
            assert(("N"@) != ("T"@)) by {
                assert(("N"@)[0] != ("T"@)[0]);
            };
            assert(("N"@) != ("Y"@)) by {
                assert(("N"@)[0] != ("Y"@)[0]);
            };
            assert(("N"@) != ("U"@)) by {
                assert(("N"@)[0] != ("U"@)[0]);
            };
            assert(("N"@) != ("I"@)) by {
                assert(("N"@)[0] != ("I"@)[0]);
            };
            assert(("N"@) != ("O"@)) by {
                assert(("N"@)[0] != ("O"@)[0]);
            };
            assert(("N"@) != ("P"@)) by {
                assert(("N"@)[0] != ("P"@)[0]);
            };
            assert(("N"@) != ("A"@)) by {
                assert(("N"@)[0] != ("A"@)[0]);
            };
            assert(("N"@) != ("S"@)) by {
                assert(("N"@)[0] != ("S"@)[0]);
            };
            assert(("N"@) != ("D"@)) by {
                assert(("N"@)[0] != ("D"@)[0]);
            };
            assert(("N"@) != ("F"@)) by {
                assert(("N"@)[0] != ("F"@)[0]);
            };
            assert(("N"@) != ("G"@)) by {
                assert(("N"@)[0] != ("G"@)[0]);
            };
            assert(("N"@) != ("H"@)) by {
                assert(("N"@)[0] != ("H"@)[0]);
            };
            assert(("N"@) != ("J"@)) by {
                assert(("N"@)[0] != ("J"@)[0]);
            };
            assert(("N"@) != ("K"@)) by {
                assert(("N"@)[0] != ("K"@)[0]);
            };
            assert(("N"@) != ("L"@)) by {
                assert(("N"@)[0] != ("L"@)[0]);
            };
            assert(("N"@) != ("Z"@)) by {
                assert(("N"@)[0] != ("Z"@)[0]);
            };
            assert(("N"@) != ("X"@)) by {
                assert(("N"@)[0] != ("X"@)[0]);
            };
            assert(("N"@) != ("C"@)) by {
                assert(("N"@)[0] != ("C"@)[0]);
            };
            assert(("N"@) != ("V"@)) by {
                assert(("N"@)[0] != ("V"@)[0]);
            };
            assert(("N"@) != ("B"@)) by {
                assert(("N"@)[0] != ("B"@)[0]);
            };
            assert(spec_key_from_name(spec_key_name(Key::KeyN)) == Option::Some(Key::KeyN));
        },
        Key::KeyM => {
            assert(("M"@) != ("Q"@)) by {
                assert(("M"@)[0] != ("Q"@)[0]);
            };
            assert(("M"@) != ("W"@)) by {
                assert(("M"@)[0] != ("W"@)[0]);
            };
            assert(("M"@) != ("E"@)) by {
                assert(("M"@)[0] != ("E"@)[0]);
            };
            assert(("M"@) != ("R"@)) by {
                assert(("M"@)[0] != ("R"@)[0]);
            };
            assert(("M"@) != ("T"@)) by {
                assert(("M"@)[0] != ("T"@)[0]);
            };
            assert(("M"@) != ("Y"@)) by {
                assert(("M"@)[0] != ("Y"@)[0]);
            };
            assert(("M"@) != ("U"@)) by {
                assert(("M"@)[0] != ("U"@)[0]);
            };
            assert(("M"@) != ("I"@)) by {
                assert(("M"@)[0] != ("I"@)[0]);
            };
            assert(("M"@) != ("O"@)) by {
                assert(("M"@)[0] != ("O"@)[0]);
            };
            assert(("M"@) != ("P"@)) by {
                assert(("M"@)[0] != ("P"@)[0]);
            };
            assert(("M"@) != ("A"@)) by {
                assert(("M"@)[0] != ("A"@)[0]);
            };
            assert(("M"@) != ("S"@)) by {
                assert(("M"@)[0] != ("S"@)[0]);
            };
            assert(("M"@) != ("D"@)) by {
                assert(("M"@)[0] != ("D"@)[0]);
            };
            assert(("M"@) != ("F"@)) by {
                assert(("M"@)[0] != ("F"@)[0]);
            };
            assert(("M"@) != ("G"@)) by {
                assert(("M"@)[0] != ("G"@)[0]);
            };
            assert(("M"@) != ("H"@)) by {
                assert(("M"@)[0] != ("H"@)[0]);
            };
            assert(("M"@) != ("J"@)) by {
                assert(("M"@)[0] != ("J"@)[0]);
            };
            assert(("M"@) != ("K"@)) by {
                assert(("M"@)[0] != ("K"@)[0]);
            };
            assert(("M"@) != ("L"@)) by {
                assert(("M"@)[0] != ("L"@)[0]);
            };
            assert(("M"@) != ("Z"@)) by {
                assert(("M"@)[0] != ("Z"@)[0]);
            };
            assert(("M"@) != ("X"@)) by {
                assert(("M"@)[0] != ("X"@)[0]);
            };
            assert(("M"@) != ("C"@)) by {
                assert(("M"@)[0] != ("C"@)[0]);
            };
            assert(("M"@) != ("V"@)) by {
                assert(("M"@)[0] != ("V"@)[0]);
            };
            assert(("M"@) != ("B"@)) by {
                assert(("M"@)[0] != ("B"@)[0]);
            };
            assert(("M"@) != ("N"@)) by {
                assert(("M"@)[0] != ("N"@)[0]);
            };
            assert(spec_key_from_name(spec_key_name(Key::KeyM)) == Option::Some(Key::KeyM));
        },
        Key::Comma => {
            assert(("Comma"@) != ("AltGr"@)) by {
                assert(("Comma"@)[0] != ("AltGr"@)[0]);
            };
            assert(("Comma"@) != ("Space"@)) by {
                assert(("Comma"@)[0] != ("Space"@)[0]);
            };
            assert(("Comma"@) != ("Pause"@)) by {
                assert(("Comma"@)[0] != ("Pause"@)[0]);
            };
            assert(("Comma"@) != ("Minus"@)) by {
                assert(("Comma"@)[0] != ("Minus"@)[0]);
            };
            assert(("Comma"@) != ("Equal"@)) by {
                assert(("Comma"@)[0] != ("Equal"@)[0]);
            };
            assert(("Comma"@) != ("Quote"@)) by {
                assert(("Comma"@)[0] != ("Quote"@)[0]);
            };
            assert(spec_key_from_name(spec_key_name(Key::Comma)) == Option::Some(Key::Comma));
        },
        Key::Dot => {
            assert(("Dot"@) != ("Alt"@)) by {
                assert(("Dot"@)[0] != ("Alt"@)[0]);
            };
            assert(("Dot"@) != ("End"@)) by {
                assert(("Dot"@)[0] != ("End"@)[0]);
            };
            assert(("Dot"@) != ("F10"@)) by {
                assert(("Dot"@)[0] != ("F10"@)[0]);
            };
            assert(("Dot"@) != ("F11"@)) by {
                assert(("Dot"@)[0] != ("F11"@)[0]);
            };
            assert(("Dot"@) != ("F12"@)) by {
                assert(("Dot"@)[0] != ("F12"@)[0]);
            };
            assert(("Dot"@) != ("Tab"@)) by {
                assert(("Dot"@)[0] != ("Tab"@)[0]);
            };
            assert(spec_key_from_name(spec_key_name(Key::Dot)) == Option::Some(Key::Dot));
        },
        Key::Slash => {
            assert(("Slash"@) != ("AltGr"@)) by {
                assert(("Slash"@)[0] != ("AltGr"@)[0]);
            };
            assert(("Slash"@) != ("Space"@)) by {
                assert(("Slash"@)[1] != ("Space"@)[1]);
            };
            assert(("Slash"@) != ("Pause"@)) by {
                assert(("Slash"@)[0] != ("Pause"@)[0]);
            };
            assert(("Slash"@) != ("Minus"@)) by {
                assert(("Slash"@)[0] != ("Minus"@)[0]);
            };
            assert(("Slash"@) != ("Equal"@)) by {
                assert(("Slash"@)[0] != ("Equal"@)[0]);
            };
            assert(("Slash"@) != ("Quote"@)) by {
                assert(("Slash"@)[0] != ("Quote"@)[0]);
            };
            assert(("Slash"@) != ("Comma"@)) by {
                assert(("Slash"@)[0] != ("Comma"@)[0]);
            };
            assert(spec_key_from_name(spec_key_name(Key::Slash)) == Option::Some(Key::Slash));
        },
        Key::Insert => {
            assert(("Insert"@) != ("Delete"@)) by {
                assert(("Insert"@)[0] != ("Delete"@)[0]);
            };
            assert(("Insert"@) != ("Escape"@)) by {
                assert(("Insert"@)[0] != ("Escape"@)[0]);
            };
            assert(("Insert"@) != ("PageUp"@)) by {
                assert(("Insert"@)[0] != ("PageUp"@)[0]);
            };
            assert(("Insert"@) != ("Return"@)) by {
                assert(("Insert"@)[0] != ("Return"@)[0]);
            };
            assert(spec_key_from_name(spec_key_name(Key::Insert)) == Option::Some(Key::Insert));
        },
        Key::KpReturn => {
            assert(("KpReturn"@) != ("CapsLock"@)) by {
                assert(("KpReturn"@)[0] != ("CapsLock"@)[0]);
            };
            assert(("KpReturn"@) != ("MetaLeft"@)) by {
                assert(("KpReturn"@)[0] != ("MetaLeft"@)[0]);
            };
            assert(("KpReturn"@) != ("PageDown"@)) by {
                assert(("KpReturn"@)[0] != ("PageDown"@)[0]);
            };
            assert(spec_key_from_name(spec_key_name(Key::KpReturn)) == Option::Some(Key::KpReturn));
        },
        Key::KpMinus => {
            assert(("KpMinus"@) != ("UpArrow"@)) by {
                assert(("KpMinus"@)[0] != ("UpArrow"@)[0]);
            };
            assert(("KpMinus"@) != ("NumLock"@)) by {
                assert(("KpMinus"@)[0] != ("NumLock"@)[0]);
            };
            assert(spec_key_from_name(spec_key_name(Key::KpMinus)) == Option::Some(Key::KpMinus));
        },
        Key::KpPlus => {
            assert(("KpPlus"@) != ("Delete"@)) by {
                assert(("KpPlus"@)[0] != ("Delete"@)[0]);
            };
            assert(("KpPlus"@) != ("Escape"@)) by {
                assert(("KpPlus"@)[0] != ("Escape"@)[0]);
            };
            assert(("KpPlus"@) != ("PageUp"@)) by {
                assert(("KpPlus"@)[0] != ("PageUp"@)[0]);
            };
            assert(("KpPlus"@) != ("Return"@)) by {
                assert(("KpPlus"@)[0] != ("Return"@)[0]);
            };
            assert(("KpPlus"@) != ("Insert"@)) by {
                assert(("KpPlus"@)[0] != ("Insert"@)[0]);
            };
            assert(spec_key_from_name(spec_key_name(Key::KpPlus)) == Option::Some(Key::KpPlus));
        },
        Key::KpMultiply => {
            assert(("KpMultiply"@).subrange(0, 8) != "Unknown("@) by {
                assert(("KpMultiply"@).subrange(0, 8)[0] == 'K');
            };
            assert(("KpMultiply"@) != ("RightArrow"@)) by {
                assert(("KpMultiply"@)[0] != ("RightArrow"@)[0]);
            };
            assert(("KpMultiply"@) != ("ShiftRight"@)) by {
                assert(("KpMultiply"@)[0] != ("ShiftRight"@)[0]);
            };
            assert(("KpMultiply"@) != ("ScrollLock"@)) by {
                assert(("KpMultiply"@)[0] != ("ScrollLock"@)[0]);
            };
            assert(spec_key_from_name(spec_key_name(Key::KpMultiply)) == Option::Some(Key::KpMultiply));
        },
        Key::KpDivide => {
            assert(("KpDivide"@) != ("CapsLock"@)) by {
                assert(("KpDivide"@)[0] != ("CapsLock"@)[0]);
            };
            assert(("KpDivide"@) != ("MetaLeft"@)) by {
                assert(("KpDivide"@)[0] != ("MetaLeft"@)[0]);
            };
            assert(("KpDivide"@) != ("PageDown"@)) by {
                assert(("KpDivide"@)[0] != ("PageDown"@)[0]);
            };
            assert(("KpDivide"@) != ("KpReturn"@)) by {
                assert(("KpDivide"@)[2] != ("KpReturn"@)[2]);
            };
            assert(spec_key_from_name(spec_key_name(Key::KpDivide)) == Option::Some(Key::KpDivide));
        },
        Key::Kp0 => {
            assert(("Kp0"@) != ("Alt"@)) by {
                assert(("Kp0"@)[0] != ("Alt"@)[0]);
            };
            assert(("Kp0"@) != ("End"@)) by {
                assert(("Kp0"@)[0] != ("End"@)[0]);
            };
            assert(("Kp0"@) != ("F10"@)) by {
                assert(("Kp0"@)[0] != ("F10"@)[0]);
            };
            assert(("Kp0"@) != ("F11"@)) by {
                assert(("Kp0"@)[0] != ("F11"@)[0]);
            };
            assert(("Kp0"@) != ("F12"@)) by {
                assert(("Kp0"@)[0] != ("F12"@)[0]);
            };
            assert(("Kp0"@) != ("Tab"@)) by {
                assert(("Kp0"@)[0] != ("Tab"@)[0]);
            };
            assert(("Kp0"@) != ("Dot"@)) by {
                assert(("Kp0"@)[0] != ("Dot"@)[0]);
            };
            assert(spec_key_from_name(spec_key_name(Key::Kp0)) == Option::Some(Key::Kp0));
        },
        Key::Kp1 => {
            assert(("Kp1"@) != ("Alt"@)) by {
                assert(("Kp1"@)[0] != ("Alt"@)[0]);
            };
            assert(("Kp1"@) != ("End"@)) by {
                assert(("Kp1"@)[0] != ("End"@)[0]);
            };
            assert(("Kp1"@) != ("F10"@)) by {
                assert(("Kp1"@)[0] != ("F10"@)[0]);
            };
            assert(("Kp1"@) != ("F11"@)) by {
                assert(("Kp1"@)[0] != ("F11"@)[0]);
            };
            assert(("Kp1"@) != ("F12"@)) by {
                assert(("Kp1"@)[0] != ("F12"@)[0]);
            };
            assert(("Kp1"@) != ("Tab"@)) by {
                assert(("Kp1"@)[0] != ("Tab"@)[0]);
            };
            assert(("Kp1"@) != ("Dot"@)) by {
                assert(("Kp1"@)[0] != ("Dot"@)[0]);
            };
            assert(("Kp1"@) != ("Kp0"@)) by {
                assert(("Kp1"@)[2] != ("Kp0"@)[2]);
            };
            assert(spec_key_from_name(spec_key_name(Key::Kp1)) == Option::Some(Key::Kp1));
        },
        Key::Kp2 => {
            assert(("Kp2"@) != ("Alt"@)) by {
                assert(("Kp2"@)[0] != ("Alt"@)[0]);
            };
            assert(("Kp2"@) != ("End"@)) by {
                assert(("Kp2"@)[0] != ("End"@)[0]);
            };
            assert(("Kp2"@) != ("F10"@)) by {
                assert(("Kp2"@)[0] != ("F10"@)[0]);
            };
            assert(("Kp2"@) != ("F11"@)) by {
                assert(("Kp2"@)[0] != ("F11"@)[0]);
            };
            assert(("Kp2"@) != ("F12"@)) by {
                assert(("Kp2"@)[0] != ("F12"@)[0]);
            };
            assert(("Kp2"@) != ("Tab"@)) by {
                assert(("Kp2"@)[0] != ("Tab"@)[0]);
            };
            assert(("Kp2"@) != ("Dot"@)) by {
                assert(("Kp2"@)[0] != ("Dot"@)[0]);
            };
            assert(("Kp2"@) != ("Kp0"@)) by {
                assert(("Kp2"@)[2] != ("Kp0"@)[2]);
            };
            assert(("Kp2"@) != ("Kp1"@)) by {
                assert(("Kp2"@)[2] != ("Kp1"@)[2]);
            };
            assert(spec_key_from_name(spec_key_name(Key::Kp2)) == Option::Some(Key::Kp2));
        },
        Key::Kp3 => {
            assert(("Kp3"@) != ("Alt"@)) by {
                assert(("Kp3"@)[0] != ("Alt"@)[0]);
            };
            assert(("Kp3"@) != ("End"@)) by {
                assert(("Kp3"@)[0] != ("End"@)[0]);
            };
            assert(("Kp3"@) != ("F10"@)) by {
                assert(("Kp3"@)[0] != ("F10"@)[0]);
            };
            assert(("Kp3"@) != ("F11"@)) by {
                assert(("Kp3"@)[0] != ("F11"@)[0]);
            };
            assert(("Kp3"@) != ("F12"@)) by {
                assert(("Kp3"@)[0] != ("F12"@)[0]);
            };
            assert(("Kp3"@) != ("Tab"@)) by {
                assert(("Kp3"@)[0] != ("Tab"@)[0]);
            };
            assert(("Kp3"@) != ("Dot"@)) by {
                assert(("Kp3"@)[0] != ("Dot"@)[0]);
            };
            assert(("Kp3"@) != ("Kp0"@)) by {
                assert(("Kp3"@)[2] != ("Kp0"@)[2]);
            };
            assert(("Kp3"@) != ("Kp1"@)) by {
                assert(("Kp3"@)[2] != ("Kp1"@)[2]);
            };
            assert(("Kp3"@) != ("Kp2"@)) by {
                assert(("Kp3"@)[2] != ("Kp2"@)[2]);
            };
            assert(spec_key_from_name(spec_key_name(Key::Kp3)) == Option::Some(Key::Kp3));
        },
        Key::Kp4 => {
            assert(("Kp4"@) != ("Alt"@)) by {
                assert(("Kp4"@)[0] != ("Alt"@)[0]);
            };
            assert(("Kp4"@) != ("End"@)) by {
                assert(("Kp4"@)[0] != ("End"@)[0]);
            };
            assert(("Kp4"@) != ("F10"@)) by {
                assert(("Kp4"@)[0] != ("F10"@)[0]);
            };
            assert(("Kp4"@) != ("F11"@)) by {
                assert(("Kp4"@)[0] != ("F11"@)[0]);
            };
            assert(("Kp4"@) != ("F12"@)) by {
                assert(("Kp4"@)[0] != ("F12"@)[0]);
            };
            assert(("Kp4"@) != ("Tab"@)) by {
                assert(("Kp4"@)[0] != ("Tab"@)[0]);
            };
            assert(("Kp4"@) != ("Dot"@)) by {
                assert(("Kp4"@)[0] != ("Dot"@)[0]);
            };
            assert(("Kp4"@) != ("Kp0"@)) by {
                assert(("Kp4"@)[2] != ("Kp0"@)[2]);
            };
            assert(("Kp4"@) != ("Kp1"@)) by {
                assert(("Kp4"@)[2] != ("Kp1"@)[2]);
            };
            assert(("Kp4"@) != ("Kp2"@)) by {
                assert(("Kp4"@)[2] != ("Kp2"@)[2]);
            };
            assert(("Kp4"@) != ("Kp3"@)) by {
                assert(("Kp4"@)[2] != ("Kp3"@)[2]);
            };
            assert(spec_key_from_name(spec_key_name(Key::Kp4)) == Option::Some(Key::Kp4));
        },
        Key::Kp5 => {
            assert(("Kp5"@) != ("Alt"@)) by {
                assert(("Kp5"@)[0] != ("Alt"@)[0]);
            };
            assert(("Kp5"@) != ("End"@)) by {
                assert(("Kp5"@)[0] != ("End"@)[0]);
            };
            assert(("Kp5"@) != ("F10"@)) by {
                assert(("Kp5"@)[0] != ("F10"@)[0]);
            };
            assert(("Kp5"@) != ("F11"@)) by {
                assert(("Kp5"@)[0] != ("F11"@)[0]);
            };
            assert(("Kp5"@) != ("F12"@)) by {
                assert(("Kp5"@)[0] != ("F12"@)[0]);
            };
            assert(("Kp5"@) != ("Tab"@)) by {
                assert(("Kp5"@)[0] != ("Tab"@)[0]);
            };
            assert(("Kp5"@) != ("Dot"@)) by {
                assert(("Kp5"@)[0] != ("Dot"@)[0]);
            };
            assert(("Kp5"@) != ("Kp0"@)) by {
                assert(("Kp5"@)[2] != ("Kp0"@)[2]);
            };
            assert(("Kp5"@) != ("Kp1"@)) by {
                assert(("Kp5"@)[2] != ("Kp1"@)[2]);
            };
            assert(("Kp5"@) != ("Kp2"@)) by {
                assert(("Kp5"@)[2] != ("Kp2"@)[2]);
            };
            assert(("Kp5"@) != ("Kp3"@)) by {
                assert(("Kp5"@)[2] != ("Kp3"@)[2]);
            };
            assert(("Kp5"@) != ("Kp4"@)) by {
                assert(("Kp5"@)[2] != ("Kp4"@)[2]);
            };
            assert(spec_key_from_name(spec_key_name(Key::Kp5)) == Option::Some(Key::Kp5));
        },
        Key::Kp6 => {
            assert(("Kp6"@) != ("Alt"@)) by {
                assert(("Kp6"@)[0] != ("Alt"@)[0]);
            };
            assert(("Kp6"@) != ("End"@)) by {
                assert(("Kp6"@)[0] != ("End"@)[0]);
            };
            assert(("Kp6"@) != ("F10"@)) by {
                assert(("Kp6"@)[0] != ("F10"@)[0]);
            };
            assert(("Kp6"@) != ("F11"@)) by {
                assert(("Kp6"@)[0] != ("F11"@)[0]);
            };
            assert(("Kp6"@) != ("F12"@)) by {
                assert(("Kp6"@)[0] != ("F12"@)[0]);
            };
            assert(("Kp6"@) != ("Tab"@)) by {
                assert(("Kp6"@)[0] != ("Tab"@)[0]);
            };
            assert(("Kp6"@) != ("Dot"@)) by {
                assert(("Kp6"@)[0] != ("Dot"@)[0]);
            };
            assert(("Kp6"@) != ("Kp0"@)) by {
                assert(("Kp6"@)[2] != ("Kp0"@)[2]);
            };
            assert(("Kp6"@) != ("Kp1"@)) by {
                assert(("Kp6"@)[2] != ("Kp1"@)[2]);
            };
            assert(("Kp6"@) != ("Kp2"@)) by {
                assert(("Kp6"@)[2] != ("Kp2"@)[2]);
            };
            assert(("Kp6"@) != ("Kp3"@)) by {
                assert(("Kp6"@)[2] != ("Kp3"@)[2]);
            };
            assert(("Kp6"@) != ("Kp4"@)) by {
                assert(("Kp6"@)[2] != ("Kp4"@)[2]);
            };
            assert(("Kp6"@) != ("Kp5"@)) by {
                assert(("Kp6"@)[2] != ("Kp5"@)[2]);
            };
            assert(spec_key_from_name(spec_key_name(Key::Kp6)) == Option::Some(Key::Kp6));
        },
        Key::Kp7 => {
            assert(("Kp7"@) != ("Alt"@)) by {
                assert(("Kp7"@)[0] != ("Alt"@)[0]);
            };
            assert(("Kp7"@) != ("End"@)) by {
                assert(("Kp7"@)[0] != ("End"@)[0]);
            };
            assert(("Kp7"@) != ("F10"@)) by {
                assert(("Kp7"@)[0] != ("F10"@)[0]);
            };
            assert(("Kp7"@) != ("F11"@)) by {
                assert(("Kp7"@)[0] != ("F11"@)[0]);
            };
            assert(("Kp7"@) != ("F12"@)) by {
                assert(("Kp7"@)[0] != ("F12"@)[0]);
            };
            assert(("Kp7"@) != ("Tab"@)) by {
                assert(("Kp7"@)[0] != ("Tab"@)[0]);
            };
            assert(("Kp7"@) != ("Dot"@)) by {
                assert(("Kp7"@)[0] != ("Dot"@)[0]);
            };
            assert(("Kp7"@) != ("Kp0"@)) by {
                assert(("Kp7"@)[2] != ("Kp0"@)[2]);
            };
            assert(("Kp7"@) != ("Kp1"@)) by {
                assert(("Kp7"@)[2] != ("Kp1"@)[2]);
            };
            assert(("Kp7"@) != ("Kp2"@)) by {
                assert(("Kp7"@)[2] != ("Kp2"@)[2]);
            };
            assert(("Kp7"@) != ("Kp3"@)) by {
                assert(("Kp7"@)[2] != ("Kp3"@)[2]);
            };
            assert(("Kp7"@) != ("Kp4"@)) by {
                assert(("Kp7"@)[2] != ("Kp4"@)[2]);
            };
            assert(("Kp7"@) != ("Kp5"@)) by {
                assert(("Kp7"@)[2] != ("Kp5"@)[2]);
            };
            assert(("Kp7"@) != ("Kp6"@)) by {
                assert(("Kp7"@)[2] != ("Kp6"@)[2]);
            };
            assert(spec_key_from_name(spec_key_name(Key::Kp7)) == Option::Some(Key::Kp7));
        },
        Key::Kp8 => {
            assert(("Kp8"@) != ("Alt"@)) by {
                assert(("Kp8"@)[0] != ("Alt"@)[0]);
            };
            assert(("Kp8"@) != ("End"@)) by {
                assert(("Kp8"@)[0] != ("End"@)[0]);
            };
            assert(("Kp8"@) != ("F10"@)) by {
                assert(("Kp8"@)[0] != ("F10"@)[0]);
            };
            assert(("Kp8"@) != ("F11"@)) by {
                assert(("Kp8"@)[0] != ("F11"@)[0]);
            };
            assert(("Kp8"@) != ("F12"@)) by {
                assert(("Kp8"@)[0] != ("F12"@)[0]);
            };
            assert(("Kp8"@) != ("Tab"@)) by {
                assert(("Kp8"@)[0] != ("Tab"@)[0]);
            };
            assert(("Kp8"@) != ("Dot"@)) by {
                assert(("Kp8"@)[0] != ("Dot"@)[0]);
            };
            assert(("Kp8"@) != ("Kp0"@)) by {
                assert(("Kp8"@)[2] != ("Kp0"@)[2]);
            };
            assert(("Kp8"@) != ("Kp1"@)) by {
                assert(("Kp8"@)[2] != ("Kp1"@)[2]);
            };
            assert(("Kp8"@) != ("Kp2"@)) by {
                assert(("Kp8"@)[2] != ("Kp2"@)[2]);
            };
            assert(("Kp8"@) != ("Kp3"@)) by {
                assert(("Kp8"@)[2] != ("Kp3"@)[2]);
            };
            assert(("Kp8"@) != ("Kp4"@)) by {
                assert(("Kp8"@)[2] != ("Kp4"@)[2]);
            };
            assert(("Kp8"@) != ("Kp5"@)) by {
                assert(("Kp8"@)[2] != ("Kp5"@)[2]);
            };
            assert(("Kp8"@) != ("Kp6"@)) by {
                assert(("Kp8"@)[2] != ("Kp6"@)[2]);
            };
            assert(("Kp8"@) != ("Kp7"@)) by {
                assert(("Kp8"@)[2] != ("Kp7"@)[2]);
            };
            assert(spec_key_from_name(spec_key_name(Key::Kp8)) == Option::Some(Key::Kp8));
        },
        Key::Kp9 => {
            assert(("Kp9"@) != ("Alt"@)) by {
                assert(("Kp9"@)[0] != ("Alt"@)[0]);
            };
            assert(("Kp9"@) != ("End"@)) by {
                assert(("Kp9"@)[0] != ("End"@)[0]);
            };
            assert(("Kp9"@) != ("F10"@)) by {
                assert(("Kp9"@)[0] != ("F10"@)[0]);
            };
            assert(("Kp9"@) != ("F11"@)) by {
                assert(("Kp9"@)[0] != ("F11"@)[0]);
            };
            assert(("Kp9"@) != ("F12"@)) by {
                assert(("Kp9"@)[0] != ("F12"@)[0]);
            };
            assert(("Kp9"@) != ("Tab"@)) by {
                assert(("Kp9"@)[0] != ("Tab"@)[0]);
            };
            assert(("Kp9"@) != ("Dot"@)) by {
                assert(("Kp9"@)[0] != ("Dot"@)[0]);
            };
            assert(("Kp9"@) != ("Kp0"@)) by {
                assert(("Kp9"@)[2] != ("Kp0"@)[2]);
            };
            assert(("Kp9"@) != ("Kp1"@)) by {
                assert(("Kp9"@)[2] != ("Kp1"@)[2]);
            };
            assert(("Kp9"@) != ("Kp2"@)) by {
                assert(("Kp9"@)[2] != ("Kp2"@)[2]);
            };
            assert(("Kp9"@) != ("Kp3"@)) by {
                assert(("Kp9"@)[2] != ("Kp3"@)[2]);
            };
            assert(("Kp9"@) != ("Kp4"@)) by {
                assert(("Kp9"@)[2] != ("Kp4"@)[2]);
            };
            assert(("Kp9"@) != ("Kp5"@)) by {
                assert(("Kp9"@)[2] != ("Kp5"@)[2]);
            };
            assert(("Kp9"@) != ("Kp6"@)) by {
                assert(("Kp9"@)[2] != ("Kp6"@)[2]);
            };
            assert(("Kp9"@) != ("Kp7"@)) by {
                assert(("Kp9"@)[2] != ("Kp7"@)[2]);
            };
            assert(("Kp9"@) != ("Kp8"@)) by {
                assert(("Kp9"@)[2] != ("Kp8"@)[2]);
            };
            assert(spec_key_from_name(spec_key_name(Key::Kp9)) == Option::Some(Key::Kp9));
        },
        Key::KpDelete => {
            assert(("KpDelete"@) != ("CapsLock"@)) by {
                assert(("KpDelete"@)[0] != ("CapsLock"@)[0]);
            };
            assert(("KpDelete"@) != ("MetaLeft"@)) by {
                assert(("KpDelete"@)[0] != ("MetaLeft"@)[0]);
            };
            assert(("KpDelete"@) != ("PageDown"@)) by {
                assert(("KpDelete"@)[0] != ("PageDown"@)[0]);
            };
            assert(("KpDelete"@) != ("KpReturn"@)) by {
                assert(("KpDelete"@)[2] != ("KpReturn"@)[2]);
            };
            assert(("KpDelete"@) != ("KpDivide"@)) by {
                assert(("KpDelete"@)[3] != ("KpDivide"@)[3]);
            };
            assert(spec_key_from_name(spec_key_name(Key::KpDelete)) == Option::Some(Key::KpDelete));
        },
        Key::Function => {
            assert(("Function"@) != ("CapsLock"@)) by {
                assert(("Function"@)[0] != ("CapsLock"@)[0]);
            };
            assert(("Function"@) != ("MetaLeft"@)) by {
                assert(("Function"@)[0] != ("MetaLeft"@)[0]);
            };
            assert(("Function"@) != ("PageDown"@)) by {
                assert(("Function"@)[0] != ("PageDown"@)[0]);
            };
            assert(("Function"@) != ("KpReturn"@)) by {
                assert(("Function"@)[0] != ("KpReturn"@)[0]);
            };
            assert(("Function"@) != ("KpDivide"@)) by {
                assert(("Function"@)[0] != ("KpDivide"@)[0]);
            };
            assert(("Function"@) != ("KpDelete"@)) by {
                assert(("Function"@)[0] != ("KpDelete"@)[0]);
            };
            assert(spec_key_from_name(spec_key_name(Key::Function)) == Option::Some(Key::Function));
        },
        Key::Unknown(code) => {
            lemma_unknown_name_parses(code as nat);
        },
    }
}

/// The canonical button name table is its own inverse.
pub proof fn lemma_button_name_roundtrip(b: Button)
    ensures
        spec_button_from_name(spec_button_name(b)) == Option::Some(b),
{
    reveal_strlit("Left");
    reveal_strlit("Right");
    reveal_strlit("Middle");
    reveal_strlit("Unknown(");
    reveal_strlit(")");
    match b {
        Button::Left => {},
        Button::Right => {},
        Button::Middle => {},
        Button::Unknown(code) => {
            lemma_unknown_name_parses(code as nat);
        },
    }
}

/// Case-insensitive match of a selector detail against a key's canonical name.
pub fn key_eq(name: &str, key: &Key) -> (r: bool)
    ensures
        r == eq_ci(name@, spec_key_name(*key)),
{
    let kn = key_name(key);
    str_eq_ci(name, kn.as_str())
}

/// Case-insensitive match of a selector detail against a button's canonical name.
pub fn button_eq(name: &str, button: &Button) -> (r: bool)
    ensures
        r == eq_ci(name@, spec_button_name(*button)),
{
    let bn = button_name(button);
    str_eq_ci(name, bn.as_str())
}

} // verus!
