//! The typed input events that a macro records, and the macro itself:
//! a description plus an ordered list of events, where order is the
//! exact replay order.

use crate::keys::{Button, Key};
use vstd::prelude::*;

verus! {

#[derive(Clone, Copy, PartialEq, Eq, Structural, Debug)]
pub struct MouseEventButton {
    pub x: i64,
    pub y: i64,
    pub button: Button,
}

#[derive(Clone, Copy, PartialEq, Eq, Structural, Debug)]
pub struct MouseEventMove {
    pub x: i64,
    pub y: i64,
}

#[derive(Clone, Copy, PartialEq, Eq, Structural, Debug)]
pub enum Event {
    KeyPress(Key),
    KeyRelease(Key),
    MousePress(MouseEventButton),
    MouseRelease(MouseEventButton),
    MouseMove(MouseEventMove),
    /// Explicit pause, in milliseconds.
    Wait(u64),
}

#[derive(Clone, Debug)]
pub struct Macro {
    pub description: String,
    pub events: Vec<Event>,
}

} // verus!
