//! Recording, storing, addressing and replaying of global keyboard and
//! mouse macros: raw hook events are normalized into a typed event
//! stream with synthesized waits, a configured stop sequence ends a
//! recording and is trimmed from its tail, macros are written to and
//! read back from a structured text format that round-trips exactly,
//! a textual selector addresses one event inside a macro, and a macro
//! renders as readable lines with presses and releases collapsed into
//! clicks. The shell around this library does the file, hook and
//! input-synthesis work and hands plain values in and out.

pub mod config;
pub mod display;
pub mod event;
pub mod keys;
pub mod playback;
pub mod selector;
pub mod session;
pub mod store;
pub mod text;
