//! Recording configuration: the stop sequence, the wait-time strategy,
//! drag filtering and the unconditional lead-in wait.

use crate::keys::Key;
use vstd::prelude::*;
use vstd::string::*;

verus! {

#[derive(Clone, Copy, PartialEq, Eq, Structural, Debug)]
pub enum WaitStrategy {
    /// Record the actual elapsed time between events.
    Actual,
    /// Record a fixed wait of this many milliseconds before each event.
    ConstantMS(u64),
}

impl Default for WaitStrategy {
    fn default() -> (w: Self)
        ensures
            w == WaitStrategy::ConstantMS(100u64),
    {
        WaitStrategy::ConstantMS(100)
    }
}

#[derive(Clone, Debug)]
pub struct Config {
    /// The keystrokes which, when pressed in order, stop macro recording.
    pub stop_keystrokes: Vec<Key>,
    pub wait_strategy: WaitStrategy,
    /// Number of seconds to count down before recording or playback.
    pub countdown_seconds: u64,
    /// Whether to record mouse moves made while no button is held down.
    pub record_non_drag_mouse_moves: bool,
    /// Wait prepended to the very beginning of each recording, so that
    /// replay starts with a delay whatever the wait strategy records.
    pub recording_initial_wait_ms: u64,
}

impl Default for Config {
    fn default() -> (c: Self)
        ensures
            c.stop_keystrokes@ == seq![Key::Escape, Key::Escape, Key::Escape],
            c.wait_strategy == WaitStrategy::ConstantMS(100u64),
            c.countdown_seconds == 3,
            c.record_non_drag_mouse_moves == false,
            c.recording_initial_wait_ms == 100,
    {
        Config {
            stop_keystrokes: default_stop_keystrokes(),
            wait_strategy: WaitStrategy::ConstantMS(100),
            countdown_seconds: 3,
            record_non_drag_mouse_moves: false,
            recording_initial_wait_ms: 100,
        }
    }
}

pub fn default_stop_keystrokes() -> (v: Vec<Key>)
    ensures
        v@ == seq![Key::Escape, Key::Escape, Key::Escape],
{
    let mut v: Vec<Key> = Vec::new();
    v.push(Key::Escape);
    v.push(Key::Escape);
    v.push(Key::Escape);
    proof {
        assert(v@ =~= seq![Key::Escape, Key::Escape, Key::Escape]);
    }
    v
}

pub fn default_countdown_seconds() -> (r: u64)
    ensures
        r == 3,
{
    3
}

pub fn default_record_non_drag_mouse_moves() -> (r: bool)
    ensures
        r == false,
{
    false
}

pub fn default_recording_initial_wait_ms() -> (r: u64)
    ensures
        r == 100,
{
    100
}

/// The directory that stored macros live in, one file per macro,
/// under the given home directory.
pub fn macros_path(home_dir: &str) -> (p: String)
    ensures
        p@ == home_dir@ + "/.config/macors/macros"@,
{
    let mut p = String::from_str(home_dir);
    p.append("/.config/macors/macros");
    p
}

} // verus!
