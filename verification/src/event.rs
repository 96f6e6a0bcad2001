//! Input events, reduced to plain values.
//!
//! The terminal backend turns its own key events into `Key` before the
//! library ever sees them, so every key-handling decision in this crate
//! is a verified function over this enum.

use vstd::prelude::*;

use std::time::Duration;

verus! {

/// A pressed key, as the library sees it. Keys the application does
/// not care about arrive as `Other`.
#[derive(Debug, Clone, Copy, PartialEq, Eq, Structural)]
pub enum Key {
    Char(char),
    Enter,
    Esc,
    Backspace,
    Tab,
    Up,
    Down,
    Left,
    Right,
    Home,
    End,
    PageUp,
    PageDown,
    Other,
}

/// Polling configuration for the input loop. The loop itself does
/// terminal I/O and lives outside the library; only the tick rate it
/// is driven by is held here.
pub struct EventHandler {
    pub tick_rate: Duration,
}

impl EventHandler {
    pub fn new(tick_rate: Duration) -> (handler: EventHandler)
        ensures
            handler.tick_rate == tick_rate,
    {
        EventHandler { tick_rate }
    }
}

} // verus!
