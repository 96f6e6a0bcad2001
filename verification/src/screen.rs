//! Top-level screen state of the single-window variant of the
//! application, including its two-phase review sub-state.

use vstd::prelude::*;

verus! {

/// Which screen the single-window application is showing; `Exiting`
/// ends the main loop.
#[derive(Debug, Clone, Copy, PartialEq, Eq, Structural)]
pub enum CurrentScreen {
    Dashboard,
    Review,
    Dictionary,
    History,
    Statistics,
    Exiting,
}

/// Review phase of the single-window application: the question is
/// shown first, then the answer.
#[derive(Debug, Clone, Copy, PartialEq, Eq, Structural)]
pub enum ReviewState {
    Question,
    Answer,
}

} // verus!
