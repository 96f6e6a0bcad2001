//! Screen navigation: the set of screens, the actions a screen can
//! request, and the dashboard's key dispatch.

use vstd::prelude::*;

use crate::event::Key;

verus! {

/// A screen of the application.
#[derive(Debug, Clone, Copy, PartialEq, Eq, Structural)]
pub enum Screen {
    Dashboard,
    Review,
    Dictionary,
    History,
    Statistics,
    Wordbook,
    Favorites,
    Settings,
}

/// What a screen asks the application to do after handling a key.
#[derive(Debug, Clone, PartialEq)]
pub enum Action {
    NavigateTo(Screen),
    StartWordbookReview(String, bool),
    ToggleFavorite(i64),
    Quit,
    Noop,
}

/// The action the dashboard takes for a key: `q` quits and the other
/// shortcut letters open their screens.
pub open spec fn spec_dashboard_action(key: Key) -> Action {
    if key == Key::Char('q') {
        Action::Quit
    } else if key == Key::Char('r') {
        Action::NavigateTo(Screen::Review)
    } else if key == Key::Char('w') {
        Action::NavigateTo(Screen::Wordbook)
    } else if key == Key::Char('f') {
        Action::NavigateTo(Screen::Favorites)
    } else if key == Key::Char('d') {
        Action::NavigateTo(Screen::Dictionary)
    } else if key == Key::Char('h') {
        Action::NavigateTo(Screen::History)
    } else if key == Key::Char('s') {
        Action::NavigateTo(Screen::Statistics)
    } else if key == Key::Char('c') {
        Action::NavigateTo(Screen::Settings)
    } else {
        Action::Noop
    }
}

/// Decide what the dashboard does with a pressed key.
pub fn dashboard_key_action(key: Key) -> (action: Action)
    ensures
        action == spec_dashboard_action(key),
{
    match key {
        Key::Char(c) => {
            if c == 'q' {
                Action::Quit
            } else if c == 'r' {
                Action::NavigateTo(Screen::Review)
            } else if c == 'w' {
                Action::NavigateTo(Screen::Wordbook)
            } else if c == 'f' {
                Action::NavigateTo(Screen::Favorites)
            } else if c == 'd' {
                Action::NavigateTo(Screen::Dictionary)
            } else if c == 'h' {
                Action::NavigateTo(Screen::History)
            } else if c == 's' {
                Action::NavigateTo(Screen::Statistics)
            } else if c == 'c' {
                Action::NavigateTo(Screen::Settings)
            } else {
                Action::Noop
            }
        },
        _ => Action::Noop,
    }
}

} // verus!
