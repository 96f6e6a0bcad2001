//! Small reusable widgets' state: a scrollable popup, a text search
//! input, and a key-hint status bar. Drawing them is the terminal
//! layer's business; the state transitions are verified here.

use vstd::prelude::*;

use crate::event::Key;
use crate::strutil::{pop_char, push_char};

verus! {

/// `x + 1`, stopping at the top of the `u16` range.
pub open spec fn spec_sat_add_u16(x: u16) -> u16 {
    if x < 0xffff {
        (x + 1) as u16
    } else {
        0xffff
    }
}

/// `x - 1`, stopping at zero.
pub open spec fn spec_sat_sub_u16(x: u16) -> u16 {
    if x > 0 {
        (x - 1) as u16
    } else {
        0
    }
}

/// Selection movement shared by the list screens: `j`/down and
/// `k`/up step, page keys jump by ten, `g`/home and `G`/end jump to
/// the edges; every move stays inside `0 .. len` (or at 0 for an
/// empty list), and any other key leaves the selection alone.
pub open spec fn spec_list_index_after_key(idx: int, len: int, key: Key) -> int {
    if key == Key::Down || key == Key::Char('j') {
        if idx + 1 < len {
            idx + 1
        } else {
            idx
        }
    } else if key == Key::Up || key == Key::Char('k') {
        if idx >= 1 {
            idx - 1
        } else {
            0
        }
    } else if key == Key::Home || key == Key::Char('g') {
        0
    } else if key == Key::End || key == Key::Char('G') {
        if len > 0 {
            len - 1
        } else {
            0
        }
    } else if key == Key::PageDown {
        if idx + 10 < len {
            idx + 10
        } else if len > 0 {
            len - 1
        } else {
            0
        }
    } else if key == Key::PageUp {
        if idx >= 10 {
            idx - 10
        } else {
            0
        }
    } else {
        idx
    }
}

/// Apply one navigation key to a list selection.
pub fn list_index_after_key(idx: usize, len: usize, key: Key) -> (moved: usize)
    ensures
        moved == spec_list_index_after_key(idx as int, len as int, key),
{
    match key {
        Key::Down | Key::Char('j') => {
            if idx < len.saturating_sub(1) {
                idx + 1
            } else {
                idx
            }
        },
        Key::Up | Key::Char('k') => idx.saturating_sub(1),
        Key::Home | Key::Char('g') => 0,
        Key::End | Key::Char('G') => len.saturating_sub(1),
        Key::PageDown => {
            let limit = len.saturating_sub(1);
            let target = idx.saturating_add(10);
            if target < limit {
                target
            } else {
                limit
            }
        },
        Key::PageUp => idx.saturating_sub(10),
        _ => idx,
    }
}

/// Scroll state of a centred popup window.
pub struct Popup {
    pub scroll: u16,
    pub title: String,
}

impl Popup {
    pub fn new(title: String) -> (popup: Popup)
        ensures
            popup.scroll == 0,
            popup.title == title,
    {
        Popup { scroll: 0, title }
    }

    pub fn scroll_down(&mut self)
        ensures
            final(self).scroll == spec_sat_add_u16(old(self).scroll),
            final(self).title == old(self).title,
    {
        self.scroll = self.scroll.saturating_add(1);
    }

    pub fn scroll_up(&mut self)
        ensures
            final(self).scroll == spec_sat_sub_u16(old(self).scroll),
            final(self).title == old(self).title,
    {
        self.scroll = self.scroll.saturating_sub(1);
    }

    pub fn reset_scroll(&mut self)
        ensures
            final(self).scroll == 0,
            final(self).title == old(self).title,
    {
        self.scroll = 0;
    }
}

/// A search box: the typed value plus a placeholder shown while it is
/// empty.
pub struct SearchInput {
    pub value: String,
    pub placeholder: String,
    pub focused: bool,
}

impl SearchInput {
    pub fn new() -> (input: SearchInput)
        ensures
            input.value@.len() == 0,
            input.placeholder@ == "Type to search..."@,
            input.focused,
    {
        SearchInput {
            value: String::new(),
            placeholder: String::from_str("Type to search..."),
            focused: true,
        }
    }

    pub fn with_placeholder(self, placeholder: String) -> (input: SearchInput)
        ensures
            input.value == self.value,
            input.placeholder == placeholder,
            input.focused == self.focused,
    {
        SearchInput { placeholder, ..self }
    }

    /// Feed one key to the input. A character is appended, backspace
    /// removes the last character; the result says whether the value
    /// may have changed.
    pub fn handle_key(&mut self, key: Key) -> (changed: bool)
        ensures
            final(self).placeholder == old(self).placeholder,
            final(self).focused == old(self).focused,
            match key {
                Key::Char(c) => changed && final(self).value@ == old(self).value@.push(c),
                Key::Backspace => changed && final(self).value@ == (if old(self).value@.len() > 0 {
                    old(self).value@.drop_last()
                } else {
                    old(self).value@
                }),
                _ => !changed && final(self).value == old(self).value,
            },
    {
        match key {
            Key::Char(c) => {
                push_char(&mut self.value, c);
                true
            },
            Key::Backspace => {
                let _ = pop_char(&mut self.value);
                true
            },
            _ => false,
        }
    }
}

impl Default for SearchInput {
    fn default() -> (input: SearchInput)
        ensures
            input.value@.len() == 0,
            input.placeholder@ == "Type to search..."@,
            input.focused,
    {
        SearchInput::new()
    }
}

/// A status bar listing `(key, description)` hints.
pub struct StatusBar {
    pub items: Vec<(String, String)>,
}

impl StatusBar {
    pub fn new() -> (bar: StatusBar)
        ensures
            bar.items@ == Seq::<(String, String)>::empty(),
    {
        StatusBar { items: Vec::new() }
    }

    pub fn add_item(self, key: String, description: String) -> (bar: StatusBar)
        ensures
            bar.items@ == self.items@.push((key, description)),
    {
        let mut bar = self;
        bar.items.push((key, description));
        bar
    }
}

impl Default for StatusBar {
    fn default() -> (bar: StatusBar)
        ensures
            bar.items@ == Seq::<(String, String)>::empty(),
    {
        StatusBar::new()
    }
}

} // verus!
