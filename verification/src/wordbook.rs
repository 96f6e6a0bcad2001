//! The wordbook picker: a list of `(tag, word count)` entries from
//! which a tagged review session is started, in natural or shuffled
//! order.

use vstd::prelude::*;

use crate::common::{list_index_after_key, spec_list_index_after_key};
use crate::components::{Action, Screen};
use crate::event::Key;

verus! {

pub struct WordbookComponent {
    pub wordbooks: Vec<(String, usize)>,
    pub selected_index: usize,
    pub shuffle_mode: bool,
}

impl WordbookComponent {
    pub fn new(wordbooks: Vec<(String, usize)>) -> (component: WordbookComponent)
        ensures
            component.wordbooks == wordbooks,
            component.selected_index == 0,
            !component.shuffle_mode,
    {
        WordbookComponent { wordbooks, selected_index: 0, shuffle_mode: false }
    }

    /// Switch between natural and shuffled review order.
    pub fn toggle_shuffle(&mut self)
        ensures
            final(self).shuffle_mode == !old(self).shuffle_mode,
            final(self).wordbooks == old(self).wordbooks,
            final(self).selected_index == old(self).selected_index,
    {
        self.shuffle_mode = !self.shuffle_mode;
    }

    /// Ask to start reviewing the selected wordbook, carrying its tag
    /// and the shuffle setting; with nothing selectable, ask nothing.
    pub fn select_wordbook(&self) -> (action: Action)
        ensures
            self.selected_index < self.wordbooks@.len() ==> ({
                &&& action matches Action::StartWordbookReview(tag, shuffle)
                &&& tag@ == self.wordbooks@[self.selected_index as int].0@
                &&& shuffle == self.shuffle_mode
            }),
            self.selected_index >= self.wordbooks@.len() ==> action == Action::Noop,
    {
        if self.selected_index < self.wordbooks.len() {
            let entry = &self.wordbooks[self.selected_index];
            Action::StartWordbookReview(entry.0.clone(), self.shuffle_mode)
        } else {
            Action::Noop
        }
    }

    /// Handle one key press: enter starts the selected wordbook, `s`
    /// toggles shuffling, `q` or escape goes back to the dashboard,
    /// and the navigation keys move the selection.
    pub fn handle_key(&mut self, key: Key) -> (action: Action)
        ensures
            final(self).wordbooks == old(self).wordbooks,
            final(self).shuffle_mode == (if key == Key::Char('s') {
                !old(self).shuffle_mode
            } else {
                old(self).shuffle_mode
            }),
            final(self).selected_index == (if key == Key::Enter {
                old(self).selected_index as int
            } else {
                spec_list_index_after_key(
                    old(self).selected_index as int,
                    old(self).wordbooks@.len() as int,
                    key,
                )
            }),
            key == Key::Esc || key == Key::Char('q') ==> action == Action::NavigateTo(
                Screen::Dashboard,
            ),
            key == Key::Enter && old(self).selected_index < old(self).wordbooks@.len() ==> ({
                &&& action matches Action::StartWordbookReview(tag, shuffle)
                &&& tag@ == old(self).wordbooks@[old(self).selected_index as int].0@
                &&& shuffle == old(self).shuffle_mode
            }),
            key == Key::Enter && old(self).selected_index >= old(self).wordbooks@.len()
                ==> action == Action::Noop,
            !(key == Key::Esc || key == Key::Char('q') || key == Key::Enter) ==> action
                == Action::Noop,
    {
        match key {
            Key::Esc => Action::NavigateTo(Screen::Dashboard),
            Key::Enter => self.select_wordbook(),
            Key::Char(c) => {
                if c == 'q' {
                    Action::NavigateTo(Screen::Dashboard)
                } else if c == 's' {
                    self.toggle_shuffle();
                    Action::Noop
                } else {
                    self.selected_index = list_index_after_key(
                        self.selected_index,
                        self.wordbooks.len(),
                        key,
                    );
                    Action::Noop
                }
            },
            _ => {
                self.selected_index = list_index_after_key(
                    self.selected_index,
                    self.wordbooks.len(),
                    key,
                );
                Action::Noop
            },
        }
    }
}

} // verus!
