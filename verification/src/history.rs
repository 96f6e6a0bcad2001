//! The review-history screen: a list of past reviews — word, review
//! time, quality — with a detail popup for the selected entry.

use vstd::prelude::*;

use crate::common::{list_index_after_key, spec_list_index_after_key, Popup};
use crate::components::{Action, Screen};
use crate::event::Key;
use crate::models::Word;

verus! {

pub struct HistoryComponent {
    pub history_list: Vec<(Word, String, u8)>,
    pub selected_index: usize,
    pub show_popup: bool,
    pub popup: Popup,
}

impl HistoryComponent {
    pub fn new(history_list: Vec<(Word, String, u8)>) -> (component: HistoryComponent)
        ensures
            component.history_list == history_list,
            component.selected_index == 0,
            !component.show_popup,
            component.popup.scroll == 0,
    {
        HistoryComponent {
            history_list,
            selected_index: 0,
            show_popup: false,
            popup: Popup::new(String::from_str("历史记录详情")),
        }
    }

    /// Handle one key press. With the popup open, `q` or escape closes
    /// it and `j`/`k` scroll it; otherwise enter opens the popup for
    /// the selected entry, `q` or escape goes back to the dashboard,
    /// and the navigation keys move the selection.
    pub fn handle_key(&mut self, key: Key) -> (action: Action)
        ensures
            final(self).history_list == old(self).history_list,
            final(self).popup.title == old(self).popup.title,
            old(self).show_popup ==> {
                &&& final(self).selected_index == old(self).selected_index
                &&& final(self).show_popup == !(key == Key::Esc || key == Key::Char('q'))
                &&& final(self).popup.scroll == (if key == Key::Esc || key == Key::Char('q') {
                    0int
                } else if key == Key::Down || key == Key::Char('j') {
                    crate::common::spec_sat_add_u16(old(self).popup.scroll) as int
                } else if key == Key::Up || key == Key::Char('k') {
                    crate::common::spec_sat_sub_u16(old(self).popup.scroll) as int
                } else {
                    old(self).popup.scroll as int
                })
                &&& action == Action::Noop
            },
            !old(self).show_popup ==> {
                &&& final(self).selected_index == spec_list_index_after_key(
                    old(self).selected_index as int,
                    old(self).history_list@.len() as int,
                    key,
                )
                &&& final(self).show_popup == (key == Key::Enter)
                &&& final(self).popup.scroll == (if key == Key::Enter {
                    0int
                } else {
                    old(self).popup.scroll as int
                })
                &&& action == (if key == Key::Esc || key == Key::Char('q') {
                    Action::NavigateTo(Screen::Dashboard)
                } else {
                    Action::Noop
                })
            },
    {
        if self.show_popup {
            match key {
                Key::Esc => {
                    self.show_popup = false;
                    self.popup.reset_scroll();
                    Action::Noop
                },
                Key::Char(c) => {
                    if c == 'q' {
                        self.show_popup = false;
                        self.popup.reset_scroll();
                    } else if c == 'j' {
                        self.popup.scroll_down();
                    } else if c == 'k' {
                        self.popup.scroll_up();
                    }
                    Action::Noop
                },
                Key::Down => {
                    self.popup.scroll_down();
                    Action::Noop
                },
                Key::Up => {
                    self.popup.scroll_up();
                    Action::Noop
                },
                _ => Action::Noop,
            }
        } else {
            match key {
                Key::Esc => Action::NavigateTo(Screen::Dashboard),
                Key::Enter => {
                    self.show_popup = true;
                    self.popup.reset_scroll();
                    Action::Noop
                },
                Key::Char(c) => {
                    if c == 'q' {
                        Action::NavigateTo(Screen::Dashboard)
                    } else {
                        self.selected_index = list_index_after_key(
                            self.selected_index,
                            self.history_list.len(),
                            key,
                        );
                        Action::Noop
                    }
                },
                _ => {
                    self.selected_index = list_index_after_key(
                        self.selected_index,
                        self.history_list.len(),
                        key,
                    );
                    Action::Noop
                },
            }
        }
    }
}

} // verus!
