//! The review session: a state machine that serves one queued word at
//! a time, reveals its answer, grades it through the scheduler, and
//! reports completion.
//!
//! The session holds no store handle. The caller fills the queue from
//! whatever source the chosen mode asks for, and each grading step
//! hands back the updated memory state and the history record so the
//! caller can persist them. A failed persist is fatal to the session:
//! the graded item has already left the queue and regrading it would
//! apply the scheduler twice to stale input.

use vstd::prelude::*;

use crate::common::{spec_sat_add_u16, spec_sat_sub_u16};
use crate::event::Key;
use crate::models::{HistoryRecord, LearningLog, Word};
use crate::sm2;

verus! {

/// Whether the current word's answer is still hidden or revealed.
#[derive(Debug, Clone, Copy, PartialEq, Eq, Structural)]
pub enum ReviewState {
    Question,
    Answer,
}

/// Which of the two answer panels has keyboard focus.
#[derive(Debug, Clone, Copy, PartialEq, Eq, Structural)]
pub enum ActivePanel {
    Definition,
    Exchange,
}

/// Where a session draws its queue from: the words now due, or a
/// tagged wordbook (with or without shuffling).
#[derive(Debug, Clone, PartialEq)]
pub enum ReviewMode {
    Due,
    Wordbook(String, bool),
}

/// What the session asks its caller to do after a key press.
#[derive(Debug, Clone, Copy, PartialEq, Eq, Structural)]
pub enum ReviewAction {
    /// Leave the review screen.
    Exit,
    /// The caller should grade the current word with this quality.
    Grade(u8),
    /// The answer was just revealed.
    ShowAnswer,
    /// The key moved scroll or focus; nothing for the caller to do.
    Handled,
    /// The key meant nothing in this state.
    Ignored,
}

/// A queued review item is usable when its word carries the id its
/// memory state is keyed by, the memory state satisfies its invariant,
/// and the success count leaves room for one more success.
pub open spec fn item_ok(item: (Word, LearningLog)) -> bool {
    &&& item.0.id == Some(item.1.word_id)
    &&& item.1.wf()
    &&& item.1.repetition < u32::MAX
}

/// Decide at run time whether an item can enter a session.
pub fn item_ok_check(item: &(Word, LearningLog)) -> (ok: bool)
    ensures
        ok == item_ok(*item),
{
    let id_matches = match item.0.id {
        Some(id) => id == item.1.word_id,
        None => false,
    };
    id_matches && item.1.e_factor >= sm2::MIN_E_FACTOR && (item.1.repetition == 0
        || item.1.interval >= 1) && item.1.repetition < u32::MAX
}

/// One review pass over a queue of words.
pub struct ReviewComponent {
    pub review_queue: Vec<(Word, LearningLog)>,
    pub current_item: Option<(Word, LearningLog)>,
    pub state: ReviewState,
    pub total_count: usize,
    pub completed_count: usize,
    pub scroll: u16,
    pub exchange_scroll: u16,
    pub active_panel: ActivePanel,
    pub wordbook_info: Option<(String, bool)>,
}

impl ReviewComponent {
    /// Session invariant: every held item is usable, at most one item
    /// is ever out of the queue being asked, and the counts add up —
    /// so completion coincides with the completed count reaching the
    /// total.
    pub open spec fn wf(self) -> bool {
        &&& forall|i: int|
            0 <= i < self.review_queue@.len() ==> item_ok(#[trigger] self.review_queue@[i])
        &&& self.current_item matches Some(item) ==> item_ok(item)
        &&& match self.current_item {
            Some(_) => self.completed_count + 1 + self.review_queue@.len() == self.total_count,
            None => self.review_queue@.len() == 0 && self.completed_count == self.total_count,
        }
    }

    /// The memory state of the word being asked.
    pub open spec fn spec_current_log(self) -> LearningLog
        recommends
            self.current_item is Some,
    {
        self.current_item->Some_0.1
    }

    /// An idle session with nothing to review.
    pub fn new() -> (session: ReviewComponent)
        ensures
            session.wf(),
            session.current_item is None,
            session.total_count == 0,
            session.completed_count == 0,
            session.state == ReviewState::Question,
            session.wordbook_info is None,
    {
        ReviewComponent {
            review_queue: Vec::new(),
            current_item: None,
            state: ReviewState::Question,
            total_count: 0,
            completed_count: 0,
            scroll: 0,
            exchange_scroll: 0,
            active_panel: ActivePanel::Definition,
            wordbook_info: None,
        }
    }

    /// Serve the next word from the back of the queue (or finish the
    /// session if the queue is empty) and reset the per-card view
    /// state.
    fn next_card(&mut self)
        ensures
            final(self).current_item == (if old(self).review_queue@.len() > 0 {
                Some(old(self).review_queue@.last())
            } else {
                Option::<(Word, LearningLog)>::None
            }),
            final(self).review_queue@ == (if old(self).review_queue@.len() > 0 {
                old(self).review_queue@.drop_last()
            } else {
                old(self).review_queue@
            }),
            final(self).state == ReviewState::Question,
            final(self).scroll == 0,
            final(self).exchange_scroll == 0,
            final(self).active_panel == ActivePanel::Definition,
            final(self).total_count == old(self).total_count,
            final(self).completed_count == old(self).completed_count,
            final(self).wordbook_info == old(self).wordbook_info,
    {
        self.current_item = self.review_queue.pop();
        self.state = ReviewState::Question;
        self.scroll = 0;
        self.exchange_scroll = 0;
        self.active_panel = ActivePanel::Definition;
    }

    /// Start a pass over `items`. Returns `false` and stays idle when
    /// there is nothing to review; otherwise serves the first item
    /// (the last of `items`, the queue being drained from the back)
    /// in the `Question` state.
    pub fn start_review(&mut self, mode: ReviewMode, items: Vec<(Word, LearningLog)>) -> (started:
        bool)
        requires
            forall|i: int| 0 <= i < items@.len() ==> item_ok(#[trigger] items@[i]),
        ensures
            final(self).wf(),
            started == (items@.len() > 0),
            final(self).total_count == items@.len(),
            final(self).completed_count == 0,
            final(self).wordbook_info == (match mode {
                ReviewMode::Wordbook(tag, shuffle) => Some((tag, shuffle)),
                ReviewMode::Due => None::<(String, bool)>,
            }),
            !started ==> final(self).current_item is None,
            started ==> final(self).current_item == Some(items@.last())
                && final(self).review_queue@ == items@.drop_last() && final(self).state
                == ReviewState::Question,
    {
        self.review_queue = items;
        self.wordbook_info = match mode {
            ReviewMode::Wordbook(tag, shuffle) => Some((tag, shuffle)),
            ReviewMode::Due => None,
        };
        self.total_count = self.review_queue.len();
        self.completed_count = 0;

        if self.review_queue.len() == 0 {
            self.current_item = None;
            return false;
        }

        self.next_card();
        true
    }

    /// Reveal the answer of the word being asked. Valid only while a
    /// word is served with its answer still hidden.
    pub fn show_answer(&mut self)
        requires
            old(self).current_item is Some,
            old(self).state == ReviewState::Question,
        ensures
            final(self).state == ReviewState::Answer,
            final(self).scroll == 0,
            final(self).exchange_scroll == 0,
            final(self).active_panel == ActivePanel::Definition,
            final(self).review_queue == old(self).review_queue,
            final(self).current_item == old(self).current_item,
            final(self).total_count == old(self).total_count,
            final(self).completed_count == old(self).completed_count,
            final(self).wordbook_info == old(self).wordbook_info,
    {
        self.state = ReviewState::Answer;
        self.scroll = 0;
        self.exchange_scroll = 0;
        self.active_panel = ActivePanel::Definition;
    }

    /// Grade the current word and advance to the next one.
    ///
    /// Valid only from the `Answer` state. Returns the updated memory
    /// state and the history record; the caller persists both and must
    /// treat a persist failure as fatal to the session. Exactly after
    /// the last item's grade, and not before, the session is complete.
    pub fn submit_review(&mut self, quality: u8, now: i64) -> (outcome: (
        LearningLog,
        HistoryRecord,
    ))
        requires
            old(self).wf(),
            old(self).current_item is Some,
            old(self).state == ReviewState::Answer,
            1 <= quality <= 4,
            0 <= now,
            now + sm2::SECONDS_PER_DAY * sm2::spec_next_interval(
                old(self).spec_current_log().repetition as int,
                old(self).spec_current_log().e_factor as int,
                quality as int,
            ) <= i64::MAX,
        ensures
            final(self).wf(),
            outcome.0 == sm2::spec_process_review(
                old(self).spec_current_log(),
                quality as int,
                now as int,
            ),
            outcome.1 == (HistoryRecord {
                word_id: outcome.0.word_id,
                reviewed_at: now,
                quality,
                repetition: outcome.0.repetition,
                interval: outcome.0.interval,
                e_factor: outcome.0.e_factor,
            }),
            outcome.0.word_id == old(self).spec_current_log().word_id,
            final(self).completed_count == old(self).completed_count + 1,
            final(self).total_count == old(self).total_count,
            final(self).wordbook_info == old(self).wordbook_info,
            final(self).current_item == (if old(self).review_queue@.len() > 0 {
                Some(old(self).review_queue@.last())
            } else {
                Option::<(Word, LearningLog)>::None
            }),
            final(self).review_queue@ == (if old(self).review_queue@.len() > 0 {
                old(self).review_queue@.drop_last()
            } else {
                old(self).review_queue@
            }),
            final(self).current_item is Some ==> final(self).state == ReviewState::Question,
            (final(self).current_item is None) <==> (final(self).completed_count
                == final(self).total_count),
    {
        let taken = self.current_item.take();
        let (_word, log) = match taken {
            Some(pair) => pair,
            None => {
                proof {
                    assert(false);
                }
                unreached()
            },
        };
        let mut log = log;
        sm2::process_review(&mut log, quality, now);
        let record = HistoryRecord {
            word_id: log.word_id,
            reviewed_at: now,
            quality,
            repetition: log.repetition,
            interval: log.interval,
            e_factor: log.e_factor,
        };
        self.completed_count = self.completed_count + 1;
        self.next_card();
        (log, record)
    }

    /// True once the current word is exhausted and no replacement was
    /// available.
    pub fn is_complete(&self) -> (complete: bool)
        ensures
            complete == (self.current_item is None),
    {
        self.current_item.is_none()
    }

    /// How many words this pass started with.
    pub fn total(&self) -> (n: usize)
        ensures
            n == self.total_count,
    {
        self.total_count
    }

    /// How many words have been graded so far in this pass.
    pub fn completed(&self) -> (n: usize)
        ensures
            n == self.completed_count,
    {
        self.completed_count
    }
}

/// The action a key maps to, by session state: while the question is
/// shown, space or enter reveals the answer; while the answer is
/// shown, the digits 1 to 4 grade it; `q` or escape always leaves.
pub open spec fn spec_review_key_action(state: ReviewState, key: Key) -> ReviewAction {
    if key == Key::Char('q') || key == Key::Esc {
        ReviewAction::Exit
    } else if state == ReviewState::Question {
        if key == Key::Char(' ') || key == Key::Enter {
            ReviewAction::ShowAnswer
        } else {
            ReviewAction::Ignored
        }
    } else {
        if key == Key::Char('1') {
            ReviewAction::Grade(1)
        } else if key == Key::Char('2') {
            ReviewAction::Grade(2)
        } else if key == Key::Char('3') {
            ReviewAction::Grade(3)
        } else if key == Key::Char('4') {
            ReviewAction::Grade(4)
        } else if key == Key::Char('j') || key == Key::Down || key == Key::Char('k') || key
            == Key::Up || key == Key::Char('h') || key == Key::Left || key == Key::Char('l') || key
            == Key::Right || key == Key::Tab {
            ReviewAction::Handled
        } else {
            ReviewAction::Ignored
        }
    }
}

/// A grade request can only ever arise from the `Answer` state.
pub proof fn lemma_grade_only_from_answer(state: ReviewState, key: Key, quality: u8)
    requires
        spec_review_key_action(state, key) == ReviewAction::Grade(quality),
    ensures
        state == ReviewState::Answer,
{
}

impl ReviewComponent {
    /// The panel focus after a key: while the answer is shown, `h` or
    /// left focuses the definition panel and `l`, right or tab the
    /// exchange panel.
    pub open spec fn spec_panel_after_key(self, key: Key) -> ActivePanel {
        if self.state == ReviewState::Answer {
            if key == Key::Char('h') || key == Key::Left {
                ActivePanel::Definition
            } else if key == Key::Char('l') || key == Key::Right || key == Key::Tab {
                ActivePanel::Exchange
            } else {
                self.active_panel
            }
        } else if spec_review_key_action(self.state, key) == ReviewAction::ShowAnswer {
            ActivePanel::Definition
        } else {
            self.active_panel
        }
    }

    /// The definition-panel scroll after a key.
    pub open spec fn spec_scroll_after_key(self, key: Key) -> u16 {
        if self.state == ReviewState::Answer && self.active_panel == ActivePanel::Definition {
            if key == Key::Char('j') || key == Key::Down {
                spec_sat_add_u16(self.scroll)
            } else if key == Key::Char('k') || key == Key::Up {
                spec_sat_sub_u16(self.scroll)
            } else {
                self.scroll
            }
        } else if spec_review_key_action(self.state, key) == ReviewAction::ShowAnswer {
            0
        } else {
            self.scroll
        }
    }

    /// The exchange-panel scroll after a key.
    pub open spec fn spec_exchange_scroll_after_key(self, key: Key) -> u16 {
        if self.state == ReviewState::Answer && self.active_panel == ActivePanel::Exchange {
            if key == Key::Char('j') || key == Key::Down {
                spec_sat_add_u16(self.exchange_scroll)
            } else if key == Key::Char('k') || key == Key::Up {
                spec_sat_sub_u16(self.exchange_scroll)
            } else {
                self.exchange_scroll
            }
        } else if spec_review_key_action(self.state, key) == ReviewAction::ShowAnswer {
            0
        } else {
            self.exchange_scroll
        }
    }

    /// Handle one key press on the review screen: reveal the answer,
    /// move scroll or focus, or ask the caller to grade or leave.
    /// Grading itself is the caller's move, through `submit_review`.
    pub fn handle_key(&mut self, key: Key) -> (action: ReviewAction)
        requires
            old(self).wf(),
            old(self).current_item is Some,
        ensures
            final(self).wf(),
            action == spec_review_key_action(old(self).state, key),
            final(self).state == (if action == ReviewAction::ShowAnswer {
                ReviewState::Answer
            } else {
                old(self).state
            }),
            final(self).scroll == old(self).spec_scroll_after_key(key),
            final(self).exchange_scroll == old(self).spec_exchange_scroll_after_key(key),
            final(self).active_panel == old(self).spec_panel_after_key(key),
            final(self).review_queue == old(self).review_queue,
            final(self).current_item == old(self).current_item,
            final(self).total_count == old(self).total_count,
            final(self).completed_count == old(self).completed_count,
            final(self).wordbook_info == old(self).wordbook_info,
    {
        if matches!(key, Key::Esc) {
            return ReviewAction::Exit;
        }
        match self.state {
            ReviewState::Question => {
                match key {
                    Key::Char(c) => {
                        if c == 'q' {
                            ReviewAction::Exit
                        } else if c == ' ' {
                            self.show_answer();
                            ReviewAction::ShowAnswer
                        } else {
                            ReviewAction::Ignored
                        }
                    },
                    Key::Enter => {
                        self.show_answer();
                        ReviewAction::ShowAnswer
                    },
                    _ => ReviewAction::Ignored,
                }
            },
            ReviewState::Answer => {
                match key {
                    Key::Char(c) => {
                        if c == 'q' {
                            ReviewAction::Exit
                        } else if c == '1' {
                            ReviewAction::Grade(1)
                        } else if c == '2' {
                            ReviewAction::Grade(2)
                        } else if c == '3' {
                            ReviewAction::Grade(3)
                        } else if c == '4' {
                            ReviewAction::Grade(4)
                        } else if c == 'j' {
                            self.scroll_active_down();
                            ReviewAction::Handled
                        } else if c == 'k' {
                            self.scroll_active_up();
                            ReviewAction::Handled
                        } else if c == 'h' {
                            self.active_panel = ActivePanel::Definition;
                            ReviewAction::Handled
                        } else if c == 'l' {
                            self.active_panel = ActivePanel::Exchange;
                            ReviewAction::Handled
                        } else {
                            ReviewAction::Ignored
                        }
                    },
                    Key::Down => {
                        self.scroll_active_down();
                        ReviewAction::Handled
                    },
                    Key::Up => {
                        self.scroll_active_up();
                        ReviewAction::Handled
                    },
                    Key::Left => {
                        self.active_panel = ActivePanel::Definition;
                        ReviewAction::Handled
                    },
                    Key::Right | Key::Tab => {
                        self.active_panel = ActivePanel::Exchange;
                        ReviewAction::Handled
                    },
                    _ => ReviewAction::Ignored,
                }
            },
        }
    }

    /// Scroll the focused panel down one line.
    fn scroll_active_down(&mut self)
        ensures
            *final(self) == (ReviewComponent {
                scroll: if old(self).active_panel == ActivePanel::Definition {
                    spec_sat_add_u16(old(self).scroll)
                } else {
                    old(self).scroll
                },
                exchange_scroll: if old(self).active_panel == ActivePanel::Exchange {
                    spec_sat_add_u16(old(self).exchange_scroll)
                } else {
                    old(self).exchange_scroll
                },
                ..*old(self)
            }),
    {
        match self.active_panel {
            ActivePanel::Definition => {
                self.scroll = self.scroll.saturating_add(1);
            },
            ActivePanel::Exchange => {
                self.exchange_scroll = self.exchange_scroll.saturating_add(1);
            },
        }
    }

    /// Scroll the focused panel up one line.
    fn scroll_active_up(&mut self)
        ensures
            *final(self) == (ReviewComponent {
                scroll: if old(self).active_panel == ActivePanel::Definition {
                    spec_sat_sub_u16(old(self).scroll)
                } else {
                    old(self).scroll
                },
                exchange_scroll: if old(self).active_panel == ActivePanel::Exchange {
                    spec_sat_sub_u16(old(self).exchange_scroll)
                } else {
                    old(self).exchange_scroll
                },
                ..*old(self)
            }),
    {
        match self.active_panel {
            ActivePanel::Definition => {
                self.scroll = self.scroll.saturating_sub(1);
            },
            ActivePanel::Exchange => {
                self.exchange_scroll = self.exchange_scroll.saturating_sub(1);
            },
        }
    }
}

} // verus!
