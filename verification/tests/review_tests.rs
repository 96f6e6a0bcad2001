use lexrain::event::Key;
use lexrain::models::{LearningLog, LearningStatus, Word};
use lexrain::review::{
    ActivePanel, ReviewAction, ReviewComponent, ReviewMode, ReviewState,
};

fn word(id: i64, spelling: &str) -> Word {
    Word {
        id: Some(id),
        spelling: spelling.to_string(),
        phonetic: None,
        definition: String::new(),
        translation: None,
        pos: None,
        collins: 0,
        oxford: false,
        tag: None,
        bnc: None,
        frq: None,
        exchange: None,
    }
}

fn item(id: i64, spelling: &str) -> (Word, LearningLog) {
    (word(id, spelling), LearningLog::new_for_word(id, 0))
}

#[test]
fn empty_queue_does_not_start() {
    let mut session = ReviewComponent::new();
    let started = session.start_review(ReviewMode::Due, Vec::new());
    assert!(!started);
    assert!(session.is_complete());
    assert_eq!(session.total(), 0);
    assert_eq!(session.completed(), 0);
}

#[test]
fn three_items_need_exactly_three_grades() {
    let mut session = ReviewComponent::new();
    let items = vec![item(1, "alpha"), item(2, "beta"), item(3, "gamma")];
    let started = session.start_review(ReviewMode::Due, items);
    assert!(started);
    assert_eq!(session.total(), 3);
    assert!(!session.is_complete());

    // The queue is served from the back.
    let mut seen = Vec::new();
    for step in 0..3u64 {
        assert!(!session.is_complete());
        assert_eq!(session.state, ReviewState::Question);
        seen.push(session.current_item.as_ref().unwrap().0.spelling.clone());
        session.show_answer();
        assert_eq!(session.state, ReviewState::Answer);
        let (log, record) = session.submit_review(3, 1_000);
        assert_eq!(record.word_id, log.word_id);
        assert_eq!(record.quality, 3);
        assert_eq!(record.reviewed_at, 1_000);
        assert_eq!(session.completed(), step as usize + 1);
        // Complete exactly when the last grade is in, not before.
        assert_eq!(session.is_complete(), step == 2);
    }
    assert_eq!(seen, vec!["gamma", "beta", "alpha"]);
    assert_eq!(session.completed(), 3);
}

#[test]
fn grading_updates_state_and_history() {
    let mut session = ReviewComponent::new();
    let started = session.start_review(ReviewMode::Due, vec![item(42, "delta")]);
    assert!(started);
    session.show_answer();
    let (log, record) = session.submit_review(4, 500);
    assert_eq!(log.word_id, 42);
    assert_eq!(log.repetition, 1);
    assert_eq!(log.interval, 1);
    assert_eq!(log.e_factor, 2500);
    assert_eq!(log.next_review, 500 + 86_400);
    assert_eq!(log.status, LearningStatus::Learning);
    assert_eq!(record.word_id, 42);
    assert_eq!(record.reviewed_at, 500);
    assert_eq!(record.quality, 4);
    assert_eq!(record.repetition, 1);
    assert_eq!(record.interval, 1);
    assert_eq!(record.e_factor, 2500);
}

#[test]
fn wordbook_mode_is_remembered() {
    let mut session = ReviewComponent::new();
    let started = session.start_review(
        ReviewMode::Wordbook("cet4".to_string(), true),
        vec![item(1, "epsilon")],
    );
    assert!(started);
    assert_eq!(session.wordbook_info, Some(("cet4".to_string(), true)));

    let mut session2 = ReviewComponent::new();
    session2.start_review(ReviewMode::Due, vec![item(2, "zeta")]);
    assert_eq!(session2.wordbook_info, None);
}

#[test]
fn question_keys_reveal_or_leave() {
    let mut session = ReviewComponent::new();
    session.start_review(ReviewMode::Due, vec![item(1, "eta")]);
    assert_eq!(session.handle_key(Key::Char('x')), ReviewAction::Ignored);
    assert_eq!(session.state, ReviewState::Question);
    assert_eq!(session.handle_key(Key::Char('q')), ReviewAction::Exit);
    assert_eq!(session.state, ReviewState::Question);
    assert_eq!(session.handle_key(Key::Char(' ')), ReviewAction::ShowAnswer);
    assert_eq!(session.state, ReviewState::Answer);
}

#[test]
fn answer_keys_grade_scroll_and_switch() {
    let mut session = ReviewComponent::new();
    session.start_review(ReviewMode::Due, vec![item(1, "theta")]);
    session.handle_key(Key::Enter);
    assert_eq!(session.state, ReviewState::Answer);

    assert_eq!(session.handle_key(Key::Char('1')), ReviewAction::Grade(1));
    assert_eq!(session.handle_key(Key::Char('2')), ReviewAction::Grade(2));
    assert_eq!(session.handle_key(Key::Char('3')), ReviewAction::Grade(3));
    assert_eq!(session.handle_key(Key::Char('4')), ReviewAction::Grade(4));
    // Grade keys themselves do not advance the session.
    assert!(!session.is_complete());

    // Scrolling down moves the focused panel only.
    assert_eq!(session.handle_key(Key::Char('j')), ReviewAction::Handled);
    assert_eq!(session.scroll, 1);
    assert_eq!(session.exchange_scroll, 0);
    // Scrolling up saturates at zero.
    assert_eq!(session.handle_key(Key::Char('k')), ReviewAction::Handled);
    assert_eq!(session.handle_key(Key::Char('k')), ReviewAction::Handled);
    assert_eq!(session.scroll, 0);

    // Focus switch, then the exchange panel scrolls instead.
    assert_eq!(session.handle_key(Key::Tab), ReviewAction::Handled);
    assert_eq!(session.active_panel, ActivePanel::Exchange);
    assert_eq!(session.handle_key(Key::Down), ReviewAction::Handled);
    assert_eq!(session.scroll, 0);
    assert_eq!(session.exchange_scroll, 1);
    assert_eq!(session.handle_key(Key::Left), ReviewAction::Handled);
    assert_eq!(session.active_panel, ActivePanel::Definition);

    assert_eq!(session.handle_key(Key::Esc), ReviewAction::Exit);
}

#[test]
fn lapsed_items_are_not_requeued() {
    // One pass per item: a low grade does not put the word back into
    // the queue within the same session.
    let mut session = ReviewComponent::new();
    session.start_review(ReviewMode::Due, vec![item(1, "lambda"), item(2, "mu")]);
    session.show_answer();
    let first = session.current_item.as_ref().unwrap().0.spelling.clone();
    let (log, _) = session.submit_review(1, 0);
    assert_eq!(log.repetition, 0);
    assert_eq!(log.interval, 1);
    // The lapsed word is gone; only the other word remains.
    assert_ne!(session.current_item.as_ref().unwrap().0.spelling, first);
    session.show_answer();
    session.submit_review(1, 0);
    assert!(session.is_complete());
    assert_eq!(session.completed(), 2);
}

#[test]
fn revealing_resets_panel_state() {
    let mut session = ReviewComponent::new();
    session.start_review(ReviewMode::Due, vec![item(1, "iota"), item(2, "kappa")]);
    session.show_answer();
    session.handle_key(Key::Char('j'));
    session.handle_key(Key::Tab);
    assert_eq!(session.scroll, 1);
    assert_eq!(session.active_panel, ActivePanel::Exchange);

    // Grading serves the next card with fresh view state.
    session.submit_review(2, 100);
    assert_eq!(session.state, ReviewState::Question);
    assert_eq!(session.scroll, 0);
    assert_eq!(session.exchange_scroll, 0);
    assert_eq!(session.active_panel, ActivePanel::Definition);
}
