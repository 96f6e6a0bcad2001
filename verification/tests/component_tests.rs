use std::time::Duration;

use lexrain::common::{Popup, SearchInput, StatusBar};
use lexrain::components::{dashboard_key_action, Action, Screen};
use lexrain::dictionary::{exchange_type_name, parse_exchange, parse_pos};
use lexrain::event::{EventHandler, Key};
use lexrain::history::HistoryComponent;
use lexrain::models::Word;
use lexrain::screen::CurrentScreen;
use lexrain::wordbook::WordbookComponent;

fn pair(k: &str, v: &str) -> (String, String) {
    (k.to_string(), v.to_string())
}

#[test]
fn parse_exchange_splits_pairs() {
    assert_eq!(
        parse_exchange("p:ran/d:run/i:running/3:runs/s:runs"),
        vec![
            pair("p", "ran"),
            pair("d", "run"),
            pair("i", "running"),
            pair("3", "runs"),
            pair("s", "runs"),
        ]
    );
}

#[test]
fn parse_exchange_drops_parts_without_colon() {
    assert_eq!(parse_exchange("x/y:1"), vec![pair("y", "1")]);
    assert_eq!(parse_exchange(""), Vec::<(String, String)>::new());
    assert_eq!(parse_exchange("///"), Vec::<(String, String)>::new());
    // Only the first colon of a part separates key from value.
    assert_eq!(parse_exchange("a:b:c"), vec![pair("a", "b:c")]);
    assert_eq!(parse_exchange(":v"), vec![pair("", "v")]);
}

#[test]
fn exchange_type_names_are_translated() {
    assert_eq!(exchange_type_name("p"), "过去式");
    assert_eq!(exchange_type_name("d"), "过去分词");
    assert_eq!(exchange_type_name("i"), "现在分词");
    assert_eq!(exchange_type_name("3"), "第三人称单数");
    assert_eq!(exchange_type_name("r"), "比较级");
    assert_eq!(exchange_type_name("t"), "最高级");
    assert_eq!(exchange_type_name("s"), "复数");
    assert_eq!(exchange_type_name("0"), "原型");
    assert_eq!(exchange_type_name("1"), "原型变换");
    // Unknown keys name themselves.
    assert_eq!(exchange_type_name("zz"), "zz");
}

#[test]
fn parse_pos_formats_known_codes() {
    assert_eq!(parse_pos("v:100/n:50"), "v. 动词 / n. 名词");
    assert_eq!(parse_pos("adj:1"), "adj. 形容词");
    assert_eq!(parse_pos("j:1"), "adj. 形容词");
    assert_eq!(parse_pos("int:9"), "interj. 感叹词");
    assert_eq!(parse_pos("aux:1/num:2"), "aux. 助动词 / num. 数词");
}

#[test]
fn parse_pos_skips_unknown_codes() {
    assert_eq!(parse_pos(""), "");
    assert_eq!(parse_pos("x:1"), "");
    assert_eq!(parse_pos("n"), "");
    assert_eq!(parse_pos("x:1/v:2"), "v. 动词");
}

#[test]
fn popup_scrolls_and_saturates() {
    let mut popup = Popup::new("detail".to_string());
    assert_eq!(popup.scroll, 0);
    popup.scroll_up();
    assert_eq!(popup.scroll, 0);
    popup.scroll_down();
    popup.scroll_down();
    assert_eq!(popup.scroll, 2);
    popup.reset_scroll();
    assert_eq!(popup.scroll, 0);
    assert_eq!(popup.title, "detail");
}

#[test]
fn search_input_edits_value() {
    let mut input = SearchInput::new().with_placeholder("find a word".to_string());
    assert_eq!(input.placeholder, "find a word");
    assert_eq!(input.value, "");
    assert!(input.handle_key(Key::Char('a')));
    assert!(input.handle_key(Key::Char('b')));
    assert_eq!(input.value, "ab");
    assert!(input.handle_key(Key::Backspace));
    assert_eq!(input.value, "a");
    // Backspace on an empty value is accepted and does nothing.
    assert!(input.handle_key(Key::Backspace));
    assert!(input.handle_key(Key::Backspace));
    assert_eq!(input.value, "");
    assert!(!input.handle_key(Key::Enter));
    let default_input = SearchInput::default();
    assert_eq!(default_input.placeholder, "Type to search...");
}

#[test]
fn status_bar_collects_items() {
    let bar = StatusBar::new()
        .add_item("q".to_string(), "quit".to_string())
        .add_item("r".to_string(), "review".to_string());
    assert_eq!(bar.items, vec![pair("q", "quit"), pair("r", "review")]);
    assert_eq!(StatusBar::default().items.len(), 0);
}

#[test]
fn dashboard_keys_navigate() {
    assert_eq!(dashboard_key_action(Key::Char('q')), Action::Quit);
    assert_eq!(
        dashboard_key_action(Key::Char('r')),
        Action::NavigateTo(Screen::Review)
    );
    assert_eq!(
        dashboard_key_action(Key::Char('w')),
        Action::NavigateTo(Screen::Wordbook)
    );
    assert_eq!(
        dashboard_key_action(Key::Char('h')),
        Action::NavigateTo(Screen::History)
    );
    assert_eq!(dashboard_key_action(Key::Esc), Action::Noop);
    assert_eq!(dashboard_key_action(Key::Char('z')), Action::Noop);
}

#[test]
fn wordbook_selection_moves_inside_bounds() {
    let books = vec![
        ("cet4".to_string(), 100usize),
        ("cet6".to_string(), 80),
        ("gre".to_string(), 60),
    ];
    let mut wb = WordbookComponent::new(books);
    assert_eq!(wb.selected_index, 0);
    wb.handle_key(Key::Char('k'));
    assert_eq!(wb.selected_index, 0);
    wb.handle_key(Key::Down);
    wb.handle_key(Key::Char('j'));
    assert_eq!(wb.selected_index, 2);
    wb.handle_key(Key::Char('j'));
    assert_eq!(wb.selected_index, 2);
    wb.handle_key(Key::Home);
    assert_eq!(wb.selected_index, 0);
    wb.handle_key(Key::Char('G'));
    assert_eq!(wb.selected_index, 2);
    wb.handle_key(Key::PageUp);
    assert_eq!(wb.selected_index, 0);
    wb.handle_key(Key::PageDown);
    assert_eq!(wb.selected_index, 2);
}

#[test]
fn wordbook_selects_and_toggles() {
    let books = vec![("ielts".to_string(), 10usize), ("toefl".to_string(), 20)];
    let mut wb = WordbookComponent::new(books);
    assert!(!wb.shuffle_mode);
    assert_eq!(wb.handle_key(Key::Char('s')), Action::Noop);
    assert!(wb.shuffle_mode);
    wb.handle_key(Key::Down);
    assert_eq!(
        wb.handle_key(Key::Enter),
        Action::StartWordbookReview("toefl".to_string(), true)
    );
    assert_eq!(
        wb.handle_key(Key::Esc),
        Action::NavigateTo(Screen::Dashboard)
    );
    assert_eq!(
        wb.handle_key(Key::Char('q')),
        Action::NavigateTo(Screen::Dashboard)
    );
}

#[test]
fn empty_wordbook_selects_nothing() {
    let mut wb = WordbookComponent::new(Vec::new());
    assert_eq!(wb.handle_key(Key::Enter), Action::Noop);
    wb.handle_key(Key::Down);
    assert_eq!(wb.selected_index, 0);
}

fn history_word(id: i64) -> Word {
    Word {
        id: Some(id),
        spelling: format!("word{}", id),
        phonetic: None,
        definition: String::new(),
        translation: None,
        pos: None,
        collins: 0,
        oxford: false,
        tag: None,
        bnc: None,
        frq: None,
        exchange: None,
    }
}

#[test]
fn history_navigates_and_opens_popup() {
    let list = vec![
        (history_word(1), "2024-01-01".to_string(), 3u8),
        (history_word(2), "2024-01-02".to_string(), 1u8),
    ];
    let mut history = HistoryComponent::new(list);
    assert!(!history.show_popup);
    history.handle_key(Key::Char('j'));
    assert_eq!(history.selected_index, 1);
    history.handle_key(Key::Char('j'));
    assert_eq!(history.selected_index, 1);

    assert_eq!(history.handle_key(Key::Enter), Action::Noop);
    assert!(history.show_popup);
    // While the popup is open, j scrolls it instead of the list.
    history.handle_key(Key::Char('j'));
    assert_eq!(history.selected_index, 1);
    assert_eq!(history.popup.scroll, 1);
    history.handle_key(Key::Char('k'));
    assert_eq!(history.popup.scroll, 0);
    // q closes the popup rather than leaving the screen.
    assert_eq!(history.handle_key(Key::Char('q')), Action::Noop);
    assert!(!history.show_popup);
    assert_eq!(
        history.handle_key(Key::Char('q')),
        Action::NavigateTo(Screen::Dashboard)
    );
}

#[test]
fn event_handler_keeps_tick_rate() {
    let handler = EventHandler::new(Duration::from_millis(10));
    assert_eq!(handler.tick_rate, Duration::from_millis(10));
}

#[test]
fn screen_states_compare() {
    assert_eq!(CurrentScreen::Dashboard, CurrentScreen::Dashboard);
    assert_ne!(CurrentScreen::Review, CurrentScreen::Exiting);
    assert_ne!(
        lexrain::screen::ReviewState::Question,
        lexrain::screen::ReviewState::Answer
    );
}
