use souris_dw::tui::app::InputMode;
use souris_dw::tui::events::{handle_key_event, Action, Key, KeyPress};
use souris_dw::tui::state::{tui_key, TuiEffect, TuiState};
use souris_dw::tui::theme::{format_duration, format_elapsed};

fn press(key: Key) -> KeyPress {
    KeyPress { key, control: false }
}

#[test]
fn durations() {
    assert_eq!(format_duration(0), "00:00");
    assert_eq!(format_duration(59), "00:59");
    assert_eq!(format_duration(61), "01:01");
    assert_eq!(format_duration(3600), "01:00:00");
    assert_eq!(format_duration(3725), "01:02:05");
    assert_eq!(format_duration(360000), "100:00:00");
    assert_eq!(format_elapsed(75), "01:15");
    assert_eq!(format_elapsed(6000), "100:00");
}

#[test]
fn keys() {
    assert_eq!(handle_key_event(press(Key::Char('q'))), Some(Action::Quit));
    assert_eq!(handle_key_event(press(Key::Esc)), Some(Action::Quit));
    assert_eq!(handle_key_event(KeyPress { key: Key::Char('c'), control: true }), Some(Action::Quit));
    assert_eq!(handle_key_event(press(Key::Char('c'))), Some(Action::Cancel));
    assert_eq!(handle_key_event(press(Key::Char('G'))), Some(Action::MoveLast));
    assert_eq!(handle_key_event(press(Key::Home)), Some(Action::MoveFirst));
    assert_eq!(handle_key_event(press(Key::Char('?'))), Some(Action::Help));
    assert_eq!(handle_key_event(press(Key::Delete)), Some(Action::Delete));
    assert_eq!(handle_key_event(press(Key::Enter)), Some(Action::Confirm));
    assert_eq!(handle_key_event(press(Key::Char('x'))), None);
    assert_eq!(handle_key_event(press(Key::Other)), None);
}

#[test]
fn documented_search_and_copy_keys() {
    assert_eq!(handle_key_event(KeyPress { key: Key::Char('f'), control: true }), Some(Action::Search));
    assert_eq!(handle_key_event(press(Key::Char('f'))), None);
    assert_eq!(handle_key_event(press(Key::Char('/'))), Some(Action::Search));
    assert_eq!(handle_key_event(press(Key::Char('y'))), Some(Action::CopyUrl));
}

fn step(s: TuiState, key: Key) -> (TuiState, TuiEffect) {
    tui_key(s, press(key))
}

#[test]
fn selection_moves_within_the_list() {
    let s = TuiState::new().with_item_count(3);
    let (s, e) = step(s, Key::Char('j'));
    assert_eq!((s.selected_index, e), (1, TuiEffect::Nothing));
    let (s, _) = step(s, Key::Down);
    let (s, _) = step(s, Key::Down);
    assert_eq!(s.selected_index, 2);
    let (s, _) = step(s, Key::Char('g'));
    assert_eq!(s.selected_index, 0);
    let (s, _) = step(s, Key::Up);
    assert_eq!(s.selected_index, 0);
    let (s, _) = step(s, Key::End);
    assert_eq!(s.selected_index, 2);
    let (s, e) = step(s, Key::Char('d'));
    assert_eq!(e, TuiEffect::DeleteItem(2));
    assert_eq!((s.selected_index, s.item_count), (1, 2));
    let (s, e) = step(s, Key::Char('y'));
    assert_eq!(e, TuiEffect::CopyUrl(1));
    let s = s.with_item_count(0);
    assert_eq!(s.selected_index, 0);
    let (_, e) = step(s, Key::Char('d'));
    assert_eq!(e, TuiEffect::Nothing);
}

#[test]
fn typing_a_url_starts_a_download() {
    let (s, _) = step(TuiState::new(), Key::Char('a'));
    assert_eq!(s.input_mode, InputMode::Input);
    let (s, e) = step(s, Key::Enter);
    assert_eq!(e, TuiEffect::Nothing);
    let mut s = s;
    for c in "xyz".chars() {
        s = step(s, Key::Char(c)).0;
    }
    let (s, _) = step(s, Key::Backspace);
    let (s, _) = step(s, Key::Char('q'));
    let (s, e) = step(s, Key::Enter);
    assert_eq!(e, TuiEffect::StartDownload("xyq".to_string()));
    assert_eq!(s.input_mode, InputMode::Normal);
    assert!(s.input_buffer.is_empty());
}

#[test]
fn search_escape_and_quit() {
    let (s, _) = tui_key(TuiState::new(), KeyPress { key: Key::Char('f'), control: true });
    assert_eq!(s.input_mode, InputMode::Search);
    let (s, _) = step(s, Key::Char('a'));
    let (s2, e) = step(s.clone(), Key::Enter);
    assert_eq!(e, TuiEffect::RunSearch("a".to_string()));
    assert_eq!(s2.input_mode, InputMode::Normal);
    let (s, e) = step(s, Key::Esc);
    assert_eq!((s.input_mode, e), (InputMode::Normal, TuiEffect::Nothing));
    assert!(s.input_buffer.is_empty());
    let (s, _) = step(s, Key::Char('h'));
    assert!(s.show_help);
    let (s, e) = step(s, Key::Esc);
    assert!(!s.show_help);
    assert_eq!(e, TuiEffect::Nothing);
    let (s, e) = step(s, Key::Char('q'));
    assert_eq!(e, TuiEffect::Quit);
    let (s, _) = step(s, Key::Char('s'));
    let (_, e) = tui_key(s, KeyPress { key: Key::Char('c'), control: true });
    assert_eq!(e, TuiEffect::Quit);
}
