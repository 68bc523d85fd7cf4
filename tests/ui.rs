use turnchat::messages::{AppInput, UIMessage};
use turnchat::ui::{AppState, Element, Key, UIState, UiAction};

fn in_session(our_turn: bool) -> UIState {
    let mut s = UIState::new();
    s.handle_message(UIMessage::Connected(our_turn));
    s.selected_element = Element::Input;
    s
}

fn type_keys(s: &mut UIState, text: &str) -> Vec<UiAction> {
    text.chars().map(|c| s.handle_input_event(Key::Char(c))).collect()
}

#[test]
fn transcript_joins_parts_with_spaces() {
    let state = AppState::InSession {
        is_our_turn: true,
        content_log: vec!["hello.".to_string(), "hi.".to_string(), "bye.".to_string()],
    };
    assert_eq!(state.content_log(), Some("hello. hi. bye.".to_string()));
    let single = AppState::InSession { is_our_turn: false, content_log: vec!["one.".to_string()] };
    assert_eq!(single.content_log(), Some("one.".to_string()));
    let empty = AppState::InSession { is_our_turn: false, content_log: Vec::new() };
    assert_eq!(empty.content_log(), Some(String::new()));
    assert_eq!(AppState::Waiting.content_log(), None);
}

#[test]
fn connected_starts_an_empty_session() {
    let mut s = UIState::new();
    assert!(matches!(s.app_state, AppState::Waiting));
    assert_eq!(s.selected_element, Element::Connect);
    s.handle_message(UIMessage::Connected(true));
    assert!(matches!(&s.app_state, AppState::InSession { is_our_turn: true, content_log } if content_log.is_empty()));
    assert_eq!(s.log_buffer, vec!["Accepted remote connection".to_string()]);
}

#[test]
fn received_sentence_is_appended_and_gives_the_turn() {
    let mut s = in_session(false);
    s.handle_message(UIMessage::SentenceReceived("hello.".to_string()));
    assert!(matches!(&s.app_state, AppState::InSession { is_our_turn: true, .. }));
    assert_eq!(s.app_state.content_log(), Some("hello.".to_string()));
}

#[test]
fn sent_sentence_is_appended_without_the_turn() {
    let mut s = in_session(false);
    s.handle_message(UIMessage::SentenceSent("hi.".to_string()));
    assert!(matches!(&s.app_state, AppState::InSession { is_our_turn: false, .. }));
    assert_eq!(s.app_state.content_log(), Some("hi.".to_string()));
}

#[test]
fn messages_while_waiting_keep_waiting() {
    let mut s = UIState::new();
    s.handle_message(UIMessage::SentenceReceived("hello.".to_string()));
    assert!(matches!(s.app_state, AppState::Waiting));
    s.handle_message(UIMessage::Log("line".to_string()));
    assert_eq!(s.log_buffer, vec!["line".to_string()]);
    s.handle_message(UIMessage::Connected(false));
    assert_eq!(s.log_buffer.len(), 2);
    s.handle_message(UIMessage::Disconnected);
    assert!(matches!(s.app_state, AppState::Waiting));
}

#[test]
fn delimiter_sends_the_sentence_and_passes_the_turn() {
    let mut s = in_session(true);
    let actions = type_keys(&mut s, "hi.");
    assert!(matches!(actions[0], UiAction::Nothing));
    assert!(matches!(actions[1], UiAction::Nothing));
    assert!(matches!(&actions[2], UiAction::Send(AppInput::Input(t)) if t == "hi."));
    assert!(matches!(&s.app_state, AppState::InSession { is_our_turn: true, .. }));
    s.sentence_handed_over();
    assert!(s.input_buffer.is_empty());
    assert!(matches!(&s.app_state, AppState::InSession { is_our_turn: false, .. }));
}

#[test]
fn turn_is_kept_until_the_sentence_is_handed_over() {
    let mut s = in_session(true);
    type_keys(&mut s, "hi.");
    assert_eq!(s.input_buffer, vec!['h', 'i', '.']);
    assert!(matches!(&s.app_state, AppState::InSession { is_our_turn: true, content_log } if content_log.is_empty()));
}

#[test]
fn hand_over_while_waiting_changes_nothing() {
    let mut s = UIState::new();
    type_keys(&mut s, "1");
    s.sentence_handed_over();
    assert_eq!(s.address_buffer, vec!['1']);
    assert!(matches!(s.app_state, AppState::Waiting));
}

#[test]
fn typing_out_of_turn_is_ignored() {
    let mut s = in_session(false);
    let actions = type_keys(&mut s, "hi.");
    assert!(actions.iter().all(|a| matches!(a, UiAction::Nothing)));
    assert!(s.input_buffer.is_empty());
}

#[test]
fn enter_dials_the_typed_address() {
    let mut s = UIState::new();
    type_keys(&mut s, "127.0.0.1:9001");
    assert_eq!(s.address_buffer.iter().collect::<String>(), "127.0.0.1:9001");
    let a = s.handle_input_event(Key::Enter);
    assert!(matches!(&a, UiAction::Send(AppInput::Connect(t)) if t == "127.0.0.1:9001"));
}

#[test]
fn backspace_erases_in_the_focused_buffer() {
    let mut s = UIState::new();
    type_keys(&mut s, "12");
    assert_eq!(s.handle_independent_event(Key::Backspace), Some(false));
    assert_eq!(s.address_buffer, vec!['1']);
    s.handle_independent_event(Key::Backspace);
    assert_eq!(s.handle_independent_event(Key::Backspace), Some(false));
    assert!(s.address_buffer.is_empty());
}

#[test]
fn arrows_move_the_focus() {
    let mut s = UIState::new();
    assert_eq!(s.handle_independent_event(Key::Left), None);
    assert_eq!(s.selected_element, Element::Input);
    assert_eq!(s.handle_independent_event(Key::Left), None);
    assert_eq!(s.selected_element, Element::Input);
    assert_eq!(s.handle_independent_event(Key::Right), None);
    assert_eq!(s.selected_element, Element::Connect);
}

#[test]
fn escape_quits() {
    let mut s = in_session(true);
    assert!(matches!(s.handle_input_event(Key::Esc), UiAction::Quit));
    assert_eq!(s.handle_independent_event(Key::Esc), Some(true));
    assert_eq!(s.handle_independent_event(Key::Other), None);
}
