use notepad_shell::machine::InputKey;
use notepad_shell::machine::ScreenState;
use notepad_shell::machine::ScreenStateMachine;

fn chars(s: &str) -> Vec<char> {
    s.chars().collect()
}

#[test]
fn initial_state() {
    let m = ScreenStateMachine::new();
    assert_eq!(m.state, ScreenState::Main);
    assert_eq!(m.menu.selected, Some(0));
    assert_eq!(m.menu.items.len(), 4);
    assert_eq!(m.menu.selected_label(), "New File");
    assert!(m.buffer.content.is_empty());
}

#[test]
fn three_downs_select_quit_and_enter_exits() {
    let mut m = ScreenStateMachine::new();
    m.handle_key(InputKey::Down);
    m.handle_key(InputKey::Down);
    m.handle_key(InputKey::Down);
    assert_eq!(m.menu.selected, Some(3));
    assert_eq!(m.menu.selected_label(), "Quit");
    m.handle_key(InputKey::Enter);
    assert_eq!(m.state, ScreenState::Exiting);
}

#[test]
fn editing_session_types_and_returns() {
    let mut m = ScreenStateMachine::new();
    m.handle_key(InputKey::Char('e'));
    assert_eq!(m.state, ScreenState::Editing);
    m.handle_key(InputKey::Char('h'));
    m.handle_key(InputKey::Char('i'));
    m.handle_key(InputKey::Enter);
    m.handle_key(InputKey::Char('y'));
    m.handle_key(InputKey::Char('o'));
    assert_eq!(m.buffer.content, chars("hi\nyo"));
    m.handle_key(InputKey::Esc);
    assert_eq!(m.state, ScreenState::Main);
    assert_eq!(m.buffer.content, chars("hi\nyo"));
}

#[test]
fn open_shows_popup_and_esc_returns() {
    let mut m = ScreenStateMachine::new();
    m.handle_key(InputKey::Down);
    assert_eq!(m.menu.selected, Some(1));
    assert_eq!(m.menu.selected_label(), "Open");
    m.handle_key(InputKey::Enter);
    assert_eq!(m.state, ScreenState::Popup);
    m.handle_key(InputKey::Esc);
    assert_eq!(m.state, ScreenState::Main);
}

#[test]
fn popup_closes_on_enter_and_ignores_other_keys() {
    let mut m = ScreenStateMachine::new();
    m.handle_key(InputKey::Down);
    m.handle_key(InputKey::Enter);
    assert_eq!(m.state, ScreenState::Popup);
    m.handle_key(InputKey::Down);
    m.handle_key(InputKey::Char('x'));
    m.handle_key(InputKey::Backspace);
    assert_eq!(m.state, ScreenState::Popup);
    assert!(m.buffer.content.is_empty());
    m.handle_key(InputKey::Enter);
    assert_eq!(m.state, ScreenState::Main);
}

#[test]
fn q_key_exits_from_main() {
    let mut m = ScreenStateMachine::new();
    m.handle_key(InputKey::Char('q'));
    assert_eq!(m.state, ScreenState::Exiting);
}

#[test]
fn enter_on_new_file_and_save_is_a_noop() {
    let mut m = ScreenStateMachine::new();
    m.handle_key(InputKey::Enter);
    assert_eq!(m.state, ScreenState::Main);
    m.handle_key(InputKey::Down);
    m.handle_key(InputKey::Down);
    assert_eq!(m.menu.selected_label(), "Save");
    m.handle_key(InputKey::Enter);
    assert_eq!(m.state, ScreenState::Main);
}

#[test]
fn backspace_while_editing_empty_buffer_is_a_noop() {
    let mut m = ScreenStateMachine::new();
    m.handle_key(InputKey::Char('e'));
    m.handle_key(InputKey::Backspace);
    assert_eq!(m.state, ScreenState::Editing);
    assert!(m.buffer.content.is_empty());
}

#[test]
fn exiting_ignores_everything() {
    let mut m = ScreenStateMachine::new();
    m.handle_key(InputKey::Char('q'));
    m.handle_key(InputKey::Char('e'));
    m.handle_key(InputKey::Down);
    m.handle_key(InputKey::Enter);
    assert_eq!(m.state, ScreenState::Exiting);
    assert_eq!(m.menu.selected, Some(0));
}

#[test]
fn unrecognized_keys_are_ignored_in_main_and_editing() {
    let mut m = ScreenStateMachine::new();
    m.handle_key(InputKey::Other);
    m.handle_key(InputKey::Backspace);
    m.handle_key(InputKey::Esc);
    assert_eq!(m.state, ScreenState::Main);
    assert_eq!(m.menu.selected, Some(0));
    m.handle_key(InputKey::Char('e'));
    m.handle_key(InputKey::Other);
    m.handle_key(InputKey::Down);
    m.handle_key(InputKey::Up);
    assert_eq!(m.state, ScreenState::Editing);
    assert!(m.buffer.content.is_empty());
}

#[test]
fn up_from_first_wraps_to_quit() {
    let mut m = ScreenStateMachine::new();
    m.handle_key(InputKey::Up);
    assert_eq!(m.menu.selected, Some(3));
    assert_eq!(m.menu.selected_label(), "Quit");
}
