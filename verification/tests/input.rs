use rustmission::action::{KeyCode, KeyEvent, MOD_CONTROL, MOD_SHIFT};
use rustmission::input::InputManager;

fn typed(input: &mut InputManager, text: &str) {
    for c in text.chars() {
        assert!(input.handle_key(KeyEvent::plain(KeyCode::Char(c))));
    }
}

#[test]
fn a_new_field_is_empty() {
    let input = InputManager::new("Name: ".to_string());
    assert_eq!(input.prompt, "Name: ");
    assert_eq!(input.text(), "");
    assert_eq!(input.cursor, 0);
}

#[test]
fn a_field_with_a_value_has_the_cursor_behind_it() {
    let input = InputManager::new_with_value("Dir: ".to_string(), "/tmp/päth".to_string());
    assert_eq!(input.text(), "/tmp/päth");
    assert_eq!(input.cursor, 9);
}

#[test]
fn typing_appends_at_the_cursor() {
    let mut input = InputManager::new(String::new());
    typed(&mut input, "abc");
    assert_eq!(input.text(), "abc");
    assert_eq!(input.cursor, 3);
    assert!(input.handle_key(KeyEvent::plain(KeyCode::Left)));
    assert!(input.handle_key(KeyEvent::plain(KeyCode::Char('X'))));
    assert_eq!(input.text(), "abXc");
    assert_eq!(input.cursor, 3);
}

#[test]
fn shifted_letters_are_typed_too() {
    let mut input = InputManager::new(String::new());
    let key = KeyEvent { code: KeyCode::Char('A'), modifiers: MOD_SHIFT };
    assert!(input.handle_key(key));
    assert_eq!(input.text(), "A");
}

#[test]
fn editing_keys_edit() {
    let mut input = InputManager::new_with_value(String::new(), "hello".to_string());
    assert!(input.handle_key(KeyEvent::plain(KeyCode::Backspace)));
    assert_eq!(input.text(), "hell");
    assert!(input.handle_key(KeyEvent::plain(KeyCode::Home)));
    assert_eq!(input.cursor, 0);
    assert!(input.handle_key(KeyEvent::plain(KeyCode::Delete)));
    assert_eq!(input.text(), "ell");
    assert!(input.handle_key(KeyEvent::plain(KeyCode::End)));
    assert_eq!(input.cursor, 3);
    assert!(input.handle_key(KeyEvent { code: KeyCode::Char('u'), modifiers: MOD_CONTROL }));
    assert_eq!(input.text(), "");
    assert_eq!(input.cursor, 0);
}

#[test]
fn keys_without_a_meaning_change_nothing() {
    let mut input = InputManager::new_with_value(String::new(), "abc".to_string());
    for code in [KeyCode::Enter, KeyCode::Esc, KeyCode::Tab, KeyCode::Up, KeyCode::Down, KeyCode::Other]
    {
        assert!(!input.handle_key(KeyEvent::plain(code)));
        assert_eq!(input.text(), "abc");
        assert_eq!(input.cursor, 3);
    }
    assert!(!input.handle_key(KeyEvent::plain(KeyCode::Right)));
    let mut empty = InputManager::new(String::new());
    assert!(!empty.handle_key(KeyEvent::plain(KeyCode::Backspace)));
}

#[test]
fn handle_edits_like_handle_key() {
    let mut input = InputManager::new(String::new());
    input.handle(KeyEvent::plain(KeyCode::Char('z')));
    assert_eq!(input.text(), "z");
}

#[test]
fn text_and_prompt_can_be_replaced() {
    let mut input = InputManager::new("a".to_string());
    input.set_text("magnet:?xt=1".to_string());
    assert_eq!(input.text(), "magnet:?xt=1");
    assert_eq!(input.cursor, 12);
    input.set_prompt("b".to_string());
    assert_eq!(input.prompt, "b");
    assert_eq!(input.text(), "magnet:?xt=1");
}

#[test]
fn edit_keys_are_told_from_the_others() {
    for code in [
        KeyCode::Char('a'),
        KeyCode::Backspace,
        KeyCode::Delete,
        KeyCode::Left,
        KeyCode::Right,
        KeyCode::Home,
        KeyCode::End,
    ] {
        assert!(InputManager::is_edit_key(KeyEvent::plain(code)));
    }
    for code in [KeyCode::Enter, KeyCode::Esc, KeyCode::Tab, KeyCode::Up, KeyCode::Down, KeyCode::Other]
    {
        assert!(!InputManager::is_edit_key(KeyEvent::plain(code)));
    }
    assert!(InputManager::is_edit_key(KeyEvent { code: KeyCode::Char('w'), modifiers: MOD_CONTROL }));
    assert!(!InputManager::is_edit_key(KeyEvent { code: KeyCode::Char('z'), modifiers: MOD_CONTROL }));
}
