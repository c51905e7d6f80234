//! The decode table of the device capture path: exact labels, unmapped
//! codes, and modifier classification.

use screenkey::keycode::{
    is_modifier, key_to_string, KEY_0, KEY_9, KEY_A, KEY_APOSTROPHE, KEY_BACKSLASH, KEY_BACKSPACE,
    KEY_COMMA, KEY_DELETE, KEY_DOT, KEY_DOWN, KEY_END, KEY_ENTER, KEY_EQUAL, KEY_ESC, KEY_F1,
    KEY_F10, KEY_F12, KEY_GRAVE, KEY_HOME, KEY_LEFT, KEY_LEFTALT, KEY_LEFTBRACE, KEY_LEFTCTRL,
    KEY_LEFTMETA, KEY_LEFTSHIFT, KEY_MINUS, KEY_PAGEDOWN, KEY_PAGEUP, KEY_RIGHT, KEY_RIGHTALT,
    KEY_RIGHTBRACE, KEY_RIGHTCTRL, KEY_RIGHTMETA, KEY_RIGHTSHIFT, KEY_SEMICOLON, KEY_SLASH,
    KEY_SPACE, KEY_TAB, KEY_UP, KEY_Z,
};

#[test]
fn decodes_letters() {
    assert_eq!(key_to_string(KEY_A), Some("A".to_string()));
    assert_eq!(key_to_string(KEY_Z), Some("Z".to_string()));
}

#[test]
fn decodes_digits() {
    assert_eq!(key_to_string(KEY_0), Some("0".to_string()));
    assert_eq!(key_to_string(KEY_9), Some("9".to_string()));
}

#[test]
fn decodes_whitespace_and_editing_keys() {
    assert_eq!(key_to_string(KEY_SPACE), Some("Space".to_string()));
    assert_eq!(key_to_string(KEY_ENTER), Some("Enter".to_string()));
    assert_eq!(key_to_string(KEY_BACKSPACE), Some("Backspace".to_string()));
    assert_eq!(key_to_string(KEY_TAB), Some("Tab".to_string()));
    assert_eq!(key_to_string(KEY_ESC), Some("Esc".to_string()));
    assert_eq!(key_to_string(KEY_DELETE), Some("Delete".to_string()));
}

#[test]
fn decodes_navigation_keys() {
    assert_eq!(key_to_string(KEY_UP), Some("↑".to_string()));
    assert_eq!(key_to_string(KEY_DOWN), Some("↓".to_string()));
    assert_eq!(key_to_string(KEY_LEFT), Some("←".to_string()));
    assert_eq!(key_to_string(KEY_RIGHT), Some("→".to_string()));
    assert_eq!(key_to_string(KEY_HOME), Some("Home".to_string()));
    assert_eq!(key_to_string(KEY_END), Some("End".to_string()));
    assert_eq!(key_to_string(KEY_PAGEUP), Some("PgUp".to_string()));
    assert_eq!(key_to_string(KEY_PAGEDOWN), Some("PgDn".to_string()));
}

#[test]
fn decodes_function_keys() {
    assert_eq!(key_to_string(KEY_F1), Some("F1".to_string()));
    assert_eq!(key_to_string(KEY_F10), Some("F10".to_string()));
    assert_eq!(key_to_string(KEY_F12), Some("F12".to_string()));
}

#[test]
fn decodes_punctuation() {
    assert_eq!(key_to_string(KEY_MINUS), Some("-".to_string()));
    assert_eq!(key_to_string(KEY_EQUAL), Some("=".to_string()));
    assert_eq!(key_to_string(KEY_LEFTBRACE), Some("[".to_string()));
    assert_eq!(key_to_string(KEY_RIGHTBRACE), Some("]".to_string()));
    assert_eq!(key_to_string(KEY_SEMICOLON), Some(";".to_string()));
    assert_eq!(key_to_string(KEY_APOSTROPHE), Some("'".to_string()));
    assert_eq!(key_to_string(KEY_GRAVE), Some("`".to_string()));
    assert_eq!(key_to_string(KEY_BACKSLASH), Some("\\".to_string()));
    assert_eq!(key_to_string(KEY_COMMA), Some(",".to_string()));
    assert_eq!(key_to_string(KEY_DOT), Some(".".to_string()));
    assert_eq!(key_to_string(KEY_SLASH), Some("/".to_string()));
}

#[test]
fn decodes_modifier_labels() {
    assert_eq!(key_to_string(KEY_LEFTSHIFT), Some("Shift".to_string()));
    assert_eq!(key_to_string(KEY_RIGHTSHIFT), Some("Shift".to_string()));
    assert_eq!(key_to_string(KEY_LEFTCTRL), Some("Ctrl".to_string()));
    assert_eq!(key_to_string(KEY_RIGHTCTRL), Some("Ctrl".to_string()));
    assert_eq!(key_to_string(KEY_LEFTALT), Some("Alt".to_string()));
    assert_eq!(key_to_string(KEY_RIGHTALT), Some("Alt".to_string()));
    assert_eq!(key_to_string(KEY_LEFTMETA), Some("Super".to_string()));
    assert_eq!(key_to_string(KEY_RIGHTMETA), Some("Super".to_string()));
}

#[test]
fn unmapped_codes_decode_to_none() {
    // 0 is reserved, 55 the keypad asterisk, 58 caps lock, 69 num lock:
    // none of them is in the table, and neither is anything far outside it.
    assert_eq!(key_to_string(0), None);
    assert_eq!(key_to_string(55), None);
    assert_eq!(key_to_string(58), None);
    assert_eq!(key_to_string(69), None);
    assert_eq!(key_to_string(999), None);
    assert_eq!(key_to_string(u16::MAX), None);
}

#[test]
fn decoding_is_repeatable() {
    assert_eq!(key_to_string(KEY_A), key_to_string(KEY_A));
    assert_eq!(key_to_string(58), key_to_string(58));
}

#[test]
fn classifies_modifiers() {
    assert!(is_modifier(KEY_LEFTSHIFT));
    assert!(is_modifier(KEY_RIGHTSHIFT));
    assert!(is_modifier(KEY_LEFTCTRL));
    assert!(is_modifier(KEY_RIGHTCTRL));
    assert!(is_modifier(KEY_LEFTALT));
    assert!(is_modifier(KEY_RIGHTALT));
    assert!(is_modifier(KEY_LEFTMETA));
    assert!(is_modifier(KEY_RIGHTMETA));
    assert!(!is_modifier(KEY_A));
    assert!(!is_modifier(KEY_SPACE));
    assert!(!is_modifier(KEY_ESC));
    assert!(!is_modifier(0));
}
