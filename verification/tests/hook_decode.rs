//! The decode table of the global-hook capture path: exact labels, the
//! platform-specific Meta label, unmapped keys, and modifier
//! classification.

use screenkey::rdev_keys::{is_rdev_modifier, rdev_key_to_string, HookKey, Platform};

#[test]
fn hook_decodes_letters_and_digits() {
    assert_eq!(rdev_key_to_string(HookKey::KeyA, Platform::MacOs), Some("A".to_string()));
    assert_eq!(rdev_key_to_string(HookKey::KeyZ, Platform::Windows), Some("Z".to_string()));
    assert_eq!(rdev_key_to_string(HookKey::Num0, Platform::MacOs), Some("0".to_string()));
    assert_eq!(rdev_key_to_string(HookKey::Num9, Platform::Windows), Some("9".to_string()));
}

#[test]
fn hook_decodes_named_keys() {
    assert_eq!(rdev_key_to_string(HookKey::Space, Platform::MacOs), Some("Space".to_string()));
    assert_eq!(rdev_key_to_string(HookKey::Return, Platform::MacOs), Some("Enter".to_string()));
    assert_eq!(
        rdev_key_to_string(HookKey::Backspace, Platform::MacOs),
        Some("Backspace".to_string())
    );
    assert_eq!(rdev_key_to_string(HookKey::Escape, Platform::MacOs), Some("Esc".to_string()));
    assert_eq!(rdev_key_to_string(HookKey::UpArrow, Platform::MacOs), Some("↑".to_string()));
    assert_eq!(rdev_key_to_string(HookKey::Delete, Platform::MacOs), Some("Delete".to_string()));
    assert_eq!(rdev_key_to_string(HookKey::PageUp, Platform::MacOs), Some("PgUp".to_string()));
    assert_eq!(rdev_key_to_string(HookKey::F12, Platform::MacOs), Some("F12".to_string()));
    assert_eq!(rdev_key_to_string(HookKey::Slash, Platform::MacOs), Some("/".to_string()));
}

#[test]
fn hook_decodes_shared_modifier_labels() {
    for platform in [Platform::MacOs, Platform::Windows] {
        assert_eq!(rdev_key_to_string(HookKey::ShiftLeft, platform), Some("Shift".to_string()));
        assert_eq!(rdev_key_to_string(HookKey::ShiftRight, platform), Some("Shift".to_string()));
        assert_eq!(rdev_key_to_string(HookKey::ControlLeft, platform), Some("Ctrl".to_string()));
        assert_eq!(rdev_key_to_string(HookKey::ControlRight, platform), Some("Ctrl".to_string()));
        assert_eq!(rdev_key_to_string(HookKey::Alt, platform), Some("Alt".to_string()));
        assert_eq!(rdev_key_to_string(HookKey::AltGr, platform), Some("Alt".to_string()));
    }
}

#[test]
fn meta_label_differs_by_platform() {
    assert_eq!(rdev_key_to_string(HookKey::MetaLeft, Platform::MacOs), Some("Cmd".to_string()));
    assert_eq!(rdev_key_to_string(HookKey::MetaRight, Platform::MacOs), Some("Cmd".to_string()));
    assert_eq!(rdev_key_to_string(HookKey::MetaLeft, Platform::Windows), Some("Win".to_string()));
    assert_eq!(rdev_key_to_string(HookKey::MetaRight, Platform::Windows), Some("Win".to_string()));
}

#[test]
fn unmapped_hook_key_decodes_to_none() {
    assert_eq!(rdev_key_to_string(HookKey::Other, Platform::MacOs), None);
    assert_eq!(rdev_key_to_string(HookKey::Other, Platform::Windows), None);
}

#[test]
fn hook_decoding_is_repeatable() {
    assert_eq!(
        rdev_key_to_string(HookKey::KeyA, Platform::MacOs),
        rdev_key_to_string(HookKey::KeyA, Platform::MacOs)
    );
    assert_eq!(
        rdev_key_to_string(HookKey::Other, Platform::Windows),
        rdev_key_to_string(HookKey::Other, Platform::Windows)
    );
}

#[test]
fn classifies_hook_modifiers() {
    assert!(is_rdev_modifier(&HookKey::ShiftLeft));
    assert!(is_rdev_modifier(&HookKey::ShiftRight));
    assert!(is_rdev_modifier(&HookKey::ControlLeft));
    assert!(is_rdev_modifier(&HookKey::ControlRight));
    assert!(is_rdev_modifier(&HookKey::Alt));
    assert!(is_rdev_modifier(&HookKey::AltGr));
    assert!(is_rdev_modifier(&HookKey::MetaLeft));
    assert!(is_rdev_modifier(&HookKey::MetaRight));
    assert!(!is_rdev_modifier(&HookKey::KeyA));
    assert!(!is_rdev_modifier(&HookKey::Space));
    assert!(!is_rdev_modifier(&HookKey::Other));
}
