//! The set of held modifiers: idempotent press, harmless release of a key
//! that is not held, and insertion order.

use screenkey::modifier_set::ModifierSet;

#[test]
fn new_set_is_empty() {
    let set = ModifierSet::new();
    assert_eq!(set.len(), 0);
    assert!(set.snapshot().is_empty());
}

#[test]
fn press_adds_the_label() {
    let mut set = ModifierSet::new();
    set.press("Shift".to_string());
    assert_eq!(set.len(), 1);
    assert!(set.is_held(&"Shift".to_string()));
    assert!(!set.is_held(&"Ctrl".to_string()));
}

#[test]
fn pressing_twice_leaves_the_size_unchanged() {
    let mut set = ModifierSet::new();
    set.press("Shift".to_string());
    set.press("Shift".to_string());
    assert_eq!(set.len(), 1);
    assert_eq!(set.snapshot(), vec!["Shift".to_string()]);
}

#[test]
fn releasing_a_label_that_is_not_held_is_a_no_op() {
    let mut set = ModifierSet::new();
    set.press("Ctrl".to_string());
    set.release(&"Shift".to_string());
    assert_eq!(set.snapshot(), vec!["Ctrl".to_string()]);
    let mut empty = ModifierSet::new();
    empty.release(&"Alt".to_string());
    assert_eq!(empty.len(), 0);
}

#[test]
fn release_removes_only_the_released_label() {
    let mut set = ModifierSet::new();
    set.press("Shift".to_string());
    set.press("Ctrl".to_string());
    set.press("Alt".to_string());
    set.release(&"Ctrl".to_string());
    assert_eq!(set.snapshot(), vec!["Shift".to_string(), "Alt".to_string()]);
}

#[test]
fn snapshot_keeps_insertion_order() {
    let mut set = ModifierSet::new();
    set.press("Ctrl".to_string());
    set.press("Alt".to_string());
    set.press("Shift".to_string());
    assert_eq!(
        set.snapshot(),
        vec!["Ctrl".to_string(), "Alt".to_string(), "Shift".to_string()]
    );
    // A re-press of an already held label does not move it to the back.
    set.press("Ctrl".to_string());
    assert_eq!(
        set.snapshot(),
        vec!["Ctrl".to_string(), "Alt".to_string(), "Shift".to_string()]
    );
}

#[test]
fn release_and_press_again_moves_the_label_to_the_back() {
    let mut set = ModifierSet::new();
    set.press("Ctrl".to_string());
    set.press("Alt".to_string());
    set.release(&"Ctrl".to_string());
    set.press("Ctrl".to_string());
    assert_eq!(set.snapshot(), vec!["Alt".to_string(), "Ctrl".to_string()]);
}
