//! Decoding of Linux kernel input event codes into display labels, and
//! classification of the held-modifier keys.

use vstd::prelude::*;

verus! {

// Linux kernel input event codes for the keys that the overlay displays.
pub const KEY_ESC: u16 = 1;
pub const KEY_1: u16 = 2;
pub const KEY_2: u16 = 3;
pub const KEY_3: u16 = 4;
pub const KEY_4: u16 = 5;
pub const KEY_5: u16 = 6;
pub const KEY_6: u16 = 7;
pub const KEY_7: u16 = 8;
pub const KEY_8: u16 = 9;
pub const KEY_9: u16 = 10;
pub const KEY_0: u16 = 11;
pub const KEY_MINUS: u16 = 12;
pub const KEY_EQUAL: u16 = 13;
pub const KEY_BACKSPACE: u16 = 14;
pub const KEY_TAB: u16 = 15;
pub const KEY_Q: u16 = 16;
pub const KEY_W: u16 = 17;
pub const KEY_E: u16 = 18;
pub const KEY_R: u16 = 19;
pub const KEY_T: u16 = 20;
pub const KEY_Y: u16 = 21;
pub const KEY_U: u16 = 22;
pub const KEY_I: u16 = 23;
pub const KEY_O: u16 = 24;
pub const KEY_P: u16 = 25;
pub const KEY_LEFTBRACE: u16 = 26;
pub const KEY_RIGHTBRACE: u16 = 27;
pub const KEY_ENTER: u16 = 28;
pub const KEY_LEFTCTRL: u16 = 29;
pub const KEY_A: u16 = 30;
pub const KEY_S: u16 = 31;
pub const KEY_D: u16 = 32;
pub const KEY_F: u16 = 33;
pub const KEY_G: u16 = 34;
pub const KEY_H: u16 = 35;
pub const KEY_J: u16 = 36;
pub const KEY_K: u16 = 37;
pub const KEY_L: u16 = 38;
pub const KEY_SEMICOLON: u16 = 39;
pub const KEY_APOSTROPHE: u16 = 40;
pub const KEY_GRAVE: u16 = 41;
pub const KEY_LEFTSHIFT: u16 = 42;
pub const KEY_BACKSLASH: u16 = 43;
pub const KEY_Z: u16 = 44;
pub const KEY_X: u16 = 45;
pub const KEY_C: u16 = 46;
pub const KEY_V: u16 = 47;
pub const KEY_B: u16 = 48;
pub const KEY_N: u16 = 49;
pub const KEY_M: u16 = 50;
pub const KEY_COMMA: u16 = 51;
pub const KEY_DOT: u16 = 52;
pub const KEY_SLASH: u16 = 53;
pub const KEY_RIGHTSHIFT: u16 = 54;
pub const KEY_LEFTALT: u16 = 56;
pub const KEY_SPACE: u16 = 57;
pub const KEY_F1: u16 = 59;
pub const KEY_F2: u16 = 60;
pub const KEY_F3: u16 = 61;
pub const KEY_F4: u16 = 62;
pub const KEY_F5: u16 = 63;
pub const KEY_F6: u16 = 64;
pub const KEY_F7: u16 = 65;
pub const KEY_F8: u16 = 66;
pub const KEY_F9: u16 = 67;
pub const KEY_F10: u16 = 68;
pub const KEY_F11: u16 = 87;
pub const KEY_F12: u16 = 88;
pub const KEY_RIGHTCTRL: u16 = 97;
pub const KEY_RIGHTALT: u16 = 100;
pub const KEY_HOME: u16 = 102;
pub const KEY_UP: u16 = 103;
pub const KEY_PAGEUP: u16 = 104;
pub const KEY_LEFT: u16 = 105;
pub const KEY_RIGHT: u16 = 106;
pub const KEY_END: u16 = 107;
pub const KEY_DOWN: u16 = 108;
pub const KEY_PAGEDOWN: u16 = 109;
pub const KEY_DELETE: u16 = 111;
pub const KEY_LEFTMETA: u16 = 125;
pub const KEY_RIGHTMETA: u16 = 126;

/// The decode table: the display label of a key code, or `None` when the
/// code has no mapping.
pub open spec fn spec_key_label(code: u16) -> Option<Seq<char>> {
    if code == KEY_A { Some("A"@) }
    else if code == KEY_B { Some("B"@) }
    else if code == KEY_C { Some("C"@) }
    else if code == KEY_D { Some("D"@) }
    else if code == KEY_E { Some("E"@) }
    else if code == KEY_F { Some("F"@) }
    else if code == KEY_G { Some("G"@) }
    else if code == KEY_H { Some("H"@) }
    else if code == KEY_I { Some("I"@) }
    else if code == KEY_J { Some("J"@) }
    else if code == KEY_K { Some("K"@) }
    else if code == KEY_L { Some("L"@) }
    else if code == KEY_M { Some("M"@) }
    else if code == KEY_N { Some("N"@) }
    else if code == KEY_O { Some("O"@) }
    else if code == KEY_P { Some("P"@) }
    else if code == KEY_Q { Some("Q"@) }
    else if code == KEY_R { Some("R"@) }
    else if code == KEY_S { Some("S"@) }
    else if code == KEY_T { Some("T"@) }
    else if code == KEY_U { Some("U"@) }
    else if code == KEY_V { Some("V"@) }
    else if code == KEY_W { Some("W"@) }
    else if code == KEY_X { Some("X"@) }
    else if code == KEY_Y { Some("Y"@) }
    else if code == KEY_Z { Some("Z"@) }
    else if code == KEY_0 { Some("0"@) }
    else if code == KEY_1 { Some("1"@) }
    else if code == KEY_2 { Some("2"@) }
    else if code == KEY_3 { Some("3"@) }
    else if code == KEY_4 { Some("4"@) }
    else if code == KEY_5 { Some("5"@) }
    else if code == KEY_6 { Some("6"@) }
    else if code == KEY_7 { Some("7"@) }
    else if code == KEY_8 { Some("8"@) }
    else if code == KEY_9 { Some("9"@) }
    else if code == KEY_SPACE { Some("Space"@) }
    else if code == KEY_ENTER { Some("Enter"@) }
    else if code == KEY_BACKSPACE { Some("Backspace"@) }
    else if code == KEY_TAB { Some("Tab"@) }
    else if code == KEY_ESC { Some("Esc"@) }
    else if code == KEY_UP { Some("↑"@) }
    else if code == KEY_DOWN { Some("↓"@) }
    else if code == KEY_LEFT { Some("←"@) }
    else if code == KEY_RIGHT { Some("→"@) }
    else if code == KEY_DELETE { Some("Delete"@) }
    else if code == KEY_HOME { Some("Home"@) }
    else if code == KEY_END { Some("End"@) }
    else if code == KEY_PAGEUP { Some("PgUp"@) }
    else if code == KEY_PAGEDOWN { Some("PgDn"@) }
    else if code == KEY_F1 { Some("F1"@) }
    else if code == KEY_F2 { Some("F2"@) }
    else if code == KEY_F3 { Some("F3"@) }
    else if code == KEY_F4 { Some("F4"@) }
    else if code == KEY_F5 { Some("F5"@) }
    else if code == KEY_F6 { Some("F6"@) }
    else if code == KEY_F7 { Some("F7"@) }
    else if code == KEY_F8 { Some("F8"@) }
    else if code == KEY_F9 { Some("F9"@) }
    else if code == KEY_F10 { Some("F10"@) }
    else if code == KEY_F11 { Some("F11"@) }
    else if code == KEY_F12 { Some("F12"@) }
    else if code == KEY_LEFTSHIFT || code == KEY_RIGHTSHIFT { Some("Shift"@) }
    else if code == KEY_LEFTCTRL || code == KEY_RIGHTCTRL { Some("Ctrl"@) }
    else if code == KEY_LEFTALT || code == KEY_RIGHTALT { Some("Alt"@) }
    else if code == KEY_LEFTMETA || code == KEY_RIGHTMETA { Some("Super"@) }
    else if code == KEY_MINUS { Some("-"@) }
    else if code == KEY_EQUAL { Some("="@) }
    else if code == KEY_LEFTBRACE { Some("["@) }
    else if code == KEY_RIGHTBRACE { Some("]"@) }
    else if code == KEY_SEMICOLON { Some(";"@) }
    else if code == KEY_APOSTROPHE { Some("'"@) }
    else if code == KEY_GRAVE { Some("`"@) }
    else if code == KEY_BACKSLASH { Some("\\"@) }
    else if code == KEY_COMMA { Some(","@) }
    else if code == KEY_DOT { Some("."@) }
    else if code == KEY_SLASH { Some("/"@) }
    else { None }
}

/// A code is mapped when the decode table gives it a display label.
pub open spec fn is_mapped(code: u16) -> bool {
    spec_key_label(code) is Some
}

/// Whether a code is one of the held-modifier keys: Shift, Ctrl, Alt or
/// Super, in the left or the right variant.
pub open spec fn spec_is_modifier(code: u16) -> bool {
    code == KEY_LEFTSHIFT || code == KEY_RIGHTSHIFT
    || code == KEY_LEFTCTRL || code == KEY_RIGHTCTRL
    || code == KEY_LEFTALT || code == KEY_RIGHTALT
    || code == KEY_LEFTMETA || code == KEY_RIGHTMETA
}

/// Whether a display label names one of the held modifiers.
pub open spec fn is_modifier_label(label: Seq<char>) -> bool {
    label == "Shift"@ || label == "Ctrl"@ || label == "Alt"@ || label == "Super"@
}

/// Decode a key code into its display label. Total: every code has a
/// defined outcome, and an unmapped code yields `None` rather than an error.
#[verifier::rlimit(50)]
pub fn key_to_string(code: u16) -> (r: Option<String>)
    ensures
        r.deep_view() == spec_key_label(code),
        r is Some <==> is_mapped(code),
{
    if code == KEY_A { Some("A".to_owned()) }
    else if code == KEY_B { Some("B".to_owned()) }
    else if code == KEY_C { Some("C".to_owned()) }
    else if code == KEY_D { Some("D".to_owned()) }
    else if code == KEY_E { Some("E".to_owned()) }
    else if code == KEY_F { Some("F".to_owned()) }
    else if code == KEY_G { Some("G".to_owned()) }
    else if code == KEY_H { Some("H".to_owned()) }
    else if code == KEY_I { Some("I".to_owned()) }
    else if code == KEY_J { Some("J".to_owned()) }
    else if code == KEY_K { Some("K".to_owned()) }
    else if code == KEY_L { Some("L".to_owned()) }
    else if code == KEY_M { Some("M".to_owned()) }
    else if code == KEY_N { Some("N".to_owned()) }
    else if code == KEY_O { Some("O".to_owned()) }
    else if code == KEY_P { Some("P".to_owned()) }
    else if code == KEY_Q { Some("Q".to_owned()) }
    else if code == KEY_R { Some("R".to_owned()) }
    else if code == KEY_S { Some("S".to_owned()) }
    else if code == KEY_T { Some("T".to_owned()) }
    else if code == KEY_U { Some("U".to_owned()) }
    else if code == KEY_V { Some("V".to_owned()) }
    else if code == KEY_W { Some("W".to_owned()) }
    else if code == KEY_X { Some("X".to_owned()) }
    else if code == KEY_Y { Some("Y".to_owned()) }
    else if code == KEY_Z { Some("Z".to_owned()) }
    else if code == KEY_0 { Some("0".to_owned()) }
    else if code == KEY_1 { Some("1".to_owned()) }
    else if code == KEY_2 { Some("2".to_owned()) }
    else if code == KEY_3 { Some("3".to_owned()) }
    else if code == KEY_4 { Some("4".to_owned()) }
    else if code == KEY_5 { Some("5".to_owned()) }
    else if code == KEY_6 { Some("6".to_owned()) }
    else if code == KEY_7 { Some("7".to_owned()) }
    else if code == KEY_8 { Some("8".to_owned()) }
    else if code == KEY_9 { Some("9".to_owned()) }
    else if code == KEY_SPACE { Some("Space".to_owned()) }
    else if code == KEY_ENTER { Some("Enter".to_owned()) }
    else if code == KEY_BACKSPACE { Some("Backspace".to_owned()) }
    else if code == KEY_TAB { Some("Tab".to_owned()) }
    else if code == KEY_ESC { Some("Esc".to_owned()) }
    else if code == KEY_UP { Some("↑".to_owned()) }
    else if code == KEY_DOWN { Some("↓".to_owned()) }
    else if code == KEY_LEFT { Some("←".to_owned()) }
    else if code == KEY_RIGHT { Some("→".to_owned()) }
    else if code == KEY_DELETE { Some("Delete".to_owned()) }
    else if code == KEY_HOME { Some("Home".to_owned()) }
    else if code == KEY_END { Some("End".to_owned()) }
    else if code == KEY_PAGEUP { Some("PgUp".to_owned()) }
    else if code == KEY_PAGEDOWN { Some("PgDn".to_owned()) }
    else if code == KEY_F1 { Some("F1".to_owned()) }
    else if code == KEY_F2 { Some("F2".to_owned()) }
    else if code == KEY_F3 { Some("F3".to_owned()) }
    else if code == KEY_F4 { Some("F4".to_owned()) }
    else if code == KEY_F5 { Some("F5".to_owned()) }
    else if code == KEY_F6 { Some("F6".to_owned()) }
    else if code == KEY_F7 { Some("F7".to_owned()) }
    else if code == KEY_F8 { Some("F8".to_owned()) }
    else if code == KEY_F9 { Some("F9".to_owned()) }
    else if code == KEY_F10 { Some("F10".to_owned()) }
    else if code == KEY_F11 { Some("F11".to_owned()) }
    else if code == KEY_F12 { Some("F12".to_owned()) }
    else if code == KEY_LEFTSHIFT || code == KEY_RIGHTSHIFT { Some("Shift".to_owned()) }
    else if code == KEY_LEFTCTRL || code == KEY_RIGHTCTRL { Some("Ctrl".to_owned()) }
    else if code == KEY_LEFTALT || code == KEY_RIGHTALT { Some("Alt".to_owned()) }
    else if code == KEY_LEFTMETA || code == KEY_RIGHTMETA { Some("Super".to_owned()) }
    else if code == KEY_MINUS { Some("-".to_owned()) }
    else if code == KEY_EQUAL { Some("=".to_owned()) }
    else if code == KEY_LEFTBRACE { Some("[".to_owned()) }
    else if code == KEY_RIGHTBRACE { Some("]".to_owned()) }
    else if code == KEY_SEMICOLON { Some(";".to_owned()) }
    else if code == KEY_APOSTROPHE { Some("'".to_owned()) }
    else if code == KEY_GRAVE { Some("`".to_owned()) }
    else if code == KEY_BACKSLASH { Some("\\".to_owned()) }
    else if code == KEY_COMMA { Some(",".to_owned()) }
    else if code == KEY_DOT { Some(".".to_owned()) }
    else if code == KEY_SLASH { Some("/".to_owned()) }
    else { None }
}

/// Whether a code is one of the held-modifier keys.
pub fn is_modifier(code: u16) -> (r: bool)
    ensures
        r == spec_is_modifier(code),
{
    code == KEY_LEFTSHIFT || code == KEY_RIGHTSHIFT
    || code == KEY_LEFTCTRL || code == KEY_RIGHTCTRL
    || code == KEY_LEFTALT || code == KEY_RIGHTALT
    || code == KEY_LEFTMETA || code == KEY_RIGHTMETA
}

/// Every modifier key code is mapped, and its label is a modifier label.
pub proof fn lemma_modifier_label(code: u16)
    requires
        spec_is_modifier(code),
    ensures
        is_mapped(code),
        is_modifier_label(spec_key_label(code).unwrap()),
{
}

/// Decoding is deterministic: the label is a function of the key code
/// alone, so any two decode results for the same code are equal.
pub proof fn lemma_decode_deterministic(code: u16, r1: Option<Seq<char>>, r2: Option<Seq<char>>)
    requires
        r1 == spec_key_label(code),
        r2 == spec_key_label(code),
    ensures
        r1 == r2,
{
}

/// The label decoded from a non-modifier key never names a modifier, so a
/// bare modifier cannot appear as the key of an emitted event.
#[verifier::rlimit(100)]
pub proof fn lemma_nonmodifier_label(code: u16)
    requires
        !spec_is_modifier(code),
    ensures
        spec_key_label(code) matches Some(l) ==> !is_modifier_label(l),
{
    crate::labels::lemma_label_facts();
}

} // verus!
