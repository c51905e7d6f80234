//! Decoding of the key identifiers reported by a global input hook (the
//! macOS and Windows capture path), modeled as a key enum of the library,
//! and classification of its held-modifier keys. The Meta key carries a
//! platform-specific display label.

use vstd::prelude::*;

verus! {

/// The key identifiers that a global input hook reports. `Other` stands
/// for every identifier outside the decode table.
#[derive(Clone, Copy, Debug, PartialEq, Eq, Structural)]
pub enum HookKey {
    KeyA,
    KeyB,
    KeyC,
    KeyD,
    KeyE,
    KeyF,
    KeyG,
    KeyH,
    KeyI,
    KeyJ,
    KeyK,
    KeyL,
    KeyM,
    KeyN,
    KeyO,
    KeyP,
    KeyQ,
    KeyR,
    KeyS,
    KeyT,
    KeyU,
    KeyV,
    KeyW,
    KeyX,
    KeyY,
    KeyZ,
    Num0,
    Num1,
    Num2,
    Num3,
    Num4,
    Num5,
    Num6,
    Num7,
    Num8,
    Num9,
    Space,
    Return,
    Backspace,
    Tab,
    Escape,
    UpArrow,
    DownArrow,
    LeftArrow,
    RightArrow,
    Delete,
    Home,
    End,
    PageUp,
    PageDown,
    F1,
    F2,
    F3,
    F4,
    F5,
    F6,
    F7,
    F8,
    F9,
    F10,
    F11,
    F12,
    ShiftLeft,
    ShiftRight,
    ControlLeft,
    ControlRight,
    Alt,
    AltGr,
    MetaLeft,
    MetaRight,
    Minus,
    Equal,
    LeftBracket,
    RightBracket,
    SemiColon,
    Quote,
    BackQuote,
    BackSlash,
    Comma,
    Dot,
    Slash,
    Other,
}

/// The platform whose hook produced the key: it decides the display label
/// of the Meta key.
#[derive(Clone, Copy, Debug, PartialEq, Eq, Structural)]
pub enum Platform {
    MacOs,
    Windows,
}

/// The display label of the Meta key on the given platform.
pub open spec fn spec_meta_label(platform: Platform) -> Seq<char> {
    match platform {
        Platform::MacOs => "Cmd"@,
        Platform::Windows => "Win"@,
    }
}

/// The decode table of the hook path: the display label of a key, or
/// `None` when the key has no mapping.
pub open spec fn spec_hook_label(key: HookKey, platform: Platform) -> Option<Seq<char>> {
    match key {
        HookKey::KeyA => Some("A"@),
        HookKey::KeyB => Some("B"@),
        HookKey::KeyC => Some("C"@),
        HookKey::KeyD => Some("D"@),
        HookKey::KeyE => Some("E"@),
        HookKey::KeyF => Some("F"@),
        HookKey::KeyG => Some("G"@),
        HookKey::KeyH => Some("H"@),
        HookKey::KeyI => Some("I"@),
        HookKey::KeyJ => Some("J"@),
        HookKey::KeyK => Some("K"@),
        HookKey::KeyL => Some("L"@),
        HookKey::KeyM => Some("M"@),
        HookKey::KeyN => Some("N"@),
        HookKey::KeyO => Some("O"@),
        HookKey::KeyP => Some("P"@),
        HookKey::KeyQ => Some("Q"@),
        HookKey::KeyR => Some("R"@),
        HookKey::KeyS => Some("S"@),
        HookKey::KeyT => Some("T"@),
        HookKey::KeyU => Some("U"@),
        HookKey::KeyV => Some("V"@),
        HookKey::KeyW => Some("W"@),
        HookKey::KeyX => Some("X"@),
        HookKey::KeyY => Some("Y"@),
        HookKey::KeyZ => Some("Z"@),
        HookKey::Num0 => Some("0"@),
        HookKey::Num1 => Some("1"@),
        HookKey::Num2 => Some("2"@),
        HookKey::Num3 => Some("3"@),
        HookKey::Num4 => Some("4"@),
        HookKey::Num5 => Some("5"@),
        HookKey::Num6 => Some("6"@),
        HookKey::Num7 => Some("7"@),
        HookKey::Num8 => Some("8"@),
        HookKey::Num9 => Some("9"@),
        HookKey::Space => Some("Space"@),
        HookKey::Return => Some("Enter"@),
        HookKey::Backspace => Some("Backspace"@),
        HookKey::Tab => Some("Tab"@),
        HookKey::Escape => Some("Esc"@),
        HookKey::UpArrow => Some("↑"@),
        HookKey::DownArrow => Some("↓"@),
        HookKey::LeftArrow => Some("←"@),
        HookKey::RightArrow => Some("→"@),
        HookKey::Delete => Some("Delete"@),
        HookKey::Home => Some("Home"@),
        HookKey::End => Some("End"@),
        HookKey::PageUp => Some("PgUp"@),
        HookKey::PageDown => Some("PgDn"@),
        HookKey::F1 => Some("F1"@),
        HookKey::F2 => Some("F2"@),
        HookKey::F3 => Some("F3"@),
        HookKey::F4 => Some("F4"@),
        HookKey::F5 => Some("F5"@),
        HookKey::F6 => Some("F6"@),
        HookKey::F7 => Some("F7"@),
        HookKey::F8 => Some("F8"@),
        HookKey::F9 => Some("F9"@),
        HookKey::F10 => Some("F10"@),
        HookKey::F11 => Some("F11"@),
        HookKey::F12 => Some("F12"@),
        HookKey::ShiftLeft => Some("Shift"@),
        HookKey::ShiftRight => Some("Shift"@),
        HookKey::ControlLeft => Some("Ctrl"@),
        HookKey::ControlRight => Some("Ctrl"@),
        HookKey::Alt => Some("Alt"@),
        HookKey::AltGr => Some("Alt"@),
        HookKey::MetaLeft => Some(spec_meta_label(platform)),
        HookKey::MetaRight => Some(spec_meta_label(platform)),
        HookKey::Minus => Some("-"@),
        HookKey::Equal => Some("="@),
        HookKey::LeftBracket => Some("["@),
        HookKey::RightBracket => Some("]"@),
        HookKey::SemiColon => Some(";"@),
        HookKey::Quote => Some("'"@),
        HookKey::BackQuote => Some("`"@),
        HookKey::BackSlash => Some("\\"@),
        HookKey::Comma => Some(","@),
        HookKey::Dot => Some("."@),
        HookKey::Slash => Some("/"@),
        HookKey::Other => None,
    }
}

/// A key is mapped when the decode table gives it a display label.
pub open spec fn is_hook_mapped(key: HookKey, platform: Platform) -> bool {
    spec_hook_label(key, platform) is Some
}

/// Whether a key is one of the held-modifier keys: Shift, Ctrl, Alt or
/// Meta, in either variant.
pub open spec fn spec_is_hook_modifier(key: HookKey) -> bool {
    key == HookKey::ShiftLeft || key == HookKey::ShiftRight
    || key == HookKey::ControlLeft || key == HookKey::ControlRight
    || key == HookKey::Alt || key == HookKey::AltGr
    || key == HookKey::MetaLeft || key == HookKey::MetaRight
}

/// Whether a display label names one of the held modifiers of the given
/// platform.
pub open spec fn is_hook_modifier_label(label: Seq<char>, platform: Platform) -> bool {
    label == "Shift"@ || label == "Ctrl"@ || label == "Alt"@ || label == spec_meta_label(platform)
}

/// Decode a hook key into its display label. Total: every key has a
/// defined outcome, and an unmapped key yields `None` rather than an error.
#[verifier::rlimit(50)]
pub fn rdev_key_to_string(key: HookKey, platform: Platform) -> (r: Option<String>)
    ensures
        r.deep_view() == spec_hook_label(key, platform),
        r is Some <==> is_hook_mapped(key, platform),
{
    match key {
        HookKey::KeyA => Some("A".to_owned()),
        HookKey::KeyB => Some("B".to_owned()),
        HookKey::KeyC => Some("C".to_owned()),
        HookKey::KeyD => Some("D".to_owned()),
        HookKey::KeyE => Some("E".to_owned()),
        HookKey::KeyF => Some("F".to_owned()),
        HookKey::KeyG => Some("G".to_owned()),
        HookKey::KeyH => Some("H".to_owned()),
        HookKey::KeyI => Some("I".to_owned()),
        HookKey::KeyJ => Some("J".to_owned()),
        HookKey::KeyK => Some("K".to_owned()),
        HookKey::KeyL => Some("L".to_owned()),
        HookKey::KeyM => Some("M".to_owned()),
        HookKey::KeyN => Some("N".to_owned()),
        HookKey::KeyO => Some("O".to_owned()),
        HookKey::KeyP => Some("P".to_owned()),
        HookKey::KeyQ => Some("Q".to_owned()),
        HookKey::KeyR => Some("R".to_owned()),
        HookKey::KeyS => Some("S".to_owned()),
        HookKey::KeyT => Some("T".to_owned()),
        HookKey::KeyU => Some("U".to_owned()),
        HookKey::KeyV => Some("V".to_owned()),
        HookKey::KeyW => Some("W".to_owned()),
        HookKey::KeyX => Some("X".to_owned()),
        HookKey::KeyY => Some("Y".to_owned()),
        HookKey::KeyZ => Some("Z".to_owned()),
        HookKey::Num0 => Some("0".to_owned()),
        HookKey::Num1 => Some("1".to_owned()),
        HookKey::Num2 => Some("2".to_owned()),
        HookKey::Num3 => Some("3".to_owned()),
        HookKey::Num4 => Some("4".to_owned()),
        HookKey::Num5 => Some("5".to_owned()),
        HookKey::Num6 => Some("6".to_owned()),
        HookKey::Num7 => Some("7".to_owned()),
        HookKey::Num8 => Some("8".to_owned()),
        HookKey::Num9 => Some("9".to_owned()),
        HookKey::Space => Some("Space".to_owned()),
        HookKey::Return => Some("Enter".to_owned()),
        HookKey::Backspace => Some("Backspace".to_owned()),
        HookKey::Tab => Some("Tab".to_owned()),
        HookKey::Escape => Some("Esc".to_owned()),
        HookKey::UpArrow => Some("↑".to_owned()),
        HookKey::DownArrow => Some("↓".to_owned()),
        HookKey::LeftArrow => Some("←".to_owned()),
        HookKey::RightArrow => Some("→".to_owned()),
        HookKey::Delete => Some("Delete".to_owned()),
        HookKey::Home => Some("Home".to_owned()),
        HookKey::End => Some("End".to_owned()),
        HookKey::PageUp => Some("PgUp".to_owned()),
        HookKey::PageDown => Some("PgDn".to_owned()),
        HookKey::F1 => Some("F1".to_owned()),
        HookKey::F2 => Some("F2".to_owned()),
        HookKey::F3 => Some("F3".to_owned()),
        HookKey::F4 => Some("F4".to_owned()),
        HookKey::F5 => Some("F5".to_owned()),
        HookKey::F6 => Some("F6".to_owned()),
        HookKey::F7 => Some("F7".to_owned()),
        HookKey::F8 => Some("F8".to_owned()),
        HookKey::F9 => Some("F9".to_owned()),
        HookKey::F10 => Some("F10".to_owned()),
        HookKey::F11 => Some("F11".to_owned()),
        HookKey::F12 => Some("F12".to_owned()),
        HookKey::ShiftLeft => Some("Shift".to_owned()),
        HookKey::ShiftRight => Some("Shift".to_owned()),
        HookKey::ControlLeft => Some("Ctrl".to_owned()),
        HookKey::ControlRight => Some("Ctrl".to_owned()),
        HookKey::Alt => Some("Alt".to_owned()),
        HookKey::AltGr => Some("Alt".to_owned()),
        HookKey::MetaLeft => match platform {
            Platform::MacOs => Some("Cmd".to_owned()),
            Platform::Windows => Some("Win".to_owned()),
        },
        HookKey::MetaRight => match platform {
            Platform::MacOs => Some("Cmd".to_owned()),
            Platform::Windows => Some("Win".to_owned()),
        },
        HookKey::Minus => Some("-".to_owned()),
        HookKey::Equal => Some("=".to_owned()),
        HookKey::LeftBracket => Some("[".to_owned()),
        HookKey::RightBracket => Some("]".to_owned()),
        HookKey::SemiColon => Some(";".to_owned()),
        HookKey::Quote => Some("'".to_owned()),
        HookKey::BackQuote => Some("`".to_owned()),
        HookKey::BackSlash => Some("\\".to_owned()),
        HookKey::Comma => Some(",".to_owned()),
        HookKey::Dot => Some(".".to_owned()),
        HookKey::Slash => Some("/".to_owned()),
        HookKey::Other => None,
    }
}

/// Whether a hook key is one of the held-modifier keys.
pub fn is_rdev_modifier(key: &HookKey) -> (r: bool)
    ensures
        r == spec_is_hook_modifier(*key),
{
    matches!(
        key,
        HookKey::ShiftLeft
            | HookKey::ShiftRight
            | HookKey::ControlLeft
            | HookKey::ControlRight
            | HookKey::Alt
            | HookKey::AltGr
            | HookKey::MetaLeft
            | HookKey::MetaRight
    )
}

/// Every modifier key is mapped, and its label is a modifier label of the
/// platform.
pub proof fn lemma_hook_modifier_label(key: HookKey, platform: Platform)
    requires
        spec_is_hook_modifier(key),
    ensures
        is_hook_mapped(key, platform),
        is_hook_modifier_label(spec_hook_label(key, platform).unwrap(), platform),
{
}

/// Decoding is deterministic: the label is a function of the hook key and
/// the platform alone, so any two decode results for the same pair are
/// equal.
pub proof fn lemma_hook_decode_deterministic(
    key: HookKey,
    platform: Platform,
    r1: Option<Seq<char>>,
    r2: Option<Seq<char>>,
)
    requires
        r1 == spec_hook_label(key, platform),
        r2 == spec_hook_label(key, platform),
    ensures
        r1 == r2,
{
}

/// The label decoded from a non-modifier hook key never names a modifier,
/// so a bare modifier cannot appear as the key of an emitted event.
#[verifier::rlimit(100)]
pub proof fn lemma_hook_nonmodifier_label(key: HookKey, platform: Platform)
    requires
        !spec_is_hook_modifier(key),
    ensures
        spec_hook_label(key, platform) matches Some(l) ==> !is_hook_modifier_label(l, platform),
{
    crate::labels::lemma_label_facts();
}

} // verus!
