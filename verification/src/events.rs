//! One step of the capture loop: decode a raw key event, update the held
//! modifiers, and compose the event that is emitted to the presentation
//! layer, together with the polling cadence of the loop.

use vstd::prelude::*;
use crate::keycode::{
    is_modifier, is_modifier_label, key_to_string, lemma_modifier_label,
    lemma_nonmodifier_label, spec_is_modifier, spec_key_label,
};
use crate::modifier_set::{spec_press, spec_release, ModifierSet};
use crate::rdev_keys::{
    is_hook_modifier_label, is_rdev_modifier, lemma_hook_modifier_label,
    lemma_hook_nonmodifier_label, rdev_key_to_string, spec_hook_label, spec_is_hook_modifier,
    HookKey, Platform,
};

verus! {

/// Sleep for this many milliseconds after a poll cycle that saw at least
/// one input event.
pub const ACTIVE_POLL_MS: u64 = 1;

/// Sleep for this many milliseconds after a poll cycle that saw no events.
pub const IDLE_POLL_MS: u64 = 10;

/// A key press forwarded to the presentation layer: the display label of
/// the pressed key and the modifiers held at that moment, in the order in
/// which they were pressed.
#[derive(Debug)]
pub struct KeyEvent {
    pub key: String,
    pub modifiers: Vec<String>,
}

/// The mathematical content of a [`KeyEvent`].
pub ghost struct KeyEventView {
    pub key: Seq<char>,
    pub modifiers: Seq<Seq<char>>,
}

impl View for KeyEvent {
    type V = KeyEventView;

    open spec fn view(&self) -> KeyEventView {
        KeyEventView { key: self.key@, modifiers: self.modifiers.deep_view() }
    }
}

/// The content of an emission outcome: `None` when nothing was emitted.
pub open spec fn emitted_view(r: Option<KeyEvent>) -> Option<KeyEventView> {
    match r {
        Some(e) => Some(e@),
        None => None,
    }
}

/// What one raw device event does: the held modifiers afterwards, and the
/// event emitted, if any. A value of 1 is a press, 0 a release; anything
/// else (such as 2, a key repeat) is ignored. A press of a mapped
/// non-modifier key emits an event carrying the modifiers held before it;
/// a modifier press or release only updates the held set; an unmapped key
/// does nothing.
pub open spec fn spec_key_step(held: Seq<Seq<char>>, code: u16, value: i32) -> (
    Seq<Seq<char>>,
    Option<KeyEventView>,
) {
    if value == 1 {
        match spec_key_label(code) {
            Some(label) => if spec_is_modifier(code) {
                (spec_press(held, label), None)
            } else {
                (held, Some(KeyEventView { key: label, modifiers: held }))
            },
            None => (held, None),
        }
    } else if value == 0 {
        if spec_is_modifier(code) {
            (spec_release(held, spec_key_label(code).unwrap()), None)
        } else {
            (held, None)
        }
    } else {
        (held, None)
    }
}

/// Handle one raw event of the device capture path: decode the key,
/// update the held modifiers, and return the event to emit, if any.
pub fn handle_key_event(mods: &mut ModifierSet, code: u16, value: i32) -> (r: Option<KeyEvent>)
    requires
        old(mods).wf(),
    ensures
        final(mods).wf(),
        final(mods)@ == spec_key_step(old(mods)@, code, value).0,
        emitted_view(r) == spec_key_step(old(mods)@, code, value).1,
        spec_is_modifier(code) ==> r is None,
        r matches Some(e) ==> !is_modifier_label(e@.key),
{
    if value == 1 {
        match key_to_string(code) {
            Some(label) => {
                if is_modifier(code) {
                    mods.press(label);
                    None
                } else {
                    proof {
                        lemma_nonmodifier_label(code);
                    }
                    let modifiers = mods.snapshot();
                    Some(KeyEvent { key: label, modifiers })
                }
            },
            None => None,
        }
    } else if value == 0 {
        if is_modifier(code) {
            proof {
                lemma_modifier_label(code);
            }
            let label = key_to_string(code).unwrap();
            mods.release(&label);
            None
        } else {
            None
        }
    } else {
        None
    }
}

/// Whether a hook callback reported the key going down or up.
#[derive(Clone, Copy, Debug, PartialEq, Eq, Structural)]
pub enum KeyAction {
    Press,
    Release,
}

/// What one hook callback does: the held modifiers afterwards, and the
/// event emitted, if any. A press of a mapped non-modifier key emits an
/// event carrying the modifiers held before it; a modifier press or
/// release only updates the held set; an unmapped key does nothing.
pub open spec fn spec_hook_step(
    held: Seq<Seq<char>>,
    key: HookKey,
    action: KeyAction,
    platform: Platform,
) -> (Seq<Seq<char>>, Option<KeyEventView>) {
    match action {
        KeyAction::Press => match spec_hook_label(key, platform) {
            Some(label) => if spec_is_hook_modifier(key) {
                (spec_press(held, label), None)
            } else {
                (held, Some(KeyEventView { key: label, modifiers: held }))
            },
            None => (held, None),
        },
        KeyAction::Release => if spec_is_hook_modifier(key) {
            (spec_release(held, spec_hook_label(key, platform).unwrap()), None)
        } else {
            (held, None)
        },
    }
}

/// Handle one callback of the global-hook capture path: decode the key,
/// update the held modifiers, and return the event to emit, if any.
pub fn handle_rdev_event(
    mods: &mut ModifierSet,
    key: HookKey,
    action: KeyAction,
    platform: Platform,
) -> (r: Option<KeyEvent>)
    requires
        old(mods).wf(),
    ensures
        final(mods).wf(),
        final(mods)@ == spec_hook_step(old(mods)@, key, action, platform).0,
        emitted_view(r) == spec_hook_step(old(mods)@, key, action, platform).1,
        spec_is_hook_modifier(key) ==> r is None,
        r matches Some(e) ==> !is_hook_modifier_label(e@.key, platform),
{
    match action {
        KeyAction::Press => {
            match rdev_key_to_string(key, platform) {
                Some(label) => {
                    if is_rdev_modifier(&key) {
                        mods.press(label);
                        None
                    } else {
                        proof {
                            lemma_hook_nonmodifier_label(key, platform);
                        }
                        let modifiers = mods.snapshot();
                        Some(KeyEvent { key: label, modifiers })
                    }
                },
                None => None,
            }
        },
        KeyAction::Release => {
            if is_rdev_modifier(&key) {
                proof {
                    lemma_hook_modifier_label(key, platform);
                }
                let label = rdev_key_to_string(key, platform).unwrap();
                mods.release(&label);
                None
            } else {
                None
            }
        },
    }
}

/// The state of the capture loop after a poll cycle: `Active` when the
/// cycle retrieved at least one event, `Idle` otherwise.
#[derive(Clone, Copy, Debug, PartialEq, Eq, Structural)]
pub enum PollState {
    Idle,
    Active,
}

/// The sleep before the next poll cycle, for each loop state.
pub open spec fn spec_poll_interval(state: PollState) -> u64 {
    match state {
        PollState::Active => ACTIVE_POLL_MS,
        PollState::Idle => IDLE_POLL_MS,
    }
}

/// The loop state after a poll cycle, from whether the cycle retrieved
/// any event.
pub fn poll_transition(events_found: bool) -> (state: PollState)
    ensures
        state == (if events_found {
            PollState::Active
        } else {
            PollState::Idle
        }),
{
    if events_found {
        PollState::Active
    } else {
        PollState::Idle
    }
}

/// How long to sleep before the next poll cycle: short while events are
/// coming in, so presses are not missed, and longer while idle, so CPU
/// use stays bounded. Always at least one millisecond.
pub fn poll_interval_ms(state: PollState) -> (ms: u64)
    ensures
        ms == spec_poll_interval(state),
        1 <= ms <= 10,
{
    match state {
        PollState::Active => ACTIVE_POLL_MS,
        PollState::Idle => IDLE_POLL_MS,
    }
}

} // verus!

