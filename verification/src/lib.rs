//! Core logic of a screenkey overlay: decoding raw keyboard input into
//! display labels, tracking the set of currently held modifier keys, and
//! composing the key events that are forwarded to a presentation layer.

pub mod events;
pub mod keycode;
pub mod labels;
pub mod modifier_set;
pub mod rdev_keys;
