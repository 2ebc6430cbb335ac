//! The keyboard as the chat sees it: which of the three keys that the chat
//! acts on went down during the current frame.

use bevy::input::keyboard::{KeyCode, NativeKeyCode};
use bevy::input::ButtonInput;
use std::hash::Hash;
use vstd::prelude::*;

verus! {

/// `bevy::input::keyboard::NativeKeyCode`: the platform's scan code, which
/// a key without a name carries. Declared with its variants as they stand
/// in the engine.
#[verifier::external_type_specification]
pub struct ExNativeKeyCode(NativeKeyCode);

/// `bevy::input::keyboard::KeyCode`: the engine's names of the physical
/// keys. Declared with its variants as they stand in the engine, so that
/// the key bindings below are stated over the engine's own names.
#[verifier::external_type_specification]
pub struct ExKeyCode(KeyCode);

/// `bevy::input::ButtonInput`: the engine's record of which buttons are
/// down, went down or went up. Nothing inside it is visible here.
#[verifier::external_type_specification]
#[verifier::external_body]
#[verifier::reject_recursive_types(T)]
pub struct ExButtonInput<T: Clone + Eq + Hash + Send + Sync + 'static>(ButtonInput<T>);

/// The keys that `keyboard` records as having gone down during the current
/// frame.
pub uninterp spec fn just_pressed_keys(keyboard: ButtonInput<KeyCode>) -> Set<KeyCode>;

/// `ButtonInput::just_pressed` of the engine. Trusted, not proved: the
/// engine looks `key` up in its set of the keys that went down during the
/// current frame, and changes nothing.
#[verifier::external_body]
fn just_pressed(keyboard: &ButtonInput<KeyCode>, key: KeyCode) -> (hit: bool)
    ensures
        hit == just_pressed_keys(*keyboard).contains(key),
{
    keyboard.just_pressed(key)
}

/// What the chat reads from the keyboard in one frame.
#[derive(Clone, Copy, Debug, PartialEq, Eq, Structural)]
pub struct KeyEvents {
    /// Enter went down: open the field, or send what was composed.
    pub confirm: bool,
    /// The letter T went down: open the field.
    pub open_chat: bool,
    /// Escape went down: close the field.
    pub cancel: bool,
}

/// The chat's key bindings, applied to the set of keys that went down.
pub open spec fn key_events(pressed: Set<KeyCode>) -> KeyEvents {
    KeyEvents {
        confirm: pressed.contains(KeyCode::Enter),
        open_chat: pressed.contains(KeyCode::KeyT),
        cancel: pressed.contains(KeyCode::Escape),
    }
}

/// Reads the three keys of the chat from the keyboard.
pub fn read_keys(keyboard: &ButtonInput<KeyCode>) -> (keys: KeyEvents)
    ensures
        keys == key_events(just_pressed_keys(*keyboard)),
{
    KeyEvents {
        confirm: just_pressed(keyboard, KeyCode::Enter),
        open_chat: just_pressed(keyboard, KeyCode::KeyT),
        cancel: just_pressed(keyboard, KeyCode::Escape),
    }
}

} // verus!
