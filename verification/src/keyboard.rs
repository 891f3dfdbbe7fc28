//! Reading the held controls off the keyboard resource.

use vstd::prelude::*;
use bevy::input::keyboard::KeyCode;
use bevy::input::ButtonInput;
use std::hash::Hash;
use crate::control::{InputState, Key};

verus! {

/// The keyboard resource: the buttons that are down.  Its contents are known
/// only through `pressed_keys`.
#[verifier::external_type_specification]
#[verifier::external_body]
#[verifier::reject_recursive_types(T)]
pub struct ExButtonInput<T: Copy + Eq + Hash + Send + Sync + 'static>(bevy::input::ButtonInput<T>);

/// The keyboard's name for a key.
#[verifier::external_type_specification]
#[verifier::external_body]
pub struct ExKeyCode(bevy::input::keyboard::KeyCode);

/// Those of the ship's keys that `keys` records as pressed and not yet
/// released, each taken under its own key code: `KeyW`, `KeyA`, `KeyS`, `KeyD`
/// and `Space`.
pub uninterp spec fn pressed_keys(keys: ButtonInput<KeyCode>) -> Set<Key>;

/// `ButtonInput::pressed`, asked about the key code under which the keyboard
/// reports `key`: whether that key is among the keys that `keys` holds as
/// pressed.  The call only looks the key up; it changes nothing.
#[verifier::external_body]
fn key_pressed(keys: &ButtonInput<KeyCode>, key: Key) -> (held: bool)
    ensures
        held == pressed_keys(*keys).contains(key),
{
    keys.pressed(
        match key {
            Key::W => KeyCode::KeyW,
            Key::A => KeyCode::KeyA,
            Key::S => KeyCode::KeyS,
            Key::D => KeyCode::KeyD,
            Key::Space => KeyCode::Space,
        },
    )
}

/// Polls each of the ship's keys once and records which of them are held.
pub fn read_controls(keys: &ButtonInput<KeyCode>) -> (input: InputState)
    ensures
        forall|key: Key| input.held(key) == pressed_keys(*keys).contains(key),
{
    InputState {
        w: key_pressed(keys, Key::W),
        a: key_pressed(keys, Key::A),
        s: key_pressed(keys, Key::S),
        d: key_pressed(keys, Key::D),
        space: key_pressed(keys, Key::Space),
    }
}

} // verus!
