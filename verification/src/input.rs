//! Reading the held movement keys from the engine's keyboard state.
//!
//! The keyboard state is the engine's own type and opaque here. What is taken on trust
//! about it is said in this file and nowhere else: that asking it whether a key code is
//! pressed is a question about a set of key codes.
use vstd::prelude::*;
use bevy::input::keyboard::KeyCode;
use bevy::input::Input;
use crate::keys::{Key, KeySet};

verus! {

/// `bevy::input::keyboard::KeyCode`, the engine's name for a physical key. Its values are
/// carried through and never looked into.
#[verifier::external_type_specification]
#[verifier::external_body]
pub struct ExKeyCode(KeyCode);

/// `bevy::input::Input`, the engine's record of which inputs are pressed. Its values are
/// carried through and never looked into.
#[verifier::external_type_specification]
#[verifier::external_body]
#[verifier::reject_recursive_types(T)]
pub struct ExInput<T: Copy + Eq + std::hash::Hash + Send + Sync + 'static>(Input<T>);

/// The key codes that a keyboard state holds as pressed: those between a press and the
/// release that follows it.
pub uninterp spec fn pressed_codes(input: Input<KeyCode>) -> Set<KeyCode>;

/// `Input::pressed`: whether `code` is among the key codes that `input` holds as pressed.
/// The engine looks the code up in its set of pressed inputs and returns what it finds.
#[verifier::external_body]
fn is_pressed(input: &Input<KeyCode>, code: KeyCode) -> (down: bool)
    ensures
        down == pressed_codes(*input).contains(code),
{
    input.pressed(code)
}

/// Which physical key stands for each movement key.
#[derive(Clone, Copy, Debug)]
pub struct Bindings {
    pub forward: KeyCode,
    pub left: KeyCode,
    pub right: KeyCode,
    pub back: KeyCode,
}

impl Bindings {
    /// The key code bound to a movement key.
    pub open spec fn code(self, key: Key) -> KeyCode {
        match key {
            Key::Forward => self.forward,
            Key::Left => self.left,
            Key::Right => self.right,
            Key::Back => self.back,
        }
    }
}

/// The movement keys that are held: those whose bound key code is pressed.
pub fn held_keys(input: &Input<KeyCode>, bindings: &Bindings) -> (keys: KeySet)
    ensures
        keys.forward == pressed_codes(*input).contains(bindings.forward),
        keys.left == pressed_codes(*input).contains(bindings.left),
        keys.right == pressed_codes(*input).contains(bindings.right),
        keys.back == pressed_codes(*input).contains(bindings.back),
        forall|key: Key| #[trigger]
            keys@.contains(key) == pressed_codes(*input).contains(bindings.code(key)),
{
    KeySet {
        forward: is_pressed(input, bindings.forward),
        left: is_pressed(input, bindings.left),
        right: is_pressed(input, bindings.right),
        back: is_pressed(input, bindings.back),
    }
}

} // verus!
