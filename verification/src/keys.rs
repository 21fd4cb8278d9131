//! The four movement keys and the set of those that are held down.
use vstd::prelude::*;

verus! {

/// One of the four logical movement directions.
#[derive(Clone, Copy, Debug, PartialEq, Eq, Structural)]
pub enum Key {
    Forward,
    Left,
    Right,
    Back,
}

/// The movement keys that are held down during a frame.
#[derive(Clone, Copy, Debug, PartialEq, Eq, Structural)]
pub struct KeySet {
    pub forward: bool,
    pub left: bool,
    pub right: bool,
    pub back: bool,
}

impl View for KeySet {
    type V = Set<Key>;

    open spec fn view(&self) -> Set<Key> {
        Set::new(
            |k: Key|
                match k {
                    Key::Forward => self.forward,
                    Key::Left => self.left,
                    Key::Right => self.right,
                    Key::Back => self.back,
                },
        )
    }
}

impl KeySet {
    /// The set with no key held.
    pub fn empty() -> (keys: KeySet)
        ensures
            keys@ == Set::<Key>::empty(),
    {
        let keys = KeySet { forward: false, left: false, right: false, back: false };
        assert(keys@ =~= Set::<Key>::empty());
        keys
    }

    /// This set with `key` held as well.
    pub fn with(self, key: Key) -> (keys: KeySet)
        ensures
            keys@ == self@.insert(key),
    {
        let keys = match key {
            Key::Forward => KeySet { forward: true, ..self },
            Key::Left => KeySet { left: true, ..self },
            Key::Right => KeySet { right: true, ..self },
            Key::Back => KeySet { back: true, ..self },
        };
        assert(keys@ =~= self@.insert(key));
        keys
    }

    /// Whether `key` is held.
    pub fn pressed(&self, key: Key) -> (held: bool)
        ensures
            held == self@.contains(key),
    {
        match key {
            Key::Forward => self.forward,
            Key::Left => self.left,
            Key::Right => self.right,
            Key::Back => self.back,
        }
    }
}

} // verus!
