//! The keypad: sixteen keys, each up or down.

use vstd::prelude::*;
use crate::chip8::state::KEY_COUNT;

verus! {

/// The state of the keypad. Its view holds `true` for every key that is
/// down.
pub struct Keys {
    state: [bool; KEY_COUNT],
}

impl View for Keys {
    type V = Seq<bool>;

    closed spec fn view(&self) -> Seq<bool> {
        self.state@
    }
}

/// What the keypad says of key `key`: keys beyond the sixteenth are never
/// down.
pub open spec fn key_down(keys: Seq<bool>, key: int) -> bool {
    0 <= key < KEY_COUNT && keys[key]
}

/// The keypad after key `key` has gone down or up; keys beyond the sixteenth
/// do not exist.
pub open spec fn with_key(keys: Seq<bool>, key: int, pressed: bool) -> Seq<bool> {
    if 0 <= key < KEY_COUNT {
        keys.update(key, pressed)
    } else {
        keys
    }
}

impl Keys {
    /// There are sixteen keys.
    pub proof fn lemma_len(&self)
        ensures
            self@.len() == KEY_COUNT,
    {
    }

    /// The keypad with every key up.
    pub fn new() -> (keys: Keys)
        ensures
            keys@ == Seq::new(KEY_COUNT as nat, |k: int| false),
    {
        let keys = Keys { state: [false; KEY_COUNT] };
        assert(keys@ =~= Seq::new(KEY_COUNT as nat, |k: int| false));
        keys
    }

    /// Records that key `key` went down or up.
    pub fn set_key(&mut self, key: usize, pressed: bool)
        ensures
            final(self)@ == with_key(old(self)@, key as int, pressed),
    {
        if key < KEY_COUNT {
            self.state[key] = pressed;
        }
    }

    /// Whether key `key` is down.
    pub fn is_key_pressed(&self, key: usize) -> (r: bool)
        ensures
            r == key_down(self@, key as int),
    {
        if key < KEY_COUNT {
            self.state[key]
        } else {
            false
        }
    }
}

} // verus!
