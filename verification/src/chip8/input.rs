//! Host input: the keys of the host keyboard that stand for the keypad, and
//! what an input event does to the machine.

use vstd::prelude::*;
use crate::chip8::chip8::Chip8;
use crate::chip8::keys::with_key;
use crate::chip8::state::MachineState;

verus! {

/// What the host reports between two steps. A key is named by the character
/// on it.
#[derive(Clone, Copy, PartialEq, Eq, Debug)]
pub enum InputEvent {
    /// A key of the host keyboard went down.
    KeyDown(char),
    /// A key of the host keyboard went up.
    KeyUp(char),
    /// The host asks the machine to stop.
    Quit,
    /// Nothing happened.
    Nothing,
}

/// The key of the keypad that a key of the host keyboard stands for. The
/// four rows `1234`, `QWER`, `ASDF`, `ZXCV` stand for the rows `123C`,
/// `456D`, `789E`, `A0BF` of the keypad; letters count in either case.
pub open spec fn keypad_key(key: char) -> Option<usize> {
    if key == '1' {
        Some(0x1usize)
    } else if key == '2' {
        Some(0x2usize)
    } else if key == '3' {
        Some(0x3usize)
    } else if key == '4' {
        Some(0xCusize)
    } else if key == 'q' || key == 'Q' {
        Some(0x4usize)
    } else if key == 'w' || key == 'W' {
        Some(0x5usize)
    } else if key == 'e' || key == 'E' {
        Some(0x6usize)
    } else if key == 'r' || key == 'R' {
        Some(0xDusize)
    } else if key == 'a' || key == 'A' {
        Some(0x7usize)
    } else if key == 's' || key == 'S' {
        Some(0x8usize)
    } else if key == 'd' || key == 'D' {
        Some(0x9usize)
    } else if key == 'f' || key == 'F' {
        Some(0xEusize)
    } else if key == 'z' || key == 'Z' {
        Some(0xAusize)
    } else if key == 'x' || key == 'X' {
        Some(0x0usize)
    } else if key == 'c' || key == 'C' {
        Some(0xBusize)
    } else if key == 'v' || key == 'V' {
        Some(0xFusize)
    } else {
        None
    }
}

/// The key of the keypad that a key of the host keyboard stands for.
pub fn keypad_index(key: char) -> (r: Option<usize>)
    ensures
        r == keypad_key(key),
        r matches Some(k) ==> k < 16,
{
    if key == '1' {
        Some(0x1)
    } else if key == '2' {
        Some(0x2)
    } else if key == '3' {
        Some(0x3)
    } else if key == '4' {
        Some(0xC)
    } else if key == 'q' || key == 'Q' {
        Some(0x4)
    } else if key == 'w' || key == 'W' {
        Some(0x5)
    } else if key == 'e' || key == 'E' {
        Some(0x6)
    } else if key == 'r' || key == 'R' {
        Some(0xD)
    } else if key == 'a' || key == 'A' {
        Some(0x7)
    } else if key == 's' || key == 'S' {
        Some(0x8)
    } else if key == 'd' || key == 'D' {
        Some(0x9)
    } else if key == 'f' || key == 'F' {
        Some(0xE)
    } else if key == 'z' || key == 'Z' {
        Some(0xA)
    } else if key == 'x' || key == 'X' {
        Some(0x0)
    } else if key == 'c' || key == 'C' {
        Some(0xB)
    } else if key == 'v' || key == 'V' {
        Some(0xF)
    } else {
        None
    }
}

/// The keypad after `key` of the host keyboard went down or up.
pub open spec fn with_host_key(keys: Seq<bool>, key: char, pressed: bool) -> Seq<bool> {
    match keypad_key(key) {
        Some(k) => with_key(keys, k as int, pressed),
        None => keys,
    }
}

/// The state after an input event: a key that stands for a key of the
/// keypad moves that key, anything else changes nothing.
pub open spec fn event_spec(s: MachineState, event: InputEvent) -> MachineState {
    match event {
        InputEvent::KeyDown(key) => MachineState { keys: with_host_key(s.keys, key, true), ..s },
        InputEvent::KeyUp(key) => MachineState { keys: with_host_key(s.keys, key, false), ..s },
        _ => s,
    }
}

impl Chip8 {
    /// Takes an input event in. The result tells whether the host asked the
    /// machine to stop.
    pub fn handle_event(&mut self, event: InputEvent) -> (quit: bool)
        requires
            old(self).wf(),
        ensures
            final(self).wf(),
            final(self).setup() == old(self).setup(),
            final(self)@ == event_spec(old(self)@, event),
            quit == (event is Quit),
    {
        match event {
            InputEvent::KeyDown(key) => {
                match keypad_index(key) {
                    Some(k) => self.set_key(k, true),
                    None => {},
                }
                false
            },
            InputEvent::KeyUp(key) => {
                match keypad_index(key) {
                    Some(k) => self.set_key(k, false),
                    None => {},
                }
                false
            },
            InputEvent::Quit => true,
            InputEvent::Nothing => false,
        }
    }
}

} // verus!
