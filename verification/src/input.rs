//! Input devices for the CHIP-8 emulation.
//!
//! The `Input` trait is the interface that the emulator core expects of a
//! keypad: a snapshot of which of the sixteen keys are held down.

use crate::random::{random_flag, thread_generator};
use vstd::prelude::*;

verus! {

/// The input device that the CHIP-8 emulation core expects. It consists of
/// reading key states.
pub trait Input {
    /// Returns an array of key states. Currently pressed keys have `true` as
    /// value, other keys have `false`.
    fn get_key_states(&self) -> [bool; 16];
}

/// Emulated keyboard for the CHIP-8. Contains keys 0 to F in a numpad-like
/// pattern. Until it is wired to a real device, every poll reports each key
/// as pressed or released at random.
pub struct Keyboard {
    keys: [bool; 16],
}

impl View for Keyboard {
    type V = Seq<bool>;

    /// The key states that the keyboard holds, one per key.
    closed spec fn view(&self) -> Seq<bool> {
        self.keys@
    }
}

impl Keyboard {
    /// A keyboard with no key held down.
    pub fn new() -> (keyboard: Keyboard)
        ensures
            keyboard@ == Seq::new(16, |k: int| false),
    {
        Keyboard { keys: [false; 16] }
    }
}

impl Input for Keyboard {
    fn get_key_states(&self) -> [bool; 16] {
        let mut rng = thread_generator();
        let mut keys = [false; 16];
        let mut i: usize = 0;
        while i < 16
            invariant
                i <= 16,
            decreases 16 - i,
        {
            keys[i] = random_flag(&mut rng);
            i = i + 1;
        }
        keys
    }
}

/// A keypad with a fixed snapshot: every poll reports the same key states.
pub struct MockInput {
    pub keys: [bool; 16],
}

impl MockInput {
    pub fn new(keys: &[bool; 16]) -> (input: MockInput)
        ensures
            input.keys@ == keys@,
    {
        MockInput { keys: *keys }
    }
}

impl Input for MockInput {
    fn get_key_states(&self) -> (keys: [bool; 16])
        ensures
            keys@ == self.keys@,
    {
        self.keys
    }
}

} // verus!
