//! Key state of the 16-key keypad. The host polls the physical input source
//! and hands the freshly observed key state in as plain booleans; this module
//! stores it, answers key queries, and detects the key-down edges that the
//! blocking key-wait instruction looks for.

use vstd::prelude::*;

verus! {

/// The pressed/released state of the 16 keys, indexed by key nibble.
pub struct Keypad {
    pub pressed_keys: Vec<bool>,
}

impl Keypad {
    /// The key state always covers exactly 16 keys.
    pub open spec fn wf(&self) -> bool {
        self.pressed_keys@.len() == 16
    }

    /// A fresh keypad with every key released.
    pub fn new() -> (r: Keypad)
        ensures
            r.wf(),
            forall|k: int| 0 <= k < 16 ==> !r.pressed_keys@[k],
    {
        Keypad { pressed_keys: vec![false; 16] }
    }

    /// Refreshes the key state from one poll of the input source.
    pub fn emulate_cycle(&mut self, pressed: Vec<bool>)
        requires
            pressed@.len() == 16,
        ensures
            final(self).wf(),
            final(self).pressed_keys@ == pressed@,
    {
        self.pressed_keys = pressed;
    }

    /// Refreshes the key state and reports the lowest-numbered key that went
    /// from released to pressed, when there is one. The host calls this in a
    /// loop while the engine waits for a key.
    pub fn wait_for_key(&mut self, pressed: Vec<bool>) -> (r: Option<u8>)
        requires
            old(self).wf(),
            pressed@.len() == 16,
        ensures
            final(self).wf(),
            final(self).pressed_keys@ == pressed@,
            match r {
                Some(k) => {
                    &&& 0 <= k < 16
                    &&& !old(self).pressed_keys@[k as int]
                    &&& pressed@[k as int]
                    &&& forall|j: int|
                        0 <= j < k ==> !(!old(self).pressed_keys@[j] && pressed@[j])
                },
                None => forall|j: int|
                    0 <= j < 16 ==> !(!old(self).pressed_keys@[j] && pressed@[j]),
            },
    {
        let mut k: usize = 0;
        while k < 16
            invariant
                k <= 16,
                old(self).wf(),
                pressed@.len() == 16,
                self == old(self),
                forall|j: int| 0 <= j < k ==> !(!old(self).pressed_keys@[j] && pressed@[j]),
            decreases 16 - k,
        {
            if !self.pressed_keys[k] && pressed[k] {
                let key = k as u8;
                self.pressed_keys = pressed;
                return Some(key);
            }
            k = k + 1;
        }
        self.pressed_keys = pressed;
        None
    }

    /// Whether the given key is currently pressed.
    pub fn is_key_pressed(&self, key: u8) -> (r: bool)
        requires
            self.wf(),
            key < 16,
        ensures
            r == self.pressed_keys@[key as int],
    {
        self.pressed_keys[key as usize]
    }
}

} // verus!
