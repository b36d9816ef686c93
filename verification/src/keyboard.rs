use vstd::prelude::*;

use std::collections::HashMap;

verus! {

broadcast use vstd::std_specs::hash::group_hash_axioms;

/// The keyboard table: a mapping from logical key identity to whether the
/// key is currently pressed. A key with no entry counts as released.
pub struct KeyboardState {
    table: HashMap<u32, bool>,
}

impl View for KeyboardState {
    type V = Map<u32, bool>;

    closed spec fn view(&self) -> Map<u32, bool> {
        self.table@
    }
}

impl KeyboardState {
    pub fn new() -> (keys: KeyboardState)
        ensures
            keys@ == Map::<u32, bool>::empty(),
    {
        KeyboardState { table: HashMap::new() }
    }

    /// Record a key-state change observed during event polling.
    pub fn set_key(&mut self, key: u32, pressed: bool)
        ensures
            final(self)@ == old(self)@.insert(key, pressed),
    {
        self.table.insert(key, pressed);
    }

    /// Whether the key is currently pressed; absence means released.
    pub fn is_pressed(&self, key: u32) -> (pressed: bool)
        ensures
            pressed == (self@.contains_key(key) && self@[key]),
    {
        match self.table.get(&key) {
            Some(p) => *p,
            None => false,
        }
    }
}

} // verus!
