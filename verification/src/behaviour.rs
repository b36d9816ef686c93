use vstd::prelude::*;

use crate::keyboard::KeyboardState;
use crate::transform::TransformStore;

verus! {

/// A unit of per-tick game logic, supplied by the engine's user. The
/// simulation loop invokes `update` once per tick, in registration order.
///
/// An implementation may mutate any transform in the store and may query the
/// keyboard, but it must leave the number of stored transforms unchanged and
/// every stored transform well-formed; the engine's own invariants rest on
/// that. Implementations outside this crate are held to this contract only
/// if they are themselves verified.
pub trait Behaviour: Sized {
    fn update(&mut self, transforms: &mut TransformStore, key_pressed: &KeyboardState)
        requires
            old(transforms).all_wf(),
        ensures
            final(transforms)@.len() == old(transforms)@.len(),
            final(transforms).all_wf(),
    ;
}

} // verus!
