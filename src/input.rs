//! Keyboard state as the window reports it, frame by frame.
use std::collections::HashSet;
use vstd::prelude::*;

verus! {

broadcast use vstd::std_specs::hash::group_hash_axioms;

#[derive(Clone, Copy, Debug, PartialEq, Eq, Structural)]
pub enum KeyState {
    Pressed,
    Released,
}

/// Which keys are down, which were let go, and which went down during the
/// current frame. Keys are the window system's key codes.
pub struct Keys {
    pressed: HashSet<u32>,
    released: HashSet<u32>,
    typed: HashSet<u32>,
}

impl Keys {
    pub closed spec fn pressed_spec(&self) -> Set<u32> {
        self.pressed@
    }

    pub closed spec fn released_spec(&self) -> Set<u32> {
        self.released@
    }

    pub closed spec fn typed_spec(&self) -> Set<u32> {
        self.typed@
    }

    pub fn new() -> (r: Self)
        ensures
            r.pressed_spec() == Set::<u32>::empty(),
            r.released_spec() == Set::<u32>::empty(),
            r.typed_spec() == Set::<u32>::empty(),
    {
        Keys { pressed: HashSet::new(), released: HashSet::new(), typed: HashSet::new() }
    }

    /// Records that `key` went down or up.
    pub fn handle(&mut self, key: u32, state: KeyState)
        ensures
            state == KeyState::Pressed ==> {
                &&& final(self).pressed_spec() == old(self).pressed_spec().insert(key)
                &&& final(self).typed_spec() == old(self).typed_spec().insert(key)
                &&& final(self).released_spec() == old(self).released_spec().remove(key)
            },
            state == KeyState::Released ==> {
                &&& final(self).released_spec() == old(self).released_spec().insert(key)
                &&& final(self).pressed_spec() == old(self).pressed_spec().remove(key)
                &&& final(self).typed_spec() == old(self).typed_spec().remove(key)
            },
    {
        match state {
            KeyState::Pressed => {
                self.pressed.insert(key);
                self.typed.insert(key);
                self.released.remove(&key);
            },
            KeyState::Released => {
                self.released.insert(key);
                self.pressed.remove(&key);
                self.typed.remove(&key);
            },
        }
    }

    /// Ends a frame: no key has been typed in the next one yet.
    pub fn clear_typed(&mut self)
        ensures
            final(self).pressed_spec() == old(self).pressed_spec(),
            final(self).released_spec() == old(self).released_spec(),
            final(self).typed_spec() == Set::<u32>::empty(),
    {
        self.typed.clear();
    }

    pub fn is_pressed(&self, key: u32) -> (r: bool)
        ensures
            r == self.pressed_spec().contains(key),
    {
        self.pressed.contains(&key)
    }

    pub fn is_released(&self, key: u32) -> (r: bool)
        ensures
            r == self.released_spec().contains(key),
    {
        self.released.contains(&key)
    }

    pub fn is_typed(&self, key: u32) -> (r: bool)
        ensures
            r == self.typed_spec().contains(key),
    {
        self.typed.contains(&key)
    }
}

} // verus!
