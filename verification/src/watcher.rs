//! Turns the readings of a device into the changes of its state.
use vstd::prelude::*;

verus! {

/// Remembers what a device was last reported as, so that only changes are
/// passed on.
#[derive(Debug, PartialEq)]
pub struct Watcher {
    in_use: bool,
}

impl View for Watcher {
    type V = bool;

    closed spec fn view(&self) -> bool {
        self.in_use
    }
}

/// What a reading is passed on as: the new state where it differs from the
/// last reported one, nothing where it repeats it.
pub open spec fn change(last: bool, reading: bool) -> Option<bool> {
    if reading != last {
        Some(reading)
    } else {
        None
    }
}

impl Watcher {
    /// A watcher of a device that was last reported as not in use.
    pub fn new() -> (watcher: Watcher)
        ensures
            watcher@ == false,
    {
        Watcher { in_use: false }
    }

    /// Takes a reading of the device and hands out the new state where the
    /// reading differs from what was last reported.
    pub fn observe(&mut self, reading: bool) -> (changed: Option<bool>)
        ensures
            changed == change(old(self)@, reading),
            final(self)@ == reading,
    {
        if reading != self.in_use {
            self.in_use = !self.in_use;
            Some(self.in_use)
        } else {
            None
        }
    }
}

} // verus!
