//! The device side of a universal serial bus.

use vstd::prelude::*;

verus! {

/// A device stack that can be switched on and connected to the bus.
pub trait Client {
    /// What being switched on has made of the stack that was `before`.
    spec fn enabled(&self, before: &Self) -> bool;

    /// What being connected to the bus has made of the stack that was
    /// `before`.
    spec fn attached(&self, before: &Self) -> bool;

    /// Switches the controller on.
    fn enable(&mut self)
        ensures
            final(self).enabled(old(self)),
    ;

    /// Connects to the bus.
    fn attach(&mut self)
        ensures
            final(self).attached(old(self)),
    ;
}

} // verus!
