//! What a chip offers to the kernel.

use vstd::prelude::*;

verus! {

/// The clock of one peripheral.
pub trait ClockInterface {
    /// Whether the clock runs.
    spec fn enabled(&self) -> bool;

    /// What being told to run (`on`) or to stop has made of the clock that
    /// was `before`.
    spec fn switched(&self, before: &Self, on: bool) -> bool;

    /// Tells whether the clock runs.
    fn is_enabled(&self) -> (r: bool)
        ensures
            r == self.enabled(),
    ;

    /// Lets the clock run.
    fn enable(&mut self)
        ensures
            final(self).switched(old(self), true),
    ;

    /// Stops the clock.
    fn disable(&mut self)
        ensures
            final(self).switched(old(self), false),
    ;
}

/// The peripherals of a chip, as far as interrupts go.
pub trait InterruptService {
    /// What serving the interrupt `interrupt`, with the answer `r`, has
    /// made of the peripherals that were `before`.
    spec fn served(&self, before: &Self, interrupt: u32, r: bool) -> bool;

    /// Serves the interrupt with the number `interrupt`, if it is one of
    /// this chip's, and tells whether it was.
    fn service_interrupt(&mut self, interrupt: u32) -> (r: bool)
        ensures
            final(self).served(old(self), interrupt, r),
    ;
}

/// The right to inspect and manage processes.
pub trait ProcessManagementCapability {
}

} // verus!
