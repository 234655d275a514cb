//! Pulse-width modulation.

use vstd::prelude::*;
use crate::kernel::errorcode::ErrorCode;

verus! {

/// A signal generator that drives one pin at a time.
pub trait Pwm {
    /// What names a pin of this generator.
    type Pin;

    /// What a request to start the signal on `pin` with the given
    /// frequency and duty cycle, answered with `r`, has made of the
    /// generator that was `before`.
    spec fn started(
        &self,
        before: &Self,
        pin: Self::Pin,
        frequency_hz: usize,
        duty_cycle: usize,
        r: Result<(), ErrorCode>,
    ) -> bool;

    /// What a request to stop the signal on `pin`, answered with `r`, has
    /// made of the generator that was `before`.
    spec fn stopped(&self, before: &Self, pin: Self::Pin, r: Result<(), ErrorCode>) -> bool;

    /// Starts the signal on `pin` with the given frequency and duty cycle.
    fn start(&mut self, pin: &Self::Pin, frequency_hz: usize, duty_cycle: usize) -> (r: Result<
        (),
        ErrorCode,
    >)
        ensures
            final(self).started(old(self), *pin, frequency_hz, duty_cycle, r),
    ;

    /// Stops the signal on `pin`.
    fn stop(&mut self, pin: &Self::Pin) -> (r: Result<(), ErrorCode>)
        ensures
            final(self).stopped(old(self), *pin, r),
    ;

    /// The highest frequency the generator supports.
    spec fn maximum_frequency_hz(&self) -> usize;

    /// The value of the duty cycle that stands for always on.
    spec fn maximum_duty_cycle(&self) -> usize;

    /// The highest frequency the generator supports.
    fn get_maximum_frequency_hz(&self) -> (r: usize)
        ensures
            r == self.maximum_frequency_hz(),
    ;

    /// The value of the duty cycle that stands for always on.
    fn get_maximum_duty_cycle(&self) -> (r: usize)
        ensures
            r == self.maximum_duty_cycle(),
    ;
}

} // verus!
