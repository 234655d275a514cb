//! Alarms.

use vstd::prelude::*;

verus! {

/// A free-running counter with one alarm.
pub trait Alarm {
    /// The ticks of the counter per second.
    spec fn rate(&self) -> u32;

    /// The counter's value.
    spec fn time(&self) -> u32;

    /// The number of ticks in `us` microseconds.
    spec fn ticks_us(&self, us: u32) -> u32;

    /// The number of ticks in `ms` milliseconds.
    spec fn ticks_ms(&self, ms: u32) -> u32;

    /// What being armed to fire `dt` ticks after `reference` has made of
    /// the alarm that was `before`.
    spec fn armed(&self, before: &Self, reference: u32, dt: u32) -> bool;

    /// The ticks of the counter per second.
    fn frequency(&self) -> (r: u32)
        ensures
            r == self.rate(),
    ;

    /// The counter's value.
    fn now(&self) -> (r: u32)
        ensures
            r == self.time(),
    ;

    /// Arms the alarm to fire `dt` ticks after `reference`.
    fn set_alarm(&mut self, reference: u32, dt: u32)
        ensures
            final(self).armed(old(self), reference, dt),
    ;

    /// The number of ticks in `us` microseconds.
    fn ticks_from_us(&self, us: u32) -> (r: u32)
        ensures
            r == self.ticks_us(us),
    ;

    /// The number of ticks in `ms` milliseconds.
    fn ticks_from_ms(&self, ms: u32) -> (r: u32)
        ensures
            r == self.ticks_ms(ms),
    ;
}

} // verus!
