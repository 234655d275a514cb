//! General-purpose pins.

use vstd::prelude::*;

verus! {

/// The edge of the signal on which a pin raises an interrupt.
#[derive(Clone, Copy, Debug, PartialEq, Eq, Structural)]
pub enum InterruptEdge {
    RisingEdge,
    FallingEdge,
    EitherEdge,
}

/// A pin that can be driven.
pub trait Pin {
    /// What being made an output (`output`) or an input has made of the
    /// pin that was `before`.
    spec fn turned(&self, before: &Self, output: bool) -> bool;

    /// What being driven high (`high`) or low has made of the pin that
    /// was `before`.
    spec fn driven(&self, before: &Self, high: bool) -> bool;

    /// Makes the pin an output.
    fn make_output(&mut self)
        ensures
            final(self).turned(old(self), true),
    ;

    /// Makes the pin an input.
    fn make_input(&mut self)
        ensures
            final(self).turned(old(self), false),
    ;

    /// Drives the pin high.
    fn set(&mut self)
        ensures
            final(self).driven(old(self), true),
    ;

    /// Drives the pin low.
    fn clear(&mut self)
        ensures
            final(self).driven(old(self), false),
    ;
}

/// A pin that can raise interrupts.
pub trait InterruptPin {
    /// What being made an input has made of the pin that was `before`.
    spec fn made_input(&self, before: &Self) -> bool;

    /// What being told to raise interrupts on `mode`, or with `None` to
    /// raise none, has made of the pin that was `before`.
    spec fn interrupts_set(&self, before: &Self, mode: Option<InterruptEdge>) -> bool;

    /// Makes the pin an input.
    fn make_input(&mut self)
        ensures
            final(self).made_input(old(self)),
    ;

    /// Lets the pin raise an interrupt on `mode`.
    fn enable_interrupts(&mut self, mode: InterruptEdge)
        ensures
            final(self).interrupts_set(old(self), Some(mode)),
    ;

    /// Stops the pin from raising interrupts.
    fn disable_interrupts(&mut self)
        ensures
            final(self).interrupts_set(old(self), None),
    ;
}

} // verus!
