//! Random number generators.

use vstd::prelude::*;
use crate::kernel::errorcode::ErrorCode;

verus! {

/// What the receiver of random numbers asks of the generator.
#[derive(Clone, Copy, Debug, PartialEq, Eq, Structural)]
pub enum Continue {
    /// More is needed: call again when there is more.
    More,
    /// Enough was delivered.
    Done,
}

/// A generator of random words.
pub trait Rng {
    /// What a request to start delivering (`start`) or to stop, answered
    /// with `r`, has made of the generator that was `before`.
    spec fn asked(&self, before: &Self, start: bool, r: Result<(), ErrorCode>) -> bool;

    /// Asks the generator to start delivering.
    fn get(&mut self) -> (r: Result<(), ErrorCode>)
        ensures
            final(self).asked(old(self), true, r),
    ;

    /// Asks the generator to stop.
    fn cancel(&mut self) -> (r: Result<(), ErrorCode>)
        ensures
            final(self).asked(old(self), false, r),
    ;
}

} // verus!
