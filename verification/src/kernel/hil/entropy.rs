//! Sources of entropy.

use vstd::prelude::*;
use crate::kernel::errorcode::ErrorCode;

verus! {

/// What the receiver of entropy asks of the source.
#[derive(Clone, Copy, Debug, PartialEq, Eq, Structural)]
pub enum Continue {
    /// More is needed: call again when there is more.
    More,
    /// Enough was delivered.
    Done,
}

/// What a source has ready when it calls its receiver: items that the
/// receiver takes one by one, as many as it wants.
pub struct Available<T> {
    pub items: Vec<T>,
    pub position: usize,
}

impl<T: Copy> Available<T> {
    /// The position lies within the items.
    pub open spec fn wf(&self) -> bool {
        self.position <= self.items@.len()
    }

    /// The items that are still to be taken.
    pub open spec fn rest(&self) -> Seq<T> {
        self.items@.subrange(self.position as int, self.items@.len() as int)
    }

    /// Makes `items` available, none of them taken.
    pub fn new(items: Vec<T>) -> (r: Available<T>)
        ensures
            r.wf(),
            r.items == items,
            r.position == 0,
            r.rest() == items@,
    {
        let r = Available { items, position: 0 };
        assert(r.rest() =~= items@);
        r
    }

    /// The number of items that are still to be taken.
    pub fn remaining(&self) -> (n: usize)
        requires
            self.wf(),
        ensures
            n == self.rest().len(),
    {
        self.items.len() - self.position
    }

    /// Takes the next item, if one is left.
    pub fn next(&mut self) -> (r: Option<T>)
        requires
            old(self).wf(),
        ensures
            final(self).wf(),
            final(self).items == old(self).items,
            old(self).rest().len() == 0 ==> r is None && *final(self) == *old(self),
            old(self).rest().len() > 0 ==> r == Some(old(self).rest()[0]) && final(self).rest()
                == old(self).rest().skip(1) && final(self).position == old(self).position + 1,
    {
        if self.position < self.items.len() {
            let v = self.items[self.position];
            self.position = self.position + 1;
            assert(self.rest() =~= old(self).rest().skip(1));
            Some(v)
        } else {
            None
        }
    }
}

/// A source of entropy in words of 32 bits.
pub trait Entropy32 {
    /// What a request to start delivering (`start`) or to stop, answered
    /// with `r`, has made of the source that was `before`.
    spec fn asked(&self, before: &Self, start: bool, r: Result<(), ErrorCode>) -> bool;

    /// Asks the source to start delivering.
    fn get(&mut self) -> (r: Result<(), ErrorCode>)
        ensures
            final(self).asked(old(self), true, r),
    ;

    /// Asks the source to stop.
    fn cancel(&mut self) -> (r: Result<(), ErrorCode>)
        ensures
            final(self).asked(old(self), false, r),
    ;
}

/// A source of entropy in bytes.
pub trait Entropy8 {
    /// What a request to start delivering (`start`) or to stop, answered
    /// with `r`, has made of the source that was `before`.
    spec fn asked(&self, before: &Self, start: bool, r: Result<(), ErrorCode>) -> bool;

    /// Asks the source to start delivering.
    fn get(&mut self) -> (r: Result<(), ErrorCode>)
        ensures
            final(self).asked(old(self), true, r),
    ;

    /// Asks the source to stop.
    fn cancel(&mut self) -> (r: Result<(), ErrorCode>)
        ensures
            final(self).asked(old(self), false, r),
    ;
}

} // verus!
