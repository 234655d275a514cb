//! A holder for a value with exactly one owner at a time.

use vstd::prelude::*;

verus! {

/// A named holder of a transfer buffer, or of any other value that is moved
/// rather than shared. The value is either in the holder or with whoever
/// took it: taking from an empty holder yields nothing, and what was put in
/// comes out unchanged.
pub struct TakeCell<T> {
    pub value: Option<T>,
}

impl<T> TakeCell<T> {
    /// A holder without a value.
    pub fn empty() -> (r: Self)
        ensures
            r.value is None,
    {
        TakeCell { value: None }
    }

    /// A holder of `value`.
    pub fn new(value: T) -> (r: Self)
        ensures
            r.value == Some(value),
    {
        TakeCell { value: Some(value) }
    }

    /// Whether the cell is empty.
    pub fn is_none(&self) -> (r: bool)
        ensures
            r == (self.value is None),
    {
        self.value.is_none()
    }

    /// Whether the cell holds a value.
    pub fn is_some(&self) -> (r: bool)
        ensures
            r == (self.value is Some),
    {
        self.value.is_some()
    }

    /// Removes the value from the holder. Yields nothing if the holder is
    /// empty already; the holder is empty afterwards in either case.
    pub fn take(&mut self) -> (r: Option<T>)
        ensures
            r == old(self).value,
            final(self).value is None,
    {
        self.value.take()
    }

    /// Puts `value` into the holder and hands out what was there before.
    pub fn replace(&mut self, value: T) -> (r: Option<T>)
        ensures
            r == old(self).value,
            final(self).value == Some(value),
    {
        let before = self.value.take();
        self.value = Some(value);
        before
    }

    /// Puts back what an earlier `take` handed out, be it a value or
    /// nothing.
    pub fn put(&mut self, value: Option<T>)
        ensures
            final(self).value == value,
    {
        self.value = value;
    }
}

} // verus!
