//! Storage that keeps its contents without power.

use vstd::prelude::*;
use crate::kernel::errorcode::ErrorCode;

verus! {

/// What the client of a storage chip is told when a transfer is done: the
/// buffer of the transfer, back with its owner, and the number of bytes
/// transferred.
pub struct Done {
    pub buffer: Vec<u8>,
    pub length: usize,
}

/// A storage chip addressed by byte. A refused transfer hands the buffer
/// back.
pub trait NonvolatileStorage {
    /// The chip is in a state in which it can be asked.
    spec fn ready(&self) -> bool;

    /// What a request to read `length` bytes at `address` into `buffer`,
    /// answered with `r`, has made of the chip that was `before`.
    spec fn read_asked(
        &self,
        before: &Self,
        buffer: Vec<u8>,
        address: usize,
        length: usize,
        r: Result<(), (ErrorCode, Vec<u8>)>,
    ) -> bool;

    /// What a request to write `length` bytes of `buffer` at `address`,
    /// answered with `r`, has made of the chip that was `before`.
    spec fn write_asked(
        &self,
        before: &Self,
        buffer: Vec<u8>,
        address: usize,
        length: usize,
        r: Result<(), (ErrorCode, Vec<u8>)>,
    ) -> bool;

    /// Reads `length` bytes at `address` into `buffer`.
    fn read(&mut self, buffer: Vec<u8>, address: usize, length: usize) -> (r: Result<
        (),
        (ErrorCode, Vec<u8>),
    >)
        requires
            old(self).ready(),
        ensures
            final(self).ready(),
            final(self).read_asked(old(self), buffer, address, length, r),
            r matches Err((_, b)) ==> b@.len() == buffer@.len(),
    ;

    /// Writes `length` bytes of `buffer` at `address`.
    fn write(&mut self, buffer: Vec<u8>, address: usize, length: usize) -> (r: Result<
        (),
        (ErrorCode, Vec<u8>),
    >)
        requires
            old(self).ready(),
        ensures
            final(self).ready(),
            final(self).write_asked(old(self), buffer, address, length, r),
            r matches Err((_, b)) ==> b@.len() == buffer@.len(),
    ;
}

} // verus!
