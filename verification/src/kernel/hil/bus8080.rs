//! Parallel buses of the 8080 kind.

use vstd::prelude::*;
use crate::kernel::errorcode::ErrorCode;

verus! {

/// The width of a word on the bus.
#[derive(Clone, Copy, Debug, PartialEq, Eq, Structural)]
pub enum BusWidth {
    Bits8,
    Bits16LE,
    Bits16BE,
}

impl BusWidth {
    /// The number of bytes of one word.
    pub open spec fn bytes(self) -> int {
        match self {
            BusWidth::Bits8 => 1,
            BusWidth::Bits16LE => 2,
            BusWidth::Bits16BE => 2,
        }
    }

    /// The number of bytes of one word.
    pub fn width_in_bytes(&self) -> (r: usize)
        ensures
            r == self.bytes(),
            1 <= r <= 2,
    {
        match self {
            BusWidth::Bits8 => 1,
            BusWidth::Bits16LE => 2,
            BusWidth::Bits16BE => 2,
        }
    }
}

/// What the client of a bus is told when a transfer is done: the buffer,
/// if the transfer had one, the number of words transferred, and the
/// outcome.
pub struct Completion {
    pub buffer: Option<Vec<u8>>,
    pub len: usize,
    pub status: Result<(), ErrorCode>,
}

/// A parallel bus. A refused transfer hands the buffer back.
pub trait Bus8080 {
    /// The bus is in a state in which it can be asked.
    spec fn ready(&self) -> bool;

    /// Selects the address `addr`, of the width `addr_width`, for the
    /// transfers that follow.
    fn set_addr(&mut self, addr_width: BusWidth, addr: usize) -> (r: Result<(), ErrorCode>)
        requires
            old(self).ready(),
        ensures
            final(self).ready(),
    ;

    /// Writes `len` words of `data_width` from `buffer`.
    fn write(&mut self, data_width: BusWidth, buffer: Vec<u8>, len: usize) -> (r: Result<
        (),
        (ErrorCode, Vec<u8>),
    >)
        requires
            old(self).ready(),
        ensures
            final(self).ready(),
            r matches Err((_, b)) ==> b@.len() == buffer@.len(),
    ;

    /// Reads `len` words of `data_width` into `buffer`.
    fn read(&mut self, data_width: BusWidth, buffer: Vec<u8>, len: usize) -> (r: Result<
        (),
        (ErrorCode, Vec<u8>),
    >)
        requires
            old(self).ready(),
        ensures
            final(self).ready(),
            r matches Err((_, b)) ==> b@.len() == buffer@.len(),
    ;
}

} // verus!
