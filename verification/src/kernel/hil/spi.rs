//! Serial peripheral buses.

use vstd::prelude::*;
use crate::kernel::errorcode::ErrorCode;

verus! {

/// The level of the clock line while no transfer runs.
#[derive(Clone, Copy, Debug, PartialEq, Eq, Structural)]
pub enum ClockPolarity {
    IdleLow,
    IdleHigh,
}

/// The clock edge on which data is sampled.
#[derive(Clone, Copy, Debug, PartialEq, Eq, Structural)]
pub enum ClockPhase {
    SampleLeading,
    SampleTrailing,
}

/// One device on a bus, selected already. A refused transfer hands its
/// buffers back.
pub trait SpiMasterDevice {
    /// What a request to set polarity, phase and rate, answered with `r`,
    /// has made of the device that was `before`.
    spec fn configured(
        &self,
        before: &Self,
        cpol: ClockPolarity,
        cpal: ClockPhase,
        rate: u32,
        r: Result<(), ErrorCode>,
    ) -> bool;

    /// What a request for a transfer of `len` bytes with these buffers,
    /// answered with `r`, has made of the device that was `before`.
    spec fn transferred(
        &self,
        before: &Self,
        write_buffer: Vec<u8>,
        read_buffer: Option<Vec<u8>>,
        len: usize,
        r: Result<(), (ErrorCode, Vec<u8>, Option<Vec<u8>>)>,
    ) -> bool;

    /// Sets polarity, phase and rate for the transfers that follow.
    fn configure(&mut self, cpol: ClockPolarity, cpal: ClockPhase, rate: u32) -> (r: Result<
        (),
        ErrorCode,
    >)
        ensures
            final(self).configured(old(self), cpol, cpal, rate, r),
    ;

    /// Writes `len` bytes of `write_buffer` and, where `read_buffer` is
    /// given, reads as many into it.
    fn read_write_bytes(
        &mut self,
        write_buffer: Vec<u8>,
        read_buffer: Option<Vec<u8>>,
        len: usize,
    ) -> (r: Result<(), (ErrorCode, Vec<u8>, Option<Vec<u8>>)>)
        ensures
            final(self).transferred(old(self), write_buffer, read_buffer, len, r),
            r matches Err((_, w, rd)) ==> {
                &&& w@.len() == write_buffer@.len()
                &&& (rd is Some <==> read_buffer is Some)
                &&& (rd matches Some(b) ==> b@.len() == read_buffer->Some_0@.len())
            },
    ;
}

} // verus!
