//! Two-wire buses.

use vstd::prelude::*;
use crate::kernel::errorcode::ErrorCode;

verus! {

/// Why a transfer on the bus failed.
#[derive(Clone, Copy, Debug, PartialEq, Eq, Structural)]
pub enum Error {
    /// The peer did not acknowledge its address.
    AddressNak,
    /// The peer did not acknowledge a byte.
    DataNak,
    /// Another master won the bus.
    ArbitrationLost,
    /// A byte arrived before the last one was read.
    Overrun,
    /// The operation is not supported.
    NotSupported,
    /// The bus is busy.
    Busy,
}

impl Error {
    /// The error code under which a bus failure is reported.
    pub open spec fn as_errorcode(self) -> ErrorCode {
        match self {
            Error::AddressNak => ErrorCode::NOACK,
            Error::DataNak => ErrorCode::NOACK,
            Error::ArbitrationLost => ErrorCode::RESERVE,
            Error::Overrun => ErrorCode::SIZE,
            Error::NotSupported => ErrorCode::NOSUPPORT,
            Error::Busy => ErrorCode::BUSY,
        }
    }

    /// Converts a bus failure into the error code reported to callers.
    pub fn into_errorcode(self) -> (r: ErrorCode)
        ensures
            r == self.as_errorcode(),
    {
        match self {
            Error::AddressNak => ErrorCode::NOACK,
            Error::DataNak => ErrorCode::NOACK,
            Error::ArbitrationLost => ErrorCode::RESERVE,
            Error::Overrun => ErrorCode::SIZE,
            Error::NotSupported => ErrorCode::NOSUPPORT,
            Error::Busy => ErrorCode::BUSY,
        }
    }
}

/// One device on a bus, addressed already. A refused transfer hands the
/// buffer back.
pub trait I2CDevice {
    /// What powering the bus interface up (`on`) or down has made of the
    /// device that was `before`.
    spec fn switched(&self, before: &Self, on: bool) -> bool;

    /// What a request to write `write_len` bytes of `data` and then read
    /// `read_len` bytes, answered with `r`, has made of the device that was
    /// `before`.
    spec fn write_read_asked(
        &self,
        before: &Self,
        data: Vec<u8>,
        write_len: usize,
        read_len: usize,
        r: Result<(), (Error, Vec<u8>)>,
    ) -> bool;

    /// What a request to write `len` bytes of `data`, answered with `r`,
    /// has made of the device that was `before`.
    spec fn write_asked(
        &self,
        before: &Self,
        data: Vec<u8>,
        len: usize,
        r: Result<(), (Error, Vec<u8>)>,
    ) -> bool;

    /// What a request to read `len` bytes into `buffer`, answered with
    /// `r`, has made of the device that was `before`.
    spec fn read_asked(
        &self,
        before: &Self,
        buffer: Vec<u8>,
        len: usize,
        r: Result<(), (Error, Vec<u8>)>,
    ) -> bool;

    /// Powers the bus interface up.
    fn enable(&mut self)
        ensures
            final(self).switched(old(self), true),
    ;

    /// Powers the bus interface down.
    fn disable(&mut self)
        ensures
            final(self).switched(old(self), false),
    ;

    /// Writes `write_len` bytes of `data`, then reads `read_len` bytes into
    /// it.
    fn write_read(&mut self, data: Vec<u8>, write_len: usize, read_len: usize) -> (r: Result<
        (),
        (Error, Vec<u8>),
    >)
        ensures
            final(self).write_read_asked(old(self), data, write_len, read_len, r),
            r matches Err((_, b)) ==> b@.len() == data@.len(),
    ;

    /// Writes `len` bytes of `data`.
    fn write(&mut self, data: Vec<u8>, len: usize) -> (r: Result<(), (Error, Vec<u8>)>)
        ensures
            final(self).write_asked(old(self), data, len, r),
            r matches Err((_, b)) ==> b@.len() == data@.len(),
    ;

    /// Reads `len` bytes into `buffer`.
    fn read(&mut self, buffer: Vec<u8>, len: usize) -> (r: Result<(), (Error, Vec<u8>)>)
        ensures
            final(self).read_asked(old(self), buffer, len, r),
            r matches Err((_, b)) ==> b@.len() == buffer@.len(),
    ;
}

/// One device on a system-management bus. A refused transfer hands the
/// buffer back.
pub trait SMBusDevice: I2CDevice {
    /// What a request to write `write_len` bytes of `data` and then read
    /// `read_len` bytes, answered with `r`, has made of the device that was
    /// `before`.
    spec fn smbus_write_read_asked(
        &self,
        before: &Self,
        data: Vec<u8>,
        write_len: usize,
        read_len: usize,
        r: Result<(), (Error, Vec<u8>)>,
    ) -> bool;

    /// What a request to write `len` bytes of `data`, answered with `r`,
    /// has made of the device that was `before`.
    spec fn smbus_write_asked(
        &self,
        before: &Self,
        data: Vec<u8>,
        len: usize,
        r: Result<(), (Error, Vec<u8>)>,
    ) -> bool;

    /// What a request to read `len` bytes into `buffer`, answered with
    /// `r`, has made of the device that was `before`.
    spec fn smbus_read_asked(
        &self,
        before: &Self,
        buffer: Vec<u8>,
        len: usize,
        r: Result<(), (Error, Vec<u8>)>,
    ) -> bool;

    /// Writes `write_len` bytes of `data`, then reads `read_len` bytes into
    /// it.
    fn smbus_write_read(&mut self, data: Vec<u8>, write_len: usize, read_len: usize) -> (r:
        Result<(), (Error, Vec<u8>)>)
        ensures
            final(self).smbus_write_read_asked(old(self), data, write_len, read_len, r),
            r matches Err((_, b)) ==> b@.len() == data@.len(),
    ;

    /// Writes `len` bytes of `data`.
    fn smbus_write(&mut self, data: Vec<u8>, len: usize) -> (r: Result<(), (Error, Vec<u8>)>)
        ensures
            final(self).smbus_write_asked(old(self), data, len, r),
            r matches Err((_, b)) ==> b@.len() == data@.len(),
    ;

    /// Reads `len` bytes into `buffer`.
    fn smbus_read(&mut self, buffer: Vec<u8>, len: usize) -> (r: Result<(), (Error, Vec<u8>)>)
        ensures
            final(self).smbus_read_asked(old(self), buffer, len, r),
            r matches Err((_, b)) ==> b@.len() == buffer@.len(),
    ;
}

/// The master side of a bus: transfers name the address of the peer. A
/// refused transfer hands the buffer back.
pub trait I2CMaster {
    /// The controller is in a state in which it can be asked.
    spec fn ready(&self) -> bool;

    /// Powers the bus interface up.
    fn enable(&mut self)
        requires
            old(self).ready(),
        ensures
            final(self).ready(),
    ;

    /// Powers the bus interface down.
    fn disable(&mut self)
        requires
            old(self).ready(),
        ensures
            final(self).ready(),
    ;

    /// Writes `write_len` bytes of `data` to `addr`, then reads `read_len`
    /// bytes into it.
    fn write_read(&mut self, addr: u8, data: Vec<u8>, write_len: usize, read_len: usize) -> (r:
        Result<(), (Error, Vec<u8>)>)
        requires
            old(self).ready(),
        ensures
            final(self).ready(),
            r matches Err((_, b)) ==> b@.len() == data@.len(),
    ;

    /// Writes `len` bytes of `data` to `addr`.
    fn write(&mut self, addr: u8, data: Vec<u8>, len: usize) -> (r: Result<
        (),
        (Error, Vec<u8>),
    >)
        requires
            old(self).ready(),
        ensures
            final(self).ready(),
            r matches Err((_, b)) ==> b@.len() == data@.len(),
    ;

    /// Reads `len` bytes from `addr` into `buffer`.
    fn read(&mut self, addr: u8, buffer: Vec<u8>, len: usize) -> (r: Result<
        (),
        (Error, Vec<u8>),
    >)
        requires
            old(self).ready(),
        ensures
            final(self).ready(),
            r matches Err((_, b)) ==> b@.len() == buffer@.len(),
    ;
}

} // verus!
