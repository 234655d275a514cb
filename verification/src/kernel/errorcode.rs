//! Error codes reported by the kernel and by drivers.

use vstd::prelude::*;

verus! {

/// Reasons for which a request is refused or an operation fails.
#[allow(non_camel_case_types)]
#[derive(Clone, Copy, Debug, PartialEq, Eq, Structural)]
pub enum ErrorCode {
    /// Generic failure.
    FAIL,
    /// The resource, or the caller's queue slot, is occupied.
    BUSY,
    /// The requested state is already in place.
    ALREADY,
    /// The component is powered down.
    OFF,
    /// A reservation is required first, or no buffer is on hand.
    RESERVE,
    /// A parameter is out of its declared bounds.
    INVAL,
    /// A size is out of range.
    SIZE,
    /// The operation was cancelled.
    CANCEL,
    /// No memory, or no buffer registered.
    NOMEM,
    /// The operation is not implemented by this hardware.
    NOSUPPORT,
    /// The addressed device or channel does not exist.
    NODEVICE,
    /// The device is not installed.
    UNINSTALLED,
    /// The peer did not acknowledge.
    NOACK,
    /// A value returned from elsewhere could not be represented.
    BADRVAL,
}

impl ErrorCode {
    /// The machine word that stands for this error: never zero.
    pub open spec fn code(self) -> usize {
        match self {
            ErrorCode::FAIL => 1,
            ErrorCode::BUSY => 2,
            ErrorCode::ALREADY => 3,
            ErrorCode::OFF => 4,
            ErrorCode::RESERVE => 5,
            ErrorCode::INVAL => 6,
            ErrorCode::SIZE => 7,
            ErrorCode::CANCEL => 8,
            ErrorCode::NOMEM => 9,
            ErrorCode::NOSUPPORT => 10,
            ErrorCode::NODEVICE => 11,
            ErrorCode::UNINSTALLED => 12,
            ErrorCode::NOACK => 13,
            ErrorCode::BADRVAL => 1024,
        }
    }

    /// The machine word that stands for this error.
    pub fn into_usize(self) -> (r: usize)
        ensures
            r == self.code(),
            r != 0,
    {
        match self {
            ErrorCode::FAIL => 1,
            ErrorCode::BUSY => 2,
            ErrorCode::ALREADY => 3,
            ErrorCode::OFF => 4,
            ErrorCode::RESERVE => 5,
            ErrorCode::INVAL => 6,
            ErrorCode::SIZE => 7,
            ErrorCode::CANCEL => 8,
            ErrorCode::NOMEM => 9,
            ErrorCode::NOSUPPORT => 10,
            ErrorCode::NODEVICE => 11,
            ErrorCode::UNINSTALLED => 12,
            ErrorCode::NOACK => 13,
            ErrorCode::BADRVAL => 1024,
        }
    }
}

/// The status word of a completion: zero for success, the error's word
/// otherwise.
pub open spec fn statuscode(r: Result<(), ErrorCode>) -> usize {
    match r {
        Ok(()) => 0,
        Err(e) => e.code(),
    }
}

/// Turns the outcome of an operation into the status word handed to a
/// process.
pub fn into_statuscode(r: Result<(), ErrorCode>) -> (code: usize)
    ensures
        code == statuscode(r),
        code == 0 <==> r.is_ok(),
{
    match r {
        Ok(()) => 0,
        Err(e) => e.into_usize(),
    }
}

} // verus!
