//! Process identities and the ways in which a process fails to resolve.

use vstd::prelude::*;
use crate::kernel::errorcode::ErrorCode;

verus! {

/// Names one incarnation of a process: the slot it occupies in the process
/// table and the identifier given to it when it was loaded or last
/// restarted. An identity held from before a restart no longer resolves.
#[derive(Clone, Copy, Debug, PartialEq, Eq, Structural)]
pub struct ProcessId {
    pub index: usize,
    pub identifier: usize,
}

impl ProcessId {
    /// The identity of the process in slot `index` with the number
    /// `identifier`.
    pub fn new(index: usize, identifier: usize) -> (r: ProcessId)
        ensures
            r.index == index,
            r.identifier == identifier,
    {
        ProcessId { index, identifier }
    }

    /// The slot of the process table that this identity points at.
    pub fn index(&self) -> (r: usize)
        ensures
            r == self.index,
    {
        self.index
    }

    /// The identifier of the incarnation.
    pub fn id(&self) -> (r: usize)
        ensures
            r == self.identifier,
    {
        self.identifier
    }
}

/// Why a process record could not be entered.
#[derive(Clone, Copy, Debug, PartialEq, Eq, Structural)]
pub enum Error {
    /// No process with this identity exists (any more).
    NoSuchApp,
    /// The process exists but is not running: it faulted or was stopped.
    InactiveApp,
    /// No room is left for the record.
    OutOfMemory,
    /// An address lies outside the process's memory.
    AddressOutOfBounds,
    /// The kernel itself is in an inconsistent state.
    KernelError,
    /// The record is being used already.
    AlreadyInUse,
}

impl Error {
    /// The error code under which a process failure is reported to callers.
    pub open spec fn as_errorcode(self) -> ErrorCode {
        match self {
            Error::OutOfMemory => ErrorCode::NOMEM,
            Error::AddressOutOfBounds => ErrorCode::INVAL,
            Error::NoSuchApp => ErrorCode::INVAL,
            Error::InactiveApp => ErrorCode::FAIL,
            Error::KernelError => ErrorCode::FAIL,
            Error::AlreadyInUse => ErrorCode::FAIL,
        }
    }

    /// Converts a process failure into the error code reported to callers.
    pub fn into_errorcode(self) -> (r: ErrorCode)
        ensures
            r == self.as_errorcode(),
    {
        match self {
            Error::OutOfMemory => ErrorCode::NOMEM,
            Error::AddressOutOfBounds => ErrorCode::INVAL,
            Error::NoSuchApp => ErrorCode::INVAL,
            Error::InactiveApp => ErrorCode::FAIL,
            Error::KernelError => ErrorCode::FAIL,
            Error::AlreadyInUse => ErrorCode::FAIL,
        }
    }
}

/// The scheduling state of a process.
#[derive(Clone, Copy, Debug, PartialEq, Eq, Structural)]
pub enum State {
    /// Ready to run or running.
    Running,
    /// Waiting for a notification.
    Yielded,
    /// Stopped while running.
    StoppedRunning,
    /// Stopped while yielded.
    StoppedYielded,
    /// Stopped by a fault.
    Faulted,
    /// Finished, or killed.
    Terminated,
    /// Loaded, never started.
    Unstarted,
}

impl State {
    /// A process counts as active while it is running or yielded.
    pub open spec fn active(self) -> bool {
        self == State::Running || self == State::Yielded
    }

    /// Tells whether the process is running or yielded.
    pub fn is_active(self) -> (r: bool)
        ensures
            r == self.active(),
    {
        match self {
            State::Running => true,
            State::Yielded => true,
            _ => false,
        }
    }
}

} // verus!
