//! What a driver answers to a command from a process.

use vstd::prelude::*;
use crate::kernel::errorcode::ErrorCode;

verus! {

/// The answer to one command: success, optionally with a value, or the
/// reason of the failure.
#[derive(Clone, Copy, Debug, PartialEq, Eq, Structural)]
pub enum CommandReturn {
    Failure(ErrorCode),
    Success,
    SuccessU32(u32),
}

impl CommandReturn {
    /// A failure with the reason `rc`.
    pub fn failure(rc: ErrorCode) -> (r: CommandReturn)
        ensures
            r == CommandReturn::Failure(rc),
    {
        CommandReturn::Failure(rc)
    }

    /// A success without a value.
    pub fn success() -> (r: CommandReturn)
        ensures
            r == CommandReturn::Success,
    {
        CommandReturn::Success
    }

    /// A success that carries `data`.
    pub fn success_u32(data: u32) -> (r: CommandReturn)
        ensures
            r == CommandReturn::SuccessU32(data),
    {
        CommandReturn::SuccessU32(data)
    }

    /// The answer that stands for the outcome of an operation.
    pub open spec fn of_result(rc: Result<(), ErrorCode>) -> CommandReturn {
        match rc {
            Ok(()) => CommandReturn::Success,
            Err(e) => CommandReturn::Failure(e),
        }
    }

    /// Turns the outcome of an operation into an answer.
    pub fn from_result(rc: Result<(), ErrorCode>) -> (r: CommandReturn)
        ensures
            r == Self::of_result(rc),
    {
        match rc {
            Ok(()) => CommandReturn::Success,
            Err(e) => CommandReturn::Failure(e),
        }
    }

    /// Whether this is a success.
    pub open spec fn ok(self) -> bool {
        !(self is Failure)
    }

    /// Tells whether the command succeeded.
    pub fn is_success(&self) -> (r: bool)
        ensures
            r == self.ok(),
    {
        match self {
            CommandReturn::Failure(_) => false,
            _ => true,
        }
    }
}

} // verus!
