//! Collaborators shared by all drivers.

pub mod errorcode;
pub mod process;
pub mod syscall;
pub mod cells;
pub mod math;
pub mod platform;
pub mod registers;
pub mod grant;
pub mod hil;
pub mod queue;
pub mod introspection;
