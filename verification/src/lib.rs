//! Arbitration of exclusive hardware resources among kernel modules and
//! isolated processes, with move-only ownership of transfer buffers.
//!
//! `kernel` holds the collaborators every driver is written against: error
//! codes, process records and their notification slots, single-owner buffer
//! cells and the hardware interfaces. `capsules` holds the drivers themselves,
//! `chips` the peripherals of one microcontroller family.

pub mod kernel;
pub mod capsules;
pub mod chips;
