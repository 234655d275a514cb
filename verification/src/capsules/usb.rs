//! Drivers of the universal serial bus.

pub mod usb_user;
