//! The interfaces through which drivers reach the hardware below them.
//!
//! A request either is accepted, and its completion is reported later by a
//! call of the driver's completion function, or is refused at once with a
//! reason. A buffer that travels with a refused request comes back with the
//! refusal.

pub mod adc;
pub mod pwm;
pub mod i2c;
pub mod spi;
pub mod gpio;
pub mod time;
pub mod entropy;
pub mod rng;
pub mod sensors;
pub mod nonvolatile_storage;
pub mod text_screen;
pub mod usb;
pub mod touch;
pub mod bus8080;
