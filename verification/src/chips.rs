//! Peripherals of one family of microcontrollers.

pub mod stm32f4xx;
pub mod stm32f412g;
