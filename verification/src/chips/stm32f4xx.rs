//! What the chips of the family have in common.

pub mod chip_specific;
pub mod trng;
pub mod fsmc;
pub mod i2c;
