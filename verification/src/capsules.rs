//! Drivers: arbiters that share one hardware resource among their clients,
//! and the state machines of individual chips.

pub mod virtual_pwm;
pub mod adc;
pub mod nonvolatile_storage_driver;
pub mod text_screen;
pub mod usb;
pub mod humidity;
pub mod rng;
pub mod ltc294x;
pub mod isl29035;
pub mod si7021;
pub mod pca9544a;
pub mod mlx90614;
pub mod fm25cl;
pub mod ft6x06;
pub mod l3gd20;
pub mod lsm303xx;
pub mod lsm303dlhc;
pub mod hd44780;
