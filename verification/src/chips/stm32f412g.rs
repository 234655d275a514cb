//! One chip of the family.

pub mod interrupt_service;
