//! Support for the MCXA microcontroller family.

pub mod error;
pub mod load;
pub mod manifest;
