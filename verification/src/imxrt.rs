//! Support for the i.MX RT600 microcontroller family.

pub mod check;
pub mod minimal;
pub mod rkh;
