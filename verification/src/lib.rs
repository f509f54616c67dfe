//! Verified core of a small fail-safe bootloader and its signing tool.

pub mod boot;
pub mod bytes;
pub mod imxrt;
pub mod mcxa;
pub mod rom;
pub mod tool;
