//! The tool's configuration file.

use vstd::prelude::*;
use crate::tool::objcopy::AddressMapping;

verus! {

/// A region of memory.
#[derive(Debug, PartialEq, Eq, Structural, Clone, Copy)]
pub struct MemoryRange {
    pub start: u64,
    pub size: u64,
}

/// Settings for the bootloader image.
#[derive(Debug, PartialEq, Eq, Structural, Clone, Copy)]
pub struct BootloaderArgs {
    /// Location in external NOR flash in which the bootloader lives.
    pub flash_start: u64,
    /// Location in RAM which the bootloader runs from.
    pub run_start: u64,
    /// Largest binary size of the image, certificates, hashes and key included.
    pub max_size: u64,
    /// Memory holding the bootloader state.
    pub state: MemoryRange,
}

/// Settings for application images.
#[derive(Debug, Clone)]
pub struct ApplicationArgs {
    /// Start address in external NOR flash of each slot.
    pub slot_starts: Vec<u64>,
    /// RAM address all images run from.
    pub run_start: u64,
    /// Size of a slot, which is also the largest binary image.
    pub slot_size: u64,
    /// Mappings of load addresses applied when producing the image, in increasing order.
    pub address_mapping: Vec<AddressMapping>,
}

/// The tool's configuration.
#[derive(Debug, Clone)]
pub struct Config {
    /// Directory where artifacts are put and found.
    pub artifacts_path: String,
    /// File holding the Root Key Table Hash.
    pub rkth_path: String,
    /// File holding the OTP master key.
    pub otp_path: String,
    /// Type of the keys to generate, as the key generator names it.
    pub key_type: String,
    /// Settings for the bootloader image.
    pub bootloader: Option<BootloaderArgs>,
    /// Settings for application images.
    pub application: Option<ApplicationArgs>,
}

} // verus!
