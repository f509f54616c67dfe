//! Signing an image: arguments, checks on the produced image, and the result.

use vstd::prelude::*;
use crate::tool::certificates::Rkth;
use crate::tool::config::Config;
use crate::tool::objcopy;
use crate::tool::paths::{spec_with_extension, with_extension};
use crate::tool::text::join2;

verus! {

/// Arguments of the sign command.
#[derive(Debug, Clone)]
pub struct SignArguments {
    /// Input file path (ELF).
    pub input_path: String,
    /// Output file path (BIN); by default the input path followed by `.signed.bin`.
    pub output_path: Option<String>,
    /// Prelude output file path; by default the input path with extension `prelude.elf`.
    pub prelude_path: Option<String>,
    /// Where the image tool can be found.
    pub nxpimage_path: String,
}

/// The given output path, or else `input` followed by `.signed.bin`.
pub open spec fn output_path_or_default(p: Option<String>, input: Seq<char>) -> Seq<char> {
    match p {
        Some(s) => s@,
        None => input + ".signed.bin"@,
    }
}

/// The given path, or else `input` with extension `ext`.
pub open spec fn path_or_default(p: Option<String>, input: Seq<char>, ext: Seq<char>) -> Seq<char> {
    match p {
        Some(s) => s@,
        None => spec_with_extension(input, ext),
    }
}

impl SignArguments {
    /// The output path, or the input path followed by `.signed.bin`.
    pub fn output_path_with_default(&self) -> (r: String)
        ensures
            r@ == output_path_or_default(self.output_path, self.input_path@),
    {
        match &self.output_path {
            Some(p) => p.clone(),
            None => join2(self.input_path.as_str(), ".signed.bin"),
        }
    }

    /// The prelude path, or the input path with extension `prelude.elf`.
    pub fn prelude_path_with_default(&self) -> (r: String)
        ensures
            r@ == path_or_default(self.prelude_path, self.input_path@, "prelude.elf"@),
    {
        match &self.prelude_path {
            Some(p) => p.clone(),
            None => {
                proof {
                    reveal_strlit("prelude.elf");
                }
                with_extension(self.input_path.as_str(), "prelude.elf")
            },
        }
    }
}

/// The result of signing.
#[derive(Debug, Clone)]
pub struct SignOutput {
    /// Where the signed image was written, when it was signed.
    pub output_path: Option<String>,
    /// Root Key Table Hash of the certificate block used.
    pub rkth: Rkth,
}

/// Why a produced image may not be signed.
#[derive(Debug, PartialEq, Eq, Structural, Clone, Copy)]
pub enum CheckError {
    /// The configuration has no bootloader section.
    BootloaderNotConfigured,
    /// The configuration has no application section.
    ApplicationNotConfigured,
    /// The image runs from `base_addr` rather than the configured `expected`.
    UnexpectedRunAddress { base_addr: u32, expected: u64 },
    /// The image of `size` bytes does not fit in `max_size`.
    TooLarge { max_size: u64, size: u64 },
    /// The signed image of `size` bytes, certificates, hashes and keys
    /// included, does not fit in `max_size`.
    SignedTooLarge { max_size: u64, size: u64 },
}

/// The run address and size limit that apply to a bootloader or an application.
pub open spec fn limits(config: Config, is_bootloader: bool) -> Option<(u64, u64)> {
    if is_bootloader {
        match config.bootloader {
            Some(b) => Some((b.run_start, b.max_size)),
            None => None,
        }
    } else {
        match config.application {
            Some(a) => Some((a.run_start, a.slot_size)),
            None => None,
        }
    }
}

/// The verdict on an image of `size` bytes that runs from `base_addr`.
pub open spec fn spec_perform_checks(config: Config, is_bootloader: bool, size: nat, base_addr: u32) -> Result<
    (),
    CheckError,
> {
    match limits(config, is_bootloader) {
        None => if is_bootloader {
            Err(CheckError::BootloaderNotConfigured)
        } else {
            Err(CheckError::ApplicationNotConfigured)
        },
        Some((run_start, max_size)) => if run_start != base_addr {
            Err(CheckError::UnexpectedRunAddress { base_addr, expected: run_start })
        } else if max_size < size {
            Err(CheckError::TooLarge { max_size, size: size as u64 })
        } else {
            Ok(())
        },
    }
}

/// Checks a produced image against the configuration: the image must run
/// from the configured RAM address and fit in the configured size.
pub fn perform_checks(config: &Config, is_bootloader: bool, image: &[u8], base_addr: u32) -> (r: Result<
    (),
    CheckError,
>)
    ensures
        r == spec_perform_checks(*config, is_bootloader, image@.len(), base_addr),
{
    let (run_start, max_size) = if is_bootloader {
        match &config.bootloader {
            Some(b) => (b.run_start, b.max_size),
            None => return Err(CheckError::BootloaderNotConfigured),
        }
    } else {
        match &config.application {
            Some(a) => (a.run_start, a.slot_size),
            None => return Err(CheckError::ApplicationNotConfigured),
        }
    };
    if run_start != base_addr as u64 {
        return Err(CheckError::UnexpectedRunAddress { base_addr, expected: run_start });
    }
    if max_size < image.len() as u64 {
        return Err(CheckError::TooLarge { max_size, size: image.len() as u64 });
    }
    Ok(())
}

/// The verdict on a signed image of `size` bytes: the configured limit counts
/// the certificates, hashes and keys that signing adds.
pub open spec fn spec_check_signed_size(config: Config, is_bootloader: bool, size: nat) -> Result<
    (),
    CheckError,
> {
    match limits(config, is_bootloader) {
        None => if is_bootloader {
            Err(CheckError::BootloaderNotConfigured)
        } else {
            Err(CheckError::ApplicationNotConfigured)
        },
        Some((_, max_size)) => if max_size < size {
            Err(CheckError::SignedTooLarge { max_size, size: size as u64 })
        } else {
            Ok(())
        },
    }
}

/// Checks that the signed image fits in the configured size: the bootloader's
/// `max_size`, or an application's slot size.
pub fn check_signed_size(config: &Config, is_bootloader: bool, signed: &[u8]) -> (r: Result<
    (),
    CheckError,
>)
    ensures
        r == spec_check_signed_size(*config, is_bootloader, signed@.len()),
{
    let max_size = if is_bootloader {
        match &config.bootloader {
            Some(b) => b.max_size,
            None => return Err(CheckError::BootloaderNotConfigured),
        }
    } else {
        match &config.application {
            Some(a) => a.slot_size,
            None => return Err(CheckError::ApplicationNotConfigured),
        }
    };
    if max_size < signed.len() as u64 {
        return Err(CheckError::SignedTooLarge { max_size, size: signed.len() as u64 });
    }
    Ok(())
}

/// How the image is produced: a bootloader keeps its load addresses and is
/// limited to `max_size` bytes; an application has its configured address
/// mappings applied and is limited to the slot size. Both limits are taken
/// modulo 2^32. `None` when the configuration lacks the section.
pub fn objcopy_config(config: &Config, is_bootloader: bool) -> (r: Option<objcopy::Config>)
    ensures
        is_bootloader ==> match config.bootloader {
            Some(b) => r is Some && r->0.mappings@.len() == 0 && r->0.max_size == Some(
                b.max_size as u32,
            ),
            None => r is None,
        },
        !is_bootloader ==> match config.application {
            Some(a) => r is Some && r->0.mappings@ == a.address_mapping@ && r->0.max_size == Some(
                a.slot_size as u32,
            ),
            None => r is None,
        },
{
    if is_bootloader {
        match &config.bootloader {
            Some(b) => Some(objcopy::Config { mappings: Vec::new(), max_size: Some(b.max_size as u32) }),
            None => None,
        }
    } else {
        match &config.application {
            Some(a) => Some(
                objcopy::Config {
                    mappings: vstd::slice::slice_to_vec(a.address_mapping.as_slice()),
                    max_size: Some(a.slot_size as u32),
                },
            ),
            None => None,
        }
    }
}

/// The checks on an image pass exactly when the configuration has the
/// section for it, the image runs from the configured address, and its size
/// is at most the configured limit; the signed image passes exactly when the
/// section is there and it fits the same limit.
pub proof fn lemma_checks_pass_iff_within_config(
    config: Config,
    is_bootloader: bool,
    size: nat,
    base_addr: u32,
)
    ensures
        spec_perform_checks(config, is_bootloader, size, base_addr) is Ok <==> (if is_bootloader {
            config.bootloader is Some && config.bootloader->0.run_start == base_addr
                && size <= config.bootloader->0.max_size
        } else {
            config.application is Some && config.application->0.run_start == base_addr
                && size <= config.application->0.slot_size
        }),
        spec_check_signed_size(config, is_bootloader, size) is Ok <==> (if is_bootloader {
            config.bootloader is Some && size <= config.bootloader->0.max_size
        } else {
            config.application is Some && size <= config.application->0.slot_size
        }),
{
}

} // verus!
