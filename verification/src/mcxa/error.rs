//! Status codes reported by the ROM drivers and how they map to boot errors.

use vstd::prelude::*;
use crate::boot::BootError;

verus! {
/// Status codes of the internal flash driver.
#[derive(Clone, Copy, Debug, PartialEq, Eq, Structural)]
pub enum FlashStatus {
    Success,
    InvalidArgument,
    AlignmentError,
    AddressError,
    SizeError,
    CommandFailure,
    UnknownProperty,
    EraseKeyError,
    RegionExecuteOnly,
    CommandNotSupported,
    ReadOnlyProperty,
    InvalidPropertyValue,
    EccError,
    CompareError,
    InvalidWaitStateCycles,
    /// Any other code, kept as reported.
    Unknown(u32),
}
/// The status that the 32-bit code `raw` denotes.
pub open spec fn spec_flash_status_of(raw: u32) -> FlashStatus {
    match raw {
        0x0 => FlashStatus::Success,
        0x4 => FlashStatus::InvalidArgument,
        0x65 => FlashStatus::AlignmentError,
        0x66 => FlashStatus::AddressError,
        0x64 => FlashStatus::SizeError,
        0x69 => FlashStatus::CommandFailure,
        0x6a => FlashStatus::UnknownProperty,
        0x6b => FlashStatus::EraseKeyError,
        0x6c => FlashStatus::RegionExecuteOnly,
        0x6f => FlashStatus::CommandNotSupported,
        0x70 => FlashStatus::ReadOnlyProperty,
        0x71 => FlashStatus::InvalidPropertyValue,
        0x74 => FlashStatus::EccError,
        0x75 => FlashStatus::CompareError,
        0x77 => FlashStatus::InvalidWaitStateCycles,
        other => FlashStatus::Unknown(other),
    }
}
impl FlashStatus {
    /// The 32-bit code of this status.
    pub open spec fn spec_code(self) -> u32 {
        match self {
            FlashStatus::Success => 0x0,
            FlashStatus::InvalidArgument => 0x4,
            FlashStatus::AlignmentError => 0x65,
            FlashStatus::AddressError => 0x66,
            FlashStatus::SizeError => 0x64,
            FlashStatus::CommandFailure => 0x69,
            FlashStatus::UnknownProperty => 0x6a,
            FlashStatus::EraseKeyError => 0x6b,
            FlashStatus::RegionExecuteOnly => 0x6c,
            FlashStatus::CommandNotSupported => 0x6f,
            FlashStatus::ReadOnlyProperty => 0x70,
            FlashStatus::InvalidPropertyValue => 0x71,
            FlashStatus::EccError => 0x74,
            FlashStatus::CompareError => 0x75,
            FlashStatus::InvalidWaitStateCycles => 0x77,
            FlashStatus::Unknown(other) => other,
        }
    }
}
impl From<u32> for FlashStatus {
    fn from(raw: u32) -> (r: Self)
        ensures
            r == spec_flash_status_of(raw),
    {
        match raw {
            0x0 => FlashStatus::Success,
            0x4 => FlashStatus::InvalidArgument,
            0x65 => FlashStatus::AlignmentError,
            0x66 => FlashStatus::AddressError,
            0x64 => FlashStatus::SizeError,
            0x69 => FlashStatus::CommandFailure,
            0x6a => FlashStatus::UnknownProperty,
            0x6b => FlashStatus::EraseKeyError,
            0x6c => FlashStatus::RegionExecuteOnly,
            0x6f => FlashStatus::CommandNotSupported,
            0x70 => FlashStatus::ReadOnlyProperty,
            0x71 => FlashStatus::InvalidPropertyValue,
            0x74 => FlashStatus::EccError,
            0x75 => FlashStatus::CompareError,
            0x77 => FlashStatus::InvalidWaitStateCycles,
            other => FlashStatus::Unknown(other),
        }
    }
}

impl vstd::std_specs::convert::FromSpecImpl<u32> for FlashStatus {
    open spec fn obeys_from_spec() -> bool {
        true
    }

    open spec fn from_spec(raw: u32) -> Self {
        spec_flash_status_of(raw)
    }
}
/// Decoding a code and taking the code of the result gives the code back.
pub proof fn lemma_flash_status_code_roundtrip(raw: u32)
    ensures
        spec_flash_status_of(raw).spec_code() == raw,
{
}

/// Every status other than `Unknown` of a known code is what its code decodes to.
pub proof fn lemma_flash_status_decode_roundtrip(s: FlashStatus)
    requires
        !(s is Unknown) || spec_flash_status_of(s.spec_code()) is Unknown,
    ensures
        spec_flash_status_of(s.spec_code()) == s,
{
}
/// Status codes of the SPI flash driver.
#[derive(Clone, Copy, Debug, PartialEq, Eq, Structural)]
pub enum SpiFlashStatus {
    Success,
    Fail,
    /// Any other code, kept as reported.
    Unknown(u32),
}
/// The status that the 32-bit code `raw` denotes.
pub open spec fn spec_spi_flash_status_of(raw: u32) -> SpiFlashStatus {
    match raw {
        0x0 => SpiFlashStatus::Success,
        0x1 => SpiFlashStatus::Fail,
        other => SpiFlashStatus::Unknown(other),
    }
}
impl SpiFlashStatus {
    /// The 32-bit code of this status.
    pub open spec fn spec_code(self) -> u32 {
        match self {
            SpiFlashStatus::Success => 0x0,
            SpiFlashStatus::Fail => 0x1,
            SpiFlashStatus::Unknown(other) => other,
        }
    }
}
impl From<u32> for SpiFlashStatus {
    fn from(raw: u32) -> (r: Self)
        ensures
            r == spec_spi_flash_status_of(raw),
    {
        match raw {
            0x0 => SpiFlashStatus::Success,
            0x1 => SpiFlashStatus::Fail,
            other => SpiFlashStatus::Unknown(other),
        }
    }
}

impl vstd::std_specs::convert::FromSpecImpl<u32> for SpiFlashStatus {
    open spec fn obeys_from_spec() -> bool {
        true
    }

    open spec fn from_spec(raw: u32) -> Self {
        spec_spi_flash_status_of(raw)
    }
}
/// Decoding a code and taking the code of the result gives the code back.
pub proof fn lemma_spi_flash_status_code_roundtrip(raw: u32)
    ensures
        spec_spi_flash_status_of(raw).spec_code() == raw,
{
}

/// Every status other than `Unknown` of a known code is what its code decodes to.
pub proof fn lemma_spi_flash_status_decode_roundtrip(s: SpiFlashStatus)
    requires
        !(s is Unknown) || spec_spi_flash_status_of(s.spec_code()) is Unknown,
    ensures
        spec_spi_flash_status_of(s.spec_code()) == s,
{
}
/// Status codes of the FlexSPI NOR flash driver.
#[derive(Clone, Copy, Debug, PartialEq, Eq, Structural)]
pub enum FlexspiStatus {
    Success,
    Fail,
    InvalidArgument,
    SequenceExecutionTimeout,
    InvalidSequence,
    DeviceTimeout,
    ProgramFail,
    EraseSectorFail,
    EraseAllFail,
    WaitTimeout,
    WriteAlignmentError,
    CommandFailure,
    SfdpNotFound,
    UnsupportedSfdpVersion,
    FlashNotFound,
    DtrReadDummyProbeFailed,
    /// Any other code, kept as reported.
    Unknown(u32),
}
/// The status that the 32-bit code `raw` denotes.
pub open spec fn spec_flexspi_status_of(raw: u32) -> FlexspiStatus {
    match raw {
        0x0 => FlexspiStatus::Success,
        0x1 => FlexspiStatus::Fail,
        0x4 => FlexspiStatus::InvalidArgument,
        0x1770 => FlexspiStatus::SequenceExecutionTimeout,
        0x1771 => FlexspiStatus::InvalidSequence,
        0x1772 => FlexspiStatus::DeviceTimeout,
        0x4e84 => FlexspiStatus::ProgramFail,
        0x4e85 => FlexspiStatus::EraseSectorFail,
        0x4e86 => FlexspiStatus::EraseAllFail,
        0x4e87 => FlexspiStatus::WaitTimeout,
        0x4e89 => FlexspiStatus::WriteAlignmentError,
        0x4e8a => FlexspiStatus::CommandFailure,
        0x4e8b => FlexspiStatus::SfdpNotFound,
        0x4e8c => FlexspiStatus::UnsupportedSfdpVersion,
        0x4e8d => FlexspiStatus::FlashNotFound,
        0x4e8e => FlexspiStatus::DtrReadDummyProbeFailed,
        other => FlexspiStatus::Unknown(other),
    }
}
impl FlexspiStatus {
    /// The 32-bit code of this status.
    pub open spec fn spec_code(self) -> u32 {
        match self {
            FlexspiStatus::Success => 0x0,
            FlexspiStatus::Fail => 0x1,
            FlexspiStatus::InvalidArgument => 0x4,
            FlexspiStatus::SequenceExecutionTimeout => 0x1770,
            FlexspiStatus::InvalidSequence => 0x1771,
            FlexspiStatus::DeviceTimeout => 0x1772,
            FlexspiStatus::ProgramFail => 0x4e84,
            FlexspiStatus::EraseSectorFail => 0x4e85,
            FlexspiStatus::EraseAllFail => 0x4e86,
            FlexspiStatus::WaitTimeout => 0x4e87,
            FlexspiStatus::WriteAlignmentError => 0x4e89,
            FlexspiStatus::CommandFailure => 0x4e8a,
            FlexspiStatus::SfdpNotFound => 0x4e8b,
            FlexspiStatus::UnsupportedSfdpVersion => 0x4e8c,
            FlexspiStatus::FlashNotFound => 0x4e8d,
            FlexspiStatus::DtrReadDummyProbeFailed => 0x4e8e,
            FlexspiStatus::Unknown(other) => other,
        }
    }
}
impl From<u32> for FlexspiStatus {
    fn from(raw: u32) -> (r: Self)
        ensures
            r == spec_flexspi_status_of(raw),
    {
        match raw {
            0x0 => FlexspiStatus::Success,
            0x1 => FlexspiStatus::Fail,
            0x4 => FlexspiStatus::InvalidArgument,
            0x1770 => FlexspiStatus::SequenceExecutionTimeout,
            0x1771 => FlexspiStatus::InvalidSequence,
            0x1772 => FlexspiStatus::DeviceTimeout,
            0x4e84 => FlexspiStatus::ProgramFail,
            0x4e85 => FlexspiStatus::EraseSectorFail,
            0x4e86 => FlexspiStatus::EraseAllFail,
            0x4e87 => FlexspiStatus::WaitTimeout,
            0x4e89 => FlexspiStatus::WriteAlignmentError,
            0x4e8a => FlexspiStatus::CommandFailure,
            0x4e8b => FlexspiStatus::SfdpNotFound,
            0x4e8c => FlexspiStatus::UnsupportedSfdpVersion,
            0x4e8d => FlexspiStatus::FlashNotFound,
            0x4e8e => FlexspiStatus::DtrReadDummyProbeFailed,
            other => FlexspiStatus::Unknown(other),
        }
    }
}

impl vstd::std_specs::convert::FromSpecImpl<u32> for FlexspiStatus {
    open spec fn obeys_from_spec() -> bool {
        true
    }

    open spec fn from_spec(raw: u32) -> Self {
        spec_flexspi_status_of(raw)
    }
}
/// Decoding a code and taking the code of the result gives the code back.
pub proof fn lemma_flexspi_status_code_roundtrip(raw: u32)
    ensures
        spec_flexspi_status_of(raw).spec_code() == raw,
{
}

/// Every status other than `Unknown` of a known code is what its code decodes to.
pub proof fn lemma_flexspi_status_decode_roundtrip(s: FlexspiStatus)
    requires
        !(s is Unknown) || spec_flexspi_status_of(s.spec_code()) is Unknown,
    ensures
        spec_flexspi_status_of(s.spec_code()) == s,
{
}
/// Status codes of the NBOOT ROM API.
#[derive(Clone, Copy, Debug, PartialEq, Eq, Structural)]
pub enum NbootStatus {
    Success,
    Fail,
    InvalidArgument,
    OperationAllowed,
    OperationDisallowed,
    KeyNotAvailable,
    /// Any other code, kept as reported.
    Unknown(u32),
}
/// The status that the 32-bit code `raw` denotes.
pub open spec fn spec_nboot_status_of(raw: u32) -> NbootStatus {
    match raw {
        0x5a5a5a5a => NbootStatus::Success,
        0x5a5aa5a5 => NbootStatus::Fail,
        0x5a5aa5f0 => NbootStatus::InvalidArgument,
        0x3c5a33cc => NbootStatus::OperationAllowed,
        0x5aa5cc33 => NbootStatus::OperationDisallowed,
        0x5a5aa5e6 => NbootStatus::KeyNotAvailable,
        other => NbootStatus::Unknown(other),
    }
}
impl NbootStatus {
    /// The 32-bit code of this status.
    pub open spec fn spec_code(self) -> u32 {
        match self {
            NbootStatus::Success => 0x5a5a5a5a,
            NbootStatus::Fail => 0x5a5aa5a5,
            NbootStatus::InvalidArgument => 0x5a5aa5f0,
            NbootStatus::OperationAllowed => 0x3c5a33cc,
            NbootStatus::OperationDisallowed => 0x5aa5cc33,
            NbootStatus::KeyNotAvailable => 0x5a5aa5e6,
            NbootStatus::Unknown(other) => other,
        }
    }
}
impl From<u64> for NbootStatus {
    /// Only the low 32 bits carry the status; the upper half is ignored.
    fn from(raw: u64) -> (r: Self)
        ensures
            r == spec_nboot_status_of(raw as u32),
    {
        let raw = raw as u32;
        match raw {
            0x5a5a5a5a => NbootStatus::Success,
            0x5a5aa5a5 => NbootStatus::Fail,
            0x5a5aa5f0 => NbootStatus::InvalidArgument,
            0x3c5a33cc => NbootStatus::OperationAllowed,
            0x5aa5cc33 => NbootStatus::OperationDisallowed,
            0x5a5aa5e6 => NbootStatus::KeyNotAvailable,
            other => NbootStatus::Unknown(other),
        }
    }
}

impl vstd::std_specs::convert::FromSpecImpl<u64> for NbootStatus {
    open spec fn obeys_from_spec() -> bool {
        true
    }

    open spec fn from_spec(raw: u64) -> Self {
        spec_nboot_status_of(raw as u32)
    }
}
/// Decoding a code and taking the code of the result gives the code back.
pub proof fn lemma_nboot_status_code_roundtrip(raw: u32)
    ensures
        spec_nboot_status_of(raw).spec_code() == raw,
{
}

/// Every status other than `Unknown` of a known code is what its code decodes to.
pub proof fn lemma_nboot_status_decode_roundtrip(s: NbootStatus)
    requires
        !(s is Unknown) || spec_nboot_status_of(s.spec_code()) is Unknown,
    ensures
        spec_nboot_status_of(s.spec_code()) == s,
{
}
/// Status codes of the KBoot ROM API.
#[derive(Clone, Copy, Debug, PartialEq, Eq, Structural)]
pub enum KbStatus {
    Success,
    Fail,
    InvalidArgument,
    RomLdrDataUnderrun,
    RomLdrJumpReturned,
    RomLdrRollbackBlocked,
    RomLdrPendingJumpCommand,
    RomApiBufferSizeNotEnough,
    RomApiInvalidBuffer,
    /// Any other code, kept as reported.
    Unknown(u32),
}
/// The status that the 32-bit code `raw` denotes.
pub open spec fn spec_kb_status_of(raw: u32) -> KbStatus {
    match raw {
        0x0 => KbStatus::Success,
        0x1 => KbStatus::Fail,
        0x4 => KbStatus::InvalidArgument,
        0x277d => KbStatus::RomLdrDataUnderrun,
        0x277e => KbStatus::RomLdrJumpReturned,
        0x2783 => KbStatus::RomLdrRollbackBlocked,
        0x2787 => KbStatus::RomLdrPendingJumpCommand,
        0x2a32 => KbStatus::RomApiBufferSizeNotEnough,
        0x2a33 => KbStatus::RomApiInvalidBuffer,
        other => KbStatus::Unknown(other),
    }
}
impl KbStatus {
    /// The 32-bit code of this status.
    pub open spec fn spec_code(self) -> u32 {
        match self {
            KbStatus::Success => 0x0,
            KbStatus::Fail => 0x1,
            KbStatus::InvalidArgument => 0x4,
            KbStatus::RomLdrDataUnderrun => 0x277d,
            KbStatus::RomLdrJumpReturned => 0x277e,
            KbStatus::RomLdrRollbackBlocked => 0x2783,
            KbStatus::RomLdrPendingJumpCommand => 0x2787,
            KbStatus::RomApiBufferSizeNotEnough => 0x2a32,
            KbStatus::RomApiInvalidBuffer => 0x2a33,
            KbStatus::Unknown(other) => other,
        }
    }
}
impl From<u32> for KbStatus {
    fn from(raw: u32) -> (r: Self)
        ensures
            r == spec_kb_status_of(raw),
    {
        match raw {
            0x0 => KbStatus::Success,
            0x1 => KbStatus::Fail,
            0x4 => KbStatus::InvalidArgument,
            0x277d => KbStatus::RomLdrDataUnderrun,
            0x277e => KbStatus::RomLdrJumpReturned,
            0x2783 => KbStatus::RomLdrRollbackBlocked,
            0x2787 => KbStatus::RomLdrPendingJumpCommand,
            0x2a32 => KbStatus::RomApiBufferSizeNotEnough,
            0x2a33 => KbStatus::RomApiInvalidBuffer,
            other => KbStatus::Unknown(other),
        }
    }
}

impl vstd::std_specs::convert::FromSpecImpl<u32> for KbStatus {
    open spec fn obeys_from_spec() -> bool {
        true
    }

    open spec fn from_spec(raw: u32) -> Self {
        spec_kb_status_of(raw)
    }
}
/// Decoding a code and taking the code of the result gives the code back.
pub proof fn lemma_kb_status_code_roundtrip(raw: u32)
    ensures
        spec_kb_status_of(raw).spec_code() == raw,
{
}

/// Every status other than `Unknown` of a known code is what its code decodes to.
pub proof fn lemma_kb_status_decode_roundtrip(s: KbStatus)
    requires
        !(s is Unknown) || spec_kb_status_of(s.spec_code()) is Unknown,
    ensures
        spec_kb_status_of(s.spec_code()) == s,
{
}
/// The boot error a flash driver status stands for.
pub open spec fn spec_flash_boot_error(status: FlashStatus) -> BootError {
    match status {
        FlashStatus::InvalidArgument | FlashStatus::AlignmentError | FlashStatus::AddressError
        | FlashStatus::SizeError | FlashStatus::RegionExecuteOnly
        | FlashStatus::ReadOnlyProperty => BootError::MemoryRegion,
        FlashStatus::EccError | FlashStatus::CompareError
        | FlashStatus::CommandFailure => BootError::Integrity,
        FlashStatus::EraseKeyError | FlashStatus::UnknownProperty
        | FlashStatus::CommandNotSupported | FlashStatus::InvalidPropertyValue
        | FlashStatus::InvalidWaitStateCycles => BootError::Markers,
        _ => BootError::IO,
    }
}

/// Maps a flash driver status to a boot error: argument and region errors to
/// `MemoryRegion`, data corruption to `Integrity`, configuration problems to
/// `Markers`, everything else to `IO`.
pub fn map_flash_status_to_boot_error(status: FlashStatus) -> (e: BootError)
    ensures
        e == spec_flash_boot_error(status),
{
    match status {
        FlashStatus::InvalidArgument | FlashStatus::AlignmentError | FlashStatus::AddressError
        | FlashStatus::SizeError | FlashStatus::RegionExecuteOnly
        | FlashStatus::ReadOnlyProperty => BootError::MemoryRegion,
        FlashStatus::EccError | FlashStatus::CompareError
        | FlashStatus::CommandFailure => BootError::Integrity,
        FlashStatus::EraseKeyError | FlashStatus::UnknownProperty
        | FlashStatus::CommandNotSupported | FlashStatus::InvalidPropertyValue
        | FlashStatus::InvalidWaitStateCycles => BootError::Markers,
        _ => BootError::IO,
    }
}

/// Maps an SPI flash driver status to a boot error: always `IO`.
pub fn map_spiflash_status_to_boot_error(status: SpiFlashStatus) -> (e: BootError)
    ensures
        e == BootError::IO,
{
    match status {
        SpiFlashStatus::Fail => BootError::IO,
        _ => BootError::IO,
    }
}

/// The boot error a FlexSPI driver status stands for.
pub open spec fn spec_flexspi_boot_error(status: FlexspiStatus) -> BootError {
    match status {
        FlexspiStatus::InvalidArgument | FlexspiStatus::InvalidSequence
        | FlexspiStatus::SfdpNotFound | FlexspiStatus::UnsupportedSfdpVersion => BootError::Markers,
        FlexspiStatus::WriteAlignmentError => BootError::MemoryRegion,
        FlexspiStatus::ProgramFail | FlexspiStatus::EraseSectorFail | FlexspiStatus::EraseAllFail
        | FlexspiStatus::CommandFailure
        | FlexspiStatus::DtrReadDummyProbeFailed => BootError::Integrity,
        _ => BootError::IO,
    }
}

/// Maps a FlexSPI driver status to a boot error: malformed commands and flash
/// parameters to `Markers`, alignment to `MemoryRegion`, failed program or
/// erase operations to `Integrity`, timeouts and everything else to `IO`.
pub fn map_flexspi_status_to_boot_error(status: FlexspiStatus) -> (e: BootError)
    ensures
        e == spec_flexspi_boot_error(status),
{
    match status {
        FlexspiStatus::InvalidArgument | FlexspiStatus::InvalidSequence
        | FlexspiStatus::SfdpNotFound | FlexspiStatus::UnsupportedSfdpVersion => BootError::Markers,
        FlexspiStatus::WriteAlignmentError => BootError::MemoryRegion,
        FlexspiStatus::ProgramFail | FlexspiStatus::EraseSectorFail | FlexspiStatus::EraseAllFail
        | FlexspiStatus::CommandFailure
        | FlexspiStatus::DtrReadDummyProbeFailed => BootError::Integrity,
        FlexspiStatus::Fail | FlexspiStatus::Success | FlexspiStatus::SequenceExecutionTimeout
        | FlexspiStatus::DeviceTimeout | FlexspiStatus::WaitTimeout
        | FlexspiStatus::FlashNotFound => BootError::IO,
        _ => BootError::IO,
    }
}

/// The boot error an NBOOT status stands for.
pub open spec fn spec_nboot_boot_error(status: NbootStatus) -> BootError {
    match status {
        NbootStatus::OperationDisallowed => BootError::MemoryRegion,
        NbootStatus::InvalidArgument => BootError::Markers,
        NbootStatus::KeyNotAvailable => BootError::Authenticate,
        NbootStatus::Fail => BootError::IO,
        _ => BootError::Authenticate,
    }
}

/// Maps an NBOOT status to a boot error; any status not singled out,
/// including success codes, counts as a failed authentication.
pub fn map_nboot_status_to_boot_error(status: NbootStatus) -> (e: BootError)
    ensures
        e == spec_nboot_boot_error(status),
{
    match status {
        NbootStatus::OperationDisallowed => BootError::MemoryRegion,
        NbootStatus::InvalidArgument => BootError::Markers,
        NbootStatus::KeyNotAvailable => BootError::Authenticate,
        NbootStatus::Fail => BootError::IO,
        _ => BootError::Authenticate,
    }
}

/// The boot error a KBoot status stands for.
pub open spec fn spec_kb_boot_error(status: KbStatus) -> BootError {
    match status {
        KbStatus::InvalidArgument | KbStatus::RomApiBufferSizeNotEnough
        | KbStatus::RomApiInvalidBuffer | KbStatus::RomLdrRollbackBlocked => BootError::Markers,
        _ => BootError::IO,
    }
}

/// Maps a KBoot status to a boot error: bad arguments, buffers and a blocked
/// rollback to `Markers`, everything else to `IO`.
pub fn map_kb_status_to_boot_error(status: KbStatus) -> (e: BootError)
    ensures
        e == spec_kb_boot_error(status),
{
    match status {
        KbStatus::InvalidArgument | KbStatus::RomApiBufferSizeNotEnough
        | KbStatus::RomApiInvalidBuffer => BootError::Markers,
        KbStatus::Fail => BootError::IO,
        KbStatus::RomLdrRollbackBlocked => BootError::Markers,
        KbStatus::RomLdrDataUnderrun | KbStatus::RomLdrJumpReturned
        | KbStatus::RomLdrPendingJumpCommand => BootError::IO,
        _ => BootError::IO,
    }
}

/// The internal flash driver's documented status codes: each decodes to its
/// named status and that status encodes back to it; every other code is kept
/// as `Unknown` with its value.
pub proof fn lemma_flash_status_table()
    ensures
        spec_flash_status_of(0) == FlashStatus::Success,
        spec_flash_status_of(4) == FlashStatus::InvalidArgument,
        spec_flash_status_of(100) == FlashStatus::SizeError,
        spec_flash_status_of(101) == FlashStatus::AlignmentError,
        spec_flash_status_of(102) == FlashStatus::AddressError,
        spec_flash_status_of(105) == FlashStatus::CommandFailure,
        spec_flash_status_of(106) == FlashStatus::UnknownProperty,
        spec_flash_status_of(107) == FlashStatus::EraseKeyError,
        spec_flash_status_of(108) == FlashStatus::RegionExecuteOnly,
        spec_flash_status_of(111) == FlashStatus::CommandNotSupported,
        spec_flash_status_of(112) == FlashStatus::ReadOnlyProperty,
        spec_flash_status_of(113) == FlashStatus::InvalidPropertyValue,
        spec_flash_status_of(116) == FlashStatus::EccError,
        spec_flash_status_of(117) == FlashStatus::CompareError,
        spec_flash_status_of(119) == FlashStatus::InvalidWaitStateCycles,
        FlashStatus::AddressError.spec_code() == 102,
        FlashStatus::EraseKeyError.spec_code() == 107,
        forall|raw: u32|
            !(raw == 0 || raw == 4 || raw == 100 || raw == 101 || raw == 102 || raw == 105 || raw
                == 106 || raw == 107 || raw == 108 || raw == 111 || raw == 112 || raw == 113 || raw
                == 116 || raw == 117 || raw == 119) ==> #[trigger] spec_flash_status_of(raw)
                == FlashStatus::Unknown(raw),
        forall|s: FlashStatus| !(s is Unknown) ==> #[trigger] spec_flash_status_of(s.spec_code()) == s,
{
}

/// Where each internal flash driver code lands as a boot error: argument,
/// alignment, address, size, execute-only and read-only errors (codes 4, 100,
/// 101, 102, 108, 112) are memory region errors; ECC, compare and command
/// failures (116, 117, 105) are integrity errors; erase key, unknown or
/// read-only property, unsupported command and wait state errors (107, 106,
/// 111, 113, 119) are marker errors; every other code is an I/O error.
pub proof fn lemma_flash_code_boot_errors(raw: u32)
    ensures
        spec_flash_boot_error(spec_flash_status_of(raw)) == (if raw == 4 || raw == 100 || raw == 101
            || raw == 102 || raw == 108 || raw == 112 {
            BootError::MemoryRegion
        } else if raw == 116 || raw == 117 || raw == 105 {
            BootError::Integrity
        } else if raw == 107 || raw == 106 || raw == 111 || raw == 113 || raw == 119 {
            BootError::Markers
        } else {
            BootError::IO
        }),
{
}

/// The SPI flash driver's documented status codes: 0 is success, 1 failure,
/// every other code is kept as `Unknown`.
pub proof fn lemma_spi_flash_status_table(raw: u32)
    ensures
        spec_spi_flash_status_of(raw) == (if raw == 0 {
            SpiFlashStatus::Success
        } else if raw == 1 {
            SpiFlashStatus::Fail
        } else {
            SpiFlashStatus::Unknown(raw)
        }),
{
}

/// The FlexSPI driver's documented status codes: each decodes to its named
/// status; every other code is kept as `Unknown` with its value.
pub proof fn lemma_flexspi_status_table()
    ensures
        spec_flexspi_status_of(0) == FlexspiStatus::Success,
        spec_flexspi_status_of(1) == FlexspiStatus::Fail,
        spec_flexspi_status_of(4) == FlexspiStatus::InvalidArgument,
        spec_flexspi_status_of(6000) == FlexspiStatus::SequenceExecutionTimeout,
        spec_flexspi_status_of(6001) == FlexspiStatus::InvalidSequence,
        spec_flexspi_status_of(6002) == FlexspiStatus::DeviceTimeout,
        spec_flexspi_status_of(20100) == FlexspiStatus::ProgramFail,
        spec_flexspi_status_of(20101) == FlexspiStatus::EraseSectorFail,
        spec_flexspi_status_of(20102) == FlexspiStatus::EraseAllFail,
        spec_flexspi_status_of(20103) == FlexspiStatus::WaitTimeout,
        spec_flexspi_status_of(20105) == FlexspiStatus::WriteAlignmentError,
        spec_flexspi_status_of(20106) == FlexspiStatus::CommandFailure,
        spec_flexspi_status_of(20107) == FlexspiStatus::SfdpNotFound,
        spec_flexspi_status_of(20108) == FlexspiStatus::UnsupportedSfdpVersion,
        spec_flexspi_status_of(20109) == FlexspiStatus::FlashNotFound,
        spec_flexspi_status_of(20110) == FlexspiStatus::DtrReadDummyProbeFailed,
        forall|raw: u32|
            !(raw == 0 || raw == 1 || raw == 4 || raw == 6000 || raw == 6001 || raw == 6002 || (
            20100 <= raw <= 20110 && raw != 20104)) ==> #[trigger] spec_flexspi_status_of(raw)
                == FlexspiStatus::Unknown(raw),
        forall|s: FlexspiStatus| !(s is Unknown) ==> #[trigger] spec_flexspi_status_of(s.spec_code()) == s,
{
}

/// Where each FlexSPI driver code lands as a boot error: invalid argument,
/// invalid sequence and flash parameter table errors (4, 6001, 20107, 20108)
/// are marker errors; a write alignment error (20105) is a memory region
/// error; failed program, erase, command and DTR probe operations (20100,
/// 20101, 20102, 20106, 20110) are integrity errors; every other code is an
/// I/O error.
pub proof fn lemma_flexspi_code_boot_errors(raw: u32)
    ensures
        spec_flexspi_boot_error(spec_flexspi_status_of(raw)) == (if raw == 4 || raw == 6001 || raw
            == 20107 || raw == 20108 {
            BootError::Markers
        } else if raw == 20105 {
            BootError::MemoryRegion
        } else if raw == 20100 || raw == 20101 || raw == 20102 || raw == 20106 || raw == 20110 {
            BootError::Integrity
        } else {
            BootError::IO
        }),
{
}

/// The NBOOT API's documented status codes: each decodes to its named status;
/// every other code is kept as `Unknown` with its value.
pub proof fn lemma_nboot_status_table()
    ensures
        spec_nboot_status_of(0x5A5A_5A5A) == NbootStatus::Success,
        spec_nboot_status_of(0x5A5A_A5A5) == NbootStatus::Fail,
        spec_nboot_status_of(0x5A5A_A5F0) == NbootStatus::InvalidArgument,
        spec_nboot_status_of(0x3C5A_33CC) == NbootStatus::OperationAllowed,
        spec_nboot_status_of(0x5AA5_CC33) == NbootStatus::OperationDisallowed,
        spec_nboot_status_of(0x5A5A_A5E6) == NbootStatus::KeyNotAvailable,
        forall|raw: u32|
            !(raw == 0x5A5A_5A5A || raw == 0x5A5A_A5A5 || raw == 0x5A5A_A5F0 || raw == 0x3C5A_33CC
                || raw == 0x5AA5_CC33 || raw == 0x5A5A_A5E6) ==> #[trigger] spec_nboot_status_of(raw)
                == NbootStatus::Unknown(raw),
        forall|s: NbootStatus| !(s is Unknown) ==> #[trigger] spec_nboot_status_of(s.spec_code()) == s,
{
}

/// Where each NBOOT code lands as a boot error: a disallowed operation
/// (0x5AA5_CC33) is a memory region error, an invalid argument (0x5A5A_A5F0) a
/// marker error, a plain failure (0x5A5A_A5A5) an I/O error; every other code,
/// success codes included, is an authentication failure.
pub proof fn lemma_nboot_code_boot_errors(raw: u32)
    ensures
        spec_nboot_boot_error(spec_nboot_status_of(raw)) == (if raw == 0x5AA5_CC33 {
            BootError::MemoryRegion
        } else if raw == 0x5A5A_A5F0 {
            BootError::Markers
        } else if raw == 0x5A5A_A5A5 {
            BootError::IO
        } else {
            BootError::Authenticate
        }),
{
}

/// The KBoot documented status codes: each decodes to its named status;
/// every other code is kept as `Unknown` with its value.
pub proof fn lemma_kb_status_table()
    ensures
        spec_kb_status_of(0) == KbStatus::Success,
        spec_kb_status_of(1) == KbStatus::Fail,
        spec_kb_status_of(4) == KbStatus::InvalidArgument,
        spec_kb_status_of(10109) == KbStatus::RomLdrDataUnderrun,
        spec_kb_status_of(10110) == KbStatus::RomLdrJumpReturned,
        spec_kb_status_of(10115) == KbStatus::RomLdrRollbackBlocked,
        spec_kb_status_of(10119) == KbStatus::RomLdrPendingJumpCommand,
        spec_kb_status_of(10802) == KbStatus::RomApiBufferSizeNotEnough,
        spec_kb_status_of(10803) == KbStatus::RomApiInvalidBuffer,
        forall|raw: u32|
            !(raw == 0 || raw == 1 || raw == 4 || raw == 10109 || raw == 10110 || raw == 10115 || raw
                == 10119 || raw == 10802 || raw == 10803) ==> #[trigger] spec_kb_status_of(raw)
                == KbStatus::Unknown(raw),
        forall|s: KbStatus| !(s is Unknown) ==> #[trigger] spec_kb_status_of(s.spec_code()) == s,
{
}

/// Where each KBoot code lands as a boot error: an invalid argument, a buffer
/// error or a blocked rollback (4, 10802, 10803, 10115) is a marker error;
/// every other code is an I/O error.
pub proof fn lemma_kb_code_boot_errors(raw: u32)
    ensures
        spec_kb_boot_error(spec_kb_status_of(raw)) == (if raw == 4 || raw == 10802 || raw == 10803
            || raw == 10115 {
            BootError::Markers
        } else {
            BootError::IO
        }),
{
}

} // verus!
