use slimloader::boot::BootError;
use slimloader::mcxa::error::{
    map_flash_status_to_boot_error, map_flexspi_status_to_boot_error, map_kb_status_to_boot_error,
    map_nboot_status_to_boot_error, map_spiflash_status_to_boot_error, FlashStatus, FlexspiStatus,
    KbStatus, NbootStatus, SpiFlashStatus,
};
use slimloader::mcxa::load::{load_slot_b_to_a_len, CopyAction, LoadError, SlotCopy, SlotLayout};
use slimloader::mcxa::manifest::{parse_manifest, ManifestError};

#[test]
fn flash_status_codes() {
    assert_eq!(FlashStatus::from(0), FlashStatus::Success);
    assert_eq!(FlashStatus::from(4), FlashStatus::InvalidArgument);
    assert_eq!(FlashStatus::from(100), FlashStatus::SizeError);
    assert_eq!(FlashStatus::from(101), FlashStatus::AlignmentError);
    assert_eq!(FlashStatus::from(116), FlashStatus::EccError);
    assert_eq!(FlashStatus::from(119), FlashStatus::InvalidWaitStateCycles);
    assert_eq!(FlashStatus::from(103), FlashStatus::Unknown(103));
}

#[test]
fn other_status_codes() {
    assert_eq!(SpiFlashStatus::from(1), SpiFlashStatus::Fail);
    assert_eq!(SpiFlashStatus::from(2), SpiFlashStatus::Unknown(2));
    assert_eq!(FlexspiStatus::from(6002), FlexspiStatus::DeviceTimeout);
    assert_eq!(FlexspiStatus::from(20110), FlexspiStatus::DtrReadDummyProbeFailed);
    assert_eq!(FlexspiStatus::from(20104), FlexspiStatus::Unknown(20104));
    assert_eq!(KbStatus::from(10115), KbStatus::RomLdrRollbackBlocked);
    assert_eq!(KbStatus::from(10803), KbStatus::RomApiInvalidBuffer);
    assert_eq!(KbStatus::from(2), KbStatus::Unknown(2));
}

#[test]
fn nboot_status_ignores_upper_half() {
    assert_eq!(NbootStatus::from(0x5A5A_5A5Au64), NbootStatus::Success);
    assert_eq!(NbootStatus::from(0x1234_5678_5A5A_A5A5u64), NbootStatus::Fail);
    assert_eq!(NbootStatus::from(0x3C5A_33CCu64), NbootStatus::OperationAllowed);
    assert_eq!(NbootStatus::from(0xFFFF_FFFF_0000_0000u64), NbootStatus::Unknown(0));
}

#[test]
fn status_to_boot_error() {
    assert_eq!(map_flash_status_to_boot_error(FlashStatus::AddressError), BootError::MemoryRegion);
    assert_eq!(map_flash_status_to_boot_error(FlashStatus::CompareError), BootError::Integrity);
    assert_eq!(map_flash_status_to_boot_error(FlashStatus::EraseKeyError), BootError::Markers);
    assert_eq!(map_flash_status_to_boot_error(FlashStatus::Success), BootError::IO);
    assert_eq!(map_flash_status_to_boot_error(FlashStatus::Unknown(9)), BootError::IO);
    assert_eq!(map_spiflash_status_to_boot_error(SpiFlashStatus::Success), BootError::IO);
    assert_eq!(map_flexspi_status_to_boot_error(FlexspiStatus::SfdpNotFound), BootError::Markers);
    assert_eq!(map_flexspi_status_to_boot_error(FlexspiStatus::WriteAlignmentError), BootError::MemoryRegion);
    assert_eq!(map_flexspi_status_to_boot_error(FlexspiStatus::EraseAllFail), BootError::Integrity);
    assert_eq!(map_flexspi_status_to_boot_error(FlexspiStatus::WaitTimeout), BootError::IO);
    assert_eq!(map_nboot_status_to_boot_error(NbootStatus::OperationDisallowed), BootError::MemoryRegion);
    assert_eq!(map_nboot_status_to_boot_error(NbootStatus::InvalidArgument), BootError::Markers);
    assert_eq!(map_nboot_status_to_boot_error(NbootStatus::KeyNotAvailable), BootError::Authenticate);
    assert_eq!(map_nboot_status_to_boot_error(NbootStatus::Fail), BootError::IO);
    assert_eq!(map_nboot_status_to_boot_error(NbootStatus::Success), BootError::Authenticate);
    assert_eq!(map_kb_status_to_boot_error(KbStatus::RomApiBufferSizeNotEnough), BootError::Markers);
    assert_eq!(map_kb_status_to_boot_error(KbStatus::RomLdrRollbackBlocked), BootError::Markers);
    assert_eq!(map_kb_status_to_boot_error(KbStatus::RomLdrJumpReturned), BootError::IO);
    assert_eq!(map_kb_status_to_boot_error(KbStatus::Fail), BootError::IO);
}

#[test]
fn load_len_is_not_available() {
    assert_eq!(load_slot_b_to_a_len(0x1000), Err(LoadError::Init));
}

#[test]
fn slot_copy_programs_pages_in_order() {
    let layout = SlotLayout { slot_a_start: 0x1000, slot_a_size: 0x300, slot_b_start: 0x8000, page_size: 0x100 };
    let (mut c, first) = SlotCopy::start(layout);
    assert_eq!(first, CopyAction::Erase { start: 0x1000, size: 0x300 });
    assert_eq!(c.on_status(0), CopyAction::Program { src: 0x8000, dst: 0x1000, len: 0x100 });
    assert_eq!(c.on_status(0), CopyAction::Program { src: 0x8100, dst: 0x1100, len: 0x100 });
    assert_eq!(c.on_status(0), CopyAction::Program { src: 0x8200, dst: 0x1200, len: 0x100 });
    assert_eq!(c.on_status(0), CopyAction::Done);
}

#[test]
fn slot_copy_failures() {
    let layout = SlotLayout { slot_a_start: 0, slot_a_size: 0x200, slot_b_start: 0x1000, page_size: 0x100 };
    let (mut c, _) = SlotCopy::start(layout);
    assert_eq!(c.on_status(5), CopyAction::Failed(LoadError::Erase));
    let (mut c, _) = SlotCopy::start(layout);
    c.on_status(0);
    assert_eq!(c.on_status(1), CopyAction::Failed(LoadError::Program));
    let empty = SlotLayout { slot_a_size: 0, ..layout };
    let (mut c, _) = SlotCopy::start(empty);
    assert_eq!(c.on_status(0), CopyAction::Done);
}

fn manifest_bytes(size: u32) -> Vec<u8> {
    let mut m = vec![0u8; 8];
    m.extend_from_slice(&0x6D676D69u32.to_le_bytes());
    m.extend_from_slice(&0x0001_0000u32.to_le_bytes());
    m.extend_from_slice(&0x0000_0203u32.to_le_bytes());
    m.extend_from_slice(&size.to_le_bytes());
    m.extend_from_slice(&0u32.to_le_bytes());
    m.extend_from_slice(&0xDEAD_BEEFu32.to_le_bytes());
    m.extend_from_slice(&[0; 8]);
    m
}

#[test]
fn manifest_parses() {
    let m = manifest_bytes(24);
    let man = parse_manifest(&m, 8, 32).unwrap();
    assert_eq!(man.raw.firmware_version, 0x203);
    assert_eq!(man.raw.manifest_size, 24);
    assert_eq!(man.crc32, 0xDEAD_BEEF);
}

#[test]
fn manifest_rejections() {
    let m = manifest_bytes(24);
    assert_eq!(parse_manifest(&m, 40, 40), Err(ManifestError::Bounds));
    assert_eq!(parse_manifest(&m, 8, 31), Err(ManifestError::Bounds));
    assert_eq!(parse_manifest(&m, 0, 40), Err(ManifestError::Magic));
    let mut v = m.clone();
    v[12] = 2;
    assert_eq!(parse_manifest(&v, 8, 40), Err(ManifestError::Version));
    let small = manifest_bytes(16);
    assert_eq!(parse_manifest(&small, 8, 40), Err(ManifestError::Size));
    let huge = manifest_bytes(u32::MAX);
    assert_eq!(parse_manifest(&huge, 8, 40), Err(ManifestError::Bounds));
}
