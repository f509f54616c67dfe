use slimloader::tool::elf::{
    parse_elf, prelude_delete_flags, remove_non_prelude, section_is_removed, ElfError, SectionInfo,
};
use slimloader::tool::objcopy::{
    objcopy, objcopy_checked, AddressMapping, Config, ElfImage, ElfSegment, ObjcopyError,
};

fn seg(paddr: u32, data: Vec<u8>) -> ElfSegment {
    let n = data.len() as u32;
    ElfSegment { paddr, filesz: n, memsz: n, data: Some(data) }
}

fn bss(paddr: u32, memsz: u32) -> ElfSegment {
    ElfSegment { paddr, filesz: 0, memsz, data: None }
}

fn no_mappings(max_size: Option<u32>) -> Config {
    Config { mappings: vec![], max_size }
}

fn push_u16(v: &mut Vec<u8>, x: u16) {
    v.extend_from_slice(&x.to_le_bytes());
}

fn push_u32(v: &mut Vec<u8>, x: u32) {
    v.extend_from_slice(&x.to_le_bytes());
}

fn pad4(v: &mut Vec<u8>) {
    while v.len() % 4 != 0 {
        v.push(0);
    }
}

/// A little-endian 32-bit ARM executable with one `PT_LOAD` segment and one
/// `SHT_PROGBITS` section per `(address, data)` pair.
fn elf32(entry: u32, segments: &[(u32, Vec<u8>)]) -> Vec<u8> {
    let n = segments.len();
    let mut data_offsets = vec![];
    let mut off = 52 + 32 * n;
    for (_, d) in segments {
        data_offsets.push(off);
        off += d.len();
        off = (off + 3) / 4 * 4;
    }
    let mut shstrtab = vec![0u8];
    shstrtab.extend_from_slice(b".shstrtab\0");
    let mut name_offsets = vec![];
    for i in 0..n {
        name_offsets.push(shstrtab.len());
        shstrtab.extend_from_slice(format!(".s{i}\0").as_bytes());
    }
    let shstrtab_off = off;
    let shoff = (shstrtab_off + shstrtab.len() + 3) / 4 * 4;

    let mut v = vec![0x7f, b'E', b'L', b'F', 1, 1, 1, 0];
    v.extend_from_slice(&[0; 8]);
    push_u16(&mut v, 2);
    push_u16(&mut v, 40);
    push_u32(&mut v, 1);
    push_u32(&mut v, entry);
    push_u32(&mut v, 52);
    push_u32(&mut v, shoff as u32);
    push_u32(&mut v, 0x0500_0000);
    push_u16(&mut v, 52);
    push_u16(&mut v, 32);
    push_u16(&mut v, n as u16);
    push_u16(&mut v, 40);
    push_u16(&mut v, n as u16 + 2);
    push_u16(&mut v, n as u16 + 1);
    for (i, (addr, d)) in segments.iter().enumerate() {
        push_u32(&mut v, 1);
        push_u32(&mut v, data_offsets[i] as u32);
        push_u32(&mut v, *addr);
        push_u32(&mut v, *addr);
        push_u32(&mut v, d.len() as u32);
        push_u32(&mut v, d.len() as u32);
        push_u32(&mut v, 5);
        push_u32(&mut v, 4);
    }
    for (_, d) in segments {
        v.extend_from_slice(d);
        pad4(&mut v);
    }
    v.extend_from_slice(&shstrtab);
    pad4(&mut v);
    assert_eq!(v.len(), shoff);
    v.extend_from_slice(&[0; 40]);
    for (i, (addr, d)) in segments.iter().enumerate() {
        push_u32(&mut v, name_offsets[i] as u32);
        push_u32(&mut v, 1);
        push_u32(&mut v, 6);
        push_u32(&mut v, *addr);
        push_u32(&mut v, data_offsets[i] as u32);
        push_u32(&mut v, d.len() as u32);
        push_u32(&mut v, 0);
        push_u32(&mut v, 0);
        push_u32(&mut v, 4);
        push_u32(&mut v, 0);
    }
    push_u32(&mut v, 1);
    push_u32(&mut v, 3);
    push_u32(&mut v, 0);
    push_u32(&mut v, 0);
    push_u32(&mut v, shstrtab_off as u32);
    push_u32(&mut v, shstrtab.len() as u32);
    push_u32(&mut v, 0);
    push_u32(&mut v, 0);
    push_u32(&mut v, 1);
    push_u32(&mut v, 0);
    v
}

#[test]
fn map_paddr_first_covering_mapping() {
    let config = Config {
        mappings: vec![
            AddressMapping { from_start: 0x0800_1000, from_end: 0x0800_1FFF, to_start: 0x1000_0000 },
            AddressMapping { from_start: 0x0800_1000, from_end: 0x0800_2FFF, to_start: 0x2000_0000 },
        ],
        max_size: None,
    };
    assert_eq!(config.map_paddr(0x0800_1010), 0x1000_0010);
    assert_eq!(config.map_paddr(0x0800_2010), 0x2000_1010);
    assert_eq!(config.map_paddr(0x0800_0010), 0x0800_0010);
    assert_eq!(config.map_paddr_checked(0x0800_1FFF), Some(0x1000_0FFF));
}

#[test]
fn map_paddr_overflow_is_reported() {
    let config = Config {
        mappings: vec![AddressMapping { from_start: 0, from_end: 0xFFFF_FFFF, to_start: 0xFFFF_FF00 }],
        max_size: None,
    };
    assert_eq!(config.map_paddr_checked(0x100), None);
    assert_eq!(config.map_paddr_checked(0xFF), Some(0xFFFF_FFFF));
}

#[test]
fn objcopy_single_image_with_gap_and_bss() {
    let f = ElfImage {
        entry: 0x1000_0131,
        segments: vec![seg(0x1000_0000, vec![1; 0x140]), seg(0x1000_0200, vec![2; 4]), bss(0x1000_0300, 16)],
    };
    let (image, base) = objcopy(&[f], &no_mappings(Some(0x1000))).unwrap();
    assert_eq!(base, 0x1000_0000);
    assert_eq!(image.len(), 0x204);
    assert!(image[..0x140].iter().all(|b| *b == 1));
    assert!(image[0x140..0x200].iter().all(|b| *b == 0));
    assert_eq!(&image[0x200..], &[2, 2, 2, 2]);
}

#[test]
fn objcopy_skips_prelude_and_applies_mappings() {
    let config = Config {
        mappings: vec![AddressMapping { from_start: 0x0800_1000, from_end: 0x080F_FFFF, to_start: 0x1000_0000 }],
        max_size: None,
    };
    let f = ElfImage {
        entry: 0x0800_1131,
        segments: vec![seg(0x0800_0000, vec![9; 16]), seg(0x0800_1000, vec![3; 0x140])],
    };
    let (image, base) = objcopy(&[f], &config).unwrap();
    assert_eq!(base, 0x1000_0000);
    assert_eq!(image, vec![3; 0x140]);
}

#[test]
fn objcopy_two_images_in_order() {
    let a = ElfImage { entry: 0x1000_0131, segments: vec![seg(0x1000_0000, vec![1; 0x140])] };
    let b = ElfImage { entry: 0x1000_1131, segments: vec![seg(0x1000_1000, vec![2; 0x140])] };
    let (image, base) = objcopy(&[a.clone(), b.clone()], &no_mappings(None)).unwrap();
    assert_eq!(base, 0x1000_0000);
    assert_eq!(image.len(), 0x1140);
    assert_eq!(image[0x13F], 1);
    assert_eq!(image[0x140], 0);
    assert_eq!(image[0x1000], 2);
    // The other way round the second image's segments come first.
    assert_eq!(objcopy(&[b, a], &no_mappings(None)), Err(ObjcopyError::Unordered));
}

#[test]
fn objcopy_errors() {
    let cfg = no_mappings(None);
    let larger = ElfImage {
        entry: 0x1000_0131,
        segments: vec![ElfSegment { paddr: 0x1000_0000, filesz: 8, memsz: 4, data: Some(vec![0; 8]) }],
    };
    assert_eq!(objcopy(&[larger], &cfg), Err(ObjcopyError::FileszLargerThanMemsz));
    let partial = ElfImage {
        entry: 0x1000_0131,
        segments: vec![ElfSegment { paddr: 0x1000_0000, filesz: 4, memsz: 8, data: Some(vec![0; 4]) }],
    };
    assert_eq!(objcopy(&[partial], &cfg), Err(ObjcopyError::PartialBss));
    let overlap = ElfImage {
        entry: 0x1000_0131,
        segments: vec![seg(0x1000_0000, vec![0; 0x140]), seg(0x1000_0100, vec![0; 4])],
    };
    assert_eq!(objcopy(&[overlap], &cfg), Err(ObjcopyError::Unordered));
    let entry = ElfImage { entry: 0x1000_0130, segments: vec![seg(0x1000_0000, vec![0; 0x140])] };
    assert_eq!(
        objcopy(&[entry], &cfg),
        Err(ObjcopyError::EntryMismatch { file_i: 0, actual: 0x1000_0130, expected: 0x1000_0131 })
    );
    let big = ElfImage { entry: 0x1000_0131, segments: vec![seg(0x1000_0000, vec![0; 0x140])] };
    assert_eq!(
        objcopy(&[big], &no_mappings(Some(0x13F))),
        Err(ObjcopyError::TooLarge { size: 0x140, max_size: 0x13F })
    );
}

#[test]
fn objcopy_checked_refuses_what_cannot_be_produced() {
    let cfg = no_mappings(None);
    let only_bss = ElfImage { entry: 0x131, segments: vec![bss(0, 16)] };
    assert_eq!(objcopy_checked(&[only_bss], &cfg), None);
    assert_eq!(objcopy_checked(&[], &cfg), None);
    let no_data = ElfImage {
        entry: 0x1000_0131,
        segments: vec![ElfSegment { paddr: 0x1000_0000, filesz: 4, memsz: 4, data: None }],
    };
    assert_eq!(objcopy_checked(&[no_data], &cfg), None);
}

#[test]
fn section_removal_rule() {
    assert!(!section_is_removed(SectionInfo { addr: 0x0800_0000, kind: 1 }));
    assert!(!section_is_removed(SectionInfo { addr: 0x0800_0FFF, kind: 8 }));
    assert!(section_is_removed(SectionInfo { addr: 0x0800_1000, kind: 1 }));
    assert!(section_is_removed(SectionInfo { addr: 0x1000_0000, kind: 8 }));
    assert!(!section_is_removed(SectionInfo { addr: 0x1000_0000, kind: 3 }));
    // The address is taken modulo 2^32.
    assert!(!section_is_removed(SectionInfo { addr: 0x1_0800_0010, kind: 1 }));
}

#[test]
fn parse_elf_reads_segments_and_entry() {
    let bytes = elf32(0x1000_0131, &[(0x1000_0000, vec![7; 0x140]), (0x1000_0200, vec![8; 8])]);
    let f = parse_elf(&bytes).unwrap();
    assert_eq!(f.entry, 0x1000_0131);
    assert_eq!(f.segments, vec![seg(0x1000_0000, vec![7; 0x140]), seg(0x1000_0200, vec![8; 8])]);
    let (image, base) = objcopy(&[f], &no_mappings(None)).unwrap();
    assert_eq!(base, 0x1000_0000);
    assert_eq!(image.len(), 0x208);
}

#[test]
fn parse_elf_refuses_other_bytes() {
    assert_eq!(parse_elf(b"not an elf file at all, clearly not"), Err(ElfError::Parse));
    assert_eq!(parse_elf(&[]), Err(ElfError::Parse));
}

#[test]
fn remove_non_prelude_keeps_only_prelude() {
    let bytes = elf32(0x1000_0131, &[(0x0800_0000, vec![5; 16]), (0x1000_0000, vec![6; 0x140])]);
    let out = remove_non_prelude(&bytes).unwrap();
    let f = parse_elf(&out).unwrap();
    assert_eq!(f.segments, vec![seg(0x0800_0000, vec![5; 16])]);
}

#[test]
fn remove_non_prelude_refuses_other_bytes() {
    assert_eq!(remove_non_prelude(b"\x7fELF but not really"), Err(ElfError::Parse));
}

#[test]
fn prelude_flags_in_section_order() {
    let secs = [
        SectionInfo { addr: 0x0800_0000, kind: 1 },
        SectionInfo { addr: 0x1000_0000, kind: 1 },
        SectionInfo { addr: 0, kind: 3 },
        SectionInfo { addr: 0x2000_0000, kind: 8 },
    ];
    assert_eq!(prelude_delete_flags(&secs), vec![false, true, false, true]);
    assert_eq!(prelude_delete_flags(&[]), Vec::<bool>::new());
}

use slimloader::tool::certificates::{Rkth, RkthError};
use slimloader::tool::config::{ApplicationArgs, BootloaderArgs, Config as ToolConfig, MemoryRange};
use slimloader::tool::hex::HexError;
use slimloader::tool::mbi::MbiError;
use slimloader::tool::sign::{CheckError, SignArguments};
use slimloader::tool::sign_flow::{SignAction, SignError, SignFlow};

const RKTH_HEX: &str = "00112233445566778899aabbccddeeff0123456789abcdef0f1e2d3c4b5a6978";

fn tool_config(slot_size: u64) -> ToolConfig {
    ToolConfig {
        artifacts_path: "artifacts".to_string(),
        rkth_path: "artifacts/rkth".to_string(),
        otp_path: "artifacts/otp".to_string(),
        key_type: "rsa2048".to_string(),
        bootloader: Some(BootloaderArgs {
            flash_start: 0x0800_1000,
            run_start: 0x1000_0000,
            max_size: 0x8000,
            state: MemoryRange { start: 0x0810_0000, size: 0x2000 },
        }),
        application: Some(ApplicationArgs {
            slot_starts: vec![0x0810_0000],
            run_start: 0x1001_0000,
            slot_size,
            address_mapping: vec![],
        }),
    }
}

fn sign_args() -> SignArguments {
    SignArguments {
        input_path: "build/app.elf".to_string(),
        output_path: None,
        prelude_path: None,
        nxpimage_path: "nxpimage".to_string(),
    }
}

fn mbi_of(len: usize, image_type: u32) -> Vec<u8> {
    let mut v = vec![0u8; len];
    v[0x24..0x28].copy_from_slice(&image_type.to_le_bytes());
    v
}

/// Runs an application flow up to the image tool, and gives the flow.
fn app_flow_to_mbi(slot_size: u64) -> SignFlow {
    let (mut flow, a) = SignFlow::start(tool_config(slot_size), false, sign_args());
    match a {
        SignAction::ReadInput { path } => assert_eq!(path, "build/app.elf"),
        other => panic!("unexpected {other:?}"),
    }
    let bytes = elf32(0x1001_0131, &[(0x1001_0000, vec![3; 0x140])]);
    assert!(matches!(flow.on_input(&bytes), SignAction::ReadRkth));
    match flow.on_rkth(RKTH_HEX) {
        SignAction::MakeMbi { image, base_addr, output_path } => {
            assert_eq!(image, vec![3; 0x140]);
            assert_eq!(base_addr, 0x1001_0000);
            assert_eq!(output_path, "build/app.elf.signed.bin");
        }
        other => panic!("unexpected {other:?}"),
    }
    flow
}

#[test]
fn sign_flow_application() {
    let mut flow = app_flow_to_mbi(0x10_0000);
    match flow.on_mbi(&mbi_of(0x140 + 0x700, 0x4004)) {
        SignAction::Done(out) => {
            assert_eq!(out.output_path, Some("build/app.elf.signed.bin".to_string()));
            assert_eq!(out.rkth, Rkth::from_hex(RKTH_HEX).unwrap());
        }
        other => panic!("unexpected {other:?}"),
    }
}

#[test]
fn sign_flow_checks_the_signed_image() {
    let mut flow = app_flow_to_mbi(0x10_0000);
    assert!(matches!(
        flow.on_mbi(&mbi_of(0x140 + 0x700, 0x4001)),
        SignAction::Fail(SignError::Mbi(MbiError::UnexpectedImageType { expected: 0x4004, actual: 0x4001 }))
    ));
    let mut flow = app_flow_to_mbi(0x10_0000);
    assert!(matches!(flow.on_mbi(&mbi_of(0x140 + 0x745, 0x4004)), SignAction::Fail(SignError::Mbi(MbiError::TooMuchAdded))));
    let mut flow = app_flow_to_mbi(0x10_0000);
    assert!(matches!(flow.on_mbi(&mbi_of(0x13F, 0x4004)), SignAction::Halt));
    // The unsigned image fits the slot, the signed one does not.
    let mut flow = app_flow_to_mbi(0x200);
    assert!(matches!(
        flow.on_mbi(&mbi_of(0x201, 0x4004)),
        SignAction::Fail(SignError::Check(CheckError::SignedTooLarge { max_size: 0x200, size: 0x201 }))
    ));
}

#[test]
fn sign_flow_bootloader_writes_prelude_first() {
    let (mut flow, _) = SignFlow::start(tool_config(0x10_0000), true, sign_args());
    let bytes = elf32(0x1000_0131, &[(0x0800_0000, vec![5; 16]), (0x1000_0000, vec![6; 0x140])]);
    match flow.on_input(&bytes) {
        SignAction::WritePrelude { path, elf } => {
            assert_eq!(path, "build/app.prelude.elf");
            let f = parse_elf(&elf).unwrap();
            assert_eq!(f.segments, vec![seg(0x0800_0000, vec![5; 16])]);
        }
        other => panic!("unexpected {other:?}"),
    }
    assert!(matches!(flow.on_prelude_written(), SignAction::ReadRkth));
}

#[test]
fn sign_flow_failures() {
    let (mut flow, _) = SignFlow::start(tool_config(0x10_0000), false, sign_args());
    assert!(matches!(flow.on_input(b"not an elf"), SignAction::Fail(SignError::Elf(ElfError::Parse))));

    // The image runs from another address than the configured one.
    let (mut flow, _) = SignFlow::start(tool_config(0x10_0000), false, sign_args());
    let bytes = elf32(0x1002_0131, &[(0x1002_0000, vec![3; 0x140])]);
    assert!(matches!(
        flow.on_input(&bytes),
        SignAction::Fail(SignError::Check(CheckError::UnexpectedRunAddress { base_addr: 0x1002_0000, expected: 0x1001_0000 }))
    ));

    // The image does not fit in the limit it is produced with.
    let (mut flow, _) = SignFlow::start(tool_config(0x100), false, sign_args());
    let bytes = elf32(0x1001_0131, &[(0x1001_0000, vec![3; 0x140])]);
    assert!(matches!(
        flow.on_input(&bytes),
        SignAction::Fail(SignError::Objcopy(ObjcopyError::TooLarge { size: 0x140, max_size: 0x100 }))
    ));

    // No application section: the command cannot go on.
    let mut c = tool_config(0x10_0000);
    c.application = None;
    let (mut flow, _) = SignFlow::start(c, false, sign_args());
    let bytes = elf32(0x1001_0131, &[(0x1001_0000, vec![3; 0x140])]);
    assert!(matches!(flow.on_input(&bytes), SignAction::Halt));

    // A bad hash file stops signing before the image tool runs.
    let (mut flow, _) = SignFlow::start(tool_config(0x10_0000), false, sign_args());
    let bytes = elf32(0x1001_0131, &[(0x1001_0000, vec![3; 0x140])]);
    flow.on_input(&bytes);
    assert!(matches!(flow.on_rkth("abc"), SignAction::Fail(SignError::Rkth(RkthError::Hex(HexError::OddLength)))));
}
