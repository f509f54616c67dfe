use slimloader::tool::certificates::{
    cert_block_args, certificate_args, certificate_output_path, failed_exec, private_key_args,
    rkth_from_output, rkth_text, Rkth, RkthError, CERT_BLOCK_DESCR_PATH, IMG_KEY_DESCR_PATH,
    ROOT_KEY_DESCR_PATH,
};
use slimloader::tool::config::{ApplicationArgs, BootloaderArgs, Config, MemoryRange};
use slimloader::tool::hex::{bytes_to_u32_le, chars_of, generate_hex, parse_hex, HexError};
use slimloader::tool::mbi::{
    check_mbi_output, format_hex_alt, mbi_config_path, mbi_export_args, MbiError,
};
use slimloader::tool::objcopy::AddressMapping;
use slimloader::tool::sign::{objcopy_config, perform_checks, CheckError, SignArguments};
use slimloader::tool::text::{join2, join3, strings_of};

const HASH: &str = "00112233445566778899aabbccddeeff0123456789abcdef0f1e2d3c4b5a6978";

fn config(bootloader: bool, application: bool) -> Config {
    Config {
        artifacts_path: "artifacts".to_string(),
        rkth_path: "artifacts/rkth".to_string(),
        otp_path: "artifacts/otp".to_string(),
        key_type: "rsa2048".to_string(),
        bootloader: if bootloader {
            Some(BootloaderArgs {
                flash_start: 0x0800_0000,
                run_start: 0x1000_0000,
                max_size: 0x8000,
                state: MemoryRange { start: 0x0810_0000, size: 0x2000 },
            })
        } else {
            None
        },
        application: if application {
            Some(ApplicationArgs {
                slot_starts: vec![0x0810_0000, 0x0820_0000],
                run_start: 0x1001_0000,
                slot_size: 0x10_0000,
                address_mapping: vec![AddressMapping {
                    from_start: 0x0810_0000,
                    from_end: 0x081F_FFFF,
                    to_start: 0x1001_0000,
                }],
            })
        } else {
            None
        },
    }
}

#[test]
fn hex_generate_and_parse() {
    assert_eq!(generate_hex(&[0x01, 0xAB, 0xFF, 0x00]), "01abff00");
    assert_eq!(generate_hex(&[]), "");
    assert_eq!(parse_hex("01AbfF00"), Ok(vec![0x01, 0xAB, 0xFF, 0x00]));
    assert_eq!(parse_hex(""), Ok(vec![]));
    assert_eq!(parse_hex("abc"), Err(HexError::OddLength));
    assert_eq!(parse_hex("0g"), Err(HexError::InvalidCharacter));
}

#[test]
fn hex_roundtrip() {
    let bytes: Vec<u8> = (0..=255).collect();
    assert_eq!(parse_hex(&generate_hex(&bytes)), Ok(bytes));
}

#[test]
fn chars_in_order() {
    assert_eq!(chars_of("aé1"), vec!['a', 'é', '1']);
}

#[test]
fn words_little_endian() {
    assert_eq!(bytes_to_u32_le(&[1, 0, 0, 0, 0x78, 0x56, 0x34, 0x12, 9]), vec![1, 0x1234_5678]);
    assert_eq!(bytes_to_u32_le(&[1, 2, 3]), Vec::<u32>::new());
}

#[test]
fn rkth_hex() {
    let r = Rkth::from_hex(HASH).unwrap();
    assert_eq!(r.0[0], 0x00);
    assert_eq!(r.0[31], 0x78);
    assert_eq!(r.as_hex(), HASH);
    assert_eq!(Rkth::from_hex(&HASH.to_uppercase()), Ok(r));
    assert_eq!(Rkth::from_hex("0011"), Err(RkthError::Size));
    assert_eq!(Rkth::from_hex(&HASH[1..]), Err(RkthError::Hex(HexError::OddLength)));
    assert_eq!(Rkth::from_hex(&HASH.replace('a', "x")), Err(RkthError::Hex(HexError::InvalidCharacter)));
    // A trailing newline is not hexadecimal.
    assert_eq!(Rkth::from_hex(&format!("{HASH}\n")), Err(RkthError::Hex(HexError::OddLength)));
}

#[test]
fn rkth_hex_roundtrip() {
    let r = Rkth([0xA5; 32]);
    assert_eq!(Rkth::from_hex(&r.as_hex()), Ok(r));
}

#[test]
fn rkth_words() {
    let r = Rkth::from_hex(HASH).unwrap();
    let w = r.as_u32_le();
    assert_eq!(w.len(), 8);
    assert_eq!(w[0], 0x3322_1100);
    assert_eq!(w[7], 0x7869_5a4b);
}

#[test]
fn rkth_from_tool_output() {
    let out = format!("Certificate block exported\n  RKTH: {HASH}  \r\nDone\n");
    assert_eq!(rkth_from_output(&out), Ok(Rkth::from_hex(HASH).unwrap()));
    // Every leading "RKTH: " is removed.
    let twice = format!("RKTH: RKTH: {HASH}");
    assert_eq!(rkth_from_output(&twice), Ok(Rkth::from_hex(HASH).unwrap()));
    assert_eq!(rkth_from_output("nothing here\n"), Err(RkthError::Missing));
    assert_eq!(rkth_from_output("RKTH: 1234"), Err(RkthError::Size));
    // Only the first line mentioning the hash counts.
    let first = format!("RKTH follows\nRKTH: {HASH}\n");
    assert_eq!(rkth_from_output(&first), Err(RkthError::Hex(HexError::InvalidCharacter)));
}

#[test]
fn rkth_text_of_line() {
    let s: Vec<char> = " RKTH: ab \nx".chars().collect();
    assert_eq!(rkth_text(&s), Some(vec!['a', 'b']));
    let s: Vec<char> = "rkth: ab".chars().collect();
    assert_eq!(rkth_text(&s), None);
}

#[test]
fn certificate_tool_arguments() {
    assert_eq!(failed_exec("nxpcrypto"), "Could not execute `nxpcrypto`, is it installed?");
    assert_eq!(certificate_output_path(ROOT_KEY_DESCR_PATH), "./cert-rot1.pem");
    assert_eq!(certificate_output_path(IMG_KEY_DESCR_PATH), "./cert-img1.pem");
    assert_eq!(CERT_BLOCK_DESCR_PATH, "./cert-block.yaml");
    assert_eq!(
        private_key_args("rsa2048", "keys/img.pem"),
        vec!["key", "generate", "-k", "rsa2048", "-e", "PEM", "-o", "keys/img.pem"]
    );
    assert_eq!(
        certificate_args("./cert-rot1.yaml", "./cert-rot1.pem"),
        vec!["cert", "generate", "-e", "PEM", "-c", "./cert-rot1.yaml", "-o", "./cert-rot1.pem"]
    );
    assert_eq!(cert_block_args("./cert-block.yaml"), vec!["cert-block", "export", "-c", "./cert-block.yaml"]);
}

#[test]
fn paths_with_extension() {
    // The extension is replaced where there is one and added where there is none.
    assert_eq!(certificate_output_path("keys/root.yaml"), "keys/root.pem");
    assert_eq!(certificate_output_path("root"), "root.pem");
    assert_eq!(certificate_output_path("a.b/root.tar.yaml"), "a.b/root.tar.pem");
}

#[test]
fn sign_default_paths() {
    let mut args = SignArguments {
        input_path: "build/app.elf".to_string(),
        output_path: None,
        prelude_path: None,
        nxpimage_path: "nxpimage".to_string(),
    };
    assert_eq!(args.output_path_with_default(), "build/app.elf.signed.bin");
    assert_eq!(args.prelude_path_with_default(), "build/app.prelude.elf");
    // The output path appends to the input path; it does not replace its extension.
    let plain = SignArguments { input_path: "app".to_string(), ..args.clone() };
    assert_eq!(plain.output_path_with_default(), "app.signed.bin");
    args.output_path = Some("x.bin".to_string());
    args.prelude_path = Some("p.elf".to_string());
    assert_eq!(args.output_path_with_default(), "x.bin");
    assert_eq!(args.prelude_path_with_default(), "p.elf");
}

#[test]
fn sign_checks() {
    let c = config(true, true);
    let image = vec![0u8; 0x8000];
    assert_eq!(perform_checks(&c, true, &image, 0x1000_0000), Ok(()));
    assert_eq!(
        perform_checks(&c, true, &[0u8; 0x8001], 0x1000_0000),
        Err(CheckError::TooLarge { max_size: 0x8000, size: 0x8001 })
    );
    assert_eq!(
        perform_checks(&c, true, &image, 0x1000_0004),
        Err(CheckError::UnexpectedRunAddress { base_addr: 0x1000_0004, expected: 0x1000_0000 })
    );
    assert_eq!(perform_checks(&c, false, &image, 0x1001_0000), Ok(()));
    assert_eq!(
        perform_checks(&config(false, true), true, &image, 0x1000_0000),
        Err(CheckError::BootloaderNotConfigured)
    );
    assert_eq!(
        perform_checks(&config(true, false), false, &image, 0x1001_0000),
        Err(CheckError::ApplicationNotConfigured)
    );
}

#[test]
fn sign_objcopy_config() {
    let c = config(true, true);
    let b = objcopy_config(&c, true).unwrap();
    assert!(b.mappings.is_empty());
    assert_eq!(b.max_size, Some(0x8000));
    let a = objcopy_config(&c, false).unwrap();
    assert_eq!(a.mappings, c.application.as_ref().unwrap().address_mapping);
    assert_eq!(a.max_size, Some(0x10_0000));
    assert!(objcopy_config(&config(false, true), true).is_none());
    assert!(objcopy_config(&config(true, false), false).is_none());
}

#[test]
fn hex_alt_matches_std_formatting() {
    for n in [0u32, 1, 9, 10, 15, 16, 0xff, 0x100, 0x1000_0000, 0xDEAD_BEEF, u32::MAX] {
        assert_eq!(format_hex_alt(n), format!("{n:#x}"));
    }
}

#[test]
fn mbi_arguments() {
    assert_eq!(mbi_config_path(true), "artifacts/mbi-bootloader.yaml");
    assert_eq!(mbi_config_path(false), "artifacts/mbi-application.yaml");
    let args = mbi_export_args("artifacts/mbi-application.yaml", "/tmp/in", "/x/out.bin", 0x1001_0000);
    assert_eq!(
        args,
        vec![
            "mbi",
            "export",
            "-c",
            "artifacts/mbi-application.yaml",
            "-oc",
            "inputImageFile=/tmp/in",
            "-oc",
            "masterBootOutputFile=/x/out.bin",
            "-oc",
            "outputImageExecutionAddress=0x10010000",
        ]
    );
}

fn mbi_with_type(len: usize, image_type: u32) -> Vec<u8> {
    let mut v = vec![0u8; len];
    v[0x24..0x28].copy_from_slice(&image_type.to_le_bytes());
    v
}

#[test]
fn mbi_output_checks() {
    let out = mbi_with_type(0x100 + 0x744, 0x4004);
    assert_eq!(check_mbi_output(&out, 0x100, false), Ok(()));
    assert_eq!(check_mbi_output(&out, 0xFF, false), Err(MbiError::TooMuchAdded));
    assert_eq!(
        check_mbi_output(&out, 0x100, true),
        Err(MbiError::UnexpectedImageType { expected: 0x4001, actual: 0x4004 })
    );
    let boot = mbi_with_type(0x800, 0x4001);
    assert_eq!(check_mbi_output(&boot, 0x400, true), Ok(()));
}

#[test]
fn text_helpers() {
    assert_eq!(join2("a", "bc"), "abc");
    assert_eq!(join3("a", "", "c"), "ac");
    assert_eq!(strings_of(&["x", "yz"]), vec!["x".to_string(), "yz".to_string()]);
}

use slimloader::tool::run::{attach_args, shadow_setup_writes, without_use_puf, MemoryWrite};

#[test]
fn run_shadow_writes() {
    let rkth = Rkth::from_hex(HASH).unwrap();
    let w = shadow_setup_writes(&rkth, &[1, 2, 3, 4, 5, 6, 7, 8]);
    assert_eq!(
        w,
        vec![
            MemoryWrite { address: 0x401301E0, words: rkth.as_u32_le() },
            MemoryWrite { address: 0x401301C0, words: vec![1, 2, 3, 4, 5, 6, 7, 8] },
            MemoryWrite { address: 0x40130180, words: vec![0x1E900000] },
        ]
    );
}

#[test]
fn run_use_puf_cleared() {
    assert_eq!(without_use_puf(0xFFFF_FFFF), 0xFFFF_FF7F);
    assert_eq!(without_use_puf(0x80), 0);
    assert_eq!(without_use_puf(0x1234_0001), 0x1234_0001);
}

#[test]
fn run_attach_arguments() {
    assert_eq!(
        attach_args("MIMXRT685SFVKB", None, "app.elf"),
        vec!["attach", "--chip", "MIMXRT685SFVKB", "app.elf"]
    );
    assert_eq!(
        attach_args("MIMXRT685SFVKB", Some("1366:1015"), "app.elf"),
        vec!["attach", "--chip", "MIMXRT685SFVKB", "--probe", "1366:1015", "app.elf"]
    );
}

use slimloader::tool::certificates::rkth_file_from_output;
use slimloader::tool::run::{RunAction, RunEvent, RunSetup};
use slimloader::tool::sign::check_signed_size;

#[test]
fn run_setup_order() {
    let rkth = Rkth::from_hex(HASH).unwrap();
    let (mut r, a) = RunSetup::start(&rkth, &[9, 8, 7, 6, 5, 4, 3, 2]);
    assert_eq!(a, RunAction::Write(MemoryWrite { address: 0x401301E0, words: rkth.as_u32_le() }));
    // An outcome that does not belong to the last operation changes nothing.
    assert_eq!(r.step(RunEvent::ResetDone), None);
    assert_eq!(
        r.step(RunEvent::Written),
        Some(RunAction::Write(MemoryWrite { address: 0x401301C0, words: vec![9, 8, 7, 6, 5, 4, 3, 2] }))
    );
    assert_eq!(
        r.step(RunEvent::Written),
        Some(RunAction::Write(MemoryWrite { address: 0x40130180, words: vec![0x1E900000] }))
    );
    assert_eq!(r.step(RunEvent::Written), Some(RunAction::ReadWord { address: 0x40130194 }));
    assert_eq!(
        r.step(RunEvent::WordRead(0x0000_01FF)),
        Some(RunAction::Write(MemoryWrite { address: 0x40130194, words: vec![0x0000_017F] }))
    );
    assert_eq!(r.step(RunEvent::Written), Some(RunAction::Reset));
    assert_eq!(r.step(RunEvent::ResetDone), Some(RunAction::Attach));
    assert_eq!(r.step(RunEvent::Written), None);
}

#[test]
fn signed_size_counts_signature() {
    let c = config(true, true);
    assert_eq!(check_signed_size(&c, true, &[0u8; 0x8000]), Ok(()));
    assert_eq!(
        check_signed_size(&c, true, &[0u8; 0x8001]),
        Err(CheckError::SignedTooLarge { max_size: 0x8000, size: 0x8001 })
    );
    assert_eq!(check_signed_size(&c, false, &[0u8; 0x8001]), Ok(()));
    assert_eq!(check_signed_size(&config(false, true), true, &[]), Err(CheckError::BootloaderNotConfigured));
    assert_eq!(check_signed_size(&config(true, false), false, &[]), Err(CheckError::ApplicationNotConfigured));
}

#[test]
fn rkth_file_text_reads_back() {
    let out = format!("RKTH: {}\n", HASH.to_uppercase());
    let (h, text) = rkth_file_from_output(&out).unwrap();
    assert_eq!(text, HASH);
    assert_eq!(Rkth::from_hex(&text), Ok(h));
    assert_eq!(rkth_file_from_output("no hash"), Err(RkthError::Missing));
}
