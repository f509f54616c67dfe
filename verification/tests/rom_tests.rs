use slimloader::rom::registers::{
    fill_from_words, otp_to_shadow_addr, NotShadowRegister, OtpError, OtpFuses, RomError,
    ShadowRegisters, ShadowWrite,
};
use slimloader::rom::shadow::{Boot0, Boot1, FuseWrite, Rkth};

#[test]
fn boot0_secure_boot_bits() {
    assert!(!Boot0(0).secure_boot());
    assert!(Boot0(1 << 20).secure_boot());
    assert!(Boot0(2 << 20).secure_boot());
    assert!(Boot0(3 << 20).secure_boot());
    assert!(Boot0(0x1E900000).secure_boot());
    assert!(!Boot0(0xFFCF_FFFF).secure_boot());
}

#[test]
fn boot1_qspi_reset_pin() {
    let mut b = Boot1(0xFFFF_FFFF);
    b.set_qspi_reset_pin(2, 12);
    // Bits 22:14 are kept, everything else cleared, then enable, port and pin or-ed in.
    assert_eq!(b.0, (0xFFFF_FFFFu32 & (0x1FF << 14)) | (1 << 14) | (2 << 15) | (12 << 18));
    let mut c = Boot1(0);
    c.set_qspi_reset_pin(2, 12);
    assert_eq!(c.0, 0x0031_4000);
    assert_ne!(c.0 & (1 << 14), 0);
}

#[test]
fn rkth_fuse_words_roundtrip() {
    let mut bytes = [0u8; 32];
    for (i, b) in bytes.iter_mut().enumerate() {
        *b = i as u8 * 7 + 1;
    }
    let r = Rkth(bytes);
    let words = r.to_fuse_words();
    assert_eq!(words[0], u32::from_le_bytes([bytes[0], bytes[1], bytes[2], bytes[3]]));
    assert_eq!(words[7], u32::from_le_bytes([bytes[28], bytes[29], bytes[30], bytes[31]]));
    assert_eq!(Rkth::from_fuse_words(&words), r);
}

#[test]
fn rkth_fuse_writes_addresses() {
    let r = Rkth([0x11; 32]);
    let w = r.fuse_writes(true);
    assert_eq!(w.len(), 8);
    assert_eq!(w[0], FuseWrite { address: 0x1E0, word: 0x1111_1111, lock: true });
    assert_eq!(w[7].address, 0x1E7);
}

#[test]
fn shadow_addresses() {
    assert_eq!(otp_to_shadow_addr(8), Ok(0x40130020));
    assert_eq!(otp_to_shadow_addr(9), Ok(0x40130024));
    assert_eq!(otp_to_shadow_addr(95), Ok(0x4013017C));
    assert_eq!(otp_to_shadow_addr(120), Ok(0x401301E0));
    assert_eq!(otp_to_shadow_addr(127), Ok(0x401301FC));
    assert_eq!(otp_to_shadow_addr(492), Ok(0x401307B0));
    assert_eq!(otp_to_shadow_addr(495), Ok(0x401307BC));
    assert_eq!(otp_to_shadow_addr(7), Err(NotShadowRegister));
    assert_eq!(otp_to_shadow_addr(10), Err(NotShadowRegister));
    assert_eq!(otp_to_shadow_addr(128), Err(NotShadowRegister));
    assert_eq!(otp_to_shadow_addr(496), Err(NotShadowRegister));
}

#[test]
fn shadow_write_stops_at_missing_register() {
    let mut regs = ShadowRegisters::new();
    let data = [1, 0, 0, 0, 2, 0, 0, 0, 3, 0, 0, 0, 9];
    let plan = regs.device().write_register(8, 96, &data);
    assert_eq!(
        plan.writes,
        vec![
            ShadowWrite { address: 0x40130020, word: 1 },
            ShadowWrite { address: 0x40130024, word: 2 }
        ]
    );
    assert_eq!(plan.outcome, Err(NotShadowRegister));

    let plan = regs.device().write_register(120, 64, &data[..8]);
    assert_eq!(plan.writes.len(), 2);
    assert_eq!(plan.writes[1], ShadowWrite { address: 0x401301E4, word: 2 });
    assert_eq!(plan.outcome, Ok(()));
}

#[test]
fn shadow_read_address() {
    let mut regs = ShadowRegisters::new();
    assert_eq!(regs.device().read_register(95, 32, 4), Ok(0x4013017C));
    assert_eq!(regs.device().read_register(0, 32, 4), Err(NotShadowRegister));
}

#[test]
fn otp_fuses_write_rules() {
    let mut ro = OtpFuses::readonly();
    assert_eq!(ro.device().write_register(0x1E0, 32, &[1, 2, 3, 4]), Err(OtpError::WriteNotAllowed));

    let mut rw = OtpFuses::writable(true);
    let w = rw.device().write_register(0x1E0, 64, &[1, 2, 3, 4, 5, 6, 7, 8, 9]).unwrap();
    assert_eq!(
        w,
        vec![
            FuseWrite { address: 0x1E0, word: 0x0403_0201, lock: true },
            FuseWrite { address: 0x1E1, word: 0x0807_0605, lock: true }
        ]
    );
    let mut rw = OtpFuses::writable(false);
    let w = rw.device().write_register(5, 32, &[0xff, 0, 0, 0]).unwrap();
    assert!(!w[0].lock);
}

#[test]
fn otp_fuses_read_plan_and_fill() {
    let mut f = OtpFuses::readonly();
    assert_eq!(f.device().read_register(0x60, 32, 10), vec![0x60, 0x61]);
    let mut data = vec![0xAAu8; 10];
    fill_from_words(&mut data, &[0x0403_0201, 0x0807_0605]);
    assert_eq!(data, vec![1, 2, 3, 4, 5, 6, 7, 8, 0xAA, 0xAA]);
}

#[test]
fn otp_error_from_rom_error() {
    assert_eq!(OtpError::from(RomError(7)), OtpError::Inner(RomError(7)));
}

use slimloader::rom::registers::{FuseProgramming, FuseStep};

#[test]
fn readonly_fuses_refuse_any_write() {
    let mut f = OtpFuses::readonly();
    let d = f.device();
    assert_eq!(d.write_register(u32::MAX, 64, &[1, 2, 3, 4, 5, 6, 7, 8]), Err(OtpError::WriteNotAllowed));
    let (_, s) = FuseProgramming::start(d, u32::MAX, 64, &[1, 2, 3, 4, 5, 6, 7, 8]);
    assert_eq!(s, FuseStep::Done(Err(OtpError::WriteNotAllowed)));
}

#[test]
fn fuse_programming_writes_in_order() {
    let mut f = OtpFuses::writable(true);
    let data = [1, 0, 0, 0, 2, 0, 0, 0, 3, 0, 0, 0];
    let (mut p, s) = FuseProgramming::start(f.device(), 0x60, 96, &data);
    assert_eq!(s, FuseStep::Write(FuseWrite { address: 0x60, word: 1, lock: true }));
    assert_eq!(p.on_written(Ok(())), FuseStep::Write(FuseWrite { address: 0x61, word: 2, lock: true }));
    assert_eq!(p.on_written(Ok(())), FuseStep::Write(FuseWrite { address: 0x62, word: 3, lock: true }));
    assert_eq!(p.on_written(Ok(())), FuseStep::Done(Ok(())));
}

#[test]
fn fuse_programming_stops_at_first_failure() {
    let mut f = OtpFuses::writable(false);
    let data = [1, 0, 0, 0, 2, 0, 0, 0, 3, 0, 0, 0];
    let (mut p, _) = FuseProgramming::start(f.device(), 0x60, 96, &data);
    assert_eq!(p.on_written(Ok(())), FuseStep::Write(FuseWrite { address: 0x61, word: 2, lock: false }));
    assert_eq!(p.on_written(Err(RomError(0x5A5A_A5A5))), FuseStep::Done(Err(OtpError::Inner(RomError(0x5A5A_A5A5)))));
}

#[test]
fn fuse_programming_without_whole_words_is_done() {
    let mut f = OtpFuses::writable(false);
    let (_, s) = FuseProgramming::start(f.device(), 0x60, 16, &[1, 2, 3]);
    assert_eq!(s, FuseStep::Done(Ok(())));
}
