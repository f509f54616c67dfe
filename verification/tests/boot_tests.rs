use slimloader::boot::{
    boot_intent, BootError, BootFlow, BootIntent, DescriptorError, FlowAction, Slot, State,
    Status,
};
use slimloader::imxrt::check::{
    BootAction, BootEvent, CertificateBlockHeader, ImageCheck, ImageLimits, Ivt,
    IMAGE_TYPE_TZ_XIP_SIGNED,
};
use slimloader::imxrt::rkh::Rkth;
use slimloader::rom::shadow::Boot0;

#[test]
fn intent_for_each_status() {
    assert_eq!(boot_intent(Status::Initial), (Some(Status::Attempting), BootIntent::Target));
    assert_eq!(boot_intent(Status::Attempting), (Some(Status::Failed), BootIntent::Backup));
    assert_eq!(boot_intent(Status::Failed), (None, BootIntent::Backup));
    assert_eq!(boot_intent(Status::Confirmed), (None, BootIntent::Target));
}

#[test]
fn descriptor_error_converts() {
    let e = DescriptorError::InvalidHeaderCrc { found: 1, expected: 2 };
    assert_eq!(BootError::from(e), BootError::Descriptor(e));
}

#[test]
fn empty_journal_records_attempt_on_slot_zero() {
    let (mut flow, a) = BootFlow::new(None);
    let attempting = State::new(Status::Attempting, Slot(0), Slot(0));
    assert_eq!(a, FlowAction::Store(attempting));
    assert_eq!(flow.on_stored(), FlowAction::Attempt(Slot(0)));
    // The target failed: the failure is recorded, and with the backup being the
    // same slot the flow gives up.
    let failed = attempting.with_status(Status::Failed);
    assert_eq!(flow.on_attempt_failed(BootError::Markers), FlowAction::Store(failed));
    assert_eq!(flow.on_stored(), FlowAction::Abort);
}

#[test]
fn confirmed_target_boots_without_recording() {
    let s = State::new(Status::Confirmed, Slot(1), Slot(0));
    let (mut flow, a) = BootFlow::new(Some(s));
    assert_eq!(a, FlowAction::Attempt(Slot(1)));
    // Failure of a confirmed target is recorded, then the backup is tried.
    assert_eq!(
        flow.on_attempt_failed(BootError::Authenticate),
        FlowAction::Store(s.with_status(Status::Failed))
    );
    assert_eq!(flow.on_stored(), FlowAction::Attempt(Slot(0)));
    assert_eq!(flow.on_attempt_failed(BootError::IO), FlowAction::Abort);
}

#[test]
fn unconfirmed_target_falls_back_to_backup() {
    let s = State::new(Status::Attempting, Slot(1), Slot(0));
    let (mut flow, a) = BootFlow::new(Some(s));
    assert_eq!(a, FlowAction::Store(s.with_status(Status::Failed)));
    assert_eq!(flow.on_stored(), FlowAction::Attempt(Slot(0)));
    assert_eq!(flow.on_attempt_failed(BootError::TooLarge), FlowAction::Abort);
}

#[test]
fn failed_target_boots_backup_directly() {
    let s = State::new(Status::Failed, Slot(1), Slot(0));
    let (mut flow, a) = BootFlow::new(Some(s));
    assert_eq!(a, FlowAction::Attempt(Slot(0)));
    // The backup failing needs nothing new recorded: the state is already failed.
    assert_eq!(flow.on_attempt_failed(BootError::IO), FlowAction::Abort);
}

#[test]
fn failed_target_that_is_its_own_backup_gives_up() {
    let s = State::new(Status::Failed, Slot(0), Slot(0));
    let (mut flow, a) = BootFlow::new(Some(s));
    assert_eq!(a, FlowAction::Attempt(Slot(0)));
    assert_eq!(flow.on_attempt_failed(BootError::IO), FlowAction::Abort);
}

#[test]
fn initial_target_records_attempt() {
    let s = State::new(Status::Initial, Slot(1), Slot(0));
    let (mut flow, a) = BootFlow::new(Some(s));
    assert_eq!(a, FlowAction::Store(s.with_status(Status::Attempting)));
    assert_eq!(flow.on_stored(), FlowAction::Attempt(Slot(1)));
}

const LIMITS: ImageLimits = ImageLimits {
    slot_size_start: 0x100,
    slot_size_end: 0x10_0000,
    load_start: 0x1000_0000,
    load_end: 0x2000_0000,
};

fn good_ivt() -> Ivt {
    Ivt {
        image_len: 0x2000,
        image_type: IMAGE_TYPE_TZ_XIP_SIGNED,
        header_offset: 0x400,
        target_ptr: 0x1000_0000,
    }
}

fn started(authenticate: bool) -> ImageCheck {
    let (c, a) = ImageCheck::new(LIMITS, 1, &[0x8000, 0x8000], authenticate);
    assert!(matches!(a, BootAction::ReadIvt { slot: 1 }));
    c
}

#[test]
fn unknown_slot_aborts() {
    let (_, a) = ImageCheck::new(LIMITS, 2, &[0x8000, 0x8000], true);
    assert!(matches!(a, BootAction::Abort(BootError::SlotUnknown)));
}

#[test]
fn oversized_slot_aborts() {
    let (_, a) = ImageCheck::new(LIMITS, 0, &[0x10_0000], true);
    assert!(matches!(a, BootAction::Abort(BootError::TooLarge)));
}

#[test]
fn ivt_checks_each_error() {
    let c = started(true);
    assert_eq!(c.check_ivt(&good_ivt()), None);
    let mut ivt = good_ivt();
    ivt.image_type = 0x0005;
    assert_eq!(c.check_ivt(&ivt), Some(BootError::Markers));
    let mut ivt = good_ivt();
    ivt.image_len = 0x8001;
    assert_eq!(c.check_ivt(&ivt), Some(BootError::TooLarge));
    let mut ivt = good_ivt();
    ivt.image_len = 0xFF;
    assert_eq!(c.check_ivt(&ivt), Some(BootError::TooSmall));
    let mut ivt = good_ivt();
    ivt.target_ptr = usize::MAX - 0x100;
    assert_eq!(c.check_ivt(&ivt), Some(BootError::TooLarge));
    let mut ivt = good_ivt();
    ivt.target_ptr = 0x0FFF_FFFF;
    assert_eq!(c.check_ivt(&ivt), Some(BootError::MemoryRegion));
    let mut ivt = good_ivt();
    ivt.target_ptr = 0x2000_0000 - 0x2000;
    assert_eq!(c.check_ivt(&ivt), Some(BootError::MemoryRegion));
}

fn run_to_shadow(c: &mut ImageCheck) {
    let ivt = good_ivt();
    let a = c.step(BootEvent::IvtRead(Some(ivt)));
    assert!(matches!(a, BootAction::CopyImage { slot: 1, target: 0x1000_0000, len: 0x2000 }));
    let a = c.step(BootEvent::ImageCopied(true));
    assert!(matches!(a, BootAction::ReadRamIvt { target: 0x1000_0000, len: 0x2000 }));
    let a = c.step(BootEvent::RamIvtRead(Some(ivt)));
    assert!(matches!(a, BootAction::ReadCertHeader { offset: 0x400 }));
    let h = CertificateBlockHeader { header_length: 0x20, certificate_table_length: 0x300 };
    let a = c.step(BootEvent::CertHeaderRead(Some(h)));
    assert!(matches!(a, BootAction::HashRkhs { offset: 0x720 }));
    let a = c.step(BootEvent::RkhsHashed(Some(Rkth([7; 32]))));
    assert!(matches!(a, BootAction::ReadShadow));
}

#[test]
fn authenticated_image_boots() {
    let mut c = started(true);
    run_to_shadow(&mut c);
    let a = c.step(BootEvent::ShadowRead { boot0: Boot0(1 << 20), rkth: Rkth([0; 32]) });
    assert!(matches!(a, BootAction::Authenticate { target: 0x1000_0000, len: 0x2000 }));
    let a = c.step(BootEvent::Authenticated(true));
    assert!(matches!(a, BootAction::Boot { target: 0x1000_0000 }));
}

#[test]
fn failed_authentication_aborts() {
    let mut c = started(true);
    run_to_shadow(&mut c);
    let a = c.step(BootEvent::ShadowRead { boot0: Boot0(0), rkth: Rkth([7; 32]) });
    assert!(matches!(a, BootAction::Authenticate { .. }));
    let a = c.step(BootEvent::Authenticated(false));
    assert!(matches!(a, BootAction::Abort(BootError::Authenticate)));
}

#[test]
fn development_mode_writes_image_rkth_to_shadow() {
    let mut c = started(false);
    run_to_shadow(&mut c);
    let a = c.step(BootEvent::ShadowRead { boot0: Boot0(0), rkth: Rkth([0; 32]) });
    match a {
        BootAction::WriteShadowRkth { rkth } => assert_eq!(rkth, Rkth([7; 32])),
        _ => panic!("expected a shadow write"),
    }
    let a = c.step(BootEvent::ShadowWritten);
    assert!(matches!(a, BootAction::Boot { target: 0x1000_0000 }));
}

#[test]
fn copy_that_changed_aborts() {
    let mut c = started(true);
    c.step(BootEvent::IvtRead(Some(good_ivt())));
    c.step(BootEvent::ImageCopied(true));
    let mut other = good_ivt();
    other.image_len = 0x2004;
    let a = c.step(BootEvent::RamIvtRead(Some(other)));
    assert!(matches!(a, BootAction::Abort(BootError::ChangeAfterRead)));
}

#[test]
fn failed_reads_abort() {
    let mut c = started(true);
    assert!(matches!(c.step(BootEvent::IvtRead(None)), BootAction::Abort(BootError::IO)));
    let mut c = started(true);
    c.step(BootEvent::IvtRead(Some(good_ivt())));
    assert!(matches!(c.step(BootEvent::ImageCopied(false)), BootAction::Abort(BootError::IO)));
    let mut c = started(true);
    c.step(BootEvent::IvtRead(Some(good_ivt())));
    c.step(BootEvent::ImageCopied(true));
    assert!(matches!(c.step(BootEvent::RamIvtRead(None)), BootAction::Abort(BootError::TooSmall)));
    let mut c = started(true);
    c.step(BootEvent::IvtRead(Some(good_ivt())));
    c.step(BootEvent::ImageCopied(true));
    c.step(BootEvent::RamIvtRead(Some(good_ivt())));
    assert!(matches!(
        c.step(BootEvent::CertHeaderRead(None)),
        BootAction::Abort(BootError::TooLarge)
    ));
}

#[test]
fn bad_ivt_in_slot_aborts() {
    let mut c = started(true);
    let mut ivt = good_ivt();
    ivt.image_type = 0;
    assert!(matches!(c.step(BootEvent::IvtRead(Some(ivt))), BootAction::Abort(BootError::Markers)));
}

#[test]
fn rkth_compare() {
    assert!(Rkth([1; 32]).same_as(&Rkth([1; 32])));
    let mut b = [1; 32];
    b[31] = 2;
    assert!(!Rkth([1; 32]).same_as(&Rkth(b)));
}

use slimloader::imxrt::minimal::{MinimalAction, MinimalBoot, MinimalEvent};

#[test]
fn minimal_boot_authenticated_image() {
    let mut b = MinimalBoot::new();
    assert_eq!(b.step(MinimalEvent::Started), Some(MinimalAction::ReadShadowRkth));
    assert_eq!(
        b.step(MinimalEvent::ShadowRkthRead { first_byte: 0x5A }),
        Some(MinimalAction::ReadImageLen { container: 0x08020000 })
    );
    assert_eq!(
        b.step(MinimalEvent::ImageLenRead(0x80000)),
        Some(MinimalAction::CopyImage { from: 0x08020000, to: 0x00090000, len: 0x80000 })
    );
    assert_eq!(b.step(MinimalEvent::ImageCopied), Some(MinimalAction::ReadImageType { target: 0x00090000 }));
    assert_eq!(
        b.step(MinimalEvent::ImageTypeRead(0x0000_1104)),
        Some(MinimalAction::Authenticate { target: 0x00090000 })
    );
    assert_eq!(
        b.step(MinimalEvent::Authenticated(true)),
        Some(MinimalAction::Boot { vector_table: 0x00090000 })
    );
}

#[test]
fn minimal_boot_stops_and_halts() {
    let mut b = MinimalBoot::new();
    b.step(MinimalEvent::Started);
    assert_eq!(b.step(MinimalEvent::ShadowRkthRead { first_byte: 0 }), Some(MinimalAction::Return(true)));

    let mut b = MinimalBoot::new();
    b.step(MinimalEvent::Started);
    b.step(MinimalEvent::ShadowRkthRead { first_byte: 1 });
    assert_eq!(b.step(MinimalEvent::ImageLenRead(0x80001)), Some(MinimalAction::Halt));

    let mut b = MinimalBoot::new();
    b.step(MinimalEvent::Started);
    b.step(MinimalEvent::ShadowRkthRead { first_byte: 1 });
    b.step(MinimalEvent::ImageLenRead(0x100));
    b.step(MinimalEvent::ImageCopied);
    assert_eq!(b.step(MinimalEvent::ImageTypeRead(0x05)), Some(MinimalAction::Halt));

    let mut b = MinimalBoot::new();
    b.step(MinimalEvent::Started);
    b.step(MinimalEvent::ShadowRkthRead { first_byte: 1 });
    b.step(MinimalEvent::ImageLenRead(0x100));
    b.step(MinimalEvent::ImageCopied);
    b.step(MinimalEvent::ImageTypeRead(0x04));
    assert_eq!(b.step(MinimalEvent::Authenticated(false)), Some(MinimalAction::Return(false)));
}

#[test]
fn minimal_boot_ignores_unexpected_outcomes() {
    let mut b = MinimalBoot::new();
    assert_eq!(b.step(MinimalEvent::Authenticated(true)), None);
    assert_eq!(b.step(MinimalEvent::Started), Some(MinimalAction::ReadShadowRkth));
    assert_eq!(b.step(MinimalEvent::Started), None);
    assert_eq!(b.step(MinimalEvent::ImageCopied), None);
    assert_eq!(
        b.step(MinimalEvent::ShadowRkthRead { first_byte: 3 }),
        Some(MinimalAction::ReadImageLen { container: 0x08020000 })
    );
}

#[test]
fn unconfirmed_target_is_not_retried() {
    // First boot: the new target is recorded as attempted and booted.
    let s0 = State::new(Status::Initial, Slot(1), Slot(0));
    let (mut flow, a) = BootFlow::new(Some(s0));
    let s1 = match a {
        FlowAction::Store(s) => s,
        _ => panic!("expected a store"),
    };
    assert_eq!(s1.status, Status::Attempting);
    assert_eq!(flow.on_stored(), FlowAction::Attempt(Slot(1)));
    // The application never confirms; the next boot marks it failed and boots the backup.
    let (mut flow, a) = BootFlow::new(Some(s1));
    let s2 = match a {
        FlowAction::Store(s) => s,
        _ => panic!("expected a store"),
    };
    assert_eq!(s2, State::new(Status::Failed, Slot(1), Slot(0)));
    assert_eq!(flow.on_stored(), FlowAction::Attempt(Slot(0)));
    // Every later boot boots the backup without recording anything.
    let (_, a) = BootFlow::new(Some(s2));
    assert_eq!(a, FlowAction::Attempt(Slot(0)));
}
